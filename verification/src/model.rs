//! Mathematical model of a process variable: the scalar kinds, their value
//! ranges, the variable state, and the transition taken by a write. The
//! executable variable type in `var` is specified against this model, and
//! the general laws of the state machine are proved here once, over the
//! model, for every scalar kind.

use vstd::prelude::*;

verus! {

/// The closed set of scalar kinds a process variable can carry.
#[derive(Clone, Copy, Debug, PartialEq, Eq, Structural)]
pub enum Kind {
    U8,
    I8,
    U16,
    I16,
    U32,
    I32,
    U64,
    I64,
    Bool,
}

/// Subscription status of a variable.
#[derive(Clone, Copy, Debug, PartialEq, Eq, Structural)]
pub enum SubscribeMode {
    /// Do not capture value changes.
    Off,
    /// Capture the first qualifying change and hold it, together with the
    /// dirty flag, until the change is acknowledged. Catches a fast pulse
    /// that a slower reader could otherwise miss.
    Sticky,
    /// Always capture the latest qualifying change; fast intermediate
    /// changes may be skipped and the dirty flag is never raised.
    Current,
}

/// Width in bytes of a value of kind `k` in the byte codec.
pub open spec fn width(k: Kind) -> nat {
    match k {
        Kind::U8 => 1,
        Kind::I8 => 1,
        Kind::U16 => 2,
        Kind::I16 => 2,
        Kind::U32 => 4,
        Kind::I32 => 4,
        Kind::U64 => 8,
        Kind::I64 => 8,
        Kind::Bool => 1,
    }
}

/// Whether values of kind `k` are signed.
pub open spec fn signed(k: Kind) -> bool {
    match k {
        Kind::I8 => true,
        Kind::I16 => true,
        Kind::I32 => true,
        Kind::I64 => true,
        _ => false,
    }
}

/// Smallest value of kind `k`.
pub open spec fn kind_min(k: Kind) -> int {
    match k {
        Kind::U8 => 0,
        Kind::I8 => -128,
        Kind::U16 => 0,
        Kind::I16 => -32768,
        Kind::U32 => 0,
        Kind::I32 => -2147483648,
        Kind::U64 => 0,
        Kind::I64 => -9223372036854775808,
        Kind::Bool => 0,
    }
}

/// Largest value of kind `k`.
pub open spec fn kind_max(k: Kind) -> int {
    match k {
        Kind::U8 => 255,
        Kind::I8 => 127,
        Kind::U16 => 65535,
        Kind::I16 => 32767,
        Kind::U32 => 4294967295,
        Kind::I32 => 2147483647,
        Kind::U64 => 18446744073709551615,
        Kind::I64 => 9223372036854775807,
        Kind::Bool => 1,
    }
}

/// Whether `v` lies in the value range of kind `k`.
pub open spec fn in_range(k: Kind, v: int) -> bool {
    kind_min(k) <= v <= kind_max(k)
}

/// The smallest value of kind `k`, in the working type.
pub fn kind_min_ex(k: Kind) -> (r: i128)
    ensures
        r as int == kind_min(k),
{
    match k {
        Kind::U8 => 0,
        Kind::I8 => -128,
        Kind::U16 => 0,
        Kind::I16 => -32768,
        Kind::U32 => 0,
        Kind::I32 => -2147483648,
        Kind::U64 => 0,
        Kind::I64 => -9223372036854775808,
        Kind::Bool => 0,
    }
}

/// The largest value of kind `k`, in the working type.
pub fn kind_max_ex(k: Kind) -> (r: i128)
    ensures
        r as int == kind_max(k),
{
    match k {
        Kind::U8 => 255,
        Kind::I8 => 127,
        Kind::U16 => 65535,
        Kind::I16 => 32767,
        Kind::U32 => 4294967295,
        Kind::I32 => 2147483647,
        Kind::U64 => 18446744073709551615,
        Kind::I64 => 9223372036854775807,
        Kind::Bool => 1,
    }
}

/// The full state of one process variable, with every scalar slot read as a
/// mathematical integer (a boolean slot reads as 0 or 1).
pub struct VarModel {
    /// Scalar kind of the variable.
    pub kind: Kind,
    /// The program-writable value.
    pub value: int,
    /// The captured value for external consumption.
    pub changed_value: int,
    /// The override value observed by readers while `forced` holds.
    pub forced_value: int,
    /// Hysteresis threshold: a write counts as an edge only when it moves
    /// the value by at least this much in the corresponding direction.
    pub min_delta: int,
    /// While true, readers observe `forced_value` instead of `value`.
    pub forced: bool,
    /// Raised only by a Sticky-mode capture, cleared only by an explicit
    /// acknowledgement.
    pub dirty: bool,
    /// Governs whether and how qualifying changes are captured.
    pub subscribed: SubscribeMode,
    /// Transient edge flag: the last write was a qualifying increase.
    pub pos: bool,
    /// Transient edge flag: the last write was a qualifying decrease.
    pub neg: bool,
}

impl VarModel {
    /// Every scalar slot lies in the range of the variable's kind.
    pub open spec fn wf(self) -> bool {
        &&& in_range(self.kind, self.value)
        &&& in_range(self.kind, self.changed_value)
        &&& in_range(self.kind, self.forced_value)
        &&& in_range(self.kind, self.min_delta)
    }
}

/// The state of a freshly created variable of kind `k`: all slots zero,
/// hysteresis threshold one, no subscription, no flags.
pub open spec fn init_model(k: Kind) -> VarModel {
    VarModel {
        kind: k,
        value: 0,
        changed_value: 0,
        forced_value: 0,
        min_delta: 1,
        forced: false,
        dirty: false,
        subscribed: SubscribeMode::Off,
        pos: false,
        neg: false,
    }
}

/// The value a reader observes: the override value while forced, the
/// program-written value otherwise.
pub open spec fn read_of(m: VarModel) -> int {
    if m.forced {
        m.forced_value
    } else {
        m.value
    }
}

/// A write of `v` crosses the hysteresis threshold upward.
pub open spec fn qualifying_increase(m: VarModel, v: int) -> bool {
    v >= m.value + m.min_delta
}

/// A write of `v` crosses the hysteresis threshold downward.
pub open spec fn qualifying_decrease(m: VarModel, v: int) -> bool {
    v <= m.value - m.min_delta
}

/// A write of `v` is a qualifying change: it alters the value and crosses
/// the threshold in one direction.
pub open spec fn qualifying(m: VarModel, v: int) -> bool {
    v != m.value && (qualifying_increase(m, v) || qualifying_decrease(m, v))
}

/// Subscription effect of a qualifying change to `v`: Sticky captures only
/// while no capture is pending and the captured value would actually
/// change; Current always captures and never raises the dirty flag.
pub open spec fn capture(m: VarModel, v: int) -> VarModel {
    match m.subscribed {
        SubscribeMode::Off => m,
        SubscribeMode::Sticky => if !m.dirty && m.changed_value != v {
            VarModel { changed_value: v, dirty: true, ..m }
        } else {
            m
        },
        SubscribeMode::Current => VarModel { changed_value: v, ..m },
    }
}

/// The transition taken by a write of `v` through the normal path: an equal
/// value changes nothing, a qualifying change updates the value, points the
/// edge flags in its direction and applies the subscription effect, and a
/// change within the hysteresis band updates the value and clears both
/// edge flags.
pub open spec fn set_model(m: VarModel, v: int) -> VarModel {
    if v == m.value {
        m
    } else if qualifying_increase(m, v) {
        capture(VarModel { value: v, pos: true, neg: false, ..m }, v)
    } else if qualifying_decrease(m, v) {
        capture(VarModel { value: v, pos: false, neg: true, ..m }, v)
    } else {
        VarModel { value: v, pos: false, neg: false, ..m }
    }
}

/// The slot of the variable read by a codec selector byte: 1 the raw
/// value, 2 the captured value, 3 the override value, and 0 — like any
/// unrecognized selector — the effective value a reader observes.
pub open spec fn slot_value(m: VarModel, subvalue: u8) -> int {
    if subvalue == 1 {
        m.value
    } else if subvalue == 2 {
        m.changed_value
    } else if subvalue == 3 {
        m.forced_value
    } else {
        read_of(m)
    }
}

/// The state after a codec write of `v` under a selector byte: selectors
/// 1, 2 and 3 overwrite their slot directly, bypassing all bookkeeping,
/// while 0 — like any unrecognized selector — routes the write through the
/// normal path with full edge and subscription bookkeeping.
pub open spec fn slot_write(m: VarModel, subvalue: u8, v: int) -> VarModel {
    if subvalue == 1 {
        VarModel { value: v, ..m }
    } else if subvalue == 2 {
        VarModel { changed_value: v, ..m }
    } else if subvalue == 3 {
        VarModel { forced_value: v, ..m }
    } else {
        set_model(m, v)
    }
}

/// The wire byte of a subscription mode.
pub open spec fn mode_byte(s: SubscribeMode) -> u8 {
    match s {
        SubscribeMode::Off => 0,
        SubscribeMode::Sticky => 1,
        SubscribeMode::Current => 2,
    }
}

/// The subscription mode named by a wire byte at most 2.
pub open spec fn mode_of_byte(b: u8) -> SubscribeMode {
    if b == 0 {
        SubscribeMode::Off
    } else if b == 1 {
        SubscribeMode::Sticky
    } else {
        SubscribeMode::Current
    }
}

/// The value left by adding `d` with wraparound: the plain sum while it
/// stays in the kind's range, otherwise the sum reduced into the range
/// modulo the kind's span — a step past the largest value restarts that
/// far past the smallest, and a step below the smallest wraps up
/// symmetrically.
pub open spec fn inc_result(k: Kind, value: int, d: int) -> int {
    let span = kind_max(k) - kind_min(k) + 1;
    if value + d > kind_max(k) {
        value + d - span
    } else if value + d < kind_min(k) {
        value + d + span
    } else {
        value + d
    }
}

/// The state after the writes in `vs`, applied through the normal path in
/// order.
pub open spec fn set_many(m: VarModel, vs: Seq<int>) -> VarModel
    decreases vs.len(),
{
    if vs.len() == 0 {
        m
    } else {
        set_many(set_model(m, vs.first()), vs.drop_first())
    }
}

/// A write never touches the forcing state, and afterwards a reader
/// observes the override value while forced, else exactly the value
/// written — whatever the subscription mode and flags did.
pub proof fn lemma_effective_value(m: VarModel, v: int)
    ensures
        set_model(m, v).value == v,
        set_model(m, v).forced == m.forced,
        set_model(m, v).forced_value == m.forced_value,
        read_of(set_model(m, v)) == if m.forced { m.forced_value } else { v },
{
}

/// Hysteresis edges: with threshold `d >= 1`, writing exactly `value + d`
/// raises the positive edge flag alone, and writing exactly `value - d`
/// raises the negative edge flag alone.
pub proof fn lemma_hysteresis_edges(m: VarModel)
    requires
        m.min_delta >= 1,
    ensures
        set_model(m, m.value + m.min_delta).pos,
        !set_model(m, m.value + m.min_delta).neg,
        set_model(m, m.value - m.min_delta).neg,
        !set_model(m, m.value - m.min_delta).pos,
{
}

/// Hysteresis band: a write that changes the value but stays strictly
/// inside the band clears both edge flags, still updates the value, and
/// has no subscription effect.
pub proof fn lemma_hysteresis_band(m: VarModel, w: int)
    requires
        w != m.value,
        m.value - m.min_delta < w < m.value + m.min_delta,
    ensures
        set_model(m, w) == (VarModel { value: w, pos: false, neg: false, ..m }),
{
}

/// Sticky capture is first-change-latched: starting with no pending
/// capture, two qualifying changes in a row to different values leave the
/// first of the two captured and the dirty flag raised.
pub proof fn lemma_sticky_first_change(m: VarModel, v1: int, v2: int)
    requires
        m.subscribed == SubscribeMode::Sticky,
        !m.dirty,
        m.changed_value != v1,
        qualifying(m, v1),
        qualifying(set_model(m, v1), v2),
        v2 != v1,
    ensures
        set_model(set_model(m, v1), v2).changed_value == v1,
        set_model(set_model(m, v1), v2).dirty,
{
}

/// Current mode is an always-fresh snapshot: a write never changes the
/// dirty flag, and a qualifying change always replaces the captured value
/// with the newest one.
pub proof fn lemma_current_snapshot(m: VarModel, v: int)
    requires
        m.subscribed == SubscribeMode::Current,
    ensures
        set_model(m, v).dirty == m.dirty,
        qualifying(m, v) ==> set_model(m, v).changed_value == v,
{
}

/// Outside Sticky mode no sequence of writes, however long, ever raises
/// the dirty flag.
pub proof fn lemma_current_never_dirty(m: VarModel, vs: Seq<int>)
    requires
        m.subscribed != SubscribeMode::Sticky,
        !m.dirty,
    ensures
        !set_many(m, vs).dirty,
        set_many(m, vs).subscribed == m.subscribed,
    decreases vs.len(),
{
    if vs.len() > 0 {
        lemma_current_never_dirty(set_model(m, vs.first()), vs.drop_first());
    }
}

/// Over any nonempty sequence of writes through the normal path, the
/// forcing state never moves, and afterwards a reader observes the
/// override value while forced, else exactly the last value written.
pub proof fn lemma_last_write_wins(m: VarModel, vs: Seq<int>)
    requires
        vs.len() > 0,
    ensures
        set_many(m, vs).value == vs.last(),
        set_many(m, vs).forced == m.forced,
        set_many(m, vs).forced_value == m.forced_value,
        read_of(set_many(m, vs)) == if m.forced {
            m.forced_value
        } else {
            vs.last()
        },
    decreases vs.len(),
{
    if vs.len() == 1 {
        assert(vs.drop_first().len() == 0);
    } else {
        lemma_last_write_wins(set_model(m, vs.first()), vs.drop_first());
        assert(vs.drop_first().last() == vs.last());
    }
}

} // verus!
