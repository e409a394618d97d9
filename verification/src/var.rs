//! The process-variable state machine. `Var<T>` carries one scalar of a
//! closed set of kinds and implements the accessor surface: forced
//! override, hysteresis-based edge detection, subscription capture, checked
//! and wrapping arithmetic, and the type-erased byte codec. Every accessor
//! is specified against the mathematical model in `model`. A variable is
//! owned storage: every mutating accessor takes the variable exclusively,
//! so the safety assumption that at most one execution context writes a
//! given point at a time is enforced by the borrows themselves.

use vstd::prelude::*;

use crate::codec::{decode_val, decode_value, encode_bytes, encode_value};
use crate::model::{
    capture, in_range, inc_result, init_model, kind_max_ex, kind_min_ex,
    mode_byte, mode_of_byte, read_of, set_model, slot_value, slot_write, width, Kind, VarModel,
};
use crate::poll::PollMarker;
use crate::race::PollOp;
use crate::scalar::{NumScalar, Scalar};
use crate::time::Clock;

pub use crate::model::SubscribeMode;

verus! {

/// One process variable, statically allocated for the life of the process
/// and mutated only through the documented accessors.
pub struct Var<T> {
    value: T,
    changed_value: T,
    forced_value: T,
    min_delta: T,
    forced: bool,
    dirty: bool,
    subscribed: SubscribeMode,
    pos: bool,
    neg: bool,
}

impl<T: Scalar> View for Var<T> {
    type V = VarModel;

    closed spec fn view(&self) -> VarModel {
        VarModel {
            kind: T::kind(),
            value: self.value.as_int(),
            changed_value: self.changed_value.as_int(),
            forced_value: self.forced_value.as_int(),
            min_delta: self.min_delta.as_int(),
            forced: self.forced,
            dirty: self.dirty,
            subscribed: self.subscribed,
            pos: self.pos,
            neg: self.neg,
        }
    }
}

impl<T: Scalar> Var<T> {
    /// A fresh variable: all slots zero, hysteresis threshold one, no
    /// subscription, no flags, not forced.
    pub fn new() -> (v: Var<T>)
        ensures
            v@ == init_model(T::kind()),
    {
        Var {
            value: T::zero(),
            changed_value: T::zero(),
            forced_value: T::zero(),
            min_delta: T::one(),
            forced: false,
            dirty: false,
            subscribed: SubscribeMode::Off,
            pos: false,
            neg: false,
        }
    }

    /// The model of a variable is well-formed and carries the carrier's
    /// kind.
    pub proof fn lemma_wf(&self)
        ensures
            self@.wf(),
            self@.kind == T::kind(),
    {
        self.value.lemma_range();
        self.changed_value.lemma_range();
        self.forced_value.lemma_range();
        self.min_delta.lemma_range();
    }

    /// Applies the subscription effect of a qualifying change to `value`.
    fn record_change(&mut self, value: T)
        ensures
            final(self)@ == capture(old(self)@, value.as_int()),
    {
        match self.subscribed {
            SubscribeMode::Sticky => {
                if !self.dirty && self.changed_value.to_core() != value.to_core() {
                    self.changed_value = value;
                    self.dirty = true;
                }
            },
            SubscribeMode::Current => {
                self.changed_value = value;
            },
            SubscribeMode::Off => {},
        }
    }
}

/// A read-only reflection descriptor of one named variable, produced by
/// the host-side table generator and only consumed here: it lets an
/// external mapping layer resolve a variable name to a codec endpoint and
/// size its buffer transfers.
pub struct VariableInfo {
    /// The variable's name.
    pub name: &'static str,
    /// The name of the variable's scalar type.
    pub ty: &'static str,
    /// Child descriptors, for compound points.
    pub fields: &'static [VariableInfo],
    /// Field-number adjustment for numbering nested fields.
    pub field_number_offset: u16,
}

/// The name under which a carrier type appears in reflection descriptors.
pub trait TypeName {
    /// The type's name.
    fn ty() -> (r: &'static str);
}

impl TypeName for u8 {
    fn ty() -> (r: &'static str)
        ensures
            r@ == "u8"@,
    {
        "u8"
    }
}

impl TypeName for i8 {
    fn ty() -> (r: &'static str)
        ensures
            r@ == "i8"@,
    {
        "i8"
    }
}

impl TypeName for u16 {
    fn ty() -> (r: &'static str)
        ensures
            r@ == "u16"@,
    {
        "u16"
    }
}

impl TypeName for i16 {
    fn ty() -> (r: &'static str)
        ensures
            r@ == "i16"@,
    {
        "i16"
    }
}

impl TypeName for u32 {
    fn ty() -> (r: &'static str)
        ensures
            r@ == "u32"@,
    {
        "u32"
    }
}

impl TypeName for i32 {
    fn ty() -> (r: &'static str)
        ensures
            r@ == "i32"@,
    {
        "i32"
    }
}

impl TypeName for u64 {
    fn ty() -> (r: &'static str)
        ensures
            r@ == "u64"@,
    {
        "u64"
    }
}

impl TypeName for i64 {
    fn ty() -> (r: &'static str)
        ensures
            r@ == "i64"@,
    {
        "i64"
    }
}

impl TypeName for bool {
    fn ty() -> (r: &'static str)
        ensures
            r@ == "bool"@,
    {
        "bool"
    }
}

/// The binding adapter a generated variable set implements: the capability
/// pair that copies between the variables and a host memory image, invoked
/// by the surrounding driver around each scan.
pub trait PilotBindings {
    /// The host memory image this variable set binds to.
    type BindType;

    /// Reads the variable set from the host memory image.
    fn set_from_pilot_bindings(&mut self, plc_mem: &Self::BindType);

    /// Writes the variable set to the host memory image.
    fn write_to_pilot_bindings(&self, plc_mem: &mut Self::BindType);
}

/// The basic accessor surface of a variable: read, write through the
/// normal path, and choose the subscription mode.
pub trait VarProps<T: Scalar> {
    /// The variable's state as a mathematical model.
    spec fn model(&self) -> VarModel;

    /// Gets the value of the variable: the override value while forced,
    /// the program-written value otherwise. No side effects.
    fn get(&self) -> (r: T)
        ensures
            r.as_int() == read_of(self.model()),
    ;

    /// Sets the value of the variable through the normal path, with full
    /// edge and subscription bookkeeping: an equal value changes nothing;
    /// a change that crosses the hysteresis threshold updates the value,
    /// points the edge flags in its direction and applies the subscription
    /// effect; a change within the band updates the value and clears both
    /// edge flags.
    fn set(&mut self, value: T)
        ensures
            final(self).model() == set_model(old(self).model(), value.as_int()),
    ;

    /// Subscribes or unsubscribes to variable changes; the pending capture
    /// and dirty flag are left as they are.
    fn subscribe(&mut self, value: SubscribeMode)
        ensures
            final(self).model() == (VarModel { subscribed: value, ..old(self).model() }),
    ;
}

impl<T: Scalar> VarProps<T> for Var<T> {
    open spec fn model(&self) -> VarModel {
        self.view()
    }

    fn get(&self) -> (r: T) {
        if self.forced {
            self.forced_value
        } else {
            self.value
        }
    }

    fn set(&mut self, value: T) {
        proof {
            self.value.lemma_range();
            self.min_delta.lemma_range();
            value.lemma_range();
        }
        let v: i128 = value.to_core();
        let cur: i128 = self.value.to_core();
        if v == cur {
            return ;
        }
        let d: i128 = self.min_delta.to_core();
        if v >= cur + d {
            self.value = value;
            self.pos = true;
            self.neg = false;
            self.record_change(value);
        } else if v <= cur - d {
            self.value = value;
            self.pos = false;
            self.neg = true;
            self.record_change(value);
        } else {
            self.value = value;
            self.pos = false;
            self.neg = false;
        }
    }

    fn subscribe(&mut self, value: SubscribeMode) {
        self.subscribed = value;
    }
}

/// The arithmetic accessors of a numeric variable. They write the raw
/// value slot directly: no edge flags, no subscription effect, and the
/// override value is not consulted.
pub trait NumVar<T: NumScalar> {
    /// The variable's state as a mathematical model.
    spec fn num_model(&self) -> VarModel;

    /// Adds `add` to the value, wrapping on overflow: the sum is reduced
    /// into the kind's range modulo its span, so a step past the largest
    /// value restarts that far past the smallest, and a step below the
    /// smallest wraps up symmetrically. The wrap is never reported; use
    /// `add`/`sub` for failure on overflow.
    fn inc(&mut self, add: T)
        ensures
            final(self).num_model() == (VarModel {
                value: inc_result(T::kind(), old(self).num_model().value, add.as_int()),
                ..old(self).num_model()
            }),
    ;

    /// Adds `add` to the value with an overflow check: reports true and
    /// applies the sum exactly when it stays in the kind's range, and
    /// otherwise reports false and leaves the variable unmodified.
    fn add(&mut self, add: T) -> (r: bool)
        ensures
            r == in_range(T::kind(), old(self).num_model().value + add.as_int()),
            r ==> final(self).num_model() == (VarModel {
                value: old(self).num_model().value + add.as_int(),
                ..old(self).num_model()
            }),
            !r ==> final(self).num_model() == old(self).num_model(),
    ;

    /// Subtracts `substract` from the value with an underflow check:
    /// reports true and applies the difference exactly when it stays in
    /// the kind's range, and otherwise reports false and leaves the
    /// variable unmodified.
    fn sub(&mut self, substract: T) -> (r: bool)
        ensures
            r == in_range(T::kind(), old(self).num_model().value - substract.as_int()),
            r ==> final(self).num_model() == (VarModel {
                value: old(self).num_model().value - substract.as_int(),
                ..old(self).num_model()
            }),
            !r ==> final(self).num_model() == old(self).num_model(),
    ;

    /// Sets the hysteresis threshold that a change must cross to count as
    /// a subscription-triggering edge.
    fn delta(&mut self, delta: T)
        ensures
            final(self).num_model() == (VarModel {
                min_delta: delta.as_int(),
                ..old(self).num_model()
            }),
    ;
}

impl<T: NumScalar> NumVar<T> for Var<T> {
    open spec fn num_model(&self) -> VarModel {
        self.view()
    }

    fn inc(&mut self, add: T) {
        proof {
            self.value.lemma_range();
            add.lemma_range();
        }
        let cur: i128 = self.value.to_core();
        let a: i128 = add.to_core();
        let kmin: i128 = kind_min_ex(T::kind_ex());
        let kmax: i128 = kind_max_ex(T::kind_ex());
        let span: i128 = kmax - kmin + 1;
        let s: i128 = cur + a;
        if s > kmax {
            self.value = T::from_core(s - span);
        } else if s < kmin {
            self.value = T::from_core(s + span);
        } else {
            self.value = T::from_core(s);
        }
    }

    fn add(&mut self, add: T) -> (r: bool) {
        proof {
            self.value.lemma_range();
            add.lemma_range();
        }
        let cur: i128 = self.value.to_core();
        let a: i128 = add.to_core();
        let s: i128 = cur + a;
        if kind_min_ex(T::kind_ex()) <= s && s <= kind_max_ex(T::kind_ex()) {
            self.value = T::from_core(s);
            true
        } else {
            false
        }
    }

    fn sub(&mut self, substract: T) -> (r: bool) {
        proof {
            self.value.lemma_range();
            substract.lemma_range();
        }
        let cur: i128 = self.value.to_core();
        let a: i128 = substract.to_core();
        let s: i128 = cur - a;
        if kind_min_ex(T::kind_ex()) <= s && s <= kind_max_ex(T::kind_ex()) {
            self.value = T::from_core(s);
            true
        } else {
            false
        }
    }

    fn delta(&mut self, delta: T) {
        self.min_delta = delta;
    }
}

/// The type-erased access surface of a variable: the byte codec over its
/// slots and the single-byte flag protocol. This is the only place where
/// variable state crosses the type-erasure boundary; a host can enumerate
/// and manipulate variables through it without per-type code.
pub trait MemVar {
    /// The variable's state as a mathematical model.
    spec fn mem_model(&self) -> VarModel;

    /// Writes the byte image of the slot selected by `subvalue` into the
    /// start of `buffer` — 0 and any unrecognized selector the effective
    /// value, 1 the raw value, 2 the captured value, 3 the override value —
    /// leaving the rest of the buffer untouched, and returns the number of
    /// bytes written: the kind's width.
    fn to_buffer(&self, buffer: &mut Vec<u8>, subvalue: u8) -> (r: u8)
        requires
            width(self.mem_model().kind) <= old(buffer)@.len(),
        ensures
            r as nat == width(self.mem_model().kind),
            final(buffer)@ == encode_bytes(
                self.mem_model().kind,
                slot_value(self.mem_model(), subvalue),
            ) + old(buffer)@.skip(width(self.mem_model().kind) as int),
    ;

    /// Reads a value of the variable's kind from the start of `buffer` and
    /// writes it under the selector: 1, 2 and 3 overwrite their slot
    /// directly, 0 and any unrecognized selector go through the normal
    /// path with full edge and subscription bookkeeping. Returns the
    /// number of bytes consumed: the kind's width.
    fn from_buffer(&mut self, buffer: &Vec<u8>, subvalue: u8) -> (r: u8)
        requires
            width(old(self).mem_model().kind) <= buffer@.len(),
        ensures
            r as nat == width(old(self).mem_model().kind),
            final(self).mem_model() == slot_write(
                old(self).mem_model(),
                subvalue,
                decode_val(
                    old(self).mem_model().kind,
                    buffer@.subrange(0, width(old(self).mem_model().kind) as int),
                ),
            ),
    ;

    /// Whether a Sticky-mode capture is pending acknowledgement.
    fn is_dirty(&self) -> (r: bool)
        ensures
            r == self.mem_model().dirty,
    ;

    /// Acknowledges a pending capture: the sole operation that clears the
    /// dirty flag.
    fn clear_dirty(&mut self)
        ensures
            final(self).mem_model() == (VarModel { dirty: false, ..old(self).mem_model() }),
    ;

    /// The forcing flag as a wire byte: 1 while forced, else 0.
    fn get_forced(&self) -> (r: u8)
        ensures
            r == (if self.mem_model().forced {
                1u8
            } else {
                0u8
            }),
    ;

    /// Sets the forcing flag from a wire byte: any nonzero byte forces.
    fn set_forced(&mut self, value: u8)
        ensures
            final(self).mem_model() == (VarModel { forced: value > 0, ..old(self).mem_model() }),
    ;

    /// The subscription mode as a wire byte: 0, 1 or 2.
    fn get_subscribed(&self) -> (r: u8)
        ensures
            r == mode_byte(self.mem_model().subscribed),
    ;

    /// Sets the subscription mode from a wire byte 0, 1 or 2; an
    /// out-of-range byte is ignored and the state left unchanged.
    fn set_subscribed(&mut self, value: u8)
        ensures
            final(self).mem_model() == (if value <= 2 {
                VarModel { subscribed: mode_of_byte(value), ..old(self).mem_model() }
            } else {
                old(self).mem_model()
            }),
    ;
}

impl<T: Scalar> MemVar for Var<T> {
    open spec fn mem_model(&self) -> VarModel {
        self.view()
    }

    fn to_buffer(&self, buffer: &mut Vec<u8>, subvalue: u8) -> (r: u8) {
        proof {
            self.lemma_wf();
        }
        let k: Kind = T::kind_ex();
        let sel: T = if subvalue == 1 {
            self.value
        } else if subvalue == 2 {
            self.changed_value
        } else if subvalue == 3 {
            self.forced_value
        } else {
            self.get()
        };
        proof {
            sel.lemma_range();
        }
        let v: i128 = sel.to_core();
        let bytes: Vec<u8> = encode_value(k, v);
        let w: usize = crate::codec::width_ex(k);
        let mut j: usize = 0;
        while j < w
            invariant
                j <= w,
                w as nat == width(T::kind()),
                bytes@.len() == w,
                w <= buffer@.len(),
                buffer@.len() == old(buffer)@.len(),
                forall|t: int| 0 <= t < j ==> buffer@[t] == bytes@[t],
                forall|t: int| j <= t < buffer@.len() ==> buffer@[t] == old(buffer)@[t],
            decreases w - j,
        {
            let bb: u8 = bytes[j];
            buffer.set(j, bb);
            j += 1;
        }
        proof {
            assert(final(buffer)@ =~= bytes@ + old(buffer)@.skip(w as int));
        }
        w as u8
    }

    fn from_buffer(&mut self, buffer: &Vec<u8>, subvalue: u8) -> (r: u8) {
        let k: Kind = T::kind_ex();
        let v: i128 = decode_value(k, buffer);
        let value: T = T::from_core(v);
        if subvalue == 1 {
            self.value = value;
        } else if subvalue == 2 {
            self.changed_value = value;
        } else if subvalue == 3 {
            self.forced_value = value;
        } else {
            self.set(value);
        }
        crate::codec::width_ex(k) as u8
    }

    fn is_dirty(&self) -> (r: bool) {
        self.dirty
    }

    fn clear_dirty(&mut self) {
        self.dirty = false;
    }

    fn get_forced(&self) -> (r: u8) {
        if self.forced {
            1
        } else {
            0
        }
    }

    fn set_forced(&mut self, value: u8) {
        if value > 0 {
            self.forced = true;
        } else {
            self.forced = false;
        }
    }

    fn get_subscribed(&self) -> (r: u8) {
        match self.subscribed {
            SubscribeMode::Off => 0,
            SubscribeMode::Sticky => 1,
            SubscribeMode::Current => 2,
        }
    }

    fn set_subscribed(&mut self, value: u8) {
        match value {
            0 => self.subscribed = SubscribeMode::Off,
            1 => self.subscribed = SubscribeMode::Sticky,
            2 => self.subscribed = SubscribeMode::Current,
            _ => (),
        }
    }
}

/// The event a change observer waits for.
#[derive(Clone, Copy, Debug, PartialEq, Eq, Structural)]
pub enum Event {
    /// A qualifying increase: false to true for a boolean, a change to a
    /// higher value for a numeric variable.
    Pos,
    /// A qualifying decrease: true to false for a boolean, a change to a
    /// lower value for a numeric variable.
    Neg,
    /// Either qualifying change.
    Changed,
}

/// A one-shot suspending operation on a variable's transient edge flags:
/// each evaluation records the suspension signal and resolves as soon as
/// the observed flag reads true at evaluation time. An edge that was
/// overwritten by a later write before an evaluation is not seen.
pub struct WaitChange<'a, V> {
    var: &'a V,
    event: Event,
}

impl<'a, V> WaitChange<'a, V> {
    /// The observed variable.
    pub closed spec fn subject(&self) -> V {
        *self.var
    }

    /// The observed event.
    pub closed spec fn observes(&self) -> Event {
        self.event
    }
}

/// The change-observation surface of a variable: the transient edge flags
/// and the suspending observers built on them.
pub trait VarChange {
    /// The variable's state as a mathematical model.
    spec fn change_model(&self) -> VarModel;

    /// Whether the last write was a qualifying increase.
    fn pos_flag(&self) -> (r: bool)
        ensures
            r == self.change_model().pos,
    ;

    /// Whether the last write was a qualifying decrease.
    fn neg_flag(&self) -> (r: bool)
        ensures
            r == self.change_model().neg,
    ;

    /// Whether the last write was a qualifying change in either direction.
    fn changed_flag(&self) -> (r: bool)
        ensures
            r == (self.change_model().pos || self.change_model().neg),
    ;

    /// The suspending operation that resolves on a positive change: false
    /// to true for a boolean, a change to a higher value for a numeric
    /// variable.
    fn pos(&self) -> (w: WaitChange<'_, Self>) where Self: Sized
        ensures
            w.subject() == *self,
            w.observes() == Event::Pos,
    {
        WaitChange { var: self, event: Event::Pos }
    }

    /// The suspending operation that resolves on a negative change: true
    /// to false for a boolean, a change to a lower value for a numeric
    /// variable.
    fn neg(&self) -> (w: WaitChange<'_, Self>) where Self: Sized
        ensures
            w.subject() == *self,
            w.observes() == Event::Neg,
    {
        WaitChange { var: self, event: Event::Neg }
    }

    /// The suspending operation that resolves on a qualifying change in
    /// either direction.
    fn changed(&self) -> (w: WaitChange<'_, Self>) where Self: Sized
        ensures
            w.subject() == *self,
            w.observes() == Event::Changed,
    {
        WaitChange { var: self, event: Event::Changed }
    }
}

impl<T: Scalar> VarChange for Var<T> {
    open spec fn change_model(&self) -> VarModel {
        self.view()
    }

    fn pos_flag(&self) -> (r: bool) {
        self.pos
    }

    fn neg_flag(&self) -> (r: bool) {
        self.neg
    }

    fn changed_flag(&self) -> (r: bool) {
        self.pos || self.neg
    }
}

impl<'a, V: VarChange> PollOp for WaitChange<'a, V> {
    type Output = ();

    open spec fn ready(&self, clock: &Clock) -> bool {
        match self.observes() {
            Event::Pos => self.subject().change_model().pos,
            Event::Neg => self.subject().change_model().neg,
            Event::Changed => self.subject().change_model().pos
                || self.subject().change_model().neg,
        }
    }

    open spec fn value(&self, clock: &Clock) -> () {
        ()
    }

    fn poll(&self, clock: &Clock, marker: &mut PollMarker) -> (r: Option<()>) {
        marker.poll_called();
        let finished: bool = match self.event {
            Event::Pos => self.var.pos_flag(),
            Event::Neg => self.var.neg_flag(),
            Event::Changed => self.var.pos_flag() || self.var.neg_flag(),
        };
        if finished {
            Some(())
        } else {
            None
        }
    }
}

impl Var<bool> {
    /// Toggles the boolean value through the normal path and returns the
    /// new value: the negation of what a reader observed before the call.
    pub fn toggle(&mut self) -> (r: bool)
        ensures
            r == (read_of(old(self)@) == 0),
            final(self)@ == set_model(old(self)@, if r { 1int } else { 0int }),
    {
        let value: bool = !self.get();
        self.set(value);
        value
    }
}

} // verus!
