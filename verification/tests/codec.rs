//! Tests of the type-erased access surface: the byte codec over the four
//! selectors for every scalar kind, and the single-byte flag protocol.

use pilot_sys::var::{MemVar, SubscribeMode, TypeName, Var, VarChange, VariableInfo, VarProps};

#[test]
fn encode_is_little_endian() {
    let mut v: Var<u32> = Var::new();
    v.set(0x12345678);
    let mut buffer: Vec<u8> = vec![0; 4];
    assert_eq!(v.to_buffer(&mut buffer, 0), 4);
    assert_eq!(buffer, vec![0x78, 0x56, 0x34, 0x12]);
}

#[test]
fn encode_negative_two_complement() {
    let mut v: Var<i16> = Var::new();
    v.set(-2);
    let mut buffer: Vec<u8> = vec![0; 2];
    assert_eq!(v.to_buffer(&mut buffer, 0), 2);
    assert_eq!(buffer, vec![0xFE, 0xFF]);
}

#[test]
fn encode_leaves_buffer_tail_alone() {
    let mut v: Var<u8> = Var::new();
    v.set(9);
    let mut buffer: Vec<u8> = vec![0xAA; 3];
    assert_eq!(v.to_buffer(&mut buffer, 0), 1);
    assert_eq!(buffer, vec![9, 0xAA, 0xAA]);
}

fn round_trip_value<T>(x: T, width: usize)
where
    T: Copy + PartialEq + std::fmt::Debug,
    Var<T>: MemVar + VarProps<T>,
    T: pilot_sys::scalar::Scalar,
{
    // Selector 1 writes and reads the raw value slot bit for bit.
    let mut a: Var<T> = Var::new();
    a.set(x);
    let mut buffer: Vec<u8> = vec![0; width];
    assert_eq!(a.to_buffer(&mut buffer, 1) as usize, width);
    let mut b: Var<T> = Var::new();
    assert_eq!(b.from_buffer(&buffer, 1) as usize, width);
    assert_eq!(b.get(), x);
}

#[test]
fn round_trip_every_kind() {
    round_trip_value(0xABu8, 1);
    round_trip_value(-100i8, 1);
    round_trip_value(0xBEEFu16, 2);
    round_trip_value(-30000i16, 2);
    round_trip_value(0xDEADBEEFu32, 4);
    round_trip_value(-2000000000i32, 4);
    round_trip_value(0xFEDCBA9876543210u64, 8);
    round_trip_value(i64::MIN, 8);
    round_trip_value(true, 1);
    round_trip_value(false, 1);
}

#[test]
fn round_trip_every_selector() {
    // Fill the three raw slots of the source with distinct values, then
    // copy each slot into a fresh variable and read it back.
    let mut src: Var<u16> = Var::new();
    src.from_buffer(&vec![0x11, 0x11], 1);
    src.from_buffer(&vec![0x22, 0x22], 2);
    src.from_buffer(&vec![0x33, 0x33], 3);
    for selector in 1u8..4u8 {
        let mut buffer: Vec<u8> = vec![0; 2];
        src.to_buffer(&mut buffer, selector);
        let mut dst: Var<u16> = Var::new();
        dst.from_buffer(&buffer, selector);
        let mut copied: Vec<u8> = vec![0; 2];
        dst.to_buffer(&mut copied, selector);
        assert_eq!(copied, buffer);
    }
    // Selector 0 encodes the effective value and decodes through the
    // normal path with full bookkeeping.
    let mut buffer: Vec<u8> = vec![0; 2];
    src.to_buffer(&mut buffer, 0);
    assert_eq!(buffer, vec![0x11, 0x11]);
    let mut dst: Var<u16> = Var::new();
    dst.subscribe(SubscribeMode::Sticky);
    dst.from_buffer(&buffer, 0);
    assert_eq!(dst.get(), 0x1111);
    assert!(dst.changed_flag());
    assert!(dst.is_dirty());
}

#[test]
fn unrecognized_selector_reads_effective_value() {
    let mut v: Var<u8> = Var::new();
    v.set(7);
    let mut buffer: Vec<u8> = vec![0; 1];
    v.to_buffer(&mut buffer, 9);
    assert_eq!(buffer, vec![7]);
}

#[test]
fn unrecognized_selector_writes_through_normal_path() {
    let mut v: Var<u8> = Var::new();
    v.from_buffer(&vec![5], 9);
    assert_eq!(v.get(), 5);
    assert!(pilot_sys::var::VarChange::pos_flag(&v));
}

#[test]
fn bool_decodes_any_nonzero_byte_as_true() {
    let mut v: Var<bool> = Var::new();
    v.from_buffer(&vec![7], 0);
    assert_eq!(v.get(), true);
    v.from_buffer(&vec![0], 0);
    assert_eq!(v.get(), false);
}

#[test]
fn forcing_overrides_reads_but_not_writes() {
    let mut v: Var<u32> = Var::new();
    v.set(5);
    v.from_buffer(&vec![42, 0, 0, 0], 3);
    v.set_forced(1);
    assert_eq!(v.get_forced(), 1);
    assert_eq!(v.get(), 42);
    // The normal write path still updates the underlying value.
    v.set(6);
    assert_eq!(v.get(), 42);
    v.set_forced(0);
    assert_eq!(v.get_forced(), 0);
    assert_eq!(v.get(), 6);
}

#[test]
fn set_forced_accepts_any_nonzero_byte() {
    let mut v: Var<u8> = Var::new();
    v.set_forced(200);
    assert_eq!(v.get_forced(), 1);
}

#[test]
fn subscribed_byte_protocol() {
    let mut v: Var<u8> = Var::new();
    assert_eq!(v.get_subscribed(), 0);
    v.set_subscribed(1);
    assert_eq!(v.get_subscribed(), 1);
    v.set_subscribed(2);
    assert_eq!(v.get_subscribed(), 2);
    // An out-of-range byte is ignored.
    v.set_subscribed(9);
    assert_eq!(v.get_subscribed(), 2);
    v.set_subscribed(0);
    assert_eq!(v.get_subscribed(), 0);
}

#[test]
fn type_names() {
    assert_eq!(<u8 as TypeName>::ty(), "u8");
    assert_eq!(<i64 as TypeName>::ty(), "i64");
    assert_eq!(<bool as TypeName>::ty(), "bool");
}

#[test]
fn variable_info_tree() {
    static LEAVES: [VariableInfo; 1] = [VariableInfo {
        name: "inner",
        ty: "u8",
        fields: &[],
        field_number_offset: 0,
    }];
    let root = VariableInfo {
        name: "outer",
        ty: "compound",
        fields: &LEAVES,
        field_number_offset: 2,
    };
    assert_eq!(root.fields.len(), 1);
    assert_eq!(root.fields[0].name, "inner");
    assert_eq!(root.field_number_offset, 2);
}
