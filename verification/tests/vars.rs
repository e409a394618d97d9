//! Scenario tests of the variable state machine: reads under forcing,
//! hysteresis edges, subscription capture in both modes, and arithmetic.

use pilot_sys::var::{MemVar, NumVar, SubscribeMode, Var, VarChange, VarProps};

#[test]
fn fresh_variable_is_zeroed() {
    let v: Var<u32> = Var::new();
    assert_eq!(v.get(), 0);
    assert!(!v.pos_flag());
    assert!(!v.neg_flag());
    assert!(!v.changed_flag());
}

#[test]
fn get_returns_last_set_value() {
    let mut v: Var<i32> = Var::new();
    v.set(41);
    v.set(-7);
    assert_eq!(v.get(), -7);
}

#[test]
fn bool_set_and_edges() {
    let mut v: Var<bool> = Var::new();
    assert_eq!(v.get(), false);
    v.set(true);
    assert!(v.pos_flag());
    assert!(!v.neg_flag());
    v.set(false);
    assert!(v.neg_flag());
    assert!(!v.pos_flag());
}

#[test]
fn toggle_returns_new_value() {
    let mut v: Var<bool> = Var::new();
    assert_eq!(v.toggle(), true);
    assert_eq!(v.get(), true);
    assert_eq!(v.toggle(), false);
    assert_eq!(v.get(), false);
}

#[test]
fn equal_write_leaves_flags_alone() {
    let mut v: Var<u16> = Var::new();
    v.set(9);
    assert!(v.pos_flag());
    v.set(9);
    assert!(v.pos_flag());
}

#[test]
fn hysteresis_edge_up_and_down() {
    let mut v: Var<i32> = Var::new();
    v.set(100);
    v.delta(5);
    v.set(105);
    assert!(v.pos_flag());
    assert!(!v.neg_flag());
    v.set(100);
    assert!(v.neg_flag());
    assert!(!v.pos_flag());
}

#[test]
fn hysteresis_band_clears_flags_and_updates_value() {
    let mut v: Var<i32> = Var::new();
    v.set(100);
    v.delta(5);
    v.set(102);
    assert!(!v.pos_flag());
    assert!(!v.neg_flag());
    assert_eq!(v.get(), 102);
}

#[test]
fn sticky_capture_latches_first_change() {
    let mut v: Var<u32> = Var::new();
    v.subscribe(SubscribeMode::Sticky);
    v.set(10);
    v.set(20);
    assert!(pilot_sys::var::MemVar::is_dirty(&v));
    let mut buffer: Vec<u8> = vec![0; 4];
    pilot_sys::var::MemVar::to_buffer(&v, &mut buffer, 2);
    assert_eq!(buffer, vec![10, 0, 0, 0]);
}

#[test]
fn sticky_capture_rearms_after_clear() {
    let mut v: Var<u32> = Var::new();
    v.subscribe(SubscribeMode::Sticky);
    v.set(10);
    v.clear_dirty();
    assert!(!v.is_dirty());
    v.set(30);
    assert!(v.is_dirty());
    let mut buffer: Vec<u8> = vec![0; 4];
    v.to_buffer(&mut buffer, 2);
    assert_eq!(buffer, vec![30, 0, 0, 0]);
}

#[test]
fn current_mode_never_dirty_and_tracks_latest() {
    let mut v: Var<u32> = Var::new();
    v.subscribe(SubscribeMode::Current);
    v.set(10);
    v.set(20);
    v.set(30);
    assert!(!v.is_dirty());
    let mut buffer: Vec<u8> = vec![0; 4];
    v.to_buffer(&mut buffer, 2);
    assert_eq!(buffer, vec![30, 0, 0, 0]);
}

#[test]
fn subscribe_keeps_pending_capture() {
    let mut v: Var<u32> = Var::new();
    v.subscribe(SubscribeMode::Sticky);
    v.set(10);
    assert!(v.is_dirty());
    v.subscribe(SubscribeMode::Off);
    assert!(v.is_dirty());
}

#[test]
fn inc_adds_in_range() {
    let mut v: Var<u8> = Var::new();
    v.set(250);
    v.inc(3);
    assert_eq!(v.get(), 253);
}

#[test]
fn inc_wraps_modulo_the_type_span() {
    let mut v: Var<u8> = Var::new();
    v.set(250);
    v.inc(10);
    // 250 + 10 wraps past 255 by 5, landing at the type minimum + 4.
    assert_eq!(v.get(), 4);
}

#[test]
fn inc_wrapping_signed() {
    let mut v: Var<i8> = Var::new();
    v.set(120);
    v.inc(10);
    assert_eq!(v.get(), 120i8.wrapping_add(10));
    assert_eq!(v.get(), -126);
}

#[test]
fn inc_wraps_below_the_minimum() {
    let mut v: Var<i8> = Var::new();
    v.set(-120);
    v.inc(-100);
    assert_eq!(v.get(), (-120i8).wrapping_add(-100));
    assert_eq!(v.get(), 36);
}

#[test]
fn add_reports_overflow_and_keeps_value() {
    let mut v: Var<u8> = Var::new();
    v.set(250);
    assert!(!v.add(10));
    assert_eq!(v.get(), 250);
    assert!(v.add(5));
    assert_eq!(v.get(), 255);
}

#[test]
fn sub_reports_underflow_and_keeps_value() {
    let mut v: Var<u8> = Var::new();
    v.set(3);
    assert!(!v.sub(4));
    assert_eq!(v.get(), 3);
    assert!(v.sub(3));
    assert_eq!(v.get(), 0);
    let mut s: Var<i16> = Var::new();
    assert!(s.sub(5));
    assert_eq!(s.get(), -5);
}

#[test]
fn zero_threshold_makes_every_change_qualify() {
    let mut v: Var<i32> = Var::new();
    v.delta(0);
    v.set(1);
    assert!(v.pos_flag());
    v.set(0);
    assert!(v.neg_flag());
}

#[test]
fn extreme_values_pass_through() {
    let mut v: Var<u64> = Var::new();
    v.set(u64::MAX);
    assert_eq!(v.get(), u64::MAX);
    assert!(v.pos_flag());
    let mut s: Var<i64> = Var::new();
    s.set(i64::MIN);
    assert_eq!(s.get(), i64::MIN);
    assert!(s.neg_flag());
}

#[test]
fn arithmetic_bypasses_edge_flags() {
    let mut v: Var<u32> = Var::new();
    v.inc(5);
    v.add(5);
    assert!(!v.changed_flag());
    assert_eq!(v.get(), 10);
}
