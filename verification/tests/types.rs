//! Tests of the boolean bridges between Rust and the native constants.

use ni_syscfg::parameters::ApiBool;
use ni_syscfg::FfiBoolean;

#[test]
fn test_ffi_boolean_from_boolean() {
    assert_eq!(FfiBoolean::True, FfiBoolean::from(true));
    assert_eq!(FfiBoolean::False, FfiBoolean::from(false));
}

#[test]
fn ffi_boolean_round_trips_both_values() {
    assert_eq!(FfiBoolean::from(true).as_bool(), true);
    assert_eq!(FfiBoolean::from(false).as_bool(), false);
    assert_eq!(FfiBoolean::from(FfiBoolean::True.as_bool()), FfiBoolean::True);
    assert_eq!(FfiBoolean::from(FfiBoolean::False.as_bool()), FfiBoolean::False);
    assert_eq!(FfiBoolean::True.code(), 1);
    assert_eq!(FfiBoolean::False.code(), 0);
}

#[test]
fn api_bool_round_trips_both_values() {
    assert_eq!(ApiBool::from(true), ApiBool::True);
    assert_eq!(ApiBool::from(false), ApiBool::False);
    assert_eq!(bool::from(ApiBool::True), true);
    assert_eq!(bool::from(ApiBool::False), false);
    assert_eq!(ApiBool::from(bool::from(ApiBool::True)), ApiBool::True);
    assert_eq!(ApiBool::from(bool::from(ApiBool::False)), ApiBool::False);
}

#[test]
fn api_bool_reads_any_non_zero_as_true() {
    assert_eq!(ApiBool::from_i32(0), Some(ApiBool::False));
    assert_eq!(ApiBool::from_i32(1), Some(ApiBool::True));
    assert_eq!(ApiBool::from_i32(-7), Some(ApiBool::True));
    assert_eq!(ApiBool::from_i64(0), Some(ApiBool::False));
    assert_eq!(ApiBool::from_i64(2), Some(ApiBool::True));
    assert_eq!(ApiBool::from_u64(0), Some(ApiBool::False));
    assert_eq!(ApiBool::from_u64(9), Some(ApiBool::True));
}
