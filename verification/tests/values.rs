use aj_rs::error::AjError;
use aj_rs::value::TypedValue;

#[test]
fn i32_round_trips() {
    assert_eq!(TypedValue::from_i32(0).to_i32(), Ok(0));
    assert_eq!(TypedValue::from_i32(-1).to_i32(), Ok(-1));
    assert_eq!(TypedValue::from_i32(i32::MAX).to_i32(), Ok(i32::MAX));
    assert_eq!(TypedValue::from_i32(i32::MIN).to_i32(), Ok(i32::MIN));
}

#[test]
fn i64_round_trips() {
    assert_eq!(TypedValue::from_i64(i64::MAX).to_i64(), Ok(i64::MAX));
    assert_eq!(TypedValue::from_i64(i64::MIN).to_i64(), Ok(i64::MIN));
    assert_eq!(TypedValue::from_i64(0).to_i64(), Ok(0));
}

#[test]
fn bool_round_trips() {
    assert_eq!(TypedValue::from_bool(true).to_bool(), Ok(true));
    assert_eq!(TypedValue::from_bool(false).to_bool(), Ok(false));
}

#[test]
fn nonempty_text_round_trips() {
    let v = TypedValue::from_text("hello");
    assert_eq!(v.to_text().unwrap(), "hello");
}

#[test]
fn empty_text_marshals_to_empty_value_and_reads_back_empty() {
    let v = TypedValue::from_text("");
    assert!(matches!(v, TypedValue::Empty));
    assert_eq!(v.to_text().unwrap(), "");
}

#[test]
fn i64_narrowing_fails_out_of_range() {
    let big = TypedValue::from_i64(i32::MAX as i64 + 1);
    assert_eq!(big.to_i32(), Err(AjError::CoercionError));
    let small = TypedValue::from_i64(i32::MIN as i64 - 1);
    assert_eq!(small.to_i32(), Err(AjError::CoercionError));
    let fits = TypedValue::from_i64(-77);
    assert_eq!(fits.to_i32(), Ok(-77));
}

#[test]
fn bool_converts_to_provider_integers() {
    assert_eq!(TypedValue::from_bool(true).to_i32(), Ok(-1));
    assert_eq!(TypedValue::from_bool(false).to_i32(), Ok(0));
    assert_eq!(TypedValue::from_bool(true).to_i64(), Ok(-1));
}

#[test]
fn empty_converts_to_zero_values() {
    assert_eq!(TypedValue::Empty.to_i32(), Ok(0));
    assert_eq!(TypedValue::Empty.to_i64(), Ok(0));
    assert_eq!(TypedValue::Empty.to_bool(), Ok(false));
    assert_eq!(TypedValue::Empty.to_text().unwrap(), "");
}

#[test]
fn integers_convert_to_bool_by_zero_test() {
    assert_eq!(TypedValue::from_i32(0).to_bool(), Ok(false));
    assert_eq!(TypedValue::from_i32(3).to_bool(), Ok(true));
    assert_eq!(TypedValue::from_i64(-9).to_bool(), Ok(true));
}

#[test]
fn integers_render_in_decimal() {
    assert_eq!(TypedValue::from_i32(42).to_text().unwrap(), "42");
    assert_eq!(TypedValue::from_i32(-123).to_text().unwrap(), "-123");
    assert_eq!(TypedValue::from_i64(0).to_text().unwrap(), "0");
}

#[test]
fn decimal_rendering_edge_values() {
    assert_eq!(aj_rs::decimal::i64_to_text(0), "0");
    assert_eq!(aj_rs::decimal::i64_to_text(-1), "-1");
    assert_eq!(aj_rs::decimal::i64_to_text(10), "10");
    assert_eq!(aj_rs::decimal::i64_to_text(i64::MAX), "9223372036854775807");
    assert_eq!(aj_rs::decimal::i64_to_text(i64::MIN), "-9223372036854775808");
}

#[test]
fn text_does_not_coerce_to_numbers() {
    let v = TypedValue::from_text("12");
    assert_eq!(v.to_i32(), Err(AjError::CoercionError));
    assert_eq!(v.to_i64(), Err(AjError::CoercionError));
    assert_eq!(v.to_bool(), Err(AjError::CoercionError));
}

#[test]
fn float_bits_pass_through_and_do_not_coerce() {
    let bits: u64 = 0.75f64.to_bits();
    let v = TypedValue::from_f64_bits(bits);
    match &v {
        TypedValue::Float64Bits(b) => assert_eq!(f64::from_bits(*b), 0.75),
        other => panic!("unexpected value: {:?}", other),
    }
    assert_eq!(v.to_i32(), Err(AjError::CoercionError));
    assert_eq!(v.to_text(), Err(AjError::CoercionError));
}

#[test]
fn equals_compares_by_model() {
    let a = TypedValue::from_text("abc");
    let b = TypedValue::from_text("abc");
    let c = TypedValue::from_text("abd");
    assert!(a.equals(&b));
    assert!(!a.equals(&c));
    assert!(!a.equals(&TypedValue::from_i32(1)));
    let slot_a = TypedValue::ByRef(Box::new(TypedValue::Empty));
    let slot_b = TypedValue::ByRef(Box::new(TypedValue::Empty));
    assert!(slot_a.equals(&slot_b));
    assert!(!slot_a.equals(&TypedValue::Empty));
}

#[test]
fn errors_describe_themselves() {
    assert_eq!(AjError::InitializationError.describe(), "initialization failed");
    assert_eq!(AjError::UnknownMethodError.describe(), "unknown method name");
    assert_eq!(AjError::InvocationError(-5).describe(), "remote invocation failed");
    assert_eq!(AjError::CoercionError.describe(), "value coercion failed");
}
