use js::convert::ConversionError;
use js::convert::JsNumber;
use js::convert::needs_slow_boolean;
use js::convert::needs_slow_int;
use js::convert::needs_slow_number;
use js::convert::needs_slow_string;
use js::convert::ToBoolean;
use js::convert::ToInt32;
use js::convert::ToInt64;
use js::convert::ToNumber;
use js::convert::ToStringValue;
use js::convert::ToUint16;
use js::convert::ToUint32;
use js::convert::ToUint64;
use js::value::Value;

#[test]
fn to_boolean_passes_booleans_through() {
    assert_eq!(ToBoolean(Value::Boolean(true), false), true);
    assert_eq!(ToBoolean(Value::Boolean(false), true), false);
}

#[test]
fn to_boolean_int32_truthy_iff_nonzero() {
    assert_eq!(ToBoolean(Value::Int32(0), true), false);
    assert_eq!(ToBoolean(Value::Int32(1), false), true);
    assert_eq!(ToBoolean(Value::Int32(-1), false), true);
    assert_eq!(ToBoolean(Value::Int32(i32::MIN), false), true);
}

#[test]
fn to_boolean_null_and_undefined_are_false() {
    assert_eq!(ToBoolean(Value::Null, true), false);
    assert_eq!(ToBoolean(Value::Undefined, true), false);
}

#[test]
fn to_boolean_double_zero_and_nan_are_false() {
    assert_eq!(ToBoolean(Value::DoubleBits((0.0f64).to_bits()), true), false);
    assert_eq!(ToBoolean(Value::DoubleBits((-0.0f64).to_bits()), true), false);
    assert_eq!(ToBoolean(Value::DoubleBits(f64::NAN.to_bits()), true), false);
    assert_eq!(ToBoolean(Value::DoubleBits((1.5f64).to_bits()), false), true);
    assert_eq!(ToBoolean(Value::DoubleBits((-2.0f64).to_bits()), false), true);
    assert_eq!(
        ToBoolean(Value::DoubleBits(f64::INFINITY.to_bits()), false),
        true
    );
}

#[test]
fn to_boolean_symbols_are_always_true() {
    assert_eq!(ToBoolean(Value::SymbolRef(0), false), true);
    assert_eq!(ToBoolean(Value::SymbolRef(123), false), true);
}

#[test]
fn to_boolean_defers_strings_and_objects_to_the_engine() {
    assert_eq!(ToBoolean(Value::StringRef(5), true), true);
    assert_eq!(ToBoolean(Value::StringRef(5), false), false);
    assert_eq!(ToBoolean(Value::ObjectRef(9), true), true);
    assert!(needs_slow_boolean(&Value::StringRef(5)));
    assert!(needs_slow_boolean(&Value::ObjectRef(9)));
    assert!(!needs_slow_boolean(&Value::Int32(3)));
    assert!(!needs_slow_boolean(&Value::SymbolRef(3)));
}

#[test]
fn to_number_passes_numerics_through_losslessly() {
    let fail: Result<JsNumber, ConversionError> = Err(ConversionError);
    assert_eq!(ToNumber(Value::Int32(-7), fail), Ok(JsNumber::Int(-7)));
    let bits = (2.5f64).to_bits();
    assert_eq!(ToNumber(Value::DoubleBits(bits), fail), Ok(JsNumber::Bits(bits)));
    assert_eq!(ToNumber(Value::Undefined, fail), Err(ConversionError));
    let slow = Ok(JsNumber::Bits((3.0f64).to_bits()));
    assert_eq!(ToNumber(Value::StringRef(2), slow), slow);
    assert!(needs_slow_number(&Value::Null));
    assert!(!needs_slow_number(&Value::Int32(0)));
}

#[test]
fn to_int32_is_identity_on_int32() {
    let fail: Result<i32, ConversionError> = Err(ConversionError);
    assert_eq!(ToInt32(Value::Int32(0), fail), Ok(0));
    assert_eq!(ToInt32(Value::Int32(123), fail), Ok(123));
    assert_eq!(ToInt32(Value::Int32(-123), fail), Ok(-123));
    assert_eq!(ToInt32(Value::Int32(i32::MAX), fail), Ok(i32::MAX));
    assert_eq!(ToInt32(Value::Int32(i32::MIN), fail), Ok(i32::MIN));
    assert!(!needs_slow_int(&Value::Int32(0)));
}

#[test]
fn to_uint32_reinterprets_twos_complement() {
    let fail: Result<u32, ConversionError> = Err(ConversionError);
    assert_eq!(ToUint32(Value::Int32(-1), fail), Ok(4294967295));
    assert_eq!(ToUint32(Value::Int32(i32::MIN), fail), Ok(2147483648));
    assert_eq!(ToUint32(Value::Int32(7), fail), Ok(7));
}

#[test]
fn to_uint16_truncates_twos_complement() {
    let fail: Result<u16, ConversionError> = Err(ConversionError);
    assert_eq!(ToUint16(Value::Int32(-1), fail), Ok(0xFFFF));
    assert_eq!(ToUint16(Value::Int32(0x1_0005), fail), Ok(5));
    assert_eq!(ToUint16(Value::Int32(42), fail), Ok(42));
}

#[test]
fn to_int64_sign_extends() {
    let fail: Result<i64, ConversionError> = Err(ConversionError);
    assert_eq!(ToInt64(Value::Int32(-5), fail), Ok(-5i64));
    assert_eq!(ToInt64(Value::Int32(i32::MIN), fail), Ok(-2147483648i64));
}

#[test]
fn to_uint64_reinterprets_twos_complement() {
    let fail: Result<u64, ConversionError> = Err(ConversionError);
    assert_eq!(ToUint64(Value::Int32(-1), fail), Ok(u64::MAX));
    assert_eq!(
        ToUint64(Value::Int32(i32::MIN), fail),
        Ok(0xFFFF_FFFF_8000_0000)
    );
    assert_eq!(ToUint64(Value::Int32(3), fail), Ok(3));
}

#[test]
fn to_int32_on_a_rejected_string_fails_recoverably() {
    // the engine's canonical coercion rejects a string such as "abc":
    // the failure surfaces as a result, not a crash
    let abc = Value::StringRef(77);
    assert!(needs_slow_int(&abc));
    let r = ToInt32(abc, Err(ConversionError));
    assert_eq!(r, Err(ConversionError));
}

#[test]
fn to_string_passes_strings_through_and_defers_the_rest() {
    let fail: Result<u64, ConversionError> = Err(ConversionError);
    assert_eq!(ToStringValue(Value::StringRef(4), fail), Ok(4));
    assert_eq!(ToStringValue(Value::Int32(1), Ok(9)), Ok(9));
    assert_eq!(ToStringValue(Value::Undefined, fail), Err(ConversionError));
    assert!(needs_slow_string(&Value::Int32(1)));
    assert!(!needs_slow_string(&Value::StringRef(4)));
}
