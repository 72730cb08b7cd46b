//! Conversion fast paths: boolean, number, integer and string coercions
//! that inline the common value representations and defer every other
//! representation to the engine's canonical slow coercion. The slow path can
//! run user-visible script, so its outcome is supplied by the caller that
//! performed it; each conversion here states exactly which inputs take the
//! fast path and that all others return the slow outcome unchanged.

use vstd::prelude::*;

use crate::value::Value;
use crate::value::double_is_nan;
use crate::value::double_is_zero;
use crate::value::is_double_nan;
use crate::value::is_double_zero;

verus! {

/// A coercion failed in the engine: user script raised an exception during
/// the slow path, or the engine ran out of memory.
#[derive(Clone, Copy, PartialEq, Eq, Structural, Debug)]
pub struct ConversionError;

/// A numeric value in engine representation: either an int32 or a double's
/// bit pattern. Already-numeric inputs pass through a numeric coercion in
/// their own representation, losslessly.
#[derive(Clone, Copy, PartialEq, Eq, Structural, Debug)]
pub enum JsNumber {
    Int(i32),
    Bits(u64),
}

/// The unsigned 32-bit reinterpretation of an int32: two's-complement
/// truncation of the sign-extended value.
pub open spec fn as_uint32(x: i32) -> u32 {
    if x >= 0 {
        x as u32
    } else {
        (x + 0x1_0000_0000) as u32
    }
}

/// The unsigned 16-bit truncation of an int32's two's-complement bits.
pub open spec fn as_uint16(x: i32) -> u16 {
    (as_uint32(x) % 0x1_0000) as u16
}

/// The unsigned 64-bit reinterpretation of an int32: two's-complement
/// truncation of the sign-extended value.
pub open spec fn as_uint64(x: i32) -> u64 {
    if x >= 0 {
        x as u64
    } else {
        (x + 0x1_0000_0000_0000_0000) as u64
    }
}

/// What a boolean conversion returns: the inline rules for boolean, int32,
/// null, undefined, double and symbol representations, and the engine's
/// canonical outcome for everything else.
pub open spec fn spec_to_boolean(v: Value, slow: bool) -> bool {
    match v {
        Value::Boolean(b) => b,
        Value::Int32(i) => i != 0,
        Value::Null => false,
        Value::Undefined => false,
        Value::DoubleBits(bits) => !double_is_nan(bits) && !double_is_zero(bits),
        Value::SymbolRef(_) => true,
        Value::StringRef(_) => slow,
        Value::ObjectRef(_) => slow,
    }
}

/// Whether a boolean conversion of this value must consult the engine's
/// canonical algorithm (which may run script).
pub open spec fn boolean_needs_slow(v: Value) -> bool {
    v is StringRef || v is ObjectRef
}

/// Whether a numeric coercion of this value must consult the engine.
pub open spec fn number_needs_slow(v: Value) -> bool {
    !(v is Int32 || v is DoubleBits)
}

/// Whether an integer coercion of this value must consult the engine: only
/// int32-typed values take the direct reinterpretation fast path.
pub open spec fn int_needs_slow(v: Value) -> bool {
    !(v is Int32)
}

/// Whether a string conversion of this value must consult the engine.
pub open spec fn string_needs_slow(v: Value) -> bool {
    !(v is StringRef)
}

/// What a numeric coercion returns: already-numeric values pass through in
/// their own representation, everything else takes the engine's outcome.
pub open spec fn spec_to_number(v: Value, slow: Result<JsNumber, ConversionError>) -> Result<
    JsNumber,
    ConversionError,
> {
    match v {
        Value::Int32(i) => Ok(JsNumber::Int(i)),
        Value::DoubleBits(b) => Ok(JsNumber::Bits(b)),
        _ => slow,
    }
}

/// What an int32 coercion returns: the identity on int32 values, the
/// engine's outcome on everything else.
pub open spec fn spec_to_int32(v: Value, slow: Result<i32, ConversionError>) -> Result<
    i32,
    ConversionError,
> {
    match v {
        Value::Int32(i) => Ok(i),
        _ => slow,
    }
}

/// What a uint32 coercion returns: the two's-complement reinterpretation of
/// int32 values, the engine's outcome on everything else.
pub open spec fn spec_to_uint32(v: Value, slow: Result<u32, ConversionError>) -> Result<
    u32,
    ConversionError,
> {
    match v {
        Value::Int32(i) => Ok(as_uint32(i)),
        _ => slow,
    }
}

/// What a uint16 coercion returns: the low sixteen two's-complement bits of
/// int32 values, the engine's outcome on everything else.
pub open spec fn spec_to_uint16(v: Value, slow: Result<u16, ConversionError>) -> Result<
    u16,
    ConversionError,
> {
    match v {
        Value::Int32(i) => Ok(as_uint16(i)),
        _ => slow,
    }
}

/// What an int64 coercion returns: sign extension of int32 values, the
/// engine's outcome on everything else.
pub open spec fn spec_to_int64(v: Value, slow: Result<i64, ConversionError>) -> Result<
    i64,
    ConversionError,
> {
    match v {
        Value::Int32(i) => Ok(i as i64),
        _ => slow,
    }
}

/// What a uint64 coercion returns: the two's-complement reinterpretation of
/// the sign-extended int32 value, the engine's outcome on everything else.
pub open spec fn spec_to_uint64(v: Value, slow: Result<u64, ConversionError>) -> Result<
    u64,
    ConversionError,
> {
    match v {
        Value::Int32(i) => Ok(as_uint64(i)),
        _ => slow,
    }
}

/// What a string conversion returns: the string reference itself for
/// string-typed values, the engine's outcome on everything else.
pub open spec fn spec_to_string(v: Value, slow: Result<u64, ConversionError>) -> Result<
    u64,
    ConversionError,
> {
    match v {
        Value::StringRef(s) => Ok(s),
        _ => slow,
    }
}

/// Runtime test: must a boolean conversion take the engine's slow path?
pub fn needs_slow_boolean(v: &Value) -> (b: bool)
    ensures
        b == boolean_needs_slow(*v),
{
    match v {
        Value::StringRef(_) => true,
        Value::ObjectRef(_) => true,
        _ => false,
    }
}

/// Runtime test: must a numeric coercion take the engine's slow path?
pub fn needs_slow_number(v: &Value) -> (b: bool)
    ensures
        b == number_needs_slow(*v),
{
    match v {
        Value::Int32(_) => false,
        Value::DoubleBits(_) => false,
        _ => true,
    }
}

/// Runtime test: must an integer coercion take the engine's slow path?
pub fn needs_slow_int(v: &Value) -> (b: bool)
    ensures
        b == int_needs_slow(*v),
{
    !matches!(v, Value::Int32(_))
}

/// Runtime test: must a string conversion take the engine's slow path?
pub fn needs_slow_string(v: &Value) -> (b: bool)
    ensures
        b == string_needs_slow(*v),
{
    !matches!(v, Value::StringRef(_))
}

/// Boolean conversion. Booleans pass through; an int32 is truthy iff
/// nonzero; null and undefined are false; a double is truthy iff neither NaN
/// nor zero; a symbol is always truthy; strings and objects take the
/// engine's canonical outcome `slow`.
#[allow(non_snake_case)]
pub fn ToBoolean(v: Value, slow: bool) -> (r: bool)
    ensures
        r == spec_to_boolean(v, slow),
{
    match v {
        Value::Boolean(b) => b,
        Value::Int32(i) => i != 0,
        Value::Null => false,
        Value::Undefined => false,
        Value::DoubleBits(bits) => !is_double_nan(bits) && !is_double_zero(bits),
        Value::SymbolRef(_) => true,
        Value::StringRef(_) => slow,
        Value::ObjectRef(_) => slow,
    }
}

/// Numeric coercion. Already-numeric values pass through losslessly in
/// their own representation; every other value returns the engine's
/// canonical outcome `slow` unchanged.
#[allow(non_snake_case)]
pub fn ToNumber(v: Value, slow: Result<JsNumber, ConversionError>) -> (r: Result<
    JsNumber,
    ConversionError,
>)
    ensures
        r == spec_to_number(v, slow),
{
    match v {
        Value::Int32(i) => Ok(JsNumber::Int(i)),
        Value::DoubleBits(b) => Ok(JsNumber::Bits(b)),
        _ => slow,
    }
}

/// Int32 coercion. An int32 value is returned unchanged; every other value
/// returns the engine's canonical outcome `slow` unchanged.
#[allow(non_snake_case)]
pub fn ToInt32(v: Value, slow: Result<i32, ConversionError>) -> (r: Result<i32, ConversionError>)
    ensures
        r == spec_to_int32(v, slow),
{
    match v {
        Value::Int32(i) => Ok(i),
        _ => slow,
    }
}

/// Uint32 coercion. An int32 value is reinterpreted as its two's-complement
/// unsigned 32-bit bits; every other value returns the engine's canonical
/// outcome `slow` unchanged.
#[allow(non_snake_case)]
pub fn ToUint32(v: Value, slow: Result<u32, ConversionError>) -> (r: Result<u32, ConversionError>)
    ensures
        r == spec_to_uint32(v, slow),
{
    match v {
        Value::Int32(i) => {
            if i >= 0 {
                Ok(i as u32)
            } else {
                Ok(((i as i64) + 0x1_0000_0000) as u32)
            }
        },
        _ => slow,
    }
}

/// Uint16 coercion. An int32 value is truncated to the low 16 bits of its
/// two's-complement representation; every other value returns the engine's
/// canonical outcome `slow` unchanged.
#[allow(non_snake_case)]
pub fn ToUint16(v: Value, slow: Result<u16, ConversionError>) -> (r: Result<u16, ConversionError>)
    ensures
        r == spec_to_uint16(v, slow),
{
    match v {
        Value::Int32(i) => {
            let u: u32 = if i >= 0 {
                i as u32
            } else {
                ((i as i64) + 0x1_0000_0000) as u32
            };
            Ok((u % 0x1_0000) as u16)
        },
        _ => slow,
    }
}

/// Int64 coercion. An int32 value is sign-extended; every other value
/// returns the engine's canonical outcome `slow` unchanged.
#[allow(non_snake_case)]
pub fn ToInt64(v: Value, slow: Result<i64, ConversionError>) -> (r: Result<i64, ConversionError>)
    ensures
        r == spec_to_int64(v, slow),
{
    match v {
        Value::Int32(i) => Ok(i as i64),
        _ => slow,
    }
}

/// Uint64 coercion. An int32 value is reinterpreted as the two's-complement
/// truncation of its sign-extended value; every other value returns the
/// engine's canonical outcome `slow` unchanged.
#[allow(non_snake_case)]
pub fn ToUint64(v: Value, slow: Result<u64, ConversionError>) -> (r: Result<u64, ConversionError>)
    ensures
        r == spec_to_uint64(v, slow),
{
    match v {
        Value::Int32(i) => {
            if i >= 0 {
                Ok(i as u64)
            } else {
                let k = (-(i as i64)) as u64;
                Ok(u64::MAX - k + 1)
            }
        },
        _ => slow,
    }
}

/// String conversion. A string-typed value passes through as its engine
/// string reference; every other value returns the engine's canonical
/// outcome `slow` unchanged.
#[allow(non_snake_case)]
pub fn ToStringValue(v: Value, slow: Result<u64, ConversionError>) -> (r: Result<
    u64,
    ConversionError,
>)
    ensures
        r == spec_to_string(v, slow),
{
    match v {
        Value::StringRef(s) => Ok(s),
        _ => slow,
    }
}

/// Law: for all int32 inputs the int32 coercion is the identity and the
/// uint32 coercion yields the two's-complement reinterpretation — for a
/// negative input, the value plus two to the thirty-second — whatever the
/// engine would have answered.
pub proof fn lemma_int32_fast_paths(
    x: i32,
    slow32: Result<i32, ConversionError>,
    slowu32: Result<u32, ConversionError>,
)
    ensures
        spec_to_int32(Value::Int32(x), slow32) == Ok::<i32, ConversionError>(x),
        spec_to_uint32(Value::Int32(x), slowu32) == Ok::<u32, ConversionError>(as_uint32(x)),
        x >= 0 ==> as_uint32(x) == x,
        x < 0 ==> as_uint32(x) as int == x + 0x1_0000_0000,
        x < 0 ==> as_uint32(x) >= 0x8000_0000,
        x < 0 ==> as_uint64(x) as int == x + 0x1_0000_0000_0000_0000,
{
}

/// Law: a boolean conversion of numeric zero — int32 zero, a positive or
/// negative double zero — and of NaN is false; of any nonzero, non-NaN
/// numeric it is true; and of a symbol it is true regardless of identity.
pub proof fn lemma_boolean_numeric_rules(i: i32, bits: u64, sym: u64, slow: bool)
    ensures
        spec_to_boolean(Value::Int32(0), slow) == false,
        i != 0 ==> spec_to_boolean(Value::Int32(i), slow) == true,
        double_is_zero(bits) ==> spec_to_boolean(Value::DoubleBits(bits), slow) == false,
        double_is_nan(bits) ==> spec_to_boolean(Value::DoubleBits(bits), slow) == false,
        !double_is_zero(bits) && !double_is_nan(bits) ==> spec_to_boolean(
            Value::DoubleBits(bits),
            slow,
        ) == true,
        spec_to_boolean(Value::SymbolRef(sym), slow) == true,
{
}

} // verus!
