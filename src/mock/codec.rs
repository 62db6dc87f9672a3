//! Decoding of message arguments in the SCALE format.

use vstd::prelude::*;

use parity_scale_codec::DecodeAll;

verus! {

/// The unsigned integer whose little-endian bytes are `b`.
pub open spec fn le_value(b: Seq<u8>) -> nat
    decreases b.len(),
{
    if b.len() == 0 {
        0
    } else {
        b[0] as nat + 256 * le_value(b.drop_first())
    }
}

/// The shape of the argument that a mocked message expects.
#[derive(Clone, Copy, Debug, PartialEq, Eq, Structural)]
pub enum ArgShape {
    Unit,
    Bool,
    U32,
    U128,
}

/// A decoded message argument.
#[derive(Clone, Copy, Debug, PartialEq, Eq, Structural)]
pub enum ArgValue {
    Unit,
    Bool(bool),
    U32(u32),
    U128(u128),
}

/// The argument that a whole payload encodes in the given shape, if any; a
/// payload with bytes left over after the argument encodes none.
pub open spec fn arg_of(shape: ArgShape, b: Seq<u8>) -> Option<ArgValue> {
    match shape {
        ArgShape::Unit => if b.len() == 0 { Some(ArgValue::Unit) } else { None },
        ArgShape::Bool => if b.len() == 1 && b[0] == 0 {
            Some(ArgValue::Bool(false))
        } else if b.len() == 1 && b[0] == 1 {
            Some(ArgValue::Bool(true))
        } else {
            None
        },
        ArgShape::U32 => if b.len() == 4 {
            Some(ArgValue::U32(le_value(b) as u32))
        } else {
            None
        },
        ArgShape::U128 => if b.len() == 16 {
            Some(ArgValue::U128(le_value(b) as u128))
        } else {
            None
        },
    }
}

/// Relies on `<() as DecodeAll>::decode_all`: the unit decodes from no bytes,
/// and any byte is left over.
#[verifier::external_body]
fn decode_unit(b: &[u8]) -> (r: Result<(), parity_scale_codec::Error>)
    ensures
        r is Ok <==> b@.len() == 0,
{
    let mut input: &[u8] = b;
    <()>::decode_all(&mut input)
}

/// Relies on `<bool as DecodeAll>::decode_all`: one byte, 0 for false and 1
/// for true, with nothing left over.
#[verifier::external_body]
fn decode_bool(b: &[u8]) -> (r: Result<bool, parity_scale_codec::Error>)
    ensures
        r is Ok <==> (b@.len() == 1 && (b@[0] == 0 || b@[0] == 1)),
        r matches Ok(v) ==> v == (b@[0] == 1),
{
    let mut input: &[u8] = b;
    bool::decode_all(&mut input)
}

/// Relies on `<u32 as DecodeAll>::decode_all`: exactly four little-endian
/// bytes.
#[verifier::external_body]
fn decode_u32(b: &[u8]) -> (r: Result<u32, parity_scale_codec::Error>)
    ensures
        r is Ok <==> b@.len() == 4,
        r matches Ok(v) ==> v as nat == le_value(b@),
{
    let mut input: &[u8] = b;
    u32::decode_all(&mut input)
}

/// Relies on `<u128 as DecodeAll>::decode_all`: exactly sixteen little-endian
/// bytes.
#[verifier::external_body]
fn decode_u128(b: &[u8]) -> (r: Result<u128, parity_scale_codec::Error>)
    ensures
        r is Ok <==> b@.len() == 16,
        r matches Ok(v) ==> v as nat == le_value(b@),
{
    let mut input: &[u8] = b;
    u128::decode_all(&mut input)
}

/// Decodes the whole payload as an argument of the given shape; fails with
/// the decoder's error where the payload is not exactly such an encoding.
pub fn decode_argument(shape: ArgShape, payload: &[u8]) -> (r: Result<ArgValue, parity_scale_codec::Error>)
    ensures
        r is Ok <==> arg_of(shape, payload@) is Some,
        r matches Ok(v) ==> arg_of(shape, payload@) == Some(v),
{
    match shape {
        ArgShape::Unit => match decode_unit(payload) {
            Ok(()) => Ok(ArgValue::Unit),
            Err(e) => Err(e),
        },
        ArgShape::Bool => match decode_bool(payload) {
            Ok(v) => Ok(ArgValue::Bool(v)),
            Err(e) => Err(e),
        },
        ArgShape::U32 => match decode_u32(payload) {
            Ok(v) => Ok(ArgValue::U32(v)),
            Err(e) => Err(e),
        },
        ArgShape::U128 => match decode_u128(payload) {
            Ok(v) => Ok(ArgValue::U128(v)),
            Err(e) => Err(e),
        },
    }
}

} // verus!
