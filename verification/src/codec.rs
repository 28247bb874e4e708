//! The wire codec: how request and response payloads become bytes.
//!
//! Two interchangeable strategies are valid on the wire: a JSON document
//! body, or an opaque binary payload body. The choice is a per-handler
//! configuration, not negotiated on the wire, and both strategies must be
//! symmetric: decoding an encoded value yields the value back.

use vstd::prelude::*;

use crate::error::SoarError;

verus! {

/// The wire codec strategy configured for a route.
#[derive(Clone, Copy, Debug, PartialEq, Eq, Structural)]
pub enum Codec {
    /// The payload is a JSON document.
    Json,
    /// The payload is an opaque binary value.
    Binary,
}

/// The ASCII decimal digits of `x`, with no sign, padding or surrounding
/// text: the JSON document for an unsigned number.
pub open spec fn json_u8_bytes(x: u8) -> Seq<u8> {
    if x < 10 {
        seq![(48 + x) as u8]
    } else if x < 100 {
        seq![(48 + x / 10) as u8, (48 + x % 10) as u8]
    } else {
        seq![(48 + x / 100) as u8, (48 + (x / 10) % 10) as u8, (48 + x % 10) as u8]
    }
}

/// The four bytes of the JSON document `null`.
pub open spec fn json_null_bytes() -> Seq<u8> {
    seq![110u8, 117u8, 108u8, 108u8]
}

/// Relies on `serde_json::to_vec`: an unsigned number serializes as its
/// decimal digits and nothing else.
#[verifier::external_body]
pub(crate) fn json_encode_u8(x: u8) -> (r: Vec<u8>)
    ensures
        r@ == json_u8_bytes(x),
{
    serde_json::to_vec(&x).unwrap_or(Vec::new())
}

/// Relies on `serde_json::from_slice`: a document holding exactly the
/// decimal digits of `x` parses as the number `x`.
#[verifier::external_body]
pub(crate) fn json_decode_u8(b: &[u8]) -> (r: Option<u8>)
    ensures
        forall|x: u8| b@ == json_u8_bytes(x) ==> r == Some(x),
{
    match serde_json::from_slice::<u8>(b) {
        Ok(v) => Some(v),
        Err(_) => None,
    }
}

/// Relies on `serde_json::to_vec`: the unit value serializes as `null`.
#[verifier::external_body]
pub(crate) fn json_encode_unit() -> (r: Vec<u8>)
    ensures
        r@ == json_null_bytes(),
{
    serde_json::to_vec(&()).unwrap_or(Vec::new())
}

/// Relies on `serde_json::from_slice`: the document `null` parses as the
/// unit value.
#[verifier::external_body]
pub(crate) fn json_decode_unit(b: &[u8]) -> (r: Option<()>)
    ensures
        b@ == json_null_bytes() ==> r == Some(()),
{
    match serde_json::from_slice::<()>(b) {
        Ok(v) => Some(v),
        Err(_) => None,
    }
}

/// Relies on `bincode::serialize` with its default options: a `u8` is
/// written fixed-width as exactly one byte, and writing to a vector cannot
/// fail.
#[verifier::external_body]
pub(crate) fn binary_encode_u8(x: u8) -> (r: Vec<u8>)
    ensures
        r@ == seq![x],
{
    bincode::serialize(&x).unwrap_or(Vec::new())
}

/// Relies on `bincode::deserialize` with its default options: a `u8` is
/// read fixed-width from the first byte of the input.
#[verifier::external_body]
pub(crate) fn binary_decode_u8(b: &[u8]) -> (r: Option<u8>)
    ensures
        forall|x: u8| b@ == seq![x] ==> r == Some(x),
{
    match bincode::deserialize::<u8>(b) {
        Ok(v) => Some(v),
        Err(_) => None,
    }
}

/// Relies on `bincode::serialize`: the unit value occupies no bytes.
#[verifier::external_body]
pub(crate) fn binary_encode_unit() -> (r: Vec<u8>)
    ensures
        r@ == Seq::<u8>::empty(),
{
    bincode::serialize(&()).unwrap_or(Vec::new())
}

/// Relies on `bincode::deserialize`: the unit value is read from no bytes.
#[verifier::external_body]
pub(crate) fn binary_decode_unit(b: &[u8]) -> (r: Option<()>)
    ensures
        b@ == Seq::<u8>::empty() ==> r == Some(()),
{
    match bincode::deserialize::<()>(b) {
        Ok(v) => Some(v),
        Err(_) => None,
    }
}

/// The bytes of a `u8` payload under each codec strategy.
pub open spec fn u8_payload_bytes(c: Codec, x: u8) -> Seq<u8> {
    match c {
        Codec::Json => json_u8_bytes(x),
        Codec::Binary => seq![x],
    }
}

/// The bytes of a unit payload under each codec strategy.
pub open spec fn unit_payload_bytes(c: Codec) -> Seq<u8> {
    match c {
        Codec::Json => json_null_bytes(),
        Codec::Binary => Seq::<u8>::empty(),
    }
}

/// Encode a `u8` payload under the chosen codec strategy.
pub fn encode_u8_payload(c: Codec, x: u8) -> (b: Vec<u8>)
    ensures
        b@ == u8_payload_bytes(c, x),
{
    match c {
        Codec::Json => json_encode_u8(x),
        Codec::Binary => binary_encode_u8(x),
    }
}

/// Decode a `u8` payload under the chosen codec strategy: the encoding of
/// any value decodes back to that value.
pub fn decode_u8_payload(c: Codec, b: &[u8]) -> (r: Option<u8>)
    ensures
        forall|x: u8| b@ == u8_payload_bytes(c, x) ==> r == Some(x),
{
    match c {
        Codec::Json => json_decode_u8(b),
        Codec::Binary => binary_decode_u8(b),
    }
}

/// Encode a unit payload under the chosen codec strategy.
pub fn encode_unit_payload(c: Codec) -> (b: Vec<u8>)
    ensures
        b@ == unit_payload_bytes(c),
{
    match c {
        Codec::Json => json_encode_unit(),
        Codec::Binary => binary_encode_unit(),
    }
}

/// Decode a unit payload under the chosen codec strategy.
pub fn decode_unit_payload(c: Codec, b: &[u8]) -> (r: Option<()>)
    ensures
        b@ == unit_payload_bytes(c) ==> r == Some(()),
{
    match c {
        Codec::Json => json_decode_unit(b),
        Codec::Binary => binary_decode_unit(b),
    }
}

/// The request contract's serialization half: a payload that can cross the
/// wire under either codec strategy, and come back unchanged.
pub trait WirePayload: Sized {
    /// The bytes this value encodes to under codec `c`.
    spec fn enc(self, c: Codec) -> Seq<u8>;

    /// Encode the value; the result is exactly `self.enc(c)`.
    fn encode(&self, c: Codec) -> (b: Vec<u8>)
        ensures
            b@ == self.enc(c);

    /// Decode a payload. The codec strategies are symmetric: whenever the
    /// input is the encoding of some value, that value is returned; a
    /// failure is always a serialization error.
    fn decode(c: Codec, b: &[u8]) -> (r: Result<Self, SoarError>)
        ensures
            forall|m: Self| b@ == m.enc(c) ==> r == Ok::<Self, SoarError>(m),
            r is Err ==> r == Err::<Self, SoarError>(SoarError::Serialization);
}

impl WirePayload for () {
    open spec fn enc(self, c: Codec) -> Seq<u8> {
        unit_payload_bytes(c)
    }

    fn encode(&self, c: Codec) -> (b: Vec<u8>)
        ensures
            b@ == self.enc(c),
    {
        encode_unit_payload(c)
    }

    fn decode(c: Codec, b: &[u8]) -> (r: Result<Self, SoarError>)
        ensures
            forall|m: Self| b@ == m.enc(c) ==> r == Ok::<Self, SoarError>(m),
            r is Err ==> r == Err::<Self, SoarError>(SoarError::Serialization),
    {
        match decode_unit_payload(c, b) {
            Some(v) => Ok(v),
            None => Err(SoarError::Serialization),
        }
    }
}

/// Both codec strategies round-trip: decoding the encoding of any payload
/// yields the payload back, for every encodable value and either codec.
pub fn encode_decode_round_trip<T: WirePayload>(m: &T, c: Codec) -> (r: Result<T, SoarError>)
    ensures
        r == Ok::<T, SoarError>(*m),
{
    let b = m.encode(c);
    T::decode(c, b.as_slice())
}

} // verus!
