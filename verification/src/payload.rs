//! The payload decoding convention.  Replies arrive as opaque byte
//! sequences; the sender and receiver agree on bincode's default
//! configuration as the symmetric wire convention, and a result type decodes
//! itself from the bytes.

use vstd::prelude::*;

verus! {

/// What bincode's default configuration decodes a byte sequence to as a
/// `u64`, if anything.  The result depends on the bytes alone.
pub uninterp spec fn u64_payload_decode(bytes: Seq<u8>) -> Option<u64>;

/// A type that a reply payload can be decoded into.  The library's calling
/// conventions deserialize result bytes with bincode; each implementation
/// routes to the corresponding trusted decoder.
pub trait FromPayload: Sized {
    /// The mathematical decoding relation: which value, if any, the bytes
    /// decode to.
    spec fn decode_spec(bytes: Seq<u8>) -> Option<Self>;

    /// Decode the bytes, treating failure as absence of a value.
    fn from_payload(bytes: &Vec<u8>) -> (r: Option<Self>)
        ensures
            r == Self::decode_spec(bytes@),
    ;
}

/// Relies on bincode::deserialize::<u64>: under bincode's default
/// configuration (fixed-size little-endian integers, trailing bytes allowed)
/// the result is a function of the bytes alone.
#[verifier::external_body]
fn bincode_decode_u64(bytes: &Vec<u8>) -> (r: Option<u64>)
    ensures
        r == u64_payload_decode(bytes@),
{
    match bincode::deserialize(bytes) {
        Ok(v) => Some(v),
        Err(_) => None,
    }
}

impl FromPayload for u64 {
    open spec fn decode_spec(bytes: Seq<u8>) -> Option<u64> {
        u64_payload_decode(bytes)
    }

    fn from_payload(bytes: &Vec<u8>) -> (r: Option<u64>) {
        bincode_decode_u64(bytes)
    }
}

/// What bincode's default configuration decodes a byte sequence to as a
/// `String`, if anything.  The result depends on the bytes alone.
pub uninterp spec fn string_payload_decode(bytes: Seq<u8>) -> Option<String>;

/// Relies on bincode::deserialize::<String>: under bincode's default
/// configuration the result is a function of the bytes alone.
#[verifier::external_body]
fn bincode_decode_string(bytes: &Vec<u8>) -> (r: Option<String>)
    ensures
        r == string_payload_decode(bytes@),
{
    match bincode::deserialize(bytes) {
        Ok(v) => Some(v),
        Err(_) => None,
    }
}

impl FromPayload for String {
    open spec fn decode_spec(bytes: Seq<u8>) -> Option<String> {
        string_payload_decode(bytes)
    }

    fn from_payload(bytes: &Vec<u8>) -> (r: Option<String>) {
        bincode_decode_string(bytes)
    }
}

/// Relies on core::option::Option::expect: returns the contained value, and
/// aborts the process when there is none.  Decode failure under the
/// remote-closure convention is fatal, not recoverable.
#[verifier::external_body]
pub(crate) fn expect_decoded<T>(r: Option<T>) -> (v: T)
    ensures
        r == Some(v),
{
    r.expect("result deserialize")
}

/// The payload bytes of a reply, as a mathematical value.
pub open spec fn payload_view(d: Option<Vec<u8>>) -> Option<Seq<u8>> {
    match d {
        Some(v) => Some(v@),
        None => None,
    }
}

/// What a reply payload decodes to: a missing payload is an absent result,
/// and present bytes decode under the type's convention.
pub open spec fn decoded_reply<T: FromPayload>(data: Option<Seq<u8>>) -> Option<T> {
    match data {
        Some(b) => T::decode_spec(b),
        None => None,
    }
}

} // verus!
