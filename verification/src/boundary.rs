//! The two conversions as a foreign caller sees them.
//!
//! Across the foreign boundary every failure is the absent reference. For an
//! encode that is unambiguous. For a decode it is not: the text `null`
//! decodes to the absent reference too, so a caller cannot tell a decoded
//! `null` from a failure.
use vstd::prelude::*;
use crate::decoder::{decode, decoded_text};
use crate::encoder::{encode, encoded_text};
use crate::host::{HostObject, HostValue};

verus! {

/// What a foreign caller receives from a decode of `text`.
pub open spec fn decode_signal(text: Seq<char>) -> HostValue {
    match decoded_text(text) {
        Some(h) => h,
        None => HostValue::Null,
    }
}

/// Encodes a host graph, with the absent result for any failure: the text
/// of the graph wherever it can be rendered, and nothing only where it
/// cannot.
pub fn encode_or_null(host: &HostObject) -> (r: Option<String>)
    ensures
        match r {
            Some(text) => encoded_text(host@) == Some(text@),
            None => encoded_text(host@) is None,
        },
{
    match encode(host) {
        Ok(text) => Some(text),
        Err(_) => None,
    }
}

/// Decodes JSON text, with the absent reference for any failure.
pub fn decode_or_null(text: &str) -> (r: HostObject)
    ensures
        r@ == decode_signal(text@),
{
    match decode(text) {
        Ok(host) => host,
        Err(_) => HostObject::Null,
    }
}

} // verus!
