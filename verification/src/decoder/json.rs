//! JSON payloads: recognising them and showing them pretty-printed.

use vstd::prelude::*;
use serde_json::Value;
use super::{Decoder, DecoderFormat};
use crate::text::{utf8_lossy, utf8_text_lossy};

verus! {

/// Whether `serde_json::from_slice` parses the bytes as one JSON document.
pub uninterp spec fn json_accepts(bytes: Seq<u8>) -> bool;

/// The text `serde_json::to_string_pretty` makes of the document that
/// `serde_json::from_slice` parses from the bytes: two-space indentation, one
/// member or element per line.
pub uninterp spec fn json_pretty(bytes: Seq<u8>) -> Seq<char>;

/// `serde_json::from_slice` into a `serde_json::Value`, then
/// `serde_json::to_string_pretty` of that value. The parse fails exactly when
/// `json_accepts` does not hold; printing a `Value` never fails (its object
/// keys are strings and the text goes to memory, the serializer's only two
/// ways to fail). Both steps are functions of their input alone, so the text
/// is named `json_pretty` of the bytes; the value in between is opaque here.
#[verifier::external_body]
fn pretty_json_text(bytes: &[u8]) -> (r: Option<String>)
    ensures
        r is Some <==> json_accepts(bytes@),
        r matches Some(s) ==> s@ == json_pretty(bytes@),
{
    match serde_json::from_slice::<Value>(bytes) {
        Ok(v) => serde_json::to_string_pretty(&v).ok(),
        Err(_) => None,
    }
}

/// The pretty-printed form of the bytes when they are a JSON document.
pub fn try_pretty_json(bytes: &[u8]) -> (r: Option<String>)
    ensures
        r is Some <==> json_accepts(bytes@),
        r matches Some(s) ==> s@ == json_pretty(bytes@),
{
    pretty_json_text(bytes)
}

/// Shows JSON documents pretty-printed and anything else as text.
pub struct JsonDecoder;

impl Decoder for JsonDecoder {
    fn decode_key(&self, bytes: &[u8]) -> (r: String)
        ensures
            json_accepts(bytes@) ==> r@ == json_pretty(bytes@),
            !json_accepts(bytes@) ==> r@ == utf8_lossy(bytes@),
    {
        match try_pretty_json(bytes) {
            Some(s) => s,
            None => utf8_text_lossy(bytes),
        }
    }

    fn decode_value(&self, bytes: &[u8]) -> (r: String)
        ensures
            json_accepts(bytes@) ==> r@ == json_pretty(bytes@),
            !json_accepts(bytes@) ==> r@ == utf8_lossy(bytes@),
    {
        match try_pretty_json(bytes) {
            Some(s) => s,
            None => utf8_text_lossy(bytes),
        }
    }

    fn format(&self) -> (f: DecoderFormat)
        ensures
            f == DecoderFormat::Json,
    {
        DecoderFormat::Json
    }
}

} // verus!
