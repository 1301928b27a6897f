//! Payloads shown as UTF-8 text.

use vstd::prelude::*;
use super::{Decoder, DecoderFormat};
use crate::text::{utf8_lossy, utf8_text_lossy};

verus! {

/// Shows payloads as UTF-8 text, replacing ill-formed sequences.
pub struct TextDecoder;

impl Decoder for TextDecoder {
    fn decode_key(&self, bytes: &[u8]) -> (r: String)
        ensures
            r@ == utf8_lossy(bytes@),
    {
        utf8_text_lossy(bytes)
    }

    fn decode_value(&self, bytes: &[u8]) -> (r: String)
        ensures
            r@ == utf8_lossy(bytes@),
    {
        utf8_text_lossy(bytes)
    }

    fn format(&self) -> (f: DecoderFormat)
        ensures
            f == DecoderFormat::Text,
    {
        DecoderFormat::Text
    }
}

} // verus!
