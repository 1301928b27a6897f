//! Avro payloads, shown by their size.

use vstd::prelude::*;
use super::{Decoder, DecoderFormat};
use crate::text::{decimal, owned, push_decimal, push_str};

verus! {

/// The placeholder shown for a Avro payload of `n` bytes.
pub open spec fn avro_placeholder(n: nat) -> Seq<char> {
    "<avro "@ + decimal(n) + " bytes>"@
}

fn avro_text(bytes: &[u8]) -> (r: String)
    ensures
        r@ == avro_placeholder(bytes@.len()),
{
    let mut s = owned("<avro ");
    push_decimal(&mut s, bytes.len() as u64);
    push_str(&mut s, " bytes>");
    s
}

/// Shows Avro payloads by their size.
pub struct AvroDecoder;

impl Decoder for AvroDecoder {
    fn decode_key(&self, bytes: &[u8]) -> (r: String)
        ensures
            r@ == avro_placeholder(bytes@.len()),
    {
        avro_text(bytes)
    }

    fn decode_value(&self, bytes: &[u8]) -> (r: String)
        ensures
            r@ == avro_placeholder(bytes@.len()),
    {
        avro_text(bytes)
    }

    fn format(&self) -> (f: DecoderFormat)
        ensures
            f == DecoderFormat::Avro,
    {
        DecoderFormat::Avro
    }
}

} // verus!
