//! Protobuf payloads, shown by their size.

use vstd::prelude::*;
use super::{Decoder, DecoderFormat};
use crate::text::{decimal, owned, push_decimal, push_str};

verus! {

/// The placeholder shown for a Protobuf payload of `n` bytes.
pub open spec fn protobuf_placeholder(n: nat) -> Seq<char> {
    "<protobuf "@ + decimal(n) + " bytes>"@
}

fn protobuf_text(bytes: &[u8]) -> (r: String)
    ensures
        r@ == protobuf_placeholder(bytes@.len()),
{
    let mut s = owned("<protobuf ");
    push_decimal(&mut s, bytes.len() as u64);
    push_str(&mut s, " bytes>");
    s
}

/// Shows Protobuf payloads by their size.
pub struct ProtobufDecoder;

impl Decoder for ProtobufDecoder {
    fn decode_key(&self, bytes: &[u8]) -> (r: String)
        ensures
            r@ == protobuf_placeholder(bytes@.len()),
    {
        protobuf_text(bytes)
    }

    fn decode_value(&self, bytes: &[u8]) -> (r: String)
        ensures
            r@ == protobuf_placeholder(bytes@.len()),
    {
        protobuf_text(bytes)
    }

    fn format(&self) -> (f: DecoderFormat)
        ensures
            f == DecoderFormat::Protobuf,
    {
        DecoderFormat::Protobuf
    }
}

} // verus!
