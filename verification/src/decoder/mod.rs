//! Turning message payloads into display text.

pub mod avro;
pub mod json;
pub mod protobuf;
pub mod text;

use vstd::prelude::*;
use vstd::utf8::*;
use crate::kafka::schema_registry::SchemaRegistryClient;
use crate::text::{
    decimal, hex_byte, owned, push_decimal, push_hex_byte, push_char, push_signed_decimal,
    push_str, signed_decimal, utf8_str,
};
use self::avro::avro_placeholder;
use self::json::{json_accepts, json_pretty, try_pretty_json};

verus! {

/// The output of decoding a message payload.
#[derive(Debug, Clone)]
pub struct DecodedMessage {
    pub key: Option<String>,
    pub value: Option<String>,
    pub format: DecoderFormat,
}

/// How a payload was read.
#[derive(Debug, Clone, PartialEq, Eq, Structural)]
pub enum DecoderFormat {
    Text,
    Json,
    Avro,
    Protobuf,
}

/// Common interface of the message decoders.
pub trait Decoder: Send + Sync {
    fn decode_key(&self, bytes: &[u8]) -> String;

    fn decode_value(&self, bytes: &[u8]) -> String;

    fn format(&self) -> DecoderFormat;
}

/// Whether the payload starts like the Confluent wire format: a zero magic
/// byte followed by a four-byte schema id.
pub open spec fn is_confluent_framed(b: Seq<u8>) -> bool {
    b.len() >= 5 && b[0] == 0
}

/// The schema id of a Confluent-framed payload: bytes 1 to 4, big-endian,
/// as a signed 32-bit integer.
pub open spec fn confluent_schema_id(b: Seq<u8>) -> int {
    let u = b[1] as int * 16777216 + b[2] as int * 65536 + b[3] as int * 256 + b[4] as int;
    if u >= 2147483648 {
        u - 4294967296
    } else {
        u
    }
}

/// The schema id of a Confluent-framed payload is the big-endian signed
/// 32-bit integer in bytes 1 to 4: a value of `i32` whose two's-complement
/// bit pattern is those four bytes.
pub proof fn lemma_schema_id_big_endian(b: Seq<u8>)
    requires
        b.len() >= 5,
    ensures
        i32::MIN <= confluent_schema_id(b) <= i32::MAX,
        confluent_schema_id(b) % 4294967296 == b[1] as int * 16777216 + b[2] as int * 65536
            + b[3] as int * 256 + b[4] as int,
{
    let u = b[1] as int * 16777216 + b[2] as int * 65536 + b[3] as int * 256 + b[4] as int;
    assert(0 <= u < 4294967296);
    if u >= 2147483648 {
        assert((u - 4294967296) % 4294967296 == u) by (nonlinear_arith)
            requires
                0 <= u < 4294967296,
        ;
    } else {
        assert(u % 4294967296 == u) by (nonlinear_arith)
            requires
                0 <= u < 4294967296,
        ;
    }
}

/// The bytes as two-digit lower-case hex, separated by single spaces.
pub open spec fn hex_dump(b: Seq<u8>) -> Seq<char>
    decreases b.len(),
{
    if b.len() == 0 {
        seq![]
    } else if b.len() == 1 {
        hex_byte(b[0])
    } else {
        hex_dump(b.drop_last()) + seq![' '] + hex_byte(b.last())
    }
}

/// The hex dump shows byte `i` as its two hex digits at position `3 * i`,
/// with a single space between neighbouring bytes.
pub proof fn lemma_hex_dump_layout(b: Seq<u8>)
    ensures
        b.len() > 0 ==> hex_dump(b).len() == 3 * b.len() - 1,
        b.len() == 0 ==> hex_dump(b).len() == 0,
        forall|i: int|
            0 <= i < b.len() ==> hex_dump(b).subrange(3 * i, 3 * i + 2) == hex_byte(#[trigger] b[i]),
        forall|i: int| 0 <= i < b.len() - 1 ==> #[trigger] hex_dump(b)[3 * i + 2] == ' ',
    decreases b.len(),
{
    if b.len() > 1 {
        let d = b.drop_last();
        lemma_hex_dump_layout(d);
        let h = hex_dump(d);
        let r = hex_dump(b);
        assert(r == h + seq![' '] + hex_byte(b.last()));
        assert forall|i: int| 0 <= i < b.len() implies r.subrange(3 * i, 3 * i + 2) == hex_byte(
            #[trigger] b[i],
        ) by {
            if i < d.len() {
                assert(d[i] == b[i]);
                assert(r.subrange(3 * i, 3 * i + 2) =~= h.subrange(3 * i, 3 * i + 2));
            } else {
                assert(r.subrange(3 * i, 3 * i + 2) =~= hex_byte(b.last()));
            }
        }
        assert forall|i: int| 0 <= i < b.len() - 1 implies #[trigger] r[3 * i + 2] == ' ' by {
            if i < d.len() - 1 {
                assert(r[3 * i + 2] == h[3 * i + 2]);
            }
        }
    } else if b.len() == 1 {
        assert(hex_dump(b).subrange(0, 2) =~= hex_byte(b[0]));
    }
}

/// What is shown for a Confluent-framed payload when no registry is configured.
pub open spec fn schema_id_hint(b: Seq<u8>) -> Seq<char> {
    "<Confluent Avro schema_id="@ + signed_decimal(confluent_schema_id(b))
        + " — configure Schema Registry to decode>"@
}

/// What is shown for a payload that is not UTF-8.
pub open spec fn binary_dump(b: Seq<u8>) -> Seq<char> {
    "<binary "@ + decimal(b.len()) + " bytes>\n"@ + hex_dump(b)
}

fn schema_id_of(bytes: &[u8]) -> (id: i32)
    requires
        bytes@.len() >= 5,
    ensures
        id as int == confluent_schema_id(bytes@),
{
    let u: i64 = bytes[1] as i64 * 16777216 + bytes[2] as i64 * 65536 + bytes[3] as i64 * 256
        + bytes[4] as i64;
    let s: i64 = if u >= 2147483648 {
        u - 4294967296
    } else {
        u
    };
    s as i32
}

fn hex_dump_of(bytes: &[u8]) -> (r: String)
    ensures
        r@ == hex_dump(bytes@),
{
    let mut out = String::new();
    let mut i: usize = 0;
    while i < bytes.len()
        invariant
            i <= bytes.len(),
            out@ == hex_dump(bytes@.take(i as int)),
        decreases bytes.len() - i,
    {
        let ghost before = out@;
        if i > 0 {
            push_char(&mut out, ' ');
        }
        push_hex_byte(&mut out, bytes[i]);
        proof {
            let t = bytes@.take(i + 1);
            assert(t.drop_last() =~= bytes@.take(i as int));
            assert(out@ =~= hex_dump(t));
        }
        i = i + 1;
    }
    assert(bytes@.take(bytes.len() as int) =~= bytes@);
    out
}

/// Detects the payload's format and renders it for display.
///
/// A Confluent-framed payload is Avro: with a registry it is shown as the
/// Avro decoder shows it, without one as a hint naming its schema id.
/// Otherwise UTF-8 text that is a JSON document is JSON, pretty-printed;
/// other UTF-8 text is shown as it is, and anything else as a hex
/// dump under its size.
pub fn auto_decode_value(bytes: &[u8], registry: Option<&SchemaRegistryClient>) -> (r: (
    String,
    DecoderFormat,
))
    ensures
        is_confluent_framed(bytes@) ==> r.1 == DecoderFormat::Avro,
        is_confluent_framed(bytes@) && registry is Some ==> r.0@ == avro_placeholder(
            bytes@.len(),
        ),
        is_confluent_framed(bytes@) && registry is None ==> r.0@ == schema_id_hint(bytes@),
        !is_confluent_framed(bytes@) && valid_utf8(bytes@) && json_accepts(bytes@) ==> r.1
            == DecoderFormat::Json && r.0@ == json_pretty(bytes@),
        !is_confluent_framed(bytes@) && valid_utf8(bytes@) && !json_accepts(bytes@) ==> r.1
            == DecoderFormat::Text && r.0@ == decode_utf8(bytes@),
        !is_confluent_framed(bytes@) && !valid_utf8(bytes@) ==> r.1 == DecoderFormat::Text
            && r.0@ == binary_dump(bytes@),
{
    if bytes.len() >= 5 && bytes[0] == 0 {
        if registry.is_some() {
            return (avro::AvroDecoder.decode_value(bytes), DecoderFormat::Avro);
        }
        let schema_id = schema_id_of(bytes);
        let mut s = owned("<Confluent Avro schema_id=");
        push_signed_decimal(&mut s, schema_id as i64);
        push_str(&mut s, " — configure Schema Registry to decode>");
        return (s, DecoderFormat::Avro);
    }
    match utf8_str(bytes) {
        Some(text) => {
            match try_pretty_json(bytes) {
                Some(p) => (p, DecoderFormat::Json),
                None => (owned(text), DecoderFormat::Text),
            }
        },
        None => {
            let mut s = owned("<binary ");
            push_decimal(&mut s, bytes.len() as u64);
            push_str(&mut s, " bytes>\n");
            let hex = hex_dump_of(bytes);
            push_str(&mut s, hex.as_str());
            (s, DecoderFormat::Text)
        },
    }
}

} // verus!
