use v_kafka::decoder::avro::AvroDecoder;
use v_kafka::decoder::json::{try_pretty_json, JsonDecoder};
use v_kafka::decoder::protobuf::ProtobufDecoder;
use v_kafka::decoder::text::TextDecoder;
use v_kafka::decoder::{auto_decode_value, Decoder, DecoderFormat};
use v_kafka::kafka::schema_registry::SchemaRegistryClient;

#[test]
fn text_decoder_replaces_bad_bytes() {
    assert_eq!(TextDecoder.decode_value(b"hello"), "hello");
    assert_eq!(TextDecoder.decode_key(&[0x61, 0xff, 0x62]), "a\u{fffd}b");
    assert_eq!(TextDecoder.format(), DecoderFormat::Text);
}

#[test]
fn json_decoder_pretty_prints() {
    assert_eq!(JsonDecoder.decode_value(br#"{"a":1}"#), "{\n  \"a\": 1\n}");
    assert_eq!(JsonDecoder.decode_key(b"not json"), "not json");
    assert_eq!(JsonDecoder.format(), DecoderFormat::Json);
    assert_eq!(try_pretty_json(b"[1,2]"), Some("[\n  1,\n  2\n]".to_string()));
    assert_eq!(try_pretty_json(b"{"), None);
}

#[test]
fn avro_and_protobuf_show_sizes() {
    assert_eq!(AvroDecoder.decode_value(&[1, 2, 3]), "<avro 3 bytes>");
    assert_eq!(AvroDecoder.decode_key(&[]), "<avro 0 bytes>");
    assert_eq!(ProtobufDecoder.decode_value(&[0; 12]), "<protobuf 12 bytes>");
    assert_eq!(AvroDecoder.format(), DecoderFormat::Avro);
    assert_eq!(ProtobufDecoder.format(), DecoderFormat::Protobuf);
}

#[test]
fn auto_decode_confluent_without_registry() {
    let (s, f) = auto_decode_value(&[0, 0, 0, 1, 0x2c, 9, 9], None);
    assert_eq!(f, DecoderFormat::Avro);
    assert_eq!(s, "<Confluent Avro schema_id=300 — configure Schema Registry to decode>");
    let (s, _) = auto_decode_value(&[0, 0xff, 0xff, 0xff, 0xff], None);
    assert_eq!(s, "<Confluent Avro schema_id=-1 — configure Schema Registry to decode>");
}

#[test]
fn auto_decode_confluent_with_registry() {
    let reg = SchemaRegistryClient::new("http://sr".to_string(), None, None);
    let (s, f) = auto_decode_value(&[0, 0, 0, 0, 7, 1], Some(&reg));
    assert_eq!(f, DecoderFormat::Avro);
    assert_eq!(s, "<avro 6 bytes>");
}

#[test]
fn auto_decode_json_text_and_binary() {
    let (s, f) = auto_decode_value(br#"{"k": [true]}"#, None);
    assert_eq!(f, DecoderFormat::Json);
    assert_eq!(s, "{\n  \"k\": [\n    true\n  ]\n}");
    let (s, f) = auto_decode_value(b"plain words", None);
    assert_eq!(f, DecoderFormat::Text);
    assert_eq!(s, "plain words");
    let (s, f) = auto_decode_value(&[0xff, 0x0a, 0x00], None);
    assert_eq!(f, DecoderFormat::Text);
    assert_eq!(s, "<binary 3 bytes>\nff 0a 00");
    let (s, f) = auto_decode_value(&[0, 1, 2], None);
    assert_eq!(f, DecoderFormat::Text);
    assert_eq!(s, "\u{0}\u{1}\u{2}");
    let (s, _) = auto_decode_value(&[], None);
    assert_eq!(s, "");
}
