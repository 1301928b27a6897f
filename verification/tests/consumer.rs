use v_kafka::kafka::consumer::{
    keep_polling, reached_high_watermark, resolved_start, start_position, KafkaMessage,
    StartPosition, PAGE_SIZE,
};

fn msg(key: Option<&[u8]>, payload: Option<&[u8]>) -> KafkaMessage {
    KafkaMessage {
        topic: "t".to_string(),
        partition: 0,
        offset: 7,
        key: key.map(|k| k.to_vec()),
        payload: payload.map(|p| p.to_vec()),
        timestamp: None,
        headers: Vec::new(),
    }
}

#[test]
fn key_display_cases() {
    assert_eq!(msg(None, None).key_display(), "(null)");
    assert_eq!(msg(Some(b"user-1"), None).key_display(), "user-1");
    assert_eq!(msg(Some(&[0xc3, 0x28]), None).key_display(), "<binary 2B>");
}

#[test]
fn value_preview_collapses_and_cuts() {
    assert_eq!(msg(None, None).value_preview(10), "(null)");
    let m = msg(None, Some(b"  {\n  \"a\":\t1 }  "));
    assert!(m.value_preview_fits(60));
    assert_eq!(m.value_preview(60), "{ \"a\": 1 }");
    assert_eq!(m.value_preview(4), "{ \"a…");
    let bin = msg(None, Some(&[0xff, 0xfe]));
    assert_eq!(bin.value_preview(60), "<binary 2B>");
}

#[test]
fn value_preview_refuses_cut_inside_character() {
    let m = msg(None, Some("héllo".as_bytes()));
    assert!(!m.value_preview_fits(2));
    assert!(m.value_preview_fits(3));
    assert_eq!(m.value_preview(3), "hé…");
}

#[test]
fn value_pretty_cases() {
    assert_eq!(msg(None, None).value_pretty(), "(null)");
    assert_eq!(msg(None, Some(br#"{"x":null}"#)).value_pretty(), "{\n  \"x\": null\n}");
    assert_eq!(msg(None, Some(b"just text")).value_pretty(), "just text");
    assert_eq!(msg(None, Some(&[0x80, 0x81, 0x82])).value_pretty(), "<binary 3 bytes>");
}

#[test]
fn fetch_decisions() {
    assert_eq!(PAGE_SIZE, 50);
    assert_eq!(start_position(-1), StartPosition::Beginning);
    assert_eq!(start_position(-2), StartPosition::End);
    assert_eq!(start_position(42), StartPosition::At(42));
    assert_eq!(start_position(-3), StartPosition::At(-3));
    assert!(keep_polling(0, 50, false));
    assert!(!keep_polling(50, 50, false));
    assert!(!keep_polling(3, 50, true));
    assert!(reached_high_watermark(9, 10));
    assert!(!reached_high_watermark(8, 10));
    assert!(!reached_high_watermark(100, 0));
    assert_eq!(resolved_start(Some(5)), Some(5));
    assert_eq!(resolved_start(Some(-1)), None);
    assert_eq!(resolved_start(None), None);
}
