use v_kafka::kafka::schema_registry::{
    base64_encode, basic_auth, default_schema_type, SchemaRegistryClient,
};

#[test]
fn base64_pads_partial_groups() {
    assert_eq!(base64_encode(b""), "");
    assert_eq!(base64_encode(b"f"), "Zg==");
    assert_eq!(base64_encode(b"fo"), "Zm8=");
    assert_eq!(base64_encode(b"foo"), "Zm9v");
    assert_eq!(base64_encode(b"foobar"), "Zm9vYmFy");
    assert_eq!(base64_encode(&[0xff, 0xfe, 0x00]), "//4A");
}

#[test]
fn basic_auth_header() {
    assert_eq!(basic_auth("Aladdin", "open sesame"), "Basic QWxhZGRpbjpvcGVuIHNlc2FtZQ==");
    assert_eq!(basic_auth("", ""), "Basic Og==");
}

#[test]
fn new_trims_trailing_slashes() {
    let c = SchemaRegistryClient::new("http://sr:8081///".to_string(), None, None);
    assert_eq!(c.url, "http://sr:8081");
    let c = SchemaRegistryClient::new("/".to_string(), None, None);
    assert_eq!(c.url, "");
    let c = SchemaRegistryClient::new("http://sr/x".to_string(), None, None);
    assert_eq!(c.url, "http://sr/x");
}

#[test]
fn requests_name_the_endpoints() {
    let c = SchemaRegistryClient::new(
        "https://sr/".to_string(),
        Some("u".to_string()),
        Some("p".to_string()),
    );
    let r = c.list_subjects();
    assert_eq!(r.url, "https://sr/subjects");
    assert_eq!(r.authorization.as_deref(), Some("Basic dTpw"));
    assert_eq!(c.list_versions("orders-value").url, "https://sr/subjects/orders-value/versions");
    assert_eq!(
        c.get_schema_version("orders-value", 3).url,
        "https://sr/subjects/orders-value/versions/3"
    );
    assert_eq!(
        c.get_latest_schema("orders-value").url,
        "https://sr/subjects/orders-value/versions/latest"
    );
    assert_eq!(c.get_schema_by_id(-42).url, "https://sr/schemas/ids/-42");
}

#[test]
fn no_authorization_without_both_credentials() {
    let c = SchemaRegistryClient::new("http://sr".to_string(), Some("u".to_string()), None);
    assert_eq!(c.authorization(), None);
    assert_eq!(c.get_request("/x").authorization, None);
}

#[test]
fn schema_type_defaults_to_avro() {
    assert_eq!(default_schema_type(), "AVRO");
}
