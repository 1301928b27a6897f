use v_kafka::config::cluster::{AuthMechanism, ClusterConfig, SaslConfig, SchemaRegistryConfig, SslConfig};
use v_kafka::config::profile::ProfileManager;
use std::path::PathBuf;

fn cluster(name: &str, auth: AuthMechanism) -> ClusterConfig {
    ClusterConfig {
        name: name.to_string(),
        bootstrap_servers: "b1:9092,b2:9092".to_string(),
        auth,
        ssl: SslConfig::default(),
        sasl: SaslConfig::default(),
        schema_registry: None,
        client_id: None,
        group_id: None,
    }
}

fn pairs(v: &[(&str, &str)]) -> Vec<(String, String)> {
    v.iter().map(|(k, v)| (k.to_string(), v.to_string())).collect()
}

#[test]
fn plaintext_entries() {
    let c = cluster("local", AuthMechanism::Plaintext);
    assert_eq!(
        c.to_rdkafka_config(),
        pairs(&[
            ("bootstrap.servers", "b1:9092,b2:9092"),
            ("client.id", "v-kafka"),
            ("security.protocol", "plaintext"),
        ])
    );
}

#[test]
fn ssl_entries_include_paths_and_verification() {
    let mut c = cluster("tls", AuthMechanism::Ssl);
    c.client_id = Some("me".to_string());
    c.ssl = SslConfig {
        ca_cert_path: Some("/ca.pem".to_string()),
        client_cert_path: None,
        client_key_path: Some("/key.pem".to_string()),
        client_key_password: Some("pw".to_string()),
        verify_hostname: true,
    };
    assert_eq!(
        c.to_rdkafka_config(),
        pairs(&[
            ("bootstrap.servers", "b1:9092,b2:9092"),
            ("client.id", "me"),
            ("security.protocol", "ssl"),
            ("ssl.ca.location", "/ca.pem"),
            ("ssl.key.location", "/key.pem"),
            ("ssl.key.password", "pw"),
            ("enable.ssl.certificate.verification", "true"),
        ])
    );
}

#[test]
fn sasl_plain_entries() {
    let mut c = cluster("sasl", AuthMechanism::SaslPlain);
    c.sasl.username = Some("alice".to_string());
    c.sasl.password = Some("secret".to_string());
    assert_eq!(
        c.to_rdkafka_config(),
        pairs(&[
            ("bootstrap.servers", "b1:9092,b2:9092"),
            ("client.id", "v-kafka"),
            ("security.protocol", "sasl_plaintext"),
            ("sasl.mechanism", "PLAIN"),
            ("sasl.username", "alice"),
            ("sasl.password", "secret"),
        ])
    );
}

#[test]
fn scram_entries_have_ssl_then_sasl() {
    let mut c = cluster("scram", AuthMechanism::SaslScramSha512);
    c.sasl.username = Some("u".to_string());
    let cfg = c.to_rdkafka_config();
    assert_eq!(
        cfg,
        pairs(&[
            ("bootstrap.servers", "b1:9092,b2:9092"),
            ("client.id", "v-kafka"),
            ("security.protocol", "sasl_ssl"),
            ("sasl.mechanism", "SCRAM-SHA-512"),
            ("enable.ssl.certificate.verification", "false"),
            ("sasl.username", "u"),
        ])
    );
    let c256 = cluster("scram256", AuthMechanism::SaslScramSha256);
    assert_eq!(c256.to_rdkafka_config()[3], ("sasl.mechanism".to_string(), "SCRAM-SHA-256".to_string()));
}

#[test]
fn kerberos_service_name_defaults_to_kafka() {
    let mut c = cluster("krb", AuthMechanism::Kerberos);
    c.sasl.kerberos_keytab = Some("/k.keytab".to_string());
    assert_eq!(
        c.to_rdkafka_config(),
        pairs(&[
            ("bootstrap.servers", "b1:9092,b2:9092"),
            ("client.id", "v-kafka"),
            ("security.protocol", "sasl_plaintext"),
            ("sasl.mechanism", "GSSAPI"),
            ("sasl.kerberos.service.name", "kafka"),
            ("sasl.kerberos.keytab", "/k.keytab"),
        ])
    );
    c.sasl.kerberos_service_name = Some("kfk".to_string());
    c.sasl.kerberos_principal = Some("me@REALM".to_string());
    let cfg = c.to_rdkafka_config();
    assert_eq!(cfg[4].1, "kfk");
    assert_eq!(cfg[5], ("sasl.kerberos.principal".to_string(), "me@REALM".to_string()));
}

#[test]
fn auth_mechanism_defaults_to_plaintext() {
    assert_eq!(AuthMechanism::default(), AuthMechanism::Plaintext);
    let s = SslConfig::default();
    assert!(s.ca_cert_path.is_none() && !s.verify_hostname);
}

#[test]
fn profiles_add_and_remove() {
    let mut m = ProfileManager { profiles: Vec::new(), config_path: PathBuf::from("/tmp/x.toml") };
    m.add(cluster("a", AuthMechanism::Plaintext));
    m.add(cluster("b", AuthMechanism::Ssl));
    assert_eq!(m.profiles.len(), 2);
    assert!(!m.remove(5));
    assert_eq!(m.profiles.len(), 2);
    assert!(m.remove(0));
    assert_eq!(m.profiles.len(), 1);
    assert_eq!(m.profiles[0].name, "b");
    assert_eq!(m.config_path, PathBuf::from("/tmp/x.toml"));
}

#[test]
fn add_then_remove_last_restores() {
    let mut m = ProfileManager { profiles: vec![cluster("a", AuthMechanism::Plaintext)], config_path: PathBuf::new() };
    m.add(cluster("z", AuthMechanism::Kerberos));
    assert!(m.remove(1));
    assert_eq!(m.profiles.len(), 1);
    assert_eq!(m.profiles[0].name, "a");
}

#[test]
fn schema_registry_config_holds_credentials() {
    let r = SchemaRegistryConfig { url: "http://sr".to_string(), username: None, password: None };
    assert_eq!(r.url, "http://sr");
}

#[test]
fn configured_group_id_is_sent() {
    let mut c = cluster("acl", AuthMechanism::Plaintext);
    c.group_id = Some("my-team-group".to_string());
    assert_eq!(
        c.to_rdkafka_config(),
        pairs(&[
            ("bootstrap.servers", "b1:9092,b2:9092"),
            ("client.id", "v-kafka"),
            ("group.id", "my-team-group"),
            ("security.protocol", "plaintext"),
        ])
    );
}
