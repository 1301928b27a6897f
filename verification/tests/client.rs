use v_kafka::config::cluster::{AuthMechanism, ClusterConfig, SaslConfig, SslConfig};
use v_kafka::kafka::client::{group_config, KafkaClient};

fn cluster() -> ClusterConfig {
    ClusterConfig {
        name: "c".to_string(),
        bootstrap_servers: "k:9092".to_string(),
        auth: AuthMechanism::SaslPlain,
        ssl: SslConfig::default(),
        sasl: SaslConfig { username: Some("u".to_string()), ..SaslConfig::default() },
        schema_registry: None,
        client_id: Some("cid".to_string()),
        group_id: None,
    }
}

#[test]
fn client_settings_follow_cluster() {
    let c = KafkaClient::new(&cluster());
    assert_eq!(c.config.get("bootstrap.servers"), Some("k:9092"));
    assert_eq!(c.config.get("client.id"), Some("cid"));
    assert_eq!(c.config.get("security.protocol"), Some("sasl_plaintext"));
    assert_eq!(c.config.get("sasl.mechanism"), Some("PLAIN"));
    assert_eq!(c.config.get("sasl.username"), Some("u"));
    assert_eq!(c.config.get("sasl.password"), None);
}

#[test]
fn consumer_and_group_configs_never_auto_commit() {
    let c = KafkaClient::new(&cluster());
    let cc = c.consumer_config("team");
    assert_eq!(cc.get("group.id"), Some("team"));
    assert_eq!(cc.get("enable.auto.commit"), Some("false"));
    assert_eq!(cc.get("auto.offset.reset"), Some("earliest"));
    assert_eq!(cc.get("bootstrap.servers"), Some("k:9092"));
    let gc = group_config(&c.config, "g2");
    assert_eq!(gc.get("group.id"), Some("g2"));
    assert_eq!(gc.get("enable.auto.commit"), Some("false"));
    assert_eq!(gc.get("auto.offset.reset"), None);
    assert_eq!(c.config.get("group.id"), None);
}

#[test]
fn configured_group_id_reaches_client_settings() {
    let mut cl = cluster();
    cl.group_id = Some("team-a".to_string());
    let c = KafkaClient::new(&cl);
    assert_eq!(c.config.get("group.id"), Some("team-a"));
    assert_eq!(c.consumer_config("other").get("group.id"), Some("other"));
}
