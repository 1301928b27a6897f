use std::path::PathBuf;
use v_kafka::app::{App, InputMode, View};
use v_kafka::config::cluster::{AuthMechanism, ClusterConfig, SaslConfig, SslConfig};
use v_kafka::config::profile::ProfileManager;
use v_kafka::events::handler::{Action, KeyCode, KeyPress};
use v_kafka::kafka::metadata::{cached_metadata, topic_meta, BrokerMeta, PartitionMeta};

fn cluster(name: &str) -> ClusterConfig {
    ClusterConfig {
        name: name.to_string(),
        bootstrap_servers: "k:9092".to_string(),
        auth: AuthMechanism::Plaintext,
        ssl: SslConfig::default(),
        sasl: SaslConfig::default(),
        schema_registry: None,
        client_id: None,
        group_id: None,
    }
}

fn app_with(names: &[&str]) -> App {
    App::new(ProfileManager {
        profiles: names.iter().map(|n| cluster(n)).collect(),
        config_path: PathBuf::from("/tmp/p.toml"),
    })
}

fn key(c: char) -> KeyPress {
    KeyPress { code: KeyCode::Char(c), ctrl: false }
}

fn code(code: KeyCode) -> KeyPress {
    KeyPress { code, ctrl: false }
}

fn part(id: i32) -> PartitionMeta {
    PartitionMeta { id, leader: 1, replicas: vec![1], isr: vec![1], error: None, low_watermark: None, high_watermark: None }
}

fn connected() -> App {
    let mut app = app_with(&["prod"]);
    let meta = cached_metadata(
        vec![BrokerMeta { id: 1, host: "h".to_string(), port: 9092 }],
        vec![
            topic_meta("orders".to_string(), vec![part(0), part(1)]),
            topic_meta("__consumer_offsets".to_string(), vec![part(0)]),
            topic_meta("payments".to_string(), vec![part(0)]),
        ],
    );
    app.on_connected(cluster("prod"), meta);
    app
}

#[test]
fn new_app_starts_on_cluster_list() {
    let app = app_with(&["a"]);
    assert!(!app.should_quit);
    assert_eq!(app.current_view, View::ClusterList);
    assert_eq!(app.input_mode, InputMode::Normal);
    assert!(app.view_stack.is_empty());
    assert_eq!(app.profile_manager.profiles.len(), 1);
}

#[test]
fn navigation_round_trip() {
    let mut app = app_with(&[]);
    app.list_cursor = 4;
    app.scroll_offset = 9;
    app.navigate_to(View::TopicList);
    assert_eq!(app.current_view, View::TopicList);
    assert_eq!(app.view_stack, vec![View::ClusterList]);
    assert_eq!((app.list_cursor, app.scroll_offset), (0, 0));
    app.navigate_back();
    assert_eq!(app.current_view, View::ClusterList);
    assert!(app.view_stack.is_empty());
    app.navigate_back();
    assert_eq!(app.current_view, View::ClusterList);
}

#[test]
fn status_and_error_messages() {
    let mut app = app_with(&[]);
    app.set_status("hello".to_string());
    app.set_error("boom".to_string());
    assert_eq!(app.status_message.as_deref(), Some("hello"));
    assert_eq!(app.error_message.as_deref(), Some("boom"));
    app.on_tick();
    assert_eq!(app.status_message.as_deref(), Some("hello"));
}

#[test]
fn connecting_shows_topic_list() {
    let app = connected();
    assert_eq!(app.current_view, View::TopicList);
    assert_eq!(app.status_message.as_deref(), Some("Connected — 1 broker(s), 2 topics"));
    assert_eq!(app.active_cluster.as_ref().unwrap().cluster.name, "prod");
    assert_eq!(app.metadata.controller_id, -1);
}

#[test]
fn connect_and_refresh_failures() {
    let mut app = app_with(&["x"]);
    app.on_connect_failed("timeout");
    assert_eq!(app.error_message.as_deref(), Some("Connection failed: timeout"));
    app.on_refresh_failed("gone");
    assert_eq!(app.error_message.as_deref(), Some("Refresh failed: gone"));
    app.on_watermarks_failed("nope");
    assert_eq!(app.status_message.as_deref(), Some("Watermark fetch failed: nope"));
    app.begin_refresh();
    assert_eq!(app.status_message.as_deref(), Some("Refreshing…"));
}

#[test]
fn metadata_refresh_counts_user_topics() {
    let mut app = connected();
    let meta = cached_metadata(vec![], vec![topic_meta("__x".to_string(), vec![])]);
    app.on_metadata_refreshed(meta);
    assert_eq!(app.status_message.as_deref(), Some("Refreshed — 0 brokers, 0 topics"));
    assert_eq!(app.metadata.topics.len(), 1);
}

#[test]
fn watermarks_recorded_on_topic() {
    let mut app = connected();
    app.on_topic_watermarks("orders", vec![(1, 4, 8)]);
    assert_eq!(app.watermarks, vec![(1, 4, 8)]);
    let t = &app.metadata.topics[0];
    assert_eq!(t.partitions[0].low_watermark, None);
    assert_eq!(t.partitions[1].low_watermark, Some(4));
    assert_eq!(t.partitions[1].high_watermark, Some(8));
    assert_eq!(app.metadata.topics[2].partitions[0].low_watermark, None);
    app.on_offsets_refreshed(vec![(0, 1, 2)]);
    assert_eq!(app.watermarks, vec![(0, 1, 2)]);
    assert_eq!(app.status_message.as_deref(), Some("Offsets refreshed"));
}

#[test]
fn delete_flow_with_save_result() {
    let mut app = app_with(&["a", "b"]);
    assert_eq!(app.handle_key_event(code(KeyCode::Down)), Action::Idle);
    assert_eq!(app.list_cursor, 1);
    app.handle_key_event(key('d'));
    assert_eq!(app.input_mode, InputMode::Confirm);
    assert_eq!(app.status_message.as_deref(), Some("Delete 'b'? (y/n)"));
    assert_eq!(app.handle_key_event(key('y')), Action::SaveProfiles);
    assert_eq!(app.profile_manager.profiles.len(), 1);
    assert_eq!(app.input_mode, InputMode::Normal);
    assert_eq!(app.status_message, None);
    app.finish_delete(None);
    assert_eq!(app.list_cursor, 0);
    app.finish_delete(Some("disk full"));
    assert_eq!(app.error_message.as_deref(), Some("Failed to delete: disk full"));
}
