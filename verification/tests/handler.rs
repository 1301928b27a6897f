use std::path::PathBuf;
use v_kafka::app::{App, InputMode, View};
use v_kafka::config::cluster::{AuthMechanism, ClusterConfig, SaslConfig, SslConfig};
use v_kafka::config::profile::ProfileManager;
use v_kafka::events::handler::{Action, KeyCode, KeyPress};
use v_kafka::kafka::metadata::{cached_metadata, topic_meta, PartitionMeta};

fn cluster(name: &str) -> ClusterConfig {
    ClusterConfig {
        name: name.to_string(),
        bootstrap_servers: "k:9092".to_string(),
        auth: AuthMechanism::Plaintext,
        ssl: SslConfig::default(),
        sasl: SaslConfig::default(),
        schema_registry: None,
        client_id: None,
        group_id: None,
    }
}

fn app_with(names: &[&str]) -> App {
    App::new(ProfileManager {
        profiles: names.iter().map(|n| cluster(n)).collect(),
        config_path: PathBuf::new(),
    })
}

fn key(c: char) -> KeyPress {
    KeyPress { code: KeyCode::Char(c), ctrl: false }
}

fn code(code: KeyCode) -> KeyPress {
    KeyPress { code, ctrl: false }
}

fn part(id: i32) -> PartitionMeta {
    PartitionMeta { id, leader: 1, replicas: vec![1], isr: vec![1], error: None, low_watermark: None, high_watermark: None }
}

fn on_topics() -> App {
    let mut app = app_with(&["prod"]);
    let meta = cached_metadata(
        vec![],
        vec![
            topic_meta("orders".to_string(), vec![part(0), part(1), part(2)]),
            topic_meta("payments".to_string(), vec![part(5)]),
            topic_meta("orders-dlq".to_string(), vec![]),
        ],
    );
    app.on_connected(cluster("prod"), meta);
    app
}

#[test]
fn ctrl_c_quits_immediately() {
    let mut app = app_with(&[]);
    app.input_mode = InputMode::Editing;
    assert_eq!(app.handle_key_event(KeyPress { code: KeyCode::Char('c'), ctrl: true }), Action::Idle);
    assert!(app.should_quit);
}

#[test]
fn any_key_dismisses_error() {
    let mut app = app_with(&["a"]);
    app.set_error("bad".to_string());
    app.handle_key_event(key('q'));
    assert_eq!(app.error_message, None);
    assert!(!app.should_quit);
}

#[test]
fn q_quits_at_root_and_goes_back_elsewhere() {
    let mut app = on_topics();
    app.handle_key_event(code(KeyCode::Esc));
    assert_eq!(app.current_view, View::ClusterList);
    assert!(!app.should_quit);
    app.handle_key_event(key('q'));
    assert!(app.should_quit);
}

#[test]
fn help_opens_and_any_key_closes() {
    let mut app = on_topics();
    app.handle_key_event(key('?'));
    assert_eq!(app.current_view, View::Help);
    app.handle_key_event(key('x'));
    assert_eq!(app.current_view, View::TopicList);
}

#[test]
fn cluster_list_keys() {
    let mut app = app_with(&["a", "b"]);
    app.handle_key_event(key('j'));
    app.handle_key_event(key('j'));
    assert_eq!(app.list_cursor, 1);
    app.handle_key_event(key('k'));
    app.handle_key_event(code(KeyCode::Up));
    assert_eq!(app.list_cursor, 0);
    assert_eq!(app.handle_key_event(code(KeyCode::Enter)), Action::Connect { index: 0 });
    assert_eq!(app.status_message.as_deref(), Some("Connecting to a…"));
    assert_eq!(app.handle_key_event(key('n')), Action::Idle);
    assert_eq!(app.current_view, View::ClusterForm);
    assert_eq!(app.input_mode, InputMode::Editing);
    assert_eq!(app.cluster_form_edit_index, None);
    app.handle_key_event(code(KeyCode::Esc));
    assert_eq!(app.current_view, View::ClusterList);
    assert_eq!(app.input_mode, InputMode::Normal);
    assert_eq!(app.handle_key_event(key('e')), Action::Idle);
    assert_eq!(app.current_view, View::ClusterForm);
    assert_eq!(app.cluster_form_edit_index, Some(0));
    assert_eq!(app.cluster_form.name, "a");
    let mut empty = app_with(&[]);
    assert_eq!(empty.handle_key_event(code(KeyCode::Enter)), Action::Idle);
    assert_eq!(empty.handle_key_event(key('e')), Action::Idle);
    assert_eq!(empty.current_view, View::ClusterList);
}

#[test]
fn confirm_cancel_keeps_profiles() {
    let mut app = app_with(&["a"]);
    app.handle_key_event(key('d'));
    app.handle_key_event(key('N'));
    assert_eq!(app.input_mode, InputMode::Normal);
    assert_eq!(app.profile_manager.profiles.len(), 1);
    assert_eq!(app.status_message, None);
}

#[test]
fn accepts_key_guards_cursor() {
    let mut app = app_with(&["a"]);
    app.list_cursor = 3;
    assert!(!app.accepts_key(code(KeyCode::Enter)));
    assert!(!app.accepts_key(key('d')));
    assert!(app.accepts_key(key('j')));
    app.list_cursor = 0;
    assert!(app.accepts_key(code(KeyCode::Enter)));
}

#[test]
fn topic_list_filter_and_open() {
    let mut app = on_topics();
    app.handle_key_event(key('/'));
    assert_eq!(app.input_mode, InputMode::Editing);
    for c in "ordx".chars() {
        app.handle_key_event(key(c));
    }
    app.handle_key_event(code(KeyCode::Backspace));
    assert_eq!(app.search_input, "ord");
    app.handle_key_event(code(KeyCode::Enter));
    assert_eq!(app.filter, "ord");
    assert_eq!(app.input_mode, InputMode::Normal);
    assert_eq!(app.visible_topic_indices(), vec![0, 2]);
    app.handle_key_event(key('j'));
    app.handle_key_event(key('j'));
    assert_eq!(app.list_cursor, 1);
    assert_eq!(app.handle_key_event(code(KeyCode::Enter)), Action::FetchWatermarks);
    assert_eq!(app.selected_topic.as_deref(), Some("orders-dlq"));
    assert_eq!(app.current_view, View::PartitionDetail);
    assert!(app.watermarks.is_empty());
}

#[test]
fn topic_list_navigation_keys() {
    let mut app = on_topics();
    assert_eq!(app.handle_key_event(key('r')), Action::RefreshMetadata);
    app.handle_key_event(key('b'));
    assert_eq!(app.current_view, View::BrokerInfo);
    assert_eq!(app.handle_key_event(key('r')), Action::RefreshMetadata);
    app.handle_key_event(key('j'));
    assert_eq!(app.list_cursor, 0);
    app.handle_key_event(key('q'));
    for (c, v) in [('g', View::ConsumerGroups), ('s', View::SchemaRegistry), ('a', View::AclManagement), ('p', View::ProducerForm)] {
        app.handle_key_event(key(c));
        assert_eq!(app.current_view, v);
        app.handle_key_event(key('q'));
        assert_eq!(app.current_view, View::TopicList);
    }
}

#[test]
fn partition_detail_selects_partition() {
    let mut app = on_topics();
    app.handle_key_event(code(KeyCode::Enter));
    assert_eq!(app.selected_topic.as_deref(), Some("orders"));
    for _ in 0..5 {
        app.handle_key_event(key('j'));
    }
    assert_eq!(app.list_cursor, 2);
    assert_eq!(app.handle_key_event(key('r')), Action::RefreshWatermarks);
    app.handle_key_event(code(KeyCode::Enter));
    assert_eq!(app.selected_partition, Some(2));
    assert_eq!(app.current_view, View::MessageBrowser);
}

#[test]
fn message_views() {
    let mut app = on_topics();
    app.navigate_to(View::MessageBrowser);
    app.handle_key_event(key('j'));
    app.handle_key_event(key('j'));
    assert_eq!(app.list_cursor, 2);
    app.handle_key_event(key('o'));
    assert_eq!(app.input_mode, InputMode::Editing);
    assert_eq!(app.status_message.as_deref(), Some("Jump to offset: "));
    app.handle_key_event(code(KeyCode::Esc));
    assert_eq!(app.input_mode, InputMode::Normal);
    app.handle_key_event(code(KeyCode::Enter));
    assert_eq!(app.current_view, View::MessageDetail);
    app.handle_key_event(code(KeyCode::Down));
    app.handle_key_event(code(KeyCode::Down));
    app.handle_key_event(code(KeyCode::Up));
    assert_eq!(app.scroll_offset, 1);
}

#[test]
fn consumer_group_views() {
    let mut app = on_topics();
    app.navigate_to(View::ConsumerGroups);
    app.handle_key_event(key('r'));
    assert_eq!(app.status_message.as_deref(), Some("Refreshing consumer groups…"));
    app.handle_key_event(code(KeyCode::Enter));
    assert_eq!(app.current_view, View::ConsumerGroupDetail);
    app.handle_key_event(key('R'));
    assert_eq!(app.input_mode, InputMode::Confirm);
    assert_eq!(app.status_message.as_deref(), Some("Reset offsets to earliest? (y/n)"));
    assert_eq!(app.handle_key_event(key('y')), Action::Idle);
    assert_eq!(app.input_mode, InputMode::Normal);
    assert_eq!(app.status_message, None);
}
