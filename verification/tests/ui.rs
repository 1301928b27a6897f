use v_kafka::config::cluster::AuthMechanism;
use v_kafka::kafka::metadata::topic_meta;
use v_kafka::ui::components::broker_info::user_topics;
use v_kafka::ui::components::cluster_list::auth_badge;
use v_kafka::ui::components::message_list::{key_cell, key_cell_fits};
use v_kafka::ui::components::partition_view::{join_ids, message_count, partition_offsets};
use v_kafka::ui::layout::{centered_rect, Rect};

#[test]
fn badges() {
    assert_eq!(auth_badge(&AuthMechanism::Plaintext), "PLAINTEXT");
    assert_eq!(auth_badge(&AuthMechanism::Ssl), "SSL/TLS");
    assert_eq!(auth_badge(&AuthMechanism::SaslPlain), "SASL/PLAIN");
    assert_eq!(auth_badge(&AuthMechanism::SaslScramSha256), "SCRAM-256");
    assert_eq!(auth_badge(&AuthMechanism::SaslScramSha512), "SCRAM-512");
    assert_eq!(auth_badge(&AuthMechanism::Kerberos), "GSSAPI");
}

#[test]
fn centered() {
    let area = Rect { x: 2, y: 1, width: 100, height: 30 };
    assert_eq!(centered_rect(60, 5, area), Rect { x: 22, y: 13, width: 60, height: 5 });
    assert_eq!(centered_rect(200, 50, area), Rect { x: 2, y: 1, width: 100, height: 30 });
}

#[test]
fn partition_numbers() {
    let rows = vec![(0, 5, 9), (1, -1, -1)];
    assert_eq!(partition_offsets(&rows, 0), (5, 9));
    assert_eq!(partition_offsets(&rows, 7), (-1, -1));
    assert_eq!(message_count(5, 9), 4);
    assert_eq!(message_count(-1, -1), 0);
    assert_eq!(message_count(9, 5), 0);
    assert_eq!(join_ids(&vec![1, 2, 30], ", "), "1, 2, 30");
    assert_eq!(join_ids(&vec![-4], ","), "-4");
    assert_eq!(join_ids(&vec![], ","), "");
}

#[test]
fn user_topic_count() {
    let ts = vec![topic_meta("__a".to_string(), vec![]), topic_meta("b".to_string(), vec![])];
    assert_eq!(user_topics(&ts), 1);
}

#[test]
fn key_column() {
    assert_eq!(key_cell("k"), format!("k{}", " ".repeat(19)));
    assert_eq!(key_cell("abcdefghijklmnopqrstuvwxyz"), "abcdefghijklmnopqrs…");
    assert_eq!(key_cell("12345678901234567890"), "12345678901234567890");
    let long = "ééééééééééééé";
    assert!(!key_cell_fits(long));
    assert!(key_cell_fits("short"));
}
