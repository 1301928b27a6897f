use v_kafka::kafka::consumer_group::{
    group_offset_table, visible_groups, GroupInfo, GroupPartitionOffset, OffsetReset,
};

fn g(id: &str) -> GroupInfo {
    GroupInfo { group_id: id.to_string(), state: "Stable".to_string(), protocol: "range".to_string(), members: 1 }
}

#[test]
fn lag_with_and_without_commit() {
    let mut o = GroupPartitionOffset {
        topic: "t".to_string(),
        partition: 0,
        committed_offset: -1,
        low_watermark: 10,
        high_watermark: 30,
    };
    assert_eq!(o.lag(), 20);
    o.committed_offset = 25;
    assert_eq!(o.lag(), 5);
    o.committed_offset = 40;
    assert_eq!(o.lag(), 0);
}

#[test]
fn reset_targets() {
    assert_eq!(OffsetReset::Earliest.target_offset(3, 9), 3);
    assert_eq!(OffsetReset::Latest.target_offset(3, 9), 9);
    assert_eq!(OffsetReset::Specific(5).target_offset(3, 9), 5);
    assert!(OffsetReset::Earliest.needs_watermarks());
    assert!(!OffsetReset::Specific(1).needs_watermarks());
}

#[test]
fn groups_listed_sorted_without_internal() {
    let v = visible_groups(vec![g("zeta"), g("_confluent"), g("alpha"), g("Beta"), g("alpha2")]);
    let ids: Vec<&str> = v.iter().map(|x| x.group_id.as_str()).collect();
    assert_eq!(ids, vec!["Beta", "alpha", "alpha2", "zeta"]);
}

#[test]
fn offset_table_sorted_with_defaults() {
    let rows = group_offset_table(vec![
        ("b".to_string(), 1, Some(4), Some((0, 10))),
        ("a".to_string(), 2, None, None),
        ("b".to_string(), 0, Some(-1001), Some((2, 3))),
    ]);
    let keys: Vec<(&str, i32)> = rows.iter().map(|r| (r.topic.as_str(), r.partition)).collect();
    assert_eq!(keys, vec![("a", 2), ("b", 0), ("b", 1)]);
    assert_eq!((rows[0].committed_offset, rows[0].low_watermark, rows[0].high_watermark), (-1, 0, 0));
    assert_eq!(rows[1].committed_offset, -1);
    assert_eq!(rows[2].committed_offset, 4);
    assert_eq!(rows[2].lag(), 6);
}
