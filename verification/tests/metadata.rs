use v_kafka::kafka::metadata::{
    cached_metadata, topic_meta, watermark_table, BrokerMeta, CachedMetadata, PartitionMeta,
};

fn part(id: i32, replicas: Vec<i32>) -> PartitionMeta {
    PartitionMeta {
        id,
        leader: 1,
        replicas: replicas.clone(),
        isr: replicas,
        error: None,
        low_watermark: None,
        high_watermark: None,
    }
}

#[test]
fn topic_counts() {
    let t = topic_meta("orders".to_string(), vec![part(0, vec![1, 2, 3]), part(1, vec![2])]);
    assert_eq!(t.partition_count(), 2);
    assert_eq!(t.replication_factor(), 3);
    assert!(!t.is_internal);
    let empty = topic_meta("__consumer_offsets".to_string(), vec![]);
    assert!(empty.is_internal);
    assert_eq!(empty.replication_factor(), 0);
    assert!(!topic_meta("_single".to_string(), vec![]).is_internal);
}

#[test]
fn partition_lag() {
    let mut p = part(0, vec![]);
    assert_eq!(p.lag(), None);
    p.low_watermark = Some(10);
    assert_eq!(p.lag(), None);
    p.high_watermark = Some(25);
    assert_eq!(p.lag(), Some(15));
}

#[test]
fn metadata_cache() {
    let m = cached_metadata(vec![BrokerMeta { id: 1, host: "h".to_string(), port: 9092 }], vec![]);
    assert_eq!(m.controller_id, -1);
    assert_eq!(m.brokers.len(), 1);
    let d = CachedMetadata::default();
    assert_eq!(d.controller_id, 0);
    assert!(d.topics.is_empty());
}

#[test]
fn watermark_table_sorted_with_failures() {
    let rows = watermark_table(vec![(2, Some((5, 9))), (0, None), (1, Some((0, 3)))]);
    assert_eq!(rows, vec![(0, -1, -1), (1, 0, 3), (2, 5, 9)]);
    assert!(watermark_table(vec![]).is_empty());
}
