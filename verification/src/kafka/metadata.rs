//! Cached cluster metadata as the views read it, and the partition offset
//! tables built from fetched watermarks.

use vstd::prelude::*;
use crate::text::{has_prefix, starts_with};

verus! {

broadcast use vstd::seq_lib::group_to_multiset_ensures;

/// Brokers and topics of the connected cluster.
#[derive(Debug, Clone)]
pub struct CachedMetadata {
    pub brokers: Vec<BrokerMeta>,
    pub topics: Vec<TopicMeta>,
    pub controller_id: i32,
}

impl Default for CachedMetadata {
    fn default() -> (r: Self)
        ensures
            r.brokers@.len() == 0,
            r.topics@.len() == 0,
            r.controller_id == 0,
    {
        CachedMetadata { brokers: Vec::new(), topics: Vec::new(), controller_id: 0 }
    }
}

/// One broker of the cluster.
#[derive(Debug, Clone)]
pub struct BrokerMeta {
    pub id: i32,
    pub host: String,
    pub port: i32,
}

/// One topic and its partitions.
#[derive(Debug, Clone)]
pub struct TopicMeta {
    pub name: String,
    pub partitions: Vec<PartitionMeta>,
    pub is_internal: bool,
}

impl TopicMeta {
    /// Number of partitions.
    pub fn partition_count(&self) -> (n: usize)
        ensures
            n == self.partitions@.len(),
    {
        self.partitions.len()
    }

    /// Number of replicas of the first partition, or 0 for a topic without partitions.
    pub fn replication_factor(&self) -> (n: usize)
        ensures
            n == (if self.partitions@.len() == 0 {
                0
            } else {
                self.partitions@[0].replicas@.len()
            }),
    {
        if self.partitions.len() == 0 {
            0
        } else {
            self.partitions[0].replicas.len()
        }
    }
}

/// One partition of a topic.
#[derive(Debug, Clone)]
pub struct PartitionMeta {
    pub id: i32,
    pub leader: i32,
    pub replicas: Vec<i32>,
    pub isr: Vec<i32>,
    pub error: Option<String>,
    /// Filled in separately from watermark queries
    pub low_watermark: Option<i64>,
    pub high_watermark: Option<i64>,
}

/// The number of offsets between the watermarks, when both are known.
pub open spec fn watermark_span(low: Option<i64>, high: Option<i64>) -> Option<int> {
    match (low, high) {
        (Some(l), Some(h)) => Some(h - l),
        _ => None,
    }
}

impl PartitionMeta {
    /// Offsets between the low and high watermark, when both are known.
    pub fn lag(&self) -> (r: Option<i64>)
        requires
            watermark_span(self.low_watermark, self.high_watermark) matches Some(d) ==> i64::MIN
                <= d <= i64::MAX,
        ensures
            r matches Some(d) ==> watermark_span(self.low_watermark, self.high_watermark) == Some(
                d as int,
            ),
            r is None <==> watermark_span(self.low_watermark, self.high_watermark) is None,
    {
        match (self.low_watermark, self.high_watermark) {
            (Some(low), Some(high)) => Some(high - low),
            _ => None,
        }
    }
}

/// Topics whose name starts with `__` are the cluster's own.
pub open spec fn is_internal_topic_name(name: Seq<char>) -> bool {
    has_prefix(name, "__"@)
}

/// A topic as fetched from the cluster; internal when its name starts with `__`.
pub fn topic_meta(name: String, partitions: Vec<PartitionMeta>) -> (t: TopicMeta)
    ensures
        t.name == name,
        t.partitions@ == partitions@,
        t.is_internal == is_internal_topic_name(name@),
{
    let is_internal = starts_with(name.as_str(), "__");
    TopicMeta { name, partitions, is_internal }
}

/// The metadata cache for fetched brokers and topics; the controller is not
/// reported and stays -1.
pub fn cached_metadata(brokers: Vec<BrokerMeta>, topics: Vec<TopicMeta>) -> (m: CachedMetadata)
    ensures
        m.brokers@ == brokers@,
        m.topics@ == topics@,
        m.controller_id == -1,
{
    CachedMetadata { brokers, topics, controller_id: -1 }
}

/// A watermark row `(partition, low, high)`; a partition whose watermarks could
/// not be fetched reads `(-1, -1)`.
pub open spec fn watermark_row(pid: i32, fetched: Option<(i64, i64)>) -> (i32, i64, i64) {
    match fetched {
        Some((low, high)) => (pid, low, high),
        None => (pid, -1i64, -1i64),
    }
}

/// Rows ordered by partition id.
pub open spec fn rows_by_partition(rows: Seq<(i32, i64, i64)>) -> bool {
    forall|i: int, j: int| 0 <= i < j < rows.len() ==> rows[i].0 <= rows[j].0
}

/// The watermark table of a topic: one row per fetched partition, ordered by
/// partition id.
pub fn watermark_table(fetched: Vec<(i32, Option<(i64, i64)>)>) -> (rows: Vec<(i32, i64, i64)>)
    ensures
        rows_by_partition(rows@),
        rows@.to_multiset() == fetched@.map_values(
            |f: (i32, Option<(i64, i64)>)| watermark_row(f.0, f.1),
        ).to_multiset(),
        rows@.len() == fetched@.len(),
        forall|k: int| 0 <= k < fetched@.len() ==> shows_watermarks(rows@, #[trigger] fetched@[k]),
{
    let ghost all = fetched@.map_values(|f: (i32, Option<(i64, i64)>)| watermark_row(f.0, f.1));
    let mut rows: Vec<(i32, i64, i64)> = Vec::new();
    let mut i: usize = 0;
    while i < fetched.len()
        invariant
            i <= fetched.len(),
            all == fetched@.map_values(
                |f: (i32, Option<(i64, i64)>)| watermark_row(f.0, f.1),
            ),
            rows_by_partition(rows@),
            rows@.to_multiset() == all.take(i as int).to_multiset(),
        decreases fetched.len() - i,
    {
        let (pid, got) = fetched[i];
        let row = match got {
            Some((low, high)) => (pid, low, high),
            None => (pid, -1i64, -1i64),
        };
        assert(row == all[i as int]);
        // insert after every row whose partition id is not larger
        let mut j: usize = rows.len();
        while j > 0 && rows[j - 1].0 > pid
            invariant
                j <= rows.len(),
                forall|k: int| j <= k < rows.len() ==> rows@[k].0 > pid,
            decreases j,
        {
            j = j - 1;
        }
        let ghost before = rows@;
        rows.insert(j, row);
        proof {
            assert(all.take(i + 1) =~= all.take(i as int).push(row));
            vstd::seq_lib::to_multiset_insert(before, j as int, row);
            assert(rows@ == before.insert(j as int, row));
            assert forall|a: int, b: int| 0 <= a < b < rows@.len() implies rows@[a].0
                <= rows@[b].0 by {
                if j > 0 {
                    assert(before[j - 1].0 <= pid);
                }
            }
        }
        i = i + 1;
    }
    assert(all.take(fetched.len() as int) =~= all);
    proof {
        lemma_watermark_rows(fetched@, rows@);
    }
    rows
}

/// Whether the table has a row for partition `f.0` with the fetched low and
/// high watermarks, or `-1` for both when they could not be fetched.
pub open spec fn shows_watermarks(
    rows: Seq<(i32, i64, i64)>,
    f: (i32, Option<(i64, i64)>),
) -> bool {
    match f.1 {
        Some((low, high)) => rows.contains((f.0, low, high)),
        None => rows.contains((f.0, -1i64, -1i64)),
    }
}

/// The watermark table has one row per fetched partition, and each fetched
/// partition has a row with its id and its watermarks as fetched.
pub proof fn lemma_watermark_rows(
    fetched: Seq<(i32, Option<(i64, i64)>)>,
    rows: Seq<(i32, i64, i64)>,
)
    requires
        rows.to_multiset() == fetched.map_values(
            |f: (i32, Option<(i64, i64)>)| watermark_row(f.0, f.1),
        ).to_multiset(),
    ensures
        rows.len() == fetched.len(),
        forall|k: int| 0 <= k < fetched.len() ==> shows_watermarks(rows, #[trigger] fetched[k]),
{
    let all = fetched.map_values(|f: (i32, Option<(i64, i64)>)| watermark_row(f.0, f.1));
    assert(rows.len() == rows.to_multiset().len());
    assert(all.len() == all.to_multiset().len());
    assert forall|k: int| 0 <= k < fetched.len() implies shows_watermarks(
        rows,
        #[trigger] fetched[k],
    ) by {
        let row = all[k];
        assert(all.contains(row));
        assert(all.to_multiset().count(row) > 0);
        assert(rows.contains(row));
    }
}

} // verus!
