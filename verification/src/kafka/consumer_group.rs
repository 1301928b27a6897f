//! Consumer groups: the visible group list, per-partition lag, and where an
//! offset reset moves a group.

use vstd::prelude::*;
use crate::text::{
    chars_before, has_prefix, lemma_chars_before_asym, lemma_chars_before_order,
    lemma_chars_before_total, starts_with, str_before,
};

verus! {

broadcast use vstd::seq_lib::group_to_multiset_ensures;

/// A consumer group as listed by the cluster.
#[derive(Debug, Clone)]
pub struct GroupInfo {
    pub group_id: String,
    pub state: String,
    pub protocol: String,
    pub members: usize,
}

/// Committed offset and watermarks of one partition for one group.
#[derive(Debug, Clone)]
pub struct GroupPartitionOffset {
    pub topic: String,
    pub partition: i32,
    /// -1 means no committed offset
    pub committed_offset: i64,
    pub low_watermark: i64,
    pub high_watermark: i64,
}

/// Messages a group still has to read in a partition: from its committed
/// offset, or from the low watermark when nothing is committed, up to the high
/// watermark; never negative.
pub open spec fn group_lag(committed: int, low: int, high: int) -> int {
    let from = if committed < 0 {
        low
    } else {
        committed
    };
    if high - from > 0 {
        high - from
    } else {
        0
    }
}

/// A group's lag counts the messages it has not read: from its committed
/// offset up to the high watermark, or the whole partition when nothing is
/// committed; a group at or past the high watermark has no lag.
pub proof fn lemma_group_lag(committed: int, low: int, high: int)
    ensures
        group_lag(committed, low, high) >= 0,
        committed >= 0 && committed <= high ==> committed + group_lag(committed, low, high) == high,
        committed >= 0 && committed >= high ==> group_lag(committed, low, high) == 0,
        committed < 0 && low <= high ==> low + group_lag(committed, low, high) == high,
        committed < 0 && low >= high ==> group_lag(committed, low, high) == 0,
{
}

impl GroupPartitionOffset {
    /// The partition's lag for this group.
    pub fn lag(&self) -> (r: i64)
        requires
            self.committed_offset < 0 ==> i64::MIN <= self.high_watermark - self.low_watermark
                <= i64::MAX,
            self.committed_offset >= 0 ==> i64::MIN <= self.high_watermark - self.committed_offset
                <= i64::MAX,
        ensures
            r == group_lag(
                self.committed_offset as int,
                self.low_watermark as int,
                self.high_watermark as int,
            ),
    {
        let d = if self.committed_offset < 0 {
            self.high_watermark - self.low_watermark
        } else {
            self.high_watermark - self.committed_offset
        };
        if d > 0 {
            d
        } else {
            0
        }
    }
}

/// Where a group's committed offsets are moved to.
pub enum OffsetReset {
    Earliest,
    Latest,
    Specific(i64),
}

impl OffsetReset {
    /// Whether the partition's watermarks are needed to know the target.
    pub fn needs_watermarks(&self) -> (b: bool)
        ensures
            b == !(self is Specific),
    {
        !matches!(self, OffsetReset::Specific(_))
    }

    /// The offset a partition with watermarks `low` and `high` is reset to.
    pub fn target_offset(&self, low: i64, high: i64) -> (o: i64)
        ensures
            o == match self {
                OffsetReset::Earliest => low,
                OffsetReset::Latest => high,
                OffsetReset::Specific(x) => *x,
            },
    {
        match self {
            OffsetReset::Earliest => low,
            OffsetReset::Latest => high,
            OffsetReset::Specific(x) => *x,
        }
    }
}

/// Groups whose id starts with `_` are internal and not listed.
pub open spec fn is_listed_group(g: GroupInfo) -> bool {
    !has_prefix(g.group_id@, "_"@)
}

/// Groups ordered by id.
pub open spec fn groups_in_order(gs: Seq<GroupInfo>) -> bool {
    forall|i: int, j: int|
        0 <= i < j < gs.len() ==> !chars_before(#[trigger] gs[j].group_id@, #[trigger] gs[i].group_id@)
}

/// The groups to show: internal ones dropped, the rest ordered by id.
pub fn visible_groups(groups: Vec<GroupInfo>) -> (r: Vec<GroupInfo>)
    ensures
        groups_in_order(r@),
        r@.to_multiset() == groups@.filter(|g: GroupInfo| is_listed_group(g)).to_multiset(),
        forall|g: GroupInfo|
            #[trigger] r@.contains(g) <==> groups@.contains(g) && !has_prefix(g.group_id@, "_"@),
{
    let ghost pred = |g: GroupInfo| is_listed_group(g);
    let ghost all = groups@;
    let mut rest = groups;
    let mut out: Vec<GroupInfo> = Vec::new();
    let mut i: usize = 0;
    let n = rest.len();
    assert(all.skip(0) =~= all);
    while rest.len() > 0
        invariant
            pred == (|g: GroupInfo| is_listed_group(g)),
            n == all.len(),
            i + rest@.len() == n,
            rest@ == all.skip(i as int),
            groups_in_order(out@),
            out@.to_multiset() == all.take(i as int).filter(pred).to_multiset(),
        decreases rest.len(),
    {
        let g = rest.remove(0);
        assert(all.skip(i as int).drop_first() =~= all.skip(i + 1));
        assert(all.take(i + 1) =~= all.take(i as int).push(g));
        proof {
            all.take(i as int).lemma_filter_push(g, pred);
        }
        let listed = !starts_with(g.group_id.as_str(), "_");
        assert(listed == pred(g));
        if listed {
            let mut j: usize = out.len();
            while j > 0 && str_before(g.group_id.as_str(), out[j - 1].group_id.as_str())
                invariant
                    j <= out.len(),
                    forall|k: int| j <= k < out.len() ==> chars_before(g.group_id@, out@[k].group_id@),
                decreases j,
            {
                j = j - 1;
            }
            let ghost before = out@;
            let ghost gv = g;
            out.insert(j, g);
            proof {
                vstd::seq_lib::to_multiset_insert(before, j as int, gv);
                assert(out@ == before.insert(j as int, gv));
                assert(all.take(i + 1).filter(pred) == all.take(i as int).filter(pred).push(gv));
                vstd::seq_lib::to_multiset_build(all.take(i as int).filter(pred), gv);
                assert forall|a: int, b: int| 0 <= a < b < out@.len() implies !chars_before(
                    #[trigger] out@[b].group_id@,
                    #[trigger] out@[a].group_id@,
                ) by {
                    if a < j && b == j && a < j - 1 {
                        lemma_chars_before_order(
                            gv.group_id@,
                            before[j - 1].group_id@,
                            before[a].group_id@,
                        );
                    }
                    if a == j && b > j {
                        lemma_chars_before_asym(gv.group_id@, out@[b].group_id@);
                    }
                }
            }
        } else {
            assert(all.take(i + 1).filter(pred) == all.take(i as int).filter(pred));
        }
        i = i + 1;
    }
    assert(all.take(n as int) =~= all);
    proof {
        lemma_listed_groups(all, out@);
    }
    out
}

/// The group list keeps exactly the groups whose id does not start with `_`,
/// whatever their state or number of members, and drops every other.
pub proof fn lemma_listed_groups(groups: Seq<GroupInfo>, listed: Seq<GroupInfo>)
    requires
        listed.to_multiset() == groups.filter(|g: GroupInfo| is_listed_group(g)).to_multiset(),
    ensures
        forall|g: GroupInfo|
            #[trigger] listed.contains(g) <==> groups.contains(g) && !has_prefix(
                g.group_id@,
                "_"@,
            ),
{
    let pred = |g: GroupInfo| is_listed_group(g);
    let kept = groups.filter(pred);
    assert forall|g: GroupInfo| #[trigger] listed.contains(g) <==> groups.contains(g) && !has_prefix(
        g.group_id@,
        "_"@,
    ) by {
        assert(listed.contains(g) <==> listed.to_multiset().count(g) > 0);
        assert(kept.contains(g) <==> kept.to_multiset().count(g) > 0);
        if kept.contains(g) {
            groups.lemma_filter_contains_rev(pred, g);
            let i = choose|i: int| 0 <= i < kept.len() && kept[i] == g;
            groups.lemma_filter_pred(pred, i);
        }
        if groups.contains(g) && !has_prefix(g.group_id@, "_"@) {
            let i = choose|i: int| 0 <= i < groups.len() && groups[i] == g;
            groups.lemma_filter_contains(pred, i);
        }
    }
}

/// The row of one partition: a committed offset below zero, or none, reads
/// -1; watermarks that could not be fetched read `(0, 0)`.
pub open spec fn offset_row(
    topic: String,
    partition: i32,
    committed: Option<i64>,
    watermarks: Option<(i64, i64)>,
) -> GroupPartitionOffset {
    GroupPartitionOffset {
        topic,
        partition,
        committed_offset: match committed {
            Some(o) => if o >= 0 {
                o
            } else {
                -1i64
            },
            None => -1i64,
        },
        low_watermark: match watermarks {
            Some(w) => w.0,
            None => 0i64,
        },
        high_watermark: match watermarks {
            Some(w) => w.1,
            None => 0i64,
        },
    }
}

/// Whether `a` sorts strictly before `b`: by topic, then by partition.
pub open spec fn offset_before(a: GroupPartitionOffset, b: GroupPartitionOffset) -> bool {
    chars_before(a.topic@, b.topic@) || (a.topic@ == b.topic@ && a.partition < b.partition)
}

/// Rows ordered by topic, then partition.
pub open spec fn offsets_in_order(rows: Seq<GroupPartitionOffset>) -> bool {
    forall|i: int, j: int|
        0 <= i < j < rows.len() ==> !offset_before(#[trigger] rows[j], #[trigger] rows[i])
}

proof fn lemma_offset_order(x: GroupPartitionOffset, y: GroupPartitionOffset, z: GroupPartitionOffset)
    requires
        !offset_before(x, y),
        !offset_before(y, z),
    ensures
        !offset_before(x, z),
{
    lemma_chars_before_order(x.topic@, y.topic@, z.topic@);
    if x.topic@ == z.topic@ {
        if !chars_before(y.topic@, x.topic@) {
            lemma_chars_before_total(x.topic@, y.topic@);
        }
    }
}

/// The lag table of a group: one row per fetched partition
/// `(topic, partition, committed offset, watermarks)`, ordered by topic and
/// partition.
pub fn group_offset_table(
    fetched: Vec<(String, i32, Option<i64>, Option<(i64, i64)>)>,
) -> (rows: Vec<GroupPartitionOffset>)
    ensures
        offsets_in_order(rows@),
        rows@.to_multiset() == fetched@.map_values(
            |f: (String, i32, Option<i64>, Option<(i64, i64)>)| offset_row(f.0, f.1, f.2, f.3),
        ).to_multiset(),
        rows@.len() == fetched@.len(),
        forall|k: int| 0 <= k < fetched@.len() ==> shows_partition(rows@, #[trigger] fetched@[k]),
{
    let ghost all = fetched@.map_values(
        |f: (String, i32, Option<i64>, Option<(i64, i64)>)| offset_row(f.0, f.1, f.2, f.3),
    );
    let mut rest = fetched;
    let ghost src = rest@;
    let n = rest.len();
    let mut out: Vec<GroupPartitionOffset> = Vec::new();
    let mut i: usize = 0;
    assert(src.skip(0) =~= src);
    while rest.len() > 0
        invariant
            n == src.len(),
            all.len() == n,
            forall|k: int| 0 <= k < n ==> #[trigger] all[k] == offset_row(src[k].0, src[k].1, src[k].2, src[k].3),
            i + rest@.len() == n,
            rest@ == src.skip(i as int),
            offsets_in_order(out@),
            out@.to_multiset() == all.take(i as int).to_multiset(),
        decreases rest.len(),
    {
        let (topic, partition, committed, watermarks) = rest.remove(0);
        assert(src.skip(i as int).drop_first() =~= src.skip(i + 1));
        let committed_offset: i64 = match committed {
            Some(o) => if o >= 0 {
                o
            } else {
                -1
            },
            None => -1,
        };
        let (low, high) = match watermarks {
            Some(w) => w,
            None => (0i64, 0i64),
        };
        let row = GroupPartitionOffset {
            topic,
            partition,
            committed_offset,
            low_watermark: low,
            high_watermark: high,
        };
        assert(row == all[i as int]);
        let mut j: usize = out.len();
        while j > 0 && row_before(&row, &out[j - 1])
            invariant
                j <= out.len(),
                forall|k: int| j <= k < out.len() ==> offset_before(row, #[trigger] out@[k]),
            decreases j,
        {
            j = j - 1;
        }
        let ghost before = out@;
        let ghost rv = row;
        out.insert(j, row);
        proof {
            vstd::seq_lib::to_multiset_insert(before, j as int, rv);
            assert(out@ == before.insert(j as int, rv));
            assert(all.take(i + 1) =~= all.take(i as int).push(rv));
            vstd::seq_lib::to_multiset_build(all.take(i as int), rv);
            assert forall|a: int, b: int| 0 <= a < b < out@.len() implies !offset_before(
                #[trigger] out@[b],
                #[trigger] out@[a],
            ) by {
                if a < j - 1 && b == j {
                    lemma_offset_order(rv, before[j - 1], before[a]);
                }
                if a == j && b > j {
                    lemma_offset_asym(rv, out@[b]);
                }
            }
        }
        i = i + 1;
    }
    assert(all.take(n as int) =~= all);
    proof {
        lemma_table_rows(src, out@);
    }
    out
}

/// Whether the table has a row for the fetched partition
/// `(topic, partition, committed offset, watermarks)` that shows its
/// watermarks as fetched (`0` for both when they could not be fetched) and
/// its committed offset (`-1` when there is none or it is negative).
pub open spec fn shows_partition(
    rows: Seq<GroupPartitionOffset>,
    f: (String, i32, Option<i64>, Option<(i64, i64)>),
) -> bool {
    exists|j: int|
        0 <= j < rows.len() && {
            let r = #[trigger] rows[j];
            &&& r.topic == f.0
            &&& r.partition == f.1
            &&& match f.3 {
                Some((low, high)) => r.low_watermark == low && r.high_watermark == high,
                None => r.low_watermark == 0 && r.high_watermark == 0,
            }
            &&& match f.2 {
                Some(o) => r.committed_offset == (if o >= 0 {
                    o
                } else {
                    -1i64
                }),
                None => r.committed_offset == -1,
            }
        }
}

/// The lag table has one row per fetched partition, and each fetched
/// partition has a row showing its watermarks and committed offset.
pub proof fn lemma_table_rows(
    fetched: Seq<(String, i32, Option<i64>, Option<(i64, i64)>)>,
    rows: Seq<GroupPartitionOffset>,
)
    requires
        rows.to_multiset() == fetched.map_values(
            |f: (String, i32, Option<i64>, Option<(i64, i64)>)| offset_row(f.0, f.1, f.2, f.3),
        ).to_multiset(),
    ensures
        rows.len() == fetched.len(),
        forall|k: int| 0 <= k < fetched.len() ==> shows_partition(rows, #[trigger] fetched[k]),
{
    let all = fetched.map_values(
        |f: (String, i32, Option<i64>, Option<(i64, i64)>)| offset_row(f.0, f.1, f.2, f.3),
    );
    assert(rows.len() == rows.to_multiset().len());
    assert(all.len() == all.to_multiset().len());
    assert forall|k: int| 0 <= k < fetched.len() implies shows_partition(
        rows,
        #[trigger] fetched[k],
    ) by {
        let row = all[k];
        assert(all.contains(row));
        assert(all.to_multiset().count(row) > 0);
        assert(rows.contains(row));
        let j = choose|j: int| 0 <= j < rows.len() && rows[j] == row;
        assert(rows[j] == row);
    }
}

proof fn lemma_offset_asym(x: GroupPartitionOffset, y: GroupPartitionOffset)
    requires
        offset_before(x, y),
    ensures
        !offset_before(y, x),
{
    if chars_before(x.topic@, y.topic@) {
        lemma_chars_before_asym(x.topic@, y.topic@);
    } else if chars_before(y.topic@, x.topic@) {
        lemma_chars_before_asym(y.topic@, x.topic@);
    }
}

fn row_before(a: &GroupPartitionOffset, b: &GroupPartitionOffset) -> (r: bool)
    ensures
        r == offset_before(*a, *b),
{
    if str_before(a.topic.as_str(), b.topic.as_str()) {
        true
    } else {
        a.topic == b.topic && a.partition < b.partition
    }
}

} // verus!
