//! The partition screen: offsets and message counts of partitions, and
//! replica lists.

use vstd::prelude::*;
use crate::app::{find_watermark, lemma_find_watermark};
use crate::text::{push_signed_decimal, push_str, signed_decimal};

verus! {

/// The low and high watermark of partition `pid`, `(-1, -1)` when unknown.
pub open spec fn offsets_of(rows: Seq<(i32, i64, i64)>, pid: i32) -> (i64, i64) {
    match find_watermark(rows, pid) {
        Some(r) => (r.1, r.2),
        None => (-1i64, -1i64),
    }
}

/// The offsets shown for a partition are those of a row of the table with its
/// id, or `(-1, -1)` when the table has no row for it.
pub proof fn lemma_offsets_from_table(rows: Seq<(i32, i64, i64)>, pid: i32)
    ensures
        (exists|j: int| 0 <= j < rows.len() && #[trigger] rows[j].0 == pid) ==> rows.contains(
            (pid, offsets_of(rows, pid).0, offsets_of(rows, pid).1),
        ),
        !(exists|j: int| 0 <= j < rows.len() && #[trigger] rows[j].0 == pid) ==> offsets_of(rows, pid)
            == (-1i64, -1i64),
{
    lemma_find_watermark(rows, pid);
}

/// The number of messages between known watermarks, 0 otherwise.
pub open spec fn message_count_of(low: i64, high: i64) -> int {
    if high >= low && low >= 0 {
        high - low
    } else {
        0
    }
}

/// The watermarks of partition `pid` in the table, `(-1, -1)` when it has none.
pub fn partition_offsets(rows: &Vec<(i32, i64, i64)>, pid: i32) -> (r: (i64, i64))
    ensures
        r == offsets_of(rows@, pid),
{
    let mut i: usize = 0;
    assert(rows@.skip(0) =~= rows@);
    while i < rows.len()
        invariant
            i <= rows.len(),
            find_watermark(rows@.skip(i as int), pid) == find_watermark(rows@, pid),
        decreases rows.len() - i,
    {
        assert(rows@.skip(i as int)[0] == rows@[i as int]);
        if rows[i].0 == pid {
            return (rows[i].1, rows[i].2);
        }
        assert(rows@.skip(i as int).drop_first() =~= rows@.skip(i + 1));
        i = i + 1;
    }
    (-1, -1)
}

/// Messages held by a partition with these watermarks.
pub fn message_count(low: i64, high: i64) -> (n: i64)
    ensures
        n == message_count_of(low, high),
{
    if high >= low && low >= 0 {
        high - low
    } else {
        0
    }
}

/// Broker ids separated by `sep`.
pub open spec fn joined_ids(ids: Seq<i32>, sep: Seq<char>) -> Seq<char>
    decreases ids.len(),
{
    if ids.len() == 0 {
        seq![]
    } else if ids.len() == 1 {
        signed_decimal(ids[0] as int)
    } else {
        joined_ids(ids.drop_last(), sep) + sep + signed_decimal(ids.last() as int)
    }
}

/// Broker ids in decimal, separated by `sep`.
pub fn join_ids(ids: &Vec<i32>, sep: &str) -> (s: String)
    ensures
        s@ == joined_ids(ids@, sep@),
{
    let mut s = String::new();
    let mut i: usize = 0;
    while i < ids.len()
        invariant
            i <= ids.len(),
            s@ == joined_ids(ids@.take(i as int), sep@),
        decreases ids.len() - i,
    {
        let ghost before = s@;
        if i > 0 {
            push_str(&mut s, sep);
        }
        push_signed_decimal(&mut s, ids[i] as i64);
        proof {
            let t = ids@.take(i + 1);
            assert(t.drop_last() =~= ids@.take(i as int));
            assert(s@ =~= joined_ids(t, sep@));
        }
        i = i + 1;
    }
    assert(ids@.take(ids.len() as int) =~= ids@);
    s
}

} // verus!
