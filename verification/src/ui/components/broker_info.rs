//! The broker screen's cluster summary.

use vstd::prelude::*;
use crate::app::user_topic_count;
use crate::kafka::metadata::TopicMeta;

verus! {

/// The number of topics that are not internal.
pub fn user_topics(topics: &Vec<TopicMeta>) -> (n: usize)
    ensures
        n == user_topic_count(topics@),
{
    let mut n: usize = 0;
    let mut i: usize = 0;
    while i < topics.len()
        invariant
            i <= topics.len(),
            n == user_topic_count(topics@.take(i as int)),
            n <= i,
        decreases topics.len() - i,
    {
        assert(topics@.take(i + 1).drop_last() =~= topics@.take(i as int));
        if !topics[i].is_internal {
            n = n + 1;
        }
        i = i + 1;
    }
    assert(topics@.take(topics.len() as int) =~= topics@);
    n
}

/// User topics are never more than all topics.
pub proof fn lemma_user_topics_bounded(ts: Seq<TopicMeta>)
    ensures
        user_topic_count(ts) <= ts.len(),
    decreases ts.len(),
{
    if ts.len() > 0 {
        lemma_user_topics_bounded(ts.drop_last());
    }
}

/// The topics counted as the user's are those not marked internal.
pub proof fn lemma_user_topics_are_not_internal(ts: Seq<TopicMeta>)
    ensures
        user_topic_count(ts) == ts.filter(|t: TopicMeta| !t.is_internal).len(),
    decreases ts.len(),
{
    reveal(Seq::filter);
    if ts.len() > 0 {
        lemma_user_topics_are_not_internal(ts.drop_last());
    }
}

} // verus!
