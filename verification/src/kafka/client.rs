//! The client configuration of a connection: the settings handed to the
//! Kafka client library for a cluster, and those added for consumers.

use vstd::prelude::*;
use rdkafka::ClientConfig;
use crate::config::cluster::{client_entries, ClusterConfig, Entry};

verus! {

/// `rdkafka::ClientConfig`, a map from setting names to values.
#[verifier::external_type_specification]
#[verifier::external_body]
pub struct ExClientConfig(ClientConfig);

/// The settings a `ClientConfig` holds.
pub uninterp spec fn client_settings(config: ClientConfig) -> Map<Seq<char>, Seq<char>>;

/// `ClientConfig::new`: a configuration without settings.
#[verifier::external_body]
fn new_client_config() -> (c: ClientConfig)
    ensures
        client_settings(c) == settings_of(Seq::empty()),
{
    ClientConfig::new()
}

/// `ClientConfig::set`: sets `key` to `value`, replacing an earlier value.
#[verifier::external_body]
fn set_setting(config: &mut ClientConfig, key: &str, value: &str)
    ensures
        client_settings(*final(config)) == client_settings(*old(config)).insert(key@, value@),
{
    config.set(key, value);
}

/// `ClientConfig::clone`: a configuration with the same settings.
#[verifier::external_body]
fn clone_client_config(config: &ClientConfig) -> (c: ClientConfig)
    ensures
        client_settings(c) == client_settings(*config),
{
    config.clone()
}

/// The settings after setting each entry in turn; a later entry for the same
/// key wins.
pub open spec fn settings_of(entries: Seq<Entry>) -> Map<Seq<char>, Seq<char>>
    decreases entries.len(),
{
    if entries.len() == 0 {
        Map::empty()
    } else {
        settings_of(entries.drop_last()).insert(entries.last().0, entries.last().1)
    }
}

/// The consumer settings on top of a client's: the group id, no automatic
/// commits, and reading from the earliest offset when none is committed.
pub open spec fn consumer_settings(base: Map<Seq<char>, Seq<char>>, group_id: Seq<char>) -> Map<
    Seq<char>,
    Seq<char>,
> {
    base.insert("group.id"@, group_id).insert("enable.auto.commit"@, "false"@).insert(
        "auto.offset.reset"@,
        "earliest"@,
    )
}

/// The settings used to read or reset a group's committed offsets: the group
/// id and no automatic commits.
pub open spec fn group_settings(base: Map<Seq<char>, Seq<char>>, group_id: Seq<char>) -> Map<
    Seq<char>,
    Seq<char>,
> {
    base.insert("group.id"@, group_id).insert("enable.auto.commit"@, "false"@)
}

/// Consumers and offset queries never commit offsets on their own: their
/// configuration always sets `enable.auto.commit` to `false`, and names the
/// group.
pub proof fn lemma_never_auto_commits(base: Map<Seq<char>, Seq<char>>, group_id: Seq<char>)
    ensures
        consumer_settings(base, group_id)["enable.auto.commit"@] == "false"@,
        consumer_settings(base, group_id)["group.id"@] == group_id,
        group_settings(base, group_id)["enable.auto.commit"@] == "false"@,
        group_settings(base, group_id)["group.id"@] == group_id,
{
    reveal_strlit("enable.auto.commit");
    reveal_strlit("auto.offset.reset");
    reveal_strlit("group.id");
    assert("enable.auto.commit"@.len() != "auto.offset.reset"@.len());
    assert("group.id"@.len() != "auto.offset.reset"@.len());
    assert("group.id"@.len() != "enable.auto.commit"@.len());
}

/// A connection's client configuration.
pub struct KafkaClient {
    pub config: ClientConfig,
}

impl KafkaClient {
    /// The client configuration of a cluster: each of its configuration
    /// entries, set in order.
    pub fn new(cluster: &ClusterConfig) -> (c: Self)
        ensures
            client_settings(c.config) == settings_of(client_entries(*cluster)),
    {
        let mut config = new_client_config();
        let entries = cluster.to_rdkafka_config();
        let mut i: usize = 0;
        while i < entries.len()
            invariant
                i <= entries.len(),
                client_settings(config) == settings_of(entries.deep_view().take(i as int)),
            decreases entries.len() - i,
        {
            let (k, v) = &entries[i];
            set_setting(&mut config, k.as_str(), v.as_str());
            assert(entries.deep_view().take(i + 1).drop_last() =~= entries.deep_view().take(
                i as int,
            ));
            i = i + 1;
        }
        assert(entries.deep_view().take(entries.len() as int) =~= entries.deep_view());
        KafkaClient { config }
    }

    /// The configuration a consumer in group `group_id` is created from.
    pub fn consumer_config(&self, group_id: &str) -> (c: ClientConfig)
        ensures
            client_settings(c) == consumer_settings(client_settings(self.config), group_id@),
    {
        let mut cfg = clone_client_config(&self.config);
        set_setting(&mut cfg, "group.id", group_id);
        set_setting(&mut cfg, "enable.auto.commit", "false");
        set_setting(&mut cfg, "auto.offset.reset", "earliest");
        cfg
    }
}

/// The configuration used to read or reset the committed offsets of `group_id`.
pub fn group_config(config: &ClientConfig, group_id: &str) -> (c: ClientConfig)
    ensures
        client_settings(c) == group_settings(client_settings(*config), group_id@),
{
    let mut cfg = clone_client_config(config);
    set_setting(&mut cfg, "group.id", group_id);
    set_setting(&mut cfg, "enable.auto.commit", "false");
    cfg
}

} // verus!
