//! The saved list of cluster profiles. Reading and writing the file that
//! holds them is left to the caller; this module keeps the list itself.

use vstd::prelude::*;
use std::path::PathBuf;
use super::cluster::ClusterConfig;

verus! {

/// `std::path::PathBuf`, carried through unchanged.
#[verifier::external_type_specification]
#[verifier::external_body]
pub struct ExPathBuf(PathBuf);

/// The cluster a session is connected to.
#[derive(Debug, Clone)]
pub struct ClusterProfile {
    pub cluster: ClusterConfig,
}

/// Manages saved cluster connection profiles.
pub struct ProfileManager {
    pub profiles: Vec<ClusterConfig>,
    pub config_path: PathBuf,
}

impl ProfileManager {
    /// Adds a new cluster profile at the end of the list.
    pub fn add(&mut self, cluster: ClusterConfig)
        ensures
            final(self).profiles@ == old(self).profiles@.push(cluster),
            final(self).config_path == old(self).config_path,
    {
        self.profiles.push(cluster);
    }

    /// Removes the profile at `index`, when there is one. Returns whether the
    /// list changed (and so needs saving).
    pub fn remove(&mut self, index: usize) -> (removed: bool)
        ensures
            removed == (index < old(self).profiles.len()),
            removed ==> final(self).profiles@ == old(self).profiles@.remove(index as int),
            !removed ==> final(self).profiles@ == old(self).profiles@,
            final(self).config_path == old(self).config_path,
    {
        if index < self.profiles.len() {
            self.profiles.remove(index);
            true
        } else {
            false
        }
    }
}

/// Adding a profile and then removing the last one gives back the list as it was.
pub proof fn lemma_add_then_remove_last(before: Seq<ClusterConfig>, cluster: ClusterConfig)
    ensures
        before.push(cluster).remove(before.len() as int) == before,
{
    assert(before.push(cluster).remove(before.len() as int) =~= before);
}

} // verus!
