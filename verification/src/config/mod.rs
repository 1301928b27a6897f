//! Cluster connection settings and the saved list of clusters.

pub mod cluster;
pub mod profile;
