//! Per-screen computations.

pub mod broker_info;
pub mod cluster_list;
pub mod message_list;
pub mod partition_view;
