//! Kafka-facing logic: client settings, cluster metadata, consumer groups,
//! message display and Schema Registry requests.

pub mod client;
pub mod consumer;
pub mod consumer_group;
pub mod metadata;
pub mod schema_registry;
