//! Verified core of a terminal Kafka client: cluster configuration, client
//! settings, metadata and consumer-group arithmetic, message decoding and
//! display, Schema Registry requests, and the keyboard-driven view state.

pub mod text;
pub mod config;
pub mod kafka;
pub mod decoder;
pub mod app;
pub mod events;
pub mod ui;
