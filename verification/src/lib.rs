//! State bridge between an MQTT broker session and a tick-driven consumer.
//!
//! The network side pushes inbound events into a bounded channel; the consumer
//! drains that channel once per tick and folds the events into a store that maps
//! each topic key to the text it last carried.

pub mod channel;
pub mod command;
pub mod connection;
pub mod drain;
pub mod event;
pub mod store;
pub mod topic;
