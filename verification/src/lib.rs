//! Verified core of a connector library that publishes structured, versioned
//! events to a message broker and registers their schemas with a registry
//! service.
//!
//! The modules hold the topic and key identity rules, the transactional
//! producer state machine, the schema-registration record builder, and the
//! configuration and manifest value types.  All broker, filesystem and network
//! traffic is left to the embedding program, which drives these verified
//! functions with plain values.

pub mod config;
pub mod connector;
pub mod key;
pub mod manifest;
pub mod message;
pub mod producer;
pub mod proto_registry;
pub mod topic;
