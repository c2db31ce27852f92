//! An event-streams capability provider backed by Redis streams.
//!
//! The crate holds the adapter core: a per-caller registry of store clients,
//! the dispatch router that routes inbound calls by operation name and caller
//! identity, and the translation between the generic event/query data model
//! and Redis range-read commands. Network I/O against the store is left to
//! the host-facing shell, which performs the commands this core plans.

pub mod adapter;
pub mod connector;
pub mod descriptor;
pub mod errors;
pub mod fields;
pub mod messages;
pub mod provider;
pub mod registry;
pub mod text;
