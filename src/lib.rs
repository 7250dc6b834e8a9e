//! A two-tier record-storage protocol: a directory that provisions one record
//! store per registered identity, and per-identity record stores whose reads
//! and writes are gated by capability permits.
//!
//! Everything here is platform-free: the entry points take the values the host
//! hands over (sender, block time, the outcome of a permit or viewing-key check)
//! and return the messages the host should send.
pub mod keyed_store;
pub mod capability;
pub mod record_manager;
pub mod registry;
