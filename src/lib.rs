//! A persistent join counter: configuration with defaults, a single-row
//! durable store, and the in-memory counter whose value never runs ahead of
//! what the store has recorded.

pub mod config;
pub mod store;
pub mod counter;
