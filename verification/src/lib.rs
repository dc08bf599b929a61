//! A two-tier relation registry with a debounced write scheduler.
//!
//! The crate holds the decisions of the system and proves them: how a
//! relation is laid out in the cache, which commands a write issues, how a
//! stored value is read back, when a pending task may run and when its entry
//! may be removed. Network and database traffic is performed by the caller,
//! which hands the replies back as plain values.

pub mod models;
pub mod decimal;
pub mod errors;
pub mod cache;
pub mod pipeline;
pub mod scheduler;
pub mod registry;
pub mod config;
pub mod relay;
pub mod world;
