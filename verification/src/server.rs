//! The health-check server: configuration, reconciliation of monitors,
//! detection of state changes and batching of notifications.

pub mod config;
pub mod manager;
pub mod metrics;
pub mod notifier;
pub mod proxy;
pub mod server;
pub mod types;
