//! A multiplexing WebSocket JSON-RPC load balancer, as verified decision
//! logic: node registry and selector, response cache, subscription table,
//! per-connection worker, connection manager and call executor.
pub mod cache;
pub mod error;
pub mod executor;
pub mod hash;
pub mod json;
pub mod manager;
pub mod registry;
pub mod subscriptions;
pub mod text_map;
pub mod types;
pub mod worker;
