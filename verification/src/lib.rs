//! A queryable snapshot of a cluster's object graph.
//!
//! The library normalizes heterogeneous cluster objects into a fixed tuple
//! schema keyed by (api, kind, namespace, name), bulk-loads them into an
//! embedded Datalog store, and decodes query result rows back into typed
//! resources and edges. Everything around the store's own engine and the
//! cluster client is stated as contracts and verified.

pub mod gateway;
pub mod loader;
pub mod resource;
pub mod store;
