//! Persistence and mutation layer for a hierarchical store of API-testing
//! workspaces, collections, requests and environments.
//!
//! The engine works on an in-memory [`CallistoConfig`]; reading and writing
//! the backing JSON file and notifying observers is left to the host.

pub mod model;
pub mod keyed;
pub mod ident;
pub mod store;
pub mod http;
