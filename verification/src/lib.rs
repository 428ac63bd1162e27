//! Multi-tenant database session core: a closed connector abstraction over
//! heterogeneous backends, a per-session connection handle with a two-tier
//! table-configuration store, a session registry, and a total error adapter.

pub mod config;
pub mod connector;
pub mod errors;
pub mod handle;
pub mod outside;
pub mod registry;
pub mod table;
