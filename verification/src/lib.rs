//! A resilient connection-pool manager for a remote key-value store.
//!
//! The library owns the pool lifecycle: building a pool from a set of
//! endpoints in either clustered or non-clustered deployment mode,
//! detecting a severed pool, and rebuilding it on demand. The actual
//! network transport is delegated to the backing client crates.

pub mod backend;
pub mod connection;
pub mod errors;
pub mod factory;
pub mod handle;
pub mod lifecycle;

pub use backend::{ClusterPool, NonClusterPool};
pub use connection::RedisConnection;
pub use errors::PoolError;
pub use factory::{RedisMode, RedisPool, create_cluster_pool, create_non_cluster_pool, create_pool,
    select_endpoints};
pub use handle::SafePool;
pub use lifecycle::{GetConfig, GetEvent, GetPhase, LifecycleState, SlotCommand, get_step};
