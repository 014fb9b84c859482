//! The unified connection abstraction.
//!
//! One logical connection handle over the two concrete shapes the two
//! deployment modes produce, so calling code never branches on mode. The
//! wrapper adds no behavior beyond dispatch. The capability that answers
//! synchronously (reporting the selected logical namespace index) is
//! dispatched here; the command-sending capabilities return futures of
//! the transport layer and are forwarded, equally verbatim, by the
//! embedding layer.

use vstd::prelude::*;

use crate::backend;
use crate::factory::RedisMode;

verus! {

/// A checked-out connection, of whichever shape the deployment mode
/// produced. Its lifetime is bound to the checkout; it is returned to the
/// underlying pool on drop.
pub enum RedisConnection {
    Cluster(deadpool_redis::cluster::Connection),
    NonCluster(deadpool_redis::Connection),
}

impl RedisConnection {
    /// Whether the connection's shape is the one the mode calls for.
    pub open spec fn matches_mode(self, mode: RedisMode) -> bool {
        match self {
            RedisConnection::Cluster(_) => mode is Cluster,
            RedisConnection::NonCluster(_) => mode is NonCluster,
        }
    }

    /// Which shape backs the handle.
    pub fn is_cluster(&self) -> (r: bool)
        ensures
            r == (self is Cluster),
    {
        match self {
            RedisConnection::Cluster(_) => true,
            RedisConnection::NonCluster(_) => false,
        }
    }

    /// The logical namespace index of the wrapped connection, whichever
    /// shape backs the handle.
    pub open spec fn db_index_spec(self) -> i64 {
        match self {
            RedisConnection::Cluster(c) => backend::cluster_db_index(c),
            RedisConnection::NonCluster(c) => backend::noncluster_db_index(c),
        }
    }

    /// The logical namespace index the wrapped connection has selected,
    /// forwarded verbatim from whichever shape backs the handle.
    pub fn get_db(&self) -> (r: i64)
        ensures
            r == self.db_index_spec(),
    {
        match self {
            RedisConnection::Cluster(c) => backend::cluster_get_db(c),
            RedisConnection::NonCluster(c) => backend::noncluster_get_db(c),
        }
    }
}

} // verus!
