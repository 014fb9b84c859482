//! The pool factory: from an endpoint set, a deployment mode and a
//! capacity bound to a ready-to-use pool, or a descriptive error.
//!
//! The factory never retries; retry is the handle's responsibility.

use vstd::prelude::*;

use crate::backend;
use crate::backend::{ClusterPool, NonClusterPool};
use crate::errors::PoolError;

verus! {

/// The deployment topology of the remote store, fixed at construction.
#[derive(Clone, Copy, PartialEq, Eq, Structural, Debug)]
pub enum RedisMode {
    Cluster,
    NonCluster,
}

/// The pool variant matching the deployment mode.
pub enum RedisPool {
    Cluster(ClusterPool),
    NonCluster(NonClusterPool),
}

impl RedisPool {
    /// Whether the pool variant is the one the mode calls for.
    pub open spec fn matches_mode(self, mode: RedisMode) -> bool {
        match self {
            RedisPool::Cluster(_) => mode is Cluster,
            RedisPool::NonCluster(_) => mode is NonCluster,
        }
    }

    /// The capacity bound the pool was built with.
    pub open spec fn capacity_spec(self) -> usize {
        match self {
            RedisPool::Cluster(p) => backend::cluster_pool_capacity(p),
            RedisPool::NonCluster(p) => backend::noncluster_pool_capacity(p),
        }
    }

    /// The identity of the shared inner pool: handles to the same pool
    /// agree on it, independently built pools do not.
    pub open spec fn id_spec(self) -> int {
        match self {
            RedisPool::Cluster(p) => backend::cluster_pool_id(p),
            RedisPool::NonCluster(p) => backend::noncluster_pool_id(p),
        }
    }

    /// A second handle to the very same underlying pool: same variant,
    /// same capacity bound, same identity.
    pub fn clone_handle(&self) -> (r: RedisPool)
        ensures
            forall|m: RedisMode| #[trigger] r.matches_mode(m) <==> self.matches_mode(m),
            r.capacity_spec() == self.capacity_spec(),
            r.id_spec() == self.id_spec(),
    {
        match self {
            RedisPool::Cluster(p) => RedisPool::Cluster(backend::cluster_pool_clone(p)),
            RedisPool::NonCluster(p) => RedisPool::NonCluster(backend::noncluster_pool_clone(p)),
        }
    }

    /// The capacity bound, as the underlying pool itself reports it.
    pub fn reported_capacity(&self) -> (r: usize)
        ensures
            r == self.capacity_spec(),
    {
        match self {
            RedisPool::Cluster(p) => backend::cluster_pool_max_size(p),
            RedisPool::NonCluster(p) => backend::noncluster_pool_max_size(p),
        }
    }
}

/// The endpoints a given mode actually consumes: all of them, for topology
/// discovery, in clustered mode; only the first in non-clustered mode (a
/// deliberate single-node assumption, not an oversight). An empty endpoint
/// set is the one construction-time misconfiguration, in either mode.
pub fn select_endpoints(urls: &Vec<String>, mode: RedisMode) -> (r: Result<Vec<String>, PoolError>)
    ensures
        urls@.len() == 0 <==> (r matches Err(e) && e is EmptyEndpointSet),
        r matches Err(e) ==> e is EmptyEndpointSet,
        urls@.len() > 0 && mode is NonCluster ==> (r matches Ok(s) && s@ =~= seq![urls@[0]]),
        urls@.len() > 0 && mode is Cluster ==> (r matches Ok(s) && s@ =~= urls@),
{
    if urls.len() == 0 {
        Err(PoolError::EmptyEndpointSet)
    } else {
        match mode {
            RedisMode::Cluster => {
                let mut all: Vec<String> = Vec::new();
                let mut i: usize = 0;
                while i < urls.len()
                    invariant
                        i <= urls@.len(),
                        all@ =~= urls@.subrange(0, i as int),
                    decreases urls@.len() - i,
                {
                    all.push(urls[i].clone());
                    i = i + 1;
                }
                assert(all@ =~= urls@);
                Ok(all)
            },
            RedisMode::NonCluster => {
                let mut first: Vec<String> = Vec::new();
                first.push(urls[0].clone());
                Ok(first)
            },
        }
    }
}

/// Builds a cluster-aware pool from the whole endpoint set, bounded by
/// `pool_size`. Construction succeeds exactly when the cluster client
/// accepts the endpoint list; the pool builder itself cannot refuse.
/// Replica reads are left off, as the single-node variant cannot offer
/// them either.
pub fn create_cluster_pool(urls: Vec<String>, pool_size: usize) -> (r: Result<
    ClusterPool,
    PoolError,
>)
    ensures
        r is Ok <==> backend::cluster_endpoints_ok(urls@),
        r matches Ok(p) ==> backend::cluster_pool_capacity(p) == pool_size,
        r matches Err(e) ==> e is PoolCreationFailed,
{
    match backend::cluster_manager_new(&urls, false) {
        Ok(manager) => match backend::cluster_pool_build(manager, pool_size) {
            Ok(pool) => Ok(pool),
            Err(d) => Err(PoolError::PoolCreationFailed(d)),
        },
        Err(d) => Err(PoolError::PoolCreationFailed(d)),
    }
}

/// Builds a single-node pool from one endpoint, bounded by `pool_size`.
/// Construction succeeds exactly when the address parses; the pool
/// builder itself cannot refuse. Whether the transport is encrypted is
/// implied by the address scheme and handled entirely by the transport
/// layer.
pub fn create_non_cluster_pool(url: &String, pool_size: usize) -> (r: Result<
    NonClusterPool,
    PoolError,
>)
    ensures
        r is Ok <==> backend::noncluster_endpoint_ok(url@),
        r matches Ok(p) ==> backend::noncluster_pool_capacity(p) == pool_size,
        r matches Err(e) ==> e is PoolCreationFailed,
{
    match backend::noncluster_manager_new(url) {
        Ok(manager) => match backend::noncluster_pool_build(manager, pool_size) {
            Ok(pool) => Ok(pool),
            Err(d) => Err(PoolError::PoolCreationFailed(d)),
        },
        Err(d) => Err(PoolError::PoolCreationFailed(d)),
    }
}

/// Builds the pool the mode calls for, from the endpoints that mode
/// consumes: a ready-to-use pool bounded by `capacity`, or the error that
/// stopped construction. Success is owed exactly when the endpoints the
/// mode consumes are accepted. No retry happens here.
pub fn create_pool(urls: &Vec<String>, mode: RedisMode, capacity: usize) -> (r: Result<
    RedisPool,
    PoolError,
>)
    ensures
        urls@.len() == 0 <==> (r matches Err(e) && e is EmptyEndpointSet),
        r matches Ok(p) ==> p.matches_mode(mode) && p.capacity_spec() == capacity,
        urls@.len() > 0 ==> (r matches Err(e) ==> e is PoolCreationFailed),
        urls@.len() > 0 && mode is NonCluster ==> (r is Ok <==> backend::noncluster_endpoint_ok(
            urls@[0]@,
        )),
        urls@.len() > 0 && mode is Cluster ==> (r is Ok <==> backend::cluster_endpoints_ok(urls@)),
{
    match select_endpoints(urls, mode) {
        Err(e) => Err(e),
        Ok(selected) => match mode {
            RedisMode::Cluster => match create_cluster_pool(selected, capacity) {
                Ok(pool) => Ok(RedisPool::Cluster(pool)),
                Err(e) => Err(e),
            },
            RedisMode::NonCluster => match create_non_cluster_pool(&selected[0], capacity) {
                Ok(pool) => Ok(RedisPool::NonCluster(pool)),
                Err(e) => Err(e),
            },
        },
    }
}

} // verus!
