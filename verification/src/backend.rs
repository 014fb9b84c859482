//! Trusted bindings to the backing client crates.
//!
//! Every item here is believed rather than verified: each contract states
//! only what the source of `deadpool-redis` and `deadpool` shows. The
//! wrappers never touch the network themselves; building a manager or a
//! pool only parses addresses and allocates bookkeeping, while actual
//! connections are established lazily by the embedding layer.

use vstd::prelude::*;
use deadpool_redis::redis::aio::ConnectionLike;

verus! {

/// `deadpool_redis::Manager`: connection manager for a single-node store.
#[verifier::external_type_specification]
#[verifier::external_body]
pub struct ExManager(deadpool_redis::Manager);

/// `deadpool_redis::cluster::Manager`: connection manager for a sharded store.
#[verifier::external_type_specification]
#[verifier::external_body]
pub struct ExClusterManager(deadpool_redis::cluster::Manager);

/// `deadpool_redis::Connection`: a checked-out single-node connection.
#[verifier::external_type_specification]
#[verifier::external_body]
pub struct ExConnection(deadpool_redis::Connection);

/// `deadpool_redis::cluster::Connection`: a checked-out cluster connection.
#[verifier::external_type_specification]
#[verifier::external_body]
pub struct ExClusterConnection(deadpool_redis::cluster::Connection);

/// A bounded pool of connections to a single-node store.
///
/// `deadpool_redis::Pool` is an alias of the generic
/// `deadpool::managed::Pool`, whose generics are bound by outside traits
/// that cannot be declared here, so the pool is held opaquely in a field
/// instead of being declared itself.
///
/// The `inner` field is exposed so that the embedding layer can perform
/// the awaited checkout. The contracts below rely on the embedding never
/// reconfiguring the pool through it: `deadpool::managed::Pool::{resize,
/// close}` would change the very bound that `noncluster_pool_capacity`
/// denotes. Nothing in this crate calls them.
#[verifier::external_body]
pub struct NonClusterPool {
    pub inner: deadpool_redis::Pool,
}

/// A bounded pool of connections to a sharded store; held opaquely, and
/// with the same reliance on the embedding never resizing or closing the
/// pool through `inner`, as [`NonClusterPool`].
#[verifier::external_body]
pub struct ClusterPool {
    pub inner: deadpool_redis::cluster::Pool,
}

/// The `max_size` bound the pool was built with.
pub uninterp spec fn noncluster_pool_capacity(p: NonClusterPool) -> usize;

/// The `max_size` bound the pool was built with.
pub uninterp spec fn cluster_pool_capacity(p: ClusterPool) -> usize;

/// The identity of the shared inner pool: clones of one pool share it,
/// independently built pools do not.
pub uninterp spec fn noncluster_pool_id(p: NonClusterPool) -> int;

/// The identity of the shared inner pool, as for the single-node variant.
pub uninterp spec fn cluster_pool_id(p: ClusterPool) -> int;

/// Whether `redis::Client::open` accepts this endpoint address. Address
/// parsing is pure and deterministic in the string, so acceptance is a
/// function of the address alone.
pub uninterp spec fn noncluster_endpoint_ok(url: Seq<char>) -> bool;

/// Whether `redis::cluster::ClusterClientBuilder::build` accepts this
/// endpoint list (each node parses, credentials agree, list non-empty).
/// The checks are pure and deterministic in the list, so acceptance is a
/// function of the list alone.
pub uninterp spec fn cluster_endpoints_ok(urls: Seq<String>) -> bool;

/// Relies on `deadpool_redis::Manager::new` (which only calls
/// `redis::Client::open`): parses one endpoint address into a manager, no
/// network traffic, and succeeds exactly when the parse accepts the
/// address — a pure check, deterministic in the string.
#[verifier::external_body]
pub(crate) fn noncluster_manager_new(url: &String) -> (r: Result<
    deadpool_redis::Manager,
    String,
>)
    ensures
        r is Ok <==> noncluster_endpoint_ok(url@),
{
    match deadpool_redis::Manager::new(url.as_str()) {
        Ok(m) => Ok(m),
        Err(e) => Err(format!("{:?}", e)),
    }
}

/// Relies on `deadpool_redis::cluster::Manager::new`: hands the whole
/// endpoint list to `redis::cluster::ClusterClientBuilder` for topology
/// discovery, no network traffic, and succeeds exactly when the builder
/// accepts the list — pure checks, deterministic in the list. The
/// replica-read flag only selects a routing strategy and plays no part in
/// acceptance.
#[verifier::external_body]
pub(crate) fn cluster_manager_new(urls: &Vec<String>, read_from_replicas: bool) -> (r: Result<
    deadpool_redis::cluster::Manager,
    String,
>)
    ensures
        r is Ok <==> cluster_endpoints_ok(urls@),
{
    match deadpool_redis::cluster::Manager::new(urls.clone(), read_from_replicas) {
        Ok(m) => Ok(m),
        Err(e) => Err(format!("{:?}", e)),
    }
}

/// Relies on `deadpool::managed::Pool::builder` with
/// `PoolBuilder::{max_size, build}`: the built pool stores `capacity` as its
/// `max_size` bound, which `Pool::status` later reports unchanged. The one
/// failure path of `build` is a timeout configured without a runtime, and
/// this wrapper configures neither, so building always succeeds.
#[verifier::external_body]
pub(crate) fn noncluster_pool_build(manager: deadpool_redis::Manager, capacity: usize) -> (r:
    Result<NonClusterPool, String>)
    ensures
        r is Ok,
        r matches Ok(p) ==> noncluster_pool_capacity(p) == capacity,
{
    match deadpool_redis::Pool::builder(manager).max_size(capacity).build() {
        Ok(pool) => Ok(NonClusterPool { inner: pool }),
        Err(e) => Err(format!("{:?}", e)),
    }
}

/// Relies on `deadpool::managed::Pool::builder` with
/// `PoolBuilder::{max_size, build}`, as the non-cluster variant does,
/// building always succeeding for the same reason.
#[verifier::external_body]
pub(crate) fn cluster_pool_build(manager: deadpool_redis::cluster::Manager, capacity: usize) -> (r:
    Result<ClusterPool, String>)
    ensures
        r is Ok,
        r matches Ok(p) ==> cluster_pool_capacity(p) == capacity,
{
    match deadpool_redis::cluster::Pool::builder(manager).max_size(capacity).build() {
        Ok(pool) => Ok(ClusterPool { inner: pool }),
        Err(e) => Err(format!("{:?}", e)),
    }
}

/// Relies on `Clone for deadpool::managed::Pool`: a clone shares the same
/// reference-counted inner pool, so the capacity bound and the pool's
/// identity are unchanged — the clone is a second handle to the same
/// pool, not a new pool.
#[verifier::external_body]
pub(crate) fn noncluster_pool_clone(p: &NonClusterPool) -> (r: NonClusterPool)
    ensures
        noncluster_pool_capacity(r) == noncluster_pool_capacity(*p),
        noncluster_pool_id(r) == noncluster_pool_id(*p),
{
    NonClusterPool { inner: p.inner.clone() }
}

/// Relies on `Clone for deadpool::managed::Pool`, as the non-cluster
/// variant does.
#[verifier::external_body]
pub(crate) fn cluster_pool_clone(p: &ClusterPool) -> (r: ClusterPool)
    ensures
        cluster_pool_capacity(r) == cluster_pool_capacity(*p),
        cluster_pool_id(r) == cluster_pool_id(*p),
{
    ClusterPool { inner: p.inner.clone() }
}

/// Relies on `deadpool::managed::Pool::status`: reports the `max_size`
/// bound the pool was built with.
#[verifier::external_body]
pub(crate) fn noncluster_pool_max_size(p: &NonClusterPool) -> (r: usize)
    ensures
        r == noncluster_pool_capacity(*p),
{
    p.inner.status().max_size
}

/// Relies on `deadpool::managed::Pool::status`, as the non-cluster variant
/// does.
#[verifier::external_body]
pub(crate) fn cluster_pool_max_size(p: &ClusterPool) -> (r: usize)
    ensures
        r == cluster_pool_capacity(*p),
{
    p.inner.status().max_size
}

/// The logical namespace index a single-node connection has selected: a
/// field stored in the connection when it was established, so a function
/// of the connection value.
pub uninterp spec fn noncluster_db_index(c: deadpool_redis::Connection) -> i64;

/// The logical namespace index of a cluster connection. The cluster
/// client reports the index the same way; that it is always the default
/// index is its own affair, not stated here.
pub uninterp spec fn cluster_db_index(c: deadpool_redis::cluster::Connection) -> i64;

/// Relies on `ConnectionLike::get_db` of `deadpool_redis::Connection`:
/// reads the namespace index stored in the wrapped connection and mutates
/// nothing.
#[verifier::external_body]
pub(crate) fn noncluster_get_db(c: &deadpool_redis::Connection) -> (r: i64)
    ensures
        r == noncluster_db_index(*c),
{
    c.get_db()
}

/// Relies on `ConnectionLike::get_db` of `deadpool_redis::cluster::Connection`:
/// reads the namespace index of the wrapped connection and mutates
/// nothing.
#[verifier::external_body]
pub(crate) fn cluster_get_db(c: &deadpool_redis::cluster::Connection) -> (r: i64)
    ensures
        r == cluster_db_index(*c),
{
    c.get_db()
}

} // verus!
