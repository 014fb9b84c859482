//! The safe pool handle: the long-lived object callers share.
//!
//! The handle owns the guarded pool slot. Since construction fails fast
//! when the very first pool cannot be built, a live handle is never
//! uninitialized: it is `Ready` while the slot holds a pool and `Degraded`
//! while the slot is cleared and a rebuild is owed. The mutual exclusion
//! on the slot itself is the embedding layer's lock, held only for the
//! instant of reading or writing the slot; the methods here are the
//! serialized slot operations a driver performs between suspension
//! points, and each one states exactly how it moves the lifecycle state.

use vstd::prelude::*;

use crate::errors::PoolError;
use crate::factory;
use crate::factory::{RedisMode, RedisPool};
use crate::lifecycle::{GetConfig, GetPhase, LifecycleState};

verus! {

/// The handle: a guarded pool slot plus the construction parameters the
/// factory needs to rebuild the pool at any time.
pub struct SafePool {
    pool: Option<RedisPool>,
    endpoints: Vec<String>,
    mode: RedisMode,
    capacity: usize,
}

impl SafePool {
    /// The endpoints the handle was built with.
    pub closed spec fn endpoints_spec(self) -> Seq<String> {
        self.endpoints@
    }

    /// The deployment mode, fixed at construction.
    pub closed spec fn mode_spec(self) -> RedisMode {
        self.mode
    }

    /// The capacity bound, fixed at construction.
    pub closed spec fn capacity_spec(self) -> usize {
        self.capacity
    }

    /// Well-formedness: the construction parameters are meaningful, and
    /// whatever pool the slot holds is of the mode's variant and bounded
    /// by the handle's capacity.
    pub closed spec fn wf(self) -> bool {
        &&& self.capacity >= 1
        &&& self.endpoints@.len() >= 1
        &&& (self.pool matches Some(p) ==> p.matches_mode(self.mode) && p.capacity_spec()
            == self.capacity)
    }

    /// The externally visible state: `Ready` while a pool is present,
    /// `Degraded` while the slot is cleared.
    pub closed spec fn lifecycle(self) -> LifecycleState {
        if self.pool is Some {
            LifecycleState::Ready
        } else {
            LifecycleState::Degraded
        }
    }

    /// The handle after an invalidation: the same handle with the slot
    /// cleared.
    pub closed spec fn invalidated(self) -> SafePool {
        SafePool { pool: None, ..self }
    }

    /// Where a fresh `get()` call against this handle starts in the
    /// lifecycle machine.
    pub closed spec fn initial_config(self) -> GetConfig {
        GetConfig { phase: GetPhase::Inspect, pool_present: self.lifecycle() is Ready }
    }

    /// The pool the slot holds, if any.
    pub closed spec fn pool_spec(self) -> Option<RedisPool> {
        self.pool
    }

    /// Whether the endpoints the handle's mode consumes are accepted by
    /// the backing client: the condition under which every rebuild
    /// attempt succeeds.
    pub closed spec fn endpoints_accepted(self) -> bool {
        match self.mode {
            RedisMode::NonCluster => crate::backend::noncluster_endpoint_ok(self.endpoints@[0]@),
            RedisMode::Cluster => crate::backend::cluster_endpoints_ok(self.endpoints@),
        }
    }

    /// Builds the handle, constructing the very first pool synchronously.
    /// Construction is fail-fast by design: a pool-less handle is useless,
    /// so the one creation failure that is ever surfaced as an error value
    /// is this one, and the caller is expected to treat it as fatal.
    pub fn new(urls: Vec<String>, mode: RedisMode, pool_size: usize) -> (r: Result<
        SafePool,
        PoolError,
    >)
        requires
            pool_size >= 1,
        ensures
            urls@.len() == 0 <==> (r matches Err(e) && e is EmptyEndpointSet),
            urls@.len() > 0 ==> (r matches Err(e) ==> e is PoolCreationFailed),
            urls@.len() > 0 && mode is NonCluster ==> (r is Ok
                <==> crate::backend::noncluster_endpoint_ok(urls@[0]@)),
            urls@.len() > 0 && mode is Cluster ==> (r is Ok <==> crate::backend::cluster_endpoints_ok(
                urls@,
            )),
            r matches Ok(h) ==> h.wf() && h.lifecycle() is Ready && h.mode_spec() == mode
                && h.capacity_spec() == pool_size && h.endpoints_spec() =~= urls@
                && h.endpoints_accepted(),
    {
        match factory::create_pool(&urls, mode, pool_size) {
            Ok(pool) => Ok(SafePool { pool: Some(pool), endpoints: urls, mode, capacity: pool_size }),
            Err(e) => Err(e),
        }
    }

    /// Drops the held pool because it is no longer trusted: `Ready`
    /// becomes `Degraded`, and on an already degraded handle nothing at
    /// all changes (invalidation is idempotent).
    pub fn invalidate(&mut self)
        ensures
            *final(self) == old(self).invalidated(),
            final(self).lifecycle() is Degraded,
            old(self).lifecycle() is Degraded ==> *final(self) == *old(self),
            old(self).wf() ==> final(self).wf(),
            final(self).endpoints_accepted() == old(self).endpoints_accepted(),
    {
        if self.pool.is_some() {
            self.pool = None;
        }
    }

    /// One rebuild attempt: on a ready handle it does nothing; on a
    /// degraded handle it asks the factory once and installs the new pool
    /// on success, leaving the handle untouched on failure. It succeeds
    /// exactly when a pool is already in place or the stored endpoints
    /// are accepted by the backing client. The unbounded retry loop
    /// around it, with its fixed backoff between attempts, belongs to the
    /// embedding layer, which alone can suspend.
    pub fn try_ensure(&mut self) -> (r: Result<(), PoolError>)
        requires
            old(self).wf(),
        ensures
            final(self).wf(),
            old(self).lifecycle() is Ready ==> *final(self) == *old(self) && r is Ok,
            r is Ok <==> (old(self).lifecycle() is Ready || old(self).endpoints_accepted()),
            r is Ok ==> final(self).lifecycle() is Ready,
            r matches Err(e) ==> *final(self) == *old(self) && e is PoolCreationFailed,
            final(self).endpoints_spec() == old(self).endpoints_spec(),
            final(self).mode_spec() == old(self).mode_spec(),
            final(self).capacity_spec() == old(self).capacity_spec(),
            final(self).endpoints_accepted() == old(self).endpoints_accepted(),
    {
        if self.pool.is_some() {
            Ok(())
        } else {
            match factory::create_pool(&self.endpoints, self.mode, self.capacity) {
                Ok(pool) => {
                    self.pool = Some(pool);
                    Ok(())
                },
                Err(e) => Err(e),
            }
        }
    }

    /// A photograph of the slot as of this moment: a second handle to the
    /// very pool the slot holds, or `None` while degraded. The driver
    /// acquires from the snapshot so the slot lock never outlives the
    /// instant of the read.
    pub fn snapshot(&self) -> (r: Option<RedisPool>)
        requires
            self.wf(),
        ensures
            r is Some <==> self.lifecycle() is Ready,
            r matches Some(p) ==> p.matches_mode(self.mode_spec()) && p.capacity_spec()
                == self.capacity_spec(),
            r matches Some(p) ==> (self.pool_spec() matches Some(q) && p.id_spec() == q.id_spec()),
    {
        match &self.pool {
            Some(p) => Some(p.clone_handle()),
            None => None,
        }
    }

    /// The externally visible lifecycle state.
    pub fn state(&self) -> (r: LifecycleState)
        ensures
            r == self.lifecycle(),
    {
        if self.pool.is_some() {
            LifecycleState::Ready
        } else {
            LifecycleState::Degraded
        }
    }

    /// Whether a pool is present and assumed usable.
    pub fn is_ready(&self) -> (r: bool)
        ensures
            r == (self.lifecycle() is Ready),
    {
        self.pool.is_some()
    }

    /// The deployment mode, fixed at construction.
    pub fn mode(&self) -> (r: RedisMode)
        ensures
            r == self.mode_spec(),
    {
        self.mode
    }

    /// The capacity bound, fixed at construction.
    pub fn capacity(&self) -> (r: usize)
        ensures
            r == self.capacity_spec(),
    {
        self.capacity
    }

    /// The endpoints the handle was built with, immutable ever after.
    pub fn endpoints(&self) -> (r: &Vec<String>)
        ensures
            r@ == self.endpoints_spec(),
    {
        &self.endpoints
    }

    /// The capacity bound as the held pool itself reports it, or `None`
    /// while degraded.
    pub fn reported_capacity(&self) -> (r: Option<usize>)
        requires
            self.wf(),
        ensures
            r is Some <==> self.lifecycle() is Ready,
            r matches Some(c) ==> c == self.capacity_spec(),
    {
        match &self.pool {
            Some(p) => Some(p.reported_capacity()),
            None => None,
        }
    }
}

/// Invalidation is idempotent: invalidating an already invalidated handle
/// is the identity.
pub proof fn lemma_invalidate_idempotent(s: SafePool)
    ensures
        s.invalidated().invalidated() == s.invalidated(),
{
}

/// Invalidating a ready handle degrades it, and a `get()` that then finds
/// the slot empty owes a rebuild before any acquisition.
pub proof fn lemma_invalidate_degrades(s: SafePool)
    requires
        s.lifecycle() is Ready,
    ensures
        s.invalidated().lifecycle() is Degraded,
        s.invalidated().initial_config().phase is Inspect,
        !s.invalidated().initial_config().pool_present,
{
}

} // verus!
