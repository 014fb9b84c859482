//! The error taxonomy of the pool manager.

use vstd::prelude::*;

verus! {

/// Why a pool could not be produced.
///
/// `EmptyEndpointSet` is a construction-time misconfiguration: no endpoint
/// was supplied at all. `PoolCreationFailed` carries the diagnostic text of
/// the underlying client when a manager or a pool could not be built from
/// the endpoints that were supplied (malformed address, rejected
/// configuration).
#[derive(Debug)]
pub enum PoolError {
    EmptyEndpointSet,
    PoolCreationFailed(String),
}

impl PoolError {
    /// A human-readable description of the error.
    pub fn message(&self) -> (r: String)
        ensures
            self is EmptyEndpointSet ==> r@ =~= "no endpoint was provided"@,
            self matches PoolError::PoolCreationFailed(d) ==> r@ =~= d@,
    {
        match self {
            PoolError::EmptyEndpointSet => "no endpoint was provided".to_string(),
            PoolError::PoolCreationFailed(d) => d.clone(),
        }
    }
}

} // verus!
