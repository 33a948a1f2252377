//! The memory pools a runtime can account against.

use crate::share::share;
use datafusion_execution::memory_pool::{GreedyMemoryPool, UnboundedMemoryPool};
use std::sync::Arc;
use vstd::prelude::*;

verus! {

/// A pool that tracks what is reserved and enforces no ceiling.
#[verifier::external_type_specification]
#[verifier::external_body]
pub struct ExUnboundedMemoryPool(UnboundedMemoryPool);

/// A pool that grants reservations first come, first served, up to a fixed
/// ceiling.
#[verifier::external_type_specification]
#[verifier::external_body]
pub struct ExGreedyMemoryPool(GreedyMemoryPool);

/// The ceiling in bytes that a greedy pool was created with. The pool
/// refuses a `try_grow` that would take its reserved total beyond it.
pub uninterp spec fn greedy_ceiling(pool: GreedyMemoryPool) -> usize;

/// Trusted: `GreedyMemoryPool::new` of datafusion-execution keeps
/// `pool_size` as the ceiling of the pool that it returns.
pub assume_specification[ GreedyMemoryPool::new ](pool_size: usize) -> (pool: GreedyMemoryPool)
    ensures
        greedy_ceiling(pool) == pool_size,
;

/// Trusted: the `Default` of `UnboundedMemoryPool` in datafusion-execution
/// returns a pool. Nothing is claimed of it: that it enforces no ceiling is
/// what its type says.
pub assume_specification[ <UnboundedMemoryPool as Default>::default ]() -> (pool:
    UnboundedMemoryPool)
;

/// A shared handle to one of the pools this runtime knows how to build.
///
/// Cloning a handle yields another handle to the same pool: both see the
/// same reservations.
pub enum MemoryPoolHandle {
    /// No ceiling is enforced.
    Unbounded(Arc<UnboundedMemoryPool>),
    /// Reservations beyond the pool's ceiling are refused.
    Greedy(Arc<GreedyMemoryPool>),
}

impl MemoryPoolHandle {
    /// The ceiling in bytes that the pool enforces, if it enforces one.
    pub open spec fn ceiling(self) -> Option<usize> {
        match self {
            MemoryPoolHandle::Unbounded(_) => None,
            MemoryPoolHandle::Greedy(pool) => Some(greedy_ceiling(*pool)),
        }
    }

    /// A fresh pool without a ceiling.
    pub fn unbounded() -> (handle: Self)
        ensures
            handle is Unbounded,
    {
        MemoryPoolHandle::Unbounded(Arc::new(UnboundedMemoryPool::default()))
    }

    /// A fresh pool that holds at most `pool_size` bytes.
    pub fn greedy(pool_size: usize) -> (handle: Self)
        ensures
            handle.ceiling() == Some(pool_size),
    {
        MemoryPoolHandle::Greedy(Arc::new(GreedyMemoryPool::new(pool_size)))
    }
}

impl Clone for MemoryPoolHandle {
    fn clone(&self) -> (other: Self)
        ensures
            other == *self,
    {
        match self {
            MemoryPoolHandle::Unbounded(pool) => MemoryPoolHandle::Unbounded(share(pool)),
            MemoryPoolHandle::Greedy(pool) => MemoryPoolHandle::Greedy(share(pool)),
        }
    }
}

} // verus!
