//! Shared ownership of the runtime's resources.

use std::sync::Arc;
use vstd::prelude::*;

verus! {

/// Another handle to the value that `handle` owns.
///
/// Trusted: `Arc::clone` of std. It returns a second pointer to the same
/// allocation, so that what both handles point to is one and the same value.
#[verifier::external_body]
pub(crate) fn share<T>(handle: &Arc<T>) -> (other: Arc<T>)
    ensures
        other == *handle,
{
    Arc::clone(handle)
}

} // verus!
