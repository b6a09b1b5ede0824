//! Reference-counted sharing of immutable data.

use std::sync::Arc;
use vstd::prelude::*;

verus! {

/// Another pointer to the data behind `shared`.
///
/// This is `Arc::clone`, taken on trust: the result points to the same
/// allocation as the argument, so the two hold the same value. The reference
/// count goes up by one; the data is not copied.
#[verifier::external_body]
pub(crate) fn share<T>(shared: &Arc<T>) -> (other: Arc<T>)
    ensures
        other == *shared,
{
    Arc::clone(shared)
}

} // verus!
