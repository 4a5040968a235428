//! Shared handles to immutable values.

use std::sync::Arc;
use vstd::prelude::*;

verus! {

/// Another handle to the value behind `handle`, made with `Arc::clone`. The
/// value is not copied: both handles lead to the same value, which is what
/// the contract claims and what Verus takes on trust.
#[verifier::external_body]
pub(crate) fn share<T>(handle: &Arc<T>) -> (other: Arc<T>)
    ensures
        other == *handle,
{
    Arc::clone(handle)
}

} // verus!
