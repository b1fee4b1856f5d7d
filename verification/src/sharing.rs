//! Shared ownership of library values.

use std::sync::Arc;
use vstd::prelude::*;

verus! {

/// Another handle to the value behind `a`.
///
/// Trusted: calls `Arc::clone`, which std documents as making a new pointer
/// to the same allocation; the contract states that the value seen through
/// the new handle is the value seen through `a`.
#[verifier::external_body]
pub fn share<T>(a: &Arc<T>) -> (r: Arc<T>)
    ensures
        *r == **a,
{
    Arc::clone(a)
}

} // verus!
