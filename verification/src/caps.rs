//! Shared handles to caps. Nothing of the caps themselves is read.

use std::sync::Arc;

use vstd::prelude::*;

verus! {

/// `std::sync::Arc::clone` makes another pointer to the same allocation, so what it
/// points to is the same.
#[verifier::external_body]
pub(crate) fn share<C>(caps: &Arc<C>) -> (shared: Arc<C>)
    ensures
        shared == *caps,
{
    Arc::clone(caps)
}

/// Returns another handle to the same caps, if there are any.
pub(crate) fn share_optional<C>(caps: &Option<Arc<C>>) -> (shared: Option<Arc<C>>)
    ensures
        shared == *caps,
{
    match caps {
        Some(caps) => Some(share(caps)),
        None => None,
    }
}

} // verus!
