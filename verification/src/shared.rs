//! Values that several states hold at once.

use std::sync::Arc;
use vstd::prelude::*;

verus! {

/// Another handle to the same value; stands for `Arc::clone`.
#[verifier::external_body]
pub(crate) fn share<T>(value: &Arc<T>) -> (same: Arc<T>)
    ensures
        same == *value,
{
    value.clone()
}

} // verus!
