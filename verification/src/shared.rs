//! Shared handles.

use std::rc::Rc;
use vstd::prelude::*;

verus! {

/// `Rc::clone`: another handle on the same value.
#[verifier::external_body]
pub(crate) fn share<T>(handle: &Rc<T>) -> (shared: Rc<T>)
    ensures
        shared == *handle,
{
    Rc::clone(handle)
}

} // verus!
