//! Which functions are checked.

use crate::type_decl::{option_view, Ty, TypeDecl};
use std::collections::HashMap;
use vstd::prelude::*;

verus! {

/// The values of the recorded states of the functions.
pub open spec fn status_view(status: Map<u32, Option<TypeDecl>>) -> Map<u32, Option<Ty>> {
    Map::new(|k: u32| status.contains_key(k), |k: u32| option_view(status[k]))
}

/// Which functions are checked. A function is absent before its check, maps
/// to `None` while it is being checked, and to its type once it is done.
pub struct FunctionCheckingState {
    pub is_checked_fn: HashMap<u32, Option<TypeDecl>>,
    pub call_depth: usize,
}

impl FunctionCheckingState {
    /// No function is checked, none is in progress.
    pub fn new() -> (state: Self)
        ensures
            status_view(state.is_checked_fn@) == Map::<u32, Option<Ty>>::empty(),
            state.call_depth == 0,
    {
        let state = FunctionCheckingState { is_checked_fn: HashMap::new(), call_depth: 0 };
        assert(status_view(state.is_checked_fn@) =~= Map::<u32, Option<Ty>>::empty());
        state
    }
}

} // verus!
