//! The type cache.

use crate::type_checker::context::table_view;
use crate::type_decl::{Ty, TypeDecl};
use std::collections::HashMap;
use vstd::prelude::*;

verus! {

/// The types of the expressions visited in the current function or block,
/// by expression index.
pub struct PerformanceOptimization {
    pub type_cache: HashMap<u32, TypeDecl>,
}

impl PerformanceOptimization {
    /// An empty cache.
    pub fn new() -> (state: Self)
        ensures
            table_view(state.type_cache@) == Map::<u32, Ty>::empty(),
    {
        let state = PerformanceOptimization { type_cache: HashMap::new() };
        assert(table_view(state.type_cache@) =~= Map::<u32, Ty>::empty());
        state
    }
}

} // verus!
