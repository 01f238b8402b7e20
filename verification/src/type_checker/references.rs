//! The program that a check works on.

use crate::ast::{ExprPool, LocationPool, StmtPool};
use crate::interner::Interner;
use vstd::prelude::*;

verus! {

/// The program that a type check works on. The expression pool is held by
/// value, as the check rewrites literals in it; the rest is only read.
pub struct CoreReferences<'a> {
    pub stmt_pool: &'a StmtPool,
    pub expr_pool: ExprPool,
    pub string_interner: &'a Interner,
    pub location_pool: &'a LocationPool,
}

} // verus!
