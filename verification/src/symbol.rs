//! Symbols: the ids of interned strings.

use vstd::prelude::*;

verus! {

/// An interned string's id: the position at which the interner holds it.
#[derive(Clone, Copy, Debug, PartialEq, Eq, Structural, Hash)]
pub struct Symbol(pub u32);

} // verus!
