//! The typing environment of the line grammar.

use crate::syntax::Type;
use std::collections::HashMap;
use vstd::prelude::*;

verus! {

/// The types of the names of the line grammar.
pub struct Environment {
    pub context: HashMap<String, Type>,
}

impl Environment {
    /// An environment that knows no name.
    pub fn new() -> (environment: Self)
        ensures
            environment.context@ == Map::<String, Type>::empty(),
    {
        Environment { context: HashMap::new() }
    }
}

} // verus!
