//! The domain-level package record; carries no attributes yet.

use vstd::prelude::*;

verus! {

/// A package as the application sees it.
#[derive(Clone, Debug, PartialEq)]
pub struct Package {}

} // verus!
