//! The domain-level plan record; carries no attributes yet.

use vstd::prelude::*;

verus! {

/// A purchasable plan as the application sees it.
#[derive(Clone, Debug, PartialEq)]
pub struct Plan {}

} // verus!
