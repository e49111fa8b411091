//! The argument variant carried by every endpoint call: zero, one or two
//! opaque integer identifiers.

use vstd::prelude::*;

verus! {

/// The closed set of argument shapes an endpoint operation accepts.
/// Exactly one tag is active; the integers are opaque identifiers
/// (a package id, a zone id, a job id) with no meaning enforced here.
#[derive(Clone, Copy, Debug, PartialEq, Eq, Structural)]
pub enum EndpointGetArgs {
    NoArgs,
    OneInt(u32),
    TwoInt(u32, u32),
}

impl EndpointGetArgs {
    /// How many identifiers this variant carries.
    pub open spec fn count(self) -> nat {
        match self {
            EndpointGetArgs::NoArgs => 0,
            EndpointGetArgs::OneInt(_) => 1,
            EndpointGetArgs::TwoInt(_, _) => 2,
        }
    }

    /// The identifiers this variant carries, in order.
    pub open spec fn values(self) -> Seq<u32> {
        match self {
            EndpointGetArgs::NoArgs => seq![],
            EndpointGetArgs::OneInt(a) => seq![a],
            EndpointGetArgs::TwoInt(a, b) => seq![a, b],
        }
    }

    /// Executable view of `count`.
    pub fn tag_count(&self) -> (n: u32)
        ensures
            n as nat == self.count(),
    {
        match self {
            EndpointGetArgs::NoArgs => 0,
            EndpointGetArgs::OneInt(_) => 1,
            EndpointGetArgs::TwoInt(_, _) => 2,
        }
    }
}

} // verus!
