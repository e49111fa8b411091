//! BGP sessions.  The resource exists in the API but no read operation is
//! bound yet: both capabilities answer with the uniform "not implemented"
//! error instead of being missing from the interface.

use vstd::prelude::*;
use crate::binding::DescriptorModel;
use crate::binding::EndpointDescriptor;
use crate::binding::EndpointGetAll;
use crate::binding::EndpointGetOne;

verus! {

/// A BGP session resource; carries no attributes yet.
#[derive(Clone, Debug, PartialEq)]
pub struct Bgp {}

impl EndpointGetOne for Bgp {
    open spec fn one_descriptor() -> Option<DescriptorModel> {
        None
    }

    fn get_one_descriptor() -> (r: Option<EndpointDescriptor>) {
        None
    }
}

impl EndpointGetAll for Bgp {
    open spec fn all_descriptor() -> Option<DescriptorModel> {
        None
    }

    fn get_all_descriptor() -> (r: Option<EndpointDescriptor>) {
        None
    }
}

} // verus!
