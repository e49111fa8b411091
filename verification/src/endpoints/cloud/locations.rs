//! Deployment locations.

use vstd::prelude::*;
use crate::binding::DescriptorModel;
use crate::binding::EndpointDescriptor;
use crate::binding::EndpointGetAll;
use crate::binding::EndpointGetOne;

verus! {

/// An available deployment location.
#[derive(Clone, Debug, PartialEq)]
pub struct Location {
    pub id: u32,
    pub name: String,
    pub iata_code: String,
    pub continent: String,
    pub flag: String,
    pub latitude: String,
    pub longitude: String,
    pub disabled: u32,
}

impl EndpointGetAll for Location {
    open spec fn all_descriptor() -> Option<DescriptorModel> {
        Some(DescriptorModel { template: "cloud/locations"@, arity: 0 })
    }

    fn get_all_descriptor() -> (r: Option<EndpointDescriptor>) {
        EndpointDescriptor::new("cloud/locations".to_owned(), 0)
    }
}

impl EndpointGetOne for Location {
    open spec fn one_descriptor() -> Option<DescriptorModel> {
        None
    }

    fn get_one_descriptor() -> (r: Option<EndpointDescriptor>) {
        None
    }
}

} // verus!
