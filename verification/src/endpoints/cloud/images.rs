//! Operating-system images.

use vstd::prelude::*;
use crate::binding::DescriptorModel;
use crate::binding::EndpointDescriptor;
use crate::binding::EndpointGetAll;
use crate::binding::EndpointGetOne;

verus! {

/// An installable OS image.  Most attributes are optional: the catalogue
/// omits them freely.
#[derive(Clone, Debug, PartialEq)]
pub struct Image {
    pub id: u32,
    pub os: Option<String>,
    pub description: Option<String>,
    pub size: Option<String>,
    pub subtype: Option<String>,
    pub created: Option<String>,
    pub category: Option<String>,
    pub updated: Option<String>,
    pub iso: Option<String>,
    pub bits: Option<String>,
    pub tech: Option<String>,
    pub icon: Option<String>,
    pub private: Option<u32>,
}

impl EndpointGetAll for Image {
    open spec fn all_descriptor() -> Option<DescriptorModel> {
        Some(DescriptorModel { template: "cloud/images"@, arity: 0 })
    }

    fn get_all_descriptor() -> (r: Option<EndpointDescriptor>) {
        EndpointDescriptor::new("cloud/images".to_owned(), 0)
    }
}

impl EndpointGetOne for Image {
    open spec fn one_descriptor() -> Option<DescriptorModel> {
        None
    }

    fn get_one_descriptor() -> (r: Option<EndpointDescriptor>) {
        None
    }
}

/// The typed envelope of a single image response.
#[derive(Clone, Debug, PartialEq)]
pub struct ImageData {
    pub result: String,
    pub code: u32,
    pub data: Image,
}

/// The typed envelope of an image listing response.
#[derive(Clone, Debug, PartialEq)]
pub struct ImagesData {
    pub result: String,
    pub code: u32,
    pub data: Vec<Image>,
}

} // verus!
