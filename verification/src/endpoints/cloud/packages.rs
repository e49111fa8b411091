//! Purchased packages.

use vstd::prelude::*;
use crate::binding::DescriptorModel;
use crate::binding::EndpointDescriptor;
use crate::binding::EndpointGetAll;
use crate::binding::EndpointGetOne;

verus! {

/// A purchased package.
#[derive(Clone, Debug, PartialEq)]
pub struct Package {
    pub mbpkgid: u32,
    pub package_status: String,
    pub fqdn: String,
    pub name: String,
    pub gid: u32,
    pub domu_package: u32,
    pub rescue: u32,
    pub locked: u32,
    pub package: String,
    pub ipv6: String,
    pub city: String,
    pub ip: String,
    pub installed: u32,
    pub state: String,
    pub uptime: String,
    pub os: String,
    pub is_building: u32,
}

impl EndpointGetAll for Package {
    open spec fn all_descriptor() -> Option<DescriptorModel> {
        Some(DescriptorModel { template: "cloud/packages"@, arity: 0 })
    }

    fn get_all_descriptor() -> (r: Option<EndpointDescriptor>) {
        EndpointDescriptor::new("cloud/packages".to_owned(), 0)
    }
}

impl EndpointGetOne for Package {
    open spec fn one_descriptor() -> Option<DescriptorModel> {
        None
    }

    fn get_one_descriptor() -> (r: Option<EndpointDescriptor>) {
        None
    }
}

/// The typed envelope of a single package response.
#[derive(Clone, Debug, PartialEq)]
pub struct PackageData {
    pub result: String,
    pub code: u32,
    pub data: Package,
}

/// The typed envelope of a package listing response.
#[derive(Clone, Debug, PartialEq)]
pub struct PackagesData {
    pub result: String,
    pub code: u32,
    pub data: Vec<Package>,
}

} // verus!
