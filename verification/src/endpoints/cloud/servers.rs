//! Servers, their jobs, their status and their addresses.

use vstd::prelude::*;
use crate::binding::DescriptorModel;
use crate::binding::EndpointDescriptor;
use crate::binding::EndpointGetAll;
use crate::binding::EndpointGetOne;

verus! {

/// A provisioned server.
#[derive(Clone, Debug, PartialEq)]
pub struct Server {
    pub city: String,
    pub fqdn: String,
    pub domu_package: u32,
    pub mbpkgid: u32,
    pub os_id: u32,
    pub location_id: u32,
    pub ip: String,
    pub ipv6: String,
    pub plan_id: u32,
    pub pkg_id: u32,
    pub state: String,
    pub status: String,
    pub uptime: String,
    pub installed: u32,
    pub nic1_mac: String,
    pub nic2_mac: String,
}

impl EndpointGetOne for Server {
    open spec fn one_descriptor() -> Option<DescriptorModel> {
        Some(DescriptorModel { template: "cloud/server?mbpkgid={}"@, arity: 1 })
    }

    fn get_one_descriptor() -> (r: Option<EndpointDescriptor>) {
        EndpointDescriptor::new("cloud/server?mbpkgid={}".to_owned(), 1)
    }
}

impl EndpointGetAll for Server {
    open spec fn all_descriptor() -> Option<DescriptorModel> {
        Some(DescriptorModel { template: "cloud/servers"@, arity: 0 })
    }

    fn get_all_descriptor() -> (r: Option<EndpointDescriptor>) {
        EndpointDescriptor::new("cloud/servers".to_owned(), 0)
    }
}

/// A job queued or run for a server.
#[derive(Clone, Debug, PartialEq)]
pub struct SrvJob {
    pub id: u32,
    pub ts_insert: String,
    pub command: String,
    pub status: u32,
}

impl EndpointGetOne for SrvJob {
    open spec fn one_descriptor() -> Option<DescriptorModel> {
        Some(DescriptorModel { template: "cloud/server/{}/jobs/{}"@, arity: 2 })
    }

    fn get_one_descriptor() -> (r: Option<EndpointDescriptor>) {
        EndpointDescriptor::new("cloud/server/{}/jobs/{}".to_owned(), 2)
    }
}

impl EndpointGetAll for SrvJob {
    open spec fn all_descriptor() -> Option<DescriptorModel> {
        Some(DescriptorModel { template: "cloud/server/{}/jobs"@, arity: 1 })
    }

    fn get_all_descriptor() -> (r: Option<EndpointDescriptor>) {
        EndpointDescriptor::new("cloud/server/{}/jobs".to_owned(), 1)
    }
}

/// A server's status (up, down, or whatever the API reports).
#[derive(Clone, Debug, PartialEq)]
pub struct SrvStatus {
    pub status: String,
}

impl EndpointGetOne for SrvStatus {
    open spec fn one_descriptor() -> Option<DescriptorModel> {
        Some(DescriptorModel { template: "cloud/status/{}"@, arity: 1 })
    }

    fn get_one_descriptor() -> (r: Option<EndpointDescriptor>) {
        EndpointDescriptor::new("cloud/status/{}".to_owned(), 1)
    }
}

impl EndpointGetAll for SrvStatus {
    open spec fn all_descriptor() -> Option<DescriptorModel> {
        None
    }

    fn get_all_descriptor() -> (r: Option<EndpointDescriptor>) {
        None
    }
}

/// An IPv4 address assignment of a server.
#[derive(Clone, Debug, PartialEq)]
pub struct IPv4 {
    pub id: u32,
    pub primary: u32,
    pub reverse: String,
    pub ip: String,
    pub netmask: String,
    pub gateway: String,
    pub broadcast: String,
}

impl EndpointGetOne for IPv4 {
    open spec fn one_descriptor() -> Option<DescriptorModel> {
        None
    }

    fn get_one_descriptor() -> (r: Option<EndpointDescriptor>) {
        None
    }
}

impl EndpointGetAll for IPv4 {
    open spec fn all_descriptor() -> Option<DescriptorModel> {
        Some(DescriptorModel { template: "cloud/ipv4?mbpkgid={}"@, arity: 1 })
    }

    fn get_all_descriptor() -> (r: Option<EndpointDescriptor>) {
        EndpointDescriptor::new("cloud/ipv4?mbpkgid={}".to_owned(), 1)
    }
}

/// An IPv6 address assignment of a server.
#[derive(Clone, Debug, PartialEq)]
pub struct IPv6 {
    pub id: u32,
    pub primary: u32,
    pub reverse: String,
    pub ip: String,
    pub netmask: String,
    pub gateway: String,
    pub broadcast: String,
}

impl EndpointGetOne for IPv6 {
    open spec fn one_descriptor() -> Option<DescriptorModel> {
        None
    }

    fn get_one_descriptor() -> (r: Option<EndpointDescriptor>) {
        None
    }
}

impl EndpointGetAll for IPv6 {
    open spec fn all_descriptor() -> Option<DescriptorModel> {
        Some(DescriptorModel { template: "cloud/ipv6?mbpkgid={}"@, arity: 1 })
    }

    fn get_all_descriptor() -> (r: Option<EndpointDescriptor>) {
        EndpointDescriptor::new("cloud/ipv6?mbpkgid={}".to_owned(), 1)
    }
}

/// The typed envelope of a single status response.
#[derive(Clone, Debug, PartialEq)]
pub struct SrvStatusData {
    pub code: u32,
    pub result: String,
    pub data: SrvStatus,
}

/// The typed envelope of an IPv4 listing response.
#[derive(Clone, Debug, PartialEq)]
pub struct IPv4Data {
    pub code: u32,
    pub result: String,
    pub data: Vec<IPv4>,
}

/// The typed envelope of an IPv6 listing response.
#[derive(Clone, Debug, PartialEq)]
pub struct IPv6Data {
    pub code: u32,
    pub result: String,
    pub data: Vec<IPv6>,
}

} // verus!
