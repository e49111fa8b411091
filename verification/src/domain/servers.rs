//! The domain-level server record: the attributes the application works
//! with, independent of any wire shape.

use vstd::prelude::*;

verus! {

/// A server as the application sees it.
#[derive(Clone, Debug, PartialEq)]
pub struct Server {
    pub city: String,
    pub domu_package: u32,
    pub fqdn: String,
    pub mbpkgid: u32,
    pub os_id: u32,
    pub location_id: u32,
    pub ip: String,
    pub ipv6: String,
    pub plan_id: u32,
    pub pkg_id: u32,
    pub state: String,
    pub status: String,
    pub uptime: String,
    pub vcpus: u32,
    pub installed: bool,
    pub nic1_mac: String,
    pub nic2_mac: String,
}

impl Server {
    /// A server record with the given attributes.
    pub fn new(
        city: String,
        domu_package: u32,
        fqdn: String,
        mbpkgid: u32,
        os_id: u32,
        location_id: u32,
        ip: String,
        ipv6: String,
        plan_id: u32,
        pkg_id: u32,
        state: String,
        status: String,
        uptime: String,
        vcpus: u32,
        installed: bool,
        nic1_mac: String,
        nic2_mac: String,
    ) -> (s: Server)
        ensures
            s.city@ == city@,
            s.domu_package == domu_package,
            s.fqdn@ == fqdn@,
            s.mbpkgid == mbpkgid,
            s.os_id == os_id,
            s.location_id == location_id,
            s.ip@ == ip@,
            s.ipv6@ == ipv6@,
            s.plan_id == plan_id,
            s.pkg_id == pkg_id,
            s.state@ == state@,
            s.status@ == status@,
            s.uptime@ == uptime@,
            s.vcpus == vcpus,
            s.installed == installed,
            s.nic1_mac@ == nic1_mac@,
            s.nic2_mac@ == nic2_mac@,
    {
        Server {
            city,
            domu_package,
            fqdn,
            mbpkgid,
            os_id,
            location_id,
            ip,
            ipv6,
            plan_id,
            pkg_id,
            state,
            status,
            uptime,
            vcpus,
            installed,
            nic1_mac,
            nic2_mac,
        }
    }
}

} // verus!
