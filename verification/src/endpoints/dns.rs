//! DNS zones and their records.

use vstd::prelude::*;
use crate::binding::DescriptorModel;
use crate::binding::EndpointDescriptor;
use crate::binding::EndpointGetAll;
use crate::binding::EndpointGetOne;

verus! {

/// A zone's ttl key: a string in a single-zone response, an integer in a
/// zone listing.
#[derive(Clone, Debug, PartialEq)]
pub enum TtlType {
    StringKey(String),
    IntegerKey(u32),
}

/// The SOA of a zone; part of the zone response, never fetched alone.
#[derive(Clone, Debug, PartialEq)]
pub struct SOA {
    pub primary: String,
    pub hostmaster: String,
    pub serial: String,
    pub refresh: String,
    pub retry: String,
    pub expire: String,
    pub default_ttl: String,
}

/// A DNS record of a zone.
#[derive(Clone, Debug, PartialEq)]
pub struct Record {
    pub id: u32,
    pub name: String,
    pub record_type: String,
    pub ttl: Option<u32>,
    pub prio: Option<u32>,
    pub content: String,
    pub domain_id: Option<u32>,
}

/// A DNS zone (a domain).
#[derive(Clone, Debug, PartialEq)]
pub struct Zone {
    pub id: u32,
    pub name: String,
    pub zone_type: String,
    pub master: Option<u32>,
    pub ttl: Option<TtlType>,
    pub soa: Option<SOA>,
    pub records: Option<Vec<Record>>,
    pub ns: Option<Vec<String>>,
}

impl EndpointGetOne for Zone {
    open spec fn one_descriptor() -> Option<DescriptorModel> {
        Some(DescriptorModel { template: "dns/zone/{}"@, arity: 1 })
    }

    fn get_one_descriptor() -> (r: Option<EndpointDescriptor>) {
        EndpointDescriptor::new("dns/zone/{}".to_owned(), 1)
    }
}

impl EndpointGetAll for Zone {
    open spec fn all_descriptor() -> Option<DescriptorModel> {
        Some(DescriptorModel { template: "dns/zones?type=NATIVE"@, arity: 0 })
    }

    fn get_all_descriptor() -> (r: Option<EndpointDescriptor>) {
        EndpointDescriptor::new("dns/zones?type=NATIVE".to_owned(), 0)
    }
}

impl EndpointGetOne for Record {
    open spec fn one_descriptor() -> Option<DescriptorModel> {
        Some(DescriptorModel { template: "dns/record/{}"@, arity: 1 })
    }

    fn get_one_descriptor() -> (r: Option<EndpointDescriptor>) {
        EndpointDescriptor::new("dns/record/{}".to_owned(), 1)
    }
}

impl EndpointGetAll for Record {
    open spec fn all_descriptor() -> Option<DescriptorModel> {
        Some(DescriptorModel { template: "dns/records/{}"@, arity: 1 })
    }

    fn get_all_descriptor() -> (r: Option<EndpointDescriptor>) {
        EndpointDescriptor::new("dns/records/{}".to_owned(), 1)
    }
}

} // verus!
