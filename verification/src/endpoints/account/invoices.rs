//! The account's invoices.

use vstd::prelude::*;
use crate::binding::DescriptorModel;
use crate::binding::EndpointDescriptor;
use crate::binding::EndpointGetAll;
use crate::binding::EndpointGetOne;

verus! {

/// An invoice of the account.
#[derive(Clone, Debug, PartialEq)]
pub struct Invoices {
    pub id: u32,
    pub userid: u32,
    pub date: String,
    pub duedate: String,
    pub subtotal: String,
    pub credit: String,
    pub status: String,
    pub paymentmethod: String,
}

impl EndpointGetAll for Invoices {
    open spec fn all_descriptor() -> Option<DescriptorModel> {
        Some(DescriptorModel { template: "account/invoices"@, arity: 0 })
    }

    fn get_all_descriptor() -> (r: Option<EndpointDescriptor>) {
        EndpointDescriptor::new("account/invoices".to_owned(), 0)
    }
}

impl EndpointGetOne for Invoices {
    open spec fn one_descriptor() -> Option<DescriptorModel> {
        None
    }

    fn get_one_descriptor() -> (r: Option<EndpointDescriptor>) {
        None
    }
}

} // verus!
