//! The account's own details.

use vstd::prelude::*;
use crate::binding::DescriptorModel;
use crate::binding::EndpointDescriptor;
use crate::binding::EndpointGetAll;
use crate::binding::EndpointGetOne;

verus! {

/// The account details record.  The API reports every attribute as text.
#[derive(Clone, Debug, PartialEq)]
pub struct Details {
    pub result: String,
    pub userid: String,
    pub client_id: String,
    pub id: String,
    pub owner_user_id: String,
    pub uuid: String,
    pub firstname: String,
    pub lastname: String,
    pub fullname: String,
    pub companyname: String,
    pub email: String,
    pub address1: String,
    pub address2: String,
    pub city: String,
    pub fullstate: String,
    pub state: String,
    pub postcode: String,
    pub countrycode: String,
    pub country: String,
    pub phonenumber: String,
    pub tax_id: String,
    pub email_preferences: String,
    pub statecode: String,
    pub countryname: String,
    pub phonecc: String,
    pub phonenumberformatted: String,
    pub telephonenumber: String,
    pub billingcid: String,
    pub notes: String,
    pub currency: String,
    pub cclastfour: String,
    pub groupid: String,
    pub status: String,
    pub credit: String,
    pub allowsinglesignon: String,
    pub lastlogin: String,
}

impl EndpointGetOne for Details {
    open spec fn one_descriptor() -> Option<DescriptorModel> {
        Some(DescriptorModel { template: "account/details"@, arity: 0 })
    }

    fn get_one_descriptor() -> (r: Option<EndpointDescriptor>) {
        EndpointDescriptor::new("account/details".to_owned(), 0)
    }
}

impl EndpointGetAll for Details {
    open spec fn all_descriptor() -> Option<DescriptorModel> {
        None
    }

    fn get_all_descriptor() -> (r: Option<EndpointDescriptor>) {
        None
    }
}

} // verus!
