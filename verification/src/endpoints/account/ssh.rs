//! The account's SSH keys.

use vstd::prelude::*;
use crate::binding::DescriptorModel;
use crate::binding::EndpointDescriptor;
use crate::binding::EndpointGetAll;
use crate::binding::EndpointGetOne;

verus! {

/// A public SSH key stored with the account.
#[derive(Clone, Debug, PartialEq)]
pub struct SSHKeys {
    pub id: u32,
    pub ssh_key: String,
    pub fingerprint: String,
    pub name: String,
}

impl EndpointGetOne for SSHKeys {
    open spec fn one_descriptor() -> Option<DescriptorModel> {
        Some(DescriptorModel { template: "account/ssh_key/{}"@, arity: 1 })
    }

    fn get_one_descriptor() -> (r: Option<EndpointDescriptor>) {
        EndpointDescriptor::new("account/ssh_key/{}".to_owned(), 1)
    }
}

impl EndpointGetAll for SSHKeys {
    open spec fn all_descriptor() -> Option<DescriptorModel> {
        Some(DescriptorModel { template: "account/ssh_keys"@, arity: 0 })
    }

    fn get_all_descriptor() -> (r: Option<EndpointDescriptor>) {
        EndpointDescriptor::new("account/ssh_keys".to_owned(), 0)
    }
}

} // verus!
