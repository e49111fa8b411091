//! The law that the declared bindings themselves are well formed.

use vstd::prelude::*;
use crate::binding::DescriptorModel;
use crate::binding::EndpointGetAll;
use crate::binding::EndpointGetOne;
use crate::template::placeholder_count;
use crate::endpoints::account::account::Details;
use crate::endpoints::account::invoices::Invoices;
use crate::endpoints::account::ssh::SSHKeys;
use crate::endpoints::cloud::images::Image;
use crate::endpoints::cloud::locations::Location;
use crate::endpoints::cloud::packages::Package;
use crate::endpoints::cloud::servers::IPv4;
use crate::endpoints::cloud::servers::IPv6;
use crate::endpoints::cloud::servers::Server;
use crate::endpoints::cloud::servers::SrvJob;
use crate::endpoints::cloud::servers::SrvStatus;
use crate::endpoints::dns::Record;
use crate::endpoints::dns::Zone;

verus! {

/// Valid, and present: how a declared descriptor must come out.
pub open spec fn declared_valid(m: Option<DescriptorModel>) -> bool {
    m matches Some(dm) && dm.valid()
}

/// Law: every binding a resource type of this crate declares is valid —
/// each template contains exactly as many placeholders as the declared
/// arity, so none of them is filtered out as a rejected declaration.
pub proof fn lemma_catalogue_descriptors_valid()
    ensures
        declared_valid(<Server as EndpointGetOne>::one_descriptor()),
        declared_valid(<Server as EndpointGetAll>::all_descriptor()),
        declared_valid(<SrvJob as EndpointGetOne>::one_descriptor()),
        declared_valid(<SrvJob as EndpointGetAll>::all_descriptor()),
        declared_valid(<SrvStatus as EndpointGetOne>::one_descriptor()),
        declared_valid(<IPv4 as EndpointGetAll>::all_descriptor()),
        declared_valid(<IPv6 as EndpointGetAll>::all_descriptor()),
        declared_valid(<Location as EndpointGetAll>::all_descriptor()),
        declared_valid(<Package as EndpointGetAll>::all_descriptor()),
        declared_valid(<Image as EndpointGetAll>::all_descriptor()),
        declared_valid(<Invoices as EndpointGetAll>::all_descriptor()),
        declared_valid(<SSHKeys as EndpointGetOne>::one_descriptor()),
        declared_valid(<SSHKeys as EndpointGetAll>::all_descriptor()),
        declared_valid(<Details as EndpointGetOne>::one_descriptor()),
        declared_valid(<Zone as EndpointGetOne>::one_descriptor()),
        declared_valid(<Zone as EndpointGetAll>::all_descriptor()),
        declared_valid(<Record as EndpointGetOne>::one_descriptor()),
        declared_valid(<Record as EndpointGetAll>::all_descriptor()),
{
    reveal_with_fuel(placeholder_count, 26);
    reveal_strlit("cloud/server?mbpkgid={}");
    reveal_strlit("cloud/servers");
    reveal_strlit("cloud/server/{}/jobs/{}");
    reveal_strlit("cloud/server/{}/jobs");
    reveal_strlit("cloud/status/{}");
    reveal_strlit("cloud/ipv4?mbpkgid={}");
    reveal_strlit("cloud/ipv6?mbpkgid={}");
    reveal_strlit("cloud/locations");
    reveal_strlit("cloud/packages");
    reveal_strlit("cloud/images");
    reveal_strlit("account/invoices");
    reveal_strlit("account/ssh_key/{}");
    reveal_strlit("account/ssh_keys");
    reveal_strlit("account/details");
    reveal_strlit("dns/zone/{}");
    reveal_strlit("dns/zones?type=NATIVE");
    reveal_strlit("dns/record/{}");
    reveal_strlit("dns/records/{}");
}

} // verus!
