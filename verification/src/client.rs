//! The client handle: the API base address and the API key, and the rule
//! that appends the key to a request path.
//!
//! The handle itself is read-only once constructed; the HTTP transport that
//! sends the requests is owned by the calling application, which asks this
//! module for the full URL of each call.

use vstd::prelude::*;
use vstd::string::StringExecFns;
use crate::template::str_contains_char;

verus! {

/// The full URL of a request: the base address, the path, and the API key
/// appended as a query parameter — with `&` when the path already has a
/// query component, else with `?`.
pub open spec fn url_of(base: Seq<char>, path: Seq<char>, key: Seq<char>) -> Seq<char> {
    if path.contains('?') {
        base + path + "&key="@ + key
    } else {
        base + path + "?key="@ + key
    }
}

/// Holds the API base address and the API key.  Shared read-only by any
/// number of concurrent calls; it carries no mutable state.
pub struct NaClient {
    pub address: String,
    pub api_key: String,
}

impl NaClient {
    /// A handle for the given key and base address.
    pub fn new(api_key: String, address: String) -> (c: NaClient)
        ensures
            c.api_key@ == api_key@,
            c.address@ == address@,
    {
        NaClient { address, api_key }
    }

    /// The full URL for a request on `path`, with the API key appended.
    pub fn request_url(&self, path: &str) -> (r: String)
        ensures
            r@ == url_of(self.address@, path@, self.api_key@),
    {
        let mut url = self.address.clone();
        url.append(path);
        if str_contains_char(path, '?') {
            url.append("&key=");
        } else {
            url.append("?key=");
        }
        url.append(self.api_key.as_str());
        proof {
            assert(url@ =~= url_of(self.address@, path@, self.api_key@));
        }
        url
    }
}

} // verus!
