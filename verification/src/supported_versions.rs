//! The API versions supported by the SolarEdge monitoring server.

use crate::SolaredgeCredentials;
use vstd::prelude::*;
use vstd::string::StringExecFns;

verus! {

/// Supported versions request
#[derive(Clone, Debug, PartialEq, Eq, Structural)]
pub struct Req;

/// Supported versions response
#[derive(Clone, Debug, Default, PartialEq)]
pub struct Resp {
    /// An array of all the API versions supported by the server
    pub supported: Vec<Release>,
}

/// A release version supported by the server
#[derive(Clone, Debug, Default, PartialEq)]
pub struct Release {
    /// A release number supported by the server in `major.minor.revision`
    /// format.
    pub release: String,
}

impl Req {
    /// The URL this request builds for the given api-key fragment.
    pub open spec fn url_chars(&self, api_key: Seq<char>) -> Seq<char> {
        crate::base_url_chars() + "version/supported?"@ + api_key
    }

    /// Create a supported versions request message that can be sent to
    /// SolarEdge.
    pub fn new() -> (r: Self)
        ensures
            r == (Req {  }),
    {
        Req {  }
    }

    /// Build the URL for this request from the given credentials.
    pub fn build_url(&self, solaredge: &SolaredgeCredentials) -> (u: String)
        ensures
            u@ == self.url_chars(solaredge.spec_api_key()),
    {
        let mut u = crate::monitoring_api_url().to_owned();
        u.append("version/supported?");
        u.append(solaredge.api_key_str());
        u
    }
}

impl Default for Req {
    fn default() -> (r: Self)
        ensures
            r == (Req {  }),
    {
        Req {  }
    }
}

} // verus!
