//! The current API version of the SolarEdge monitoring server.

use crate::SolaredgeCredentials;
use vstd::prelude::*;
use vstd::string::StringExecFns;

verus! {

/// Current version request
#[derive(Clone, Debug, PartialEq, Eq, Structural)]
pub struct Req;

/// Current version response
#[derive(Clone, Debug, Default, PartialEq)]
pub struct Resp {
    /// The API version running on the server
    pub version: Version,
}

/// The release version of the server
#[derive(Clone, Debug, Default, PartialEq)]
pub struct Version {
    /// The release number running on the server in `major.minor.revision`
    /// format.
    pub release: String,
}

impl Req {
    /// The URL this request builds for the given api-key fragment.
    pub open spec fn url_chars(&self, api_key: Seq<char>) -> Seq<char> {
        crate::base_url_chars() + "version/current?"@ + api_key
    }

    /// Create a current version request message that can be sent to
    /// SolarEdge.
    pub fn new() -> (r: Self)
        ensures
            r == (Req {  }),
    {
        Req {  }
    }

    /// Build the URL for this request from the given credentials.
    pub fn build_url(&self, solaredge: &SolaredgeCredentials) -> (u: String)
        ensures
            u@ == self.url_chars(solaredge.spec_api_key()),
    {
        let mut u = crate::monitoring_api_url().to_owned();
        u.append("version/current?");
        u.append(solaredge.api_key_str());
        u
    }
}

impl Default for Req {
    fn default() -> (r: Self)
        ensures
            r == (Req {  }),
    {
        Req {  }
    }
}

} // verus!
