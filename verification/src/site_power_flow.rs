//! The current site power flow between all elements of the site including
//! PV array, storage (battery), loads (consumption) and grid.
//!
//! The power-flow response reports the current power of each element,
//! which is floating point on the wire; those records are decoded by the
//! unverified transport shell, outside this library.

use crate::SolaredgeCredentials;
use vstd::prelude::*;
use vstd::string::StringExecFns;

verus! {

/// site_power_flow request
#[derive(Clone, Debug, PartialEq, Eq, Structural)]
pub struct Req;

/// One producer/consumer relationship in the power flow table.
#[derive(Clone, Debug, Default, PartialEq)]
pub struct Connections {
    /// The element providing power
    pub from: String,
    /// The element consuming power
    pub to: String,
}

impl Req {
    /// The URL this request builds for the given site id and api-key
    /// fragment.
    pub open spec fn url_chars(&self, site_id: Seq<char>, api_key: Seq<char>) -> Seq<char> {
        crate::base_url_chars() + "site/"@ + site_id + "/currentPowerFlow?"@ + api_key
    }

    /// Create a site power flow request message that can be sent to
    /// SolarEdge.
    pub fn new() -> (r: Self)
        ensures
            r == (Req {  }),
    {
        Req {  }
    }

    /// Build the URL for this request from the given credentials.
    pub fn build_url(&self, solaredge: &SolaredgeCredentials) -> (u: String)
        ensures
            u@ == self.url_chars(solaredge.spec_site_id(), solaredge.spec_api_key()),
    {
        let mut u = crate::monitoring_api_url().to_owned();
        u.append("site/");
        u.append(solaredge.site_id());
        u.append("/currentPowerFlow?");
        u.append(solaredge.api_key_str());
        u
    }
}

impl Default for Req {
    fn default() -> (r: Self)
        ensures
            r == (Req {  }),
    {
        Req {  }
    }
}

} // verus!
