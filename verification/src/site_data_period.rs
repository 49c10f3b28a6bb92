//! The energy production start and end dates of the site.

use crate::SolaredgeCredentials;
use vstd::prelude::*;
use vstd::string::StringExecFns;

verus! {

/// site_data_period request
#[derive(Clone, Debug, PartialEq, Eq, Structural)]
pub struct Req;

/// site_data_period response
#[derive(Clone, Debug, Default, PartialEq)]
pub struct Resp {
    /// Period of time site has been producing.
    pub data_period: SiteDataPeriod,
}

/// Period of time site has been producing.
#[derive(Clone, Debug, Default, PartialEq)]
pub struct SiteDataPeriod {
    /// Start date of energy production.
    pub start_date: Option<String>,
    /// End date of energy production.
    pub end_date: Option<String>,
}

impl Req {
    /// The URL this request builds for the given site id and api-key
    /// fragment.
    pub open spec fn url_chars(&self, site_id: Seq<char>, api_key: Seq<char>) -> Seq<char> {
        crate::base_url_chars() + "site/"@ + site_id + "/dataPeriod?"@ + api_key
    }

    /// Create a site_data_period request message that can be sent to
    /// SolarEdge.
    pub fn new() -> (r: Self)
        ensures
            r == (Req {  }),
    {
        Req {  }
    }

    /// Build the URL for this request from the given credentials.
    pub fn build_url(&self, solaredge: &SolaredgeCredentials) -> (u: String)
        ensures
            u@ == self.url_chars(solaredge.spec_site_id(), solaredge.spec_api_key()),
    {
        let mut u = crate::monitoring_api_url().to_owned();
        u.append("site/");
        u.append(solaredge.site_id());
        u.append("/dataPeriod?");
        u.append(solaredge.api_key_str());
        u
    }
}

impl Default for Req {
    fn default() -> (r: Self)
        ensures
            r == (Req {  }),
    {
        Req {  }
    }
}

} // verus!
