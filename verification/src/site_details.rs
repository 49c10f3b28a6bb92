//! The details of a single site: name, account, status, location and
//! public settings.
//!
//! The wire format also carries floating-point figures for the site (peak
//! power and solar module data); those fields are decoded by the
//! unverified transport shell, outside this library.

use crate::site_location::SiteLocation;
use crate::site_public_settings::SitePublicSettings;
use crate::SolaredgeCredentials;
use std::collections::HashMap;
use vstd::prelude::*;
use vstd::string::StringExecFns;

verus! {

/// site_details request
#[derive(Clone, Debug, PartialEq, Eq, Structural)]
pub struct Req;

/// site_details response
#[derive(Clone, Debug, Default, PartialEq)]
pub struct Resp {
    /// Details for the site.
    pub details: SiteDetails,
}

/// Details for a single site.
#[derive(Clone, Debug, Default, PartialEq)]
pub struct SiteDetails {
    /// Site id
    pub id: u32,
    /// Site name
    pub name: String,
    /// Id of the account the site belongs to
    pub account_id: u32,
    /// Site status (e.g. Active)
    pub status: String,
    /// Last time the site reported in to SolarEdge
    pub last_update_time: Option<String>,
    /// Date the site was installed
    pub installation_date: Option<String>,
    /// Permission-to-operate date
    pub pto_date: Option<String>,
    /// Notes attached to the site
    pub notes: Option<String>,
    /// Kind of site (e.g. Optimizers & Inverters)
    pub site_type: Option<String>,
    /// Location of the site
    pub location: SiteLocation,
    /// Miscellaneous uris associated with the web page for the site.
    pub uris: HashMap<String, String>,
    /// Information about the public web page for the site
    pub public_settings: SitePublicSettings,
}

impl Req {
    /// The URL this request builds for the given site id and api-key
    /// fragment.
    pub open spec fn url_chars(&self, site_id: Seq<char>, api_key: Seq<char>) -> Seq<char> {
        crate::base_url_chars() + "site/"@ + site_id + "/details?"@ + api_key
    }

    /// Create a site details request message that can be sent to
    /// SolarEdge.
    pub fn new() -> (r: Self)
        ensures
            r == (Req {  }),
    {
        Req {  }
    }

    /// Build the URL for this request from the given credentials.
    pub fn build_url(&self, solaredge: &SolaredgeCredentials) -> (u: String)
        ensures
            u@ == self.url_chars(solaredge.spec_site_id(), solaredge.spec_api_key()),
    {
        let mut u = crate::monitoring_api_url().to_owned();
        u.append("site/");
        u.append(solaredge.site_id());
        u.append("/details?");
        u.append(solaredge.api_key_str());
        u
    }
}

impl Default for Req {
    fn default() -> (r: Self)
        ensures
            r == (Req {  }),
    {
        Req {  }
    }
}

} // verus!
