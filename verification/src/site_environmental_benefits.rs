//! All environmental benefits based on site energy production: CO2
//! emissions saved, equivalent trees planted, and light bulbs powered for a
//! day.
//!
//! The benefits response carries figures that are floating point on the
//! wire; those records are decoded by the unverified transport shell,
//! outside this library.

use crate::system_units::{render_system_units_fragment, system_units_fragment, SystemUnits};
use crate::SolaredgeCredentials;
use vstd::prelude::*;
use vstd::string::StringExecFns;

verus! {

/// site_environmental_benefits request
#[derive(Clone, Debug, PartialEq)]
pub struct Req {
    system_units: String,
}

impl Req {
    /// The rendered measurement-system fragment.
    pub closed spec fn spec_system_units(&self) -> Seq<char> {
        self.system_units@
    }

    /// The URL this request builds for the given site id and api-key
    /// fragment.
    pub open spec fn url_chars(&self, site_id: Seq<char>, api_key: Seq<char>) -> Seq<char> {
        crate::base_url_chars() + "site/"@ + site_id + "/envBenefits?"@ + self.spec_system_units()
            + api_key
    }

    /// Create a site environmental benefits request message that can be
    /// sent to SolarEdge.
    ///
    /// * `system_units` - the measurement system to use in the response
    pub fn new(system_units: Option<SystemUnits>) -> (r: Self)
        ensures
            r.spec_system_units() == system_units_fragment(system_units),
    {
        Req { system_units: render_system_units_fragment(&system_units) }
    }

    /// Build the URL for this request from the given credentials.
    pub fn build_url(&self, solaredge: &SolaredgeCredentials) -> (u: String)
        ensures
            u@ == self.url_chars(solaredge.spec_site_id(), solaredge.spec_api_key()),
    {
        let mut u = crate::monitoring_api_url().to_owned();
        u.append("site/");
        u.append(solaredge.site_id());
        u.append("/envBenefits?");
        u.append(self.system_units.as_str());
        u.append(solaredge.api_key_str());
        u
    }
}

/// With the optional measurement system absent, the URL holds exactly the
/// base URL, the path, and the api-key fragment: the omitted parameter
/// leaves no stray characters behind.
pub proof fn lemma_all_none_url(r: Req, site_id: Seq<char>, api_key: Seq<char>)
    requires
        r.spec_system_units() == Seq::<char>::empty(),
    ensures
        r.url_chars(site_id, api_key) == crate::base_url_chars() + "site/"@ + site_id
            + "/envBenefits?"@ + api_key,
{
    assert(r.url_chars(site_id, api_key) =~= crate::base_url_chars() + "site/"@ + site_id
        + "/envBenefits?"@ + api_key);
}

} // verus!
