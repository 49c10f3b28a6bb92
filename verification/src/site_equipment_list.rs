//! The list of inverters/SMIs in the specific site.

use crate::SolaredgeCredentials;
use vstd::prelude::*;
use vstd::string::StringExecFns;

verus! {

/// site_equipment_list request
#[derive(Clone, Debug, PartialEq, Eq, Structural)]
pub struct Req;

/// site_equipment_list response
#[derive(Clone, Debug, Default, PartialEq)]
pub struct Resp {
    /// List size and list
    pub reporters: Reporters,
}

/// List size and list
#[derive(Clone, Debug, Default, PartialEq)]
pub struct Reporters {
    /// Number of entries in the equipment list
    pub count: u16,
    /// List of equipment
    pub list: EquipmentList,
}

/// List of equipment
#[derive(Clone, Debug, Default, PartialEq)]
pub struct EquipmentList {
    /// Transparent list of equipment
    pub eq: Vec<Equipment>,
}

/// Details on a single piece of equipment
#[derive(Clone, Debug, Default, PartialEq)]
pub struct Equipment {
    /// Equipment's name
    pub name: String,
    /// Equipment's manufacturer
    pub manufacturer: String,
    /// Equipment model
    pub model: String,
    /// Equipment's serial number
    pub serial_number: String,
    /// Nameplate capacity, where the server reports one
    pub kw_pdc: Option<String>,
}

impl Req {
    /// The URL this request builds for the given site id and api-key
    /// fragment.
    pub open spec fn url_chars(&self, site_id: Seq<char>, api_key: Seq<char>) -> Seq<char> {
        crate::base_url_chars() + "equipment/"@ + site_id + "/list?"@ + api_key
    }

    /// Create a site equipment list request message that can be sent to
    /// SolarEdge.
    pub fn new() -> (r: Self)
        ensures
            r == (Req {  }),
    {
        Req {  }
    }

    /// Build the URL for this request from the given credentials.
    pub fn build_url(&self, solaredge: &SolaredgeCredentials) -> (u: String)
        ensures
            u@ == self.url_chars(solaredge.spec_site_id(), solaredge.spec_api_key()),
    {
        let mut u = crate::monitoring_api_url().to_owned();
        u.append("equipment/");
        u.append(solaredge.site_id());
        u.append("/list?");
        u.append(solaredge.api_key_str());
        u
    }
}

impl Default for Req {
    fn default() -> (r: Self)
        ensures
            r == (Req {  }),
    {
        Req {  }
    }
}

} // verus!
