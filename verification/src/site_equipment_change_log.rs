//! A list of equipment component replacements ordered by date. This request
//! is applicable to inverters, optimizers, batteries and gateways.

use crate::SolaredgeCredentials;
use vstd::prelude::*;
use vstd::string::StringExecFns;

verus! {

/// site_equipment_change_log request
#[derive(Clone, Debug, PartialEq)]
pub struct Req {
    serial_number: String,
}

/// site_equipment_change_log response
#[derive(Clone, Debug, Default, PartialEq)]
pub struct Resp {
    /// Equipment change history
    pub change_log: ChangeLog,
}

/// Equipment change history
#[derive(Clone, Debug, Default, PartialEq)]
pub struct ChangeLog {
    /// Number of entries in the change list
    pub count: u32,
    /// List of changes for the equipment
    pub list: Vec<ChangeEntry>,
}

/// Equipment change record
#[derive(Clone, Debug, Default, PartialEq)]
pub struct ChangeEntry {
    /// Equipment short serial number
    pub serial_number: String,
    /// Inverter/battery/optimizer/gateway model
    pub part_number: String,
    /// Date of replacement of that equipment component
    pub date: String,
}

impl Req {
    /// The serial number the change log is asked for.
    pub closed spec fn spec_serial_number(&self) -> Seq<char> {
        self.serial_number@
    }

    /// The URL this request builds for the given site id and api-key
    /// fragment.
    pub open spec fn url_chars(&self, site_id: Seq<char>, api_key: Seq<char>) -> Seq<char> {
        crate::base_url_chars() + "equipment/"@ + site_id + "/"@ + self.spec_serial_number()
            + "/changeLog?"@ + api_key
    }

    /// Create an equipment change log request message that can be sent to
    /// SolarEdge.
    ///
    /// * `serial_number` - inverter, battery, optimizer or gateway short
    ///   serial number
    pub fn new(serial_number: &str) -> (r: Self)
        ensures
            r.spec_serial_number() == serial_number@,
    {
        Req { serial_number: serial_number.to_owned() }
    }

    /// The serial number the change log is asked for, for inspection.
    pub fn serial_number(&self) -> (r: &str)
        ensures
            r@ == self.spec_serial_number(),
    {
        self.serial_number.as_str()
    }

    /// Build the URL for this request from the given credentials.
    pub fn build_url(&self, solaredge: &SolaredgeCredentials) -> (u: String)
        ensures
            u@ == self.url_chars(solaredge.spec_site_id(), solaredge.spec_api_key()),
    {
        let mut u = crate::monitoring_api_url().to_owned();
        u.append("equipment/");
        u.append(solaredge.site_id());
        u.append("/");
        u.append(self.serial_number.as_str());
        u.append("/changeLog?");
        u.append(solaredge.api_key_str());
        u
    }
}

} // verus!
