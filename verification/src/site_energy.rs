//! Site energy measurements over a date range.
//!
//! The energy response carries measurement values that are floating point
//! on the wire; those records are decoded by the unverified transport
//! shell, outside this library.

use crate::date::{date_chars, date_fragment, Date};
use crate::time_unit::{render_time_unit_fragment, time_unit_fragment, TimeUnit};
use crate::SolaredgeCredentials;
use vstd::prelude::*;
use vstd::string::StringExecFns;

verus! {

/// site_energy request
#[derive(Clone, Debug, PartialEq)]
pub struct Req {
    start_date: String,
    end_date: String,
    time_unit: String,
}

impl Req {
    /// The rendered start-date fragment.
    pub closed spec fn spec_start_date(&self) -> Seq<char> {
        self.start_date@
    }

    /// The rendered end-date fragment.
    pub closed spec fn spec_end_date(&self) -> Seq<char> {
        self.end_date@
    }

    /// The rendered time-unit fragment.
    pub closed spec fn spec_time_unit(&self) -> Seq<char> {
        self.time_unit@
    }

    /// The URL this request builds for the given site id and api-key
    /// fragment.
    pub open spec fn url_chars(&self, site_id: Seq<char>, api_key: Seq<char>) -> Seq<char> {
        crate::base_url_chars() + "site/"@ + site_id + "/energy?"@ + self.spec_time_unit()
            + self.spec_start_date() + self.spec_end_date() + api_key
    }

    /// Create a site_energy request message that can be sent to SolarEdge.
    ///
    /// * `start_date` - beginning date for the energy measurements
    /// * `end_date`   - end date for the energy measurements
    /// * `time_unit`  - size of time unit to collect over the date period
    pub fn new(start_date: Date, end_date: Date, time_unit: Option<TimeUnit>) -> (r: Self)
        requires
            start_date.wf(),
            end_date.wf(),
        ensures
            r.spec_start_date() == "startDate="@ + date_chars(start_date) + "&"@,
            r.spec_end_date() == "endDate="@ + date_chars(end_date) + "&"@,
            r.spec_time_unit() == time_unit_fragment(time_unit),
    {
        Req {
            start_date: date_fragment("startDate=", &start_date),
            end_date: date_fragment("endDate=", &end_date),
            time_unit: render_time_unit_fragment(&time_unit),
        }
    }

    /// Build the URL for this request from the given credentials.
    pub fn build_url(&self, solaredge: &SolaredgeCredentials) -> (u: String)
        ensures
            u@ == self.url_chars(solaredge.spec_site_id(), solaredge.spec_api_key()),
    {
        let mut u = crate::monitoring_api_url().to_owned();
        u.append("site/");
        u.append(solaredge.site_id());
        u.append("/energy?");
        u.append(self.time_unit.as_str());
        u.append(self.start_date.as_str());
        u.append(self.end_date.as_str());
        u.append(solaredge.api_key_str());
        u
    }
}

/// With the optional time unit absent, the URL holds exactly the base URL,
/// the path, the two mandatory date fragments, and the api-key fragment:
/// the omitted parameter leaves no stray characters behind.
pub proof fn lemma_no_time_unit_url(r: Req, site_id: Seq<char>, api_key: Seq<char>)
    requires
        r.spec_time_unit() == Seq::<char>::empty(),
    ensures
        r.url_chars(site_id, api_key) == crate::base_url_chars() + "site/"@ + site_id
            + "/energy?"@ + r.spec_start_date() + r.spec_end_date() + api_key,
{
    assert(r.url_chars(site_id, api_key) =~= crate::base_url_chars() + "site/"@ + site_id
        + "/energy?"@ + r.spec_start_date() + r.spec_end_date() + api_key);
}

} // verus!
