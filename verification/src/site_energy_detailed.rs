//! Detailed site energy measurements from meters such as consumption,
//! export (feed-in), import (purchase), etc.
//!
//! The energy-details response carries measurement values that are floating
//! point on the wire; those records are decoded by the unverified
//! transport shell, outside this library.

use crate::date::{datetime_chars, datetime_fragment, DateTime};
use crate::meter_type::{meters_fragment, render_meters_fragment, MeterType};
use crate::time_unit::{render_time_unit_fragment, time_unit_fragment, TimeUnit};
use crate::SolaredgeCredentials;
use vstd::prelude::*;
use vstd::string::StringExecFns;

verus! {

/// site_energyDetails request
#[derive(Clone, Debug, Default, PartialEq)]
pub struct Req {
    start_time: String,
    end_time: String,
    time_unit: String,
    meters: String,
}

impl Req {
    /// The rendered start-time fragment.
    pub closed spec fn spec_start_time(&self) -> Seq<char> {
        self.start_time@
    }

    /// The rendered end-time fragment.
    pub closed spec fn spec_end_time(&self) -> Seq<char> {
        self.end_time@
    }

    /// The rendered time-unit fragment.
    pub closed spec fn spec_time_unit(&self) -> Seq<char> {
        self.time_unit@
    }

    /// The rendered meter-types fragment.
    pub closed spec fn spec_meters(&self) -> Seq<char> {
        self.meters@
    }

    /// The URL this request builds for the given site id and api-key
    /// fragment.
    pub open spec fn url_chars(&self, site_id: Seq<char>, api_key: Seq<char>) -> Seq<char> {
        crate::base_url_chars() + "site/"@ + site_id + "/energyDetails?"@ + self.spec_meters()
            + self.spec_time_unit() + self.spec_start_time() + self.spec_end_time() + api_key
    }

    /// Create an energy details request message that can be sent to
    /// SolarEdge.
    ///
    /// * `start_time` - beginning of the time period for the energy details
    /// * `end_time`   - end of the time period for the energy details
    /// * `time_unit`  - aggregation granularity. For the time period
    ///   requested, energy detail values will be chunked into units of this
    ///   size.
    /// * `meters`     - meter types to collect energy details for
    pub fn new(
        start_time: DateTime,
        end_time: DateTime,
        time_unit: Option<TimeUnit>,
        meters: Option<Vec<MeterType>>,
    ) -> (r: Self)
        requires
            start_time.wf(),
            end_time.wf(),
        ensures
            r.spec_start_time() == "startTime="@ + datetime_chars(start_time) + "&"@,
            r.spec_end_time() == "endTime="@ + datetime_chars(end_time) + "&"@,
            r.spec_time_unit() == time_unit_fragment(time_unit),
            r.spec_meters() == meters_fragment(match meters {
                Some(v) => Some(v@),
                None => None,
            }),
    {
        Req {
            start_time: datetime_fragment("startTime=", &start_time),
            end_time: datetime_fragment("endTime=", &end_time),
            time_unit: render_time_unit_fragment(&time_unit),
            meters: render_meters_fragment(&meters),
        }
    }

    /// The rendered start-time fragment, for inspection.
    pub fn start_time_fragment(&self) -> (r: &str)
        ensures
            r@ == self.spec_start_time(),
    {
        self.start_time.as_str()
    }

    /// The rendered end-time fragment, for inspection.
    pub fn end_time_fragment(&self) -> (r: &str)
        ensures
            r@ == self.spec_end_time(),
    {
        self.end_time.as_str()
    }

    /// The rendered time-unit fragment, for inspection.
    pub fn time_unit_fragment(&self) -> (r: &str)
        ensures
            r@ == self.spec_time_unit(),
    {
        self.time_unit.as_str()
    }

    /// The rendered meter-types fragment, for inspection.
    pub fn meters_fragment(&self) -> (r: &str)
        ensures
            r@ == self.spec_meters(),
    {
        self.meters.as_str()
    }

    /// Build the URL for this request from the given credentials.
    pub fn build_url(&self, solaredge: &SolaredgeCredentials) -> (u: String)
        ensures
            u@ == self.url_chars(solaredge.spec_site_id(), solaredge.spec_api_key()),
    {
        let mut u = crate::monitoring_api_url().to_owned();
        u.append("site/");
        u.append(solaredge.site_id());
        u.append("/energyDetails?");
        u.append(self.meters.as_str());
        u.append(self.time_unit.as_str());
        u.append(self.start_time.as_str());
        u.append(self.end_time.as_str());
        u.append(solaredge.api_key_str());
        u
    }
}

/// With the optional meter list and time unit absent, the URL holds exactly
/// the base URL, the path, the two mandatory time fragments, and the
/// api-key fragment: omitted parameters leave no stray characters behind.
pub proof fn lemma_all_none_url(r: Req, site_id: Seq<char>, api_key: Seq<char>)
    requires
        r.spec_meters() == Seq::<char>::empty(),
        r.spec_time_unit() == Seq::<char>::empty(),
    ensures
        r.url_chars(site_id, api_key) == crate::base_url_chars() + "site/"@ + site_id
            + "/energyDetails?"@ + r.spec_start_time() + r.spec_end_time() + api_key,
{
    assert(r.url_chars(site_id, api_key) =~= crate::base_url_chars() + "site/"@ + site_id
        + "/energyDetails?"@ + r.spec_start_time() + r.spec_end_time() + api_key);
}

} // verus!
