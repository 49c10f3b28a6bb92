//! Site power measurements in 15 minute resolution over a time period.
//!
//! The power response carries measurement values that are floating point
//! on the wire; those records are decoded by the unverified transport
//! shell, outside this library.

use crate::date::{datetime_chars, datetime_fragment, DateTime};
use crate::error::{Error, Kind};
use crate::SolaredgeCredentials;
use vstd::prelude::*;
use vstd::string::StringExecFns;

verus! {

/// site_power request
#[derive(Clone, Debug, PartialEq)]
pub struct Req {
    start_time: String,
    end_time: String,
}

impl Req {
    /// The rendered start-time fragment.
    pub closed spec fn spec_start_time(&self) -> Seq<char> {
        self.start_time@
    }

    /// The rendered end-time fragment.
    pub closed spec fn spec_end_time(&self) -> Seq<char> {
        self.end_time@
    }

    /// The URL this request builds for the given site id and api-key
    /// fragment.
    pub open spec fn url_chars(&self, site_id: Seq<char>, api_key: Seq<char>) -> Seq<char> {
        crate::base_url_chars() + "site/"@ + site_id + "/power?"@ + self.spec_start_time()
            + self.spec_end_time() + api_key
    }

    /// The URL this request builds for a bulk query over the given
    /// comma-joined site id list and api-key fragment.
    pub open spec fn bulk_url_chars(&self, bulk_ids: Seq<char>, api_key: Seq<char>) -> Seq<char> {
        crate::base_url_chars() + "sites/"@ + bulk_ids + "/power?"@ + self.spec_start_time()
            + self.spec_end_time() + api_key
    }

    /// Create a site_power request message that can be sent to SolarEdge.
    ///
    /// * `start_time` - beginning of the time period for the power
    ///   measurements
    /// * `end_time`   - end of the time period for the power measurements
    pub fn new(start_time: DateTime, end_time: DateTime) -> (r: Self)
        requires
            start_time.wf(),
            end_time.wf(),
        ensures
            r.spec_start_time() == "startTime="@ + datetime_chars(start_time) + "&"@,
            r.spec_end_time() == "endTime="@ + datetime_chars(end_time) + "&"@,
    {
        Req {
            start_time: datetime_fragment("startTime=", &start_time),
            end_time: datetime_fragment("endTime=", &end_time),
        }
    }

    /// Build the URL for this request from the given credentials.
    pub fn build_url(&self, solaredge: &SolaredgeCredentials) -> (u: String)
        ensures
            u@ == self.url_chars(solaredge.spec_site_id(), solaredge.spec_api_key()),
    {
        let mut u = crate::monitoring_api_url().to_owned();
        u.append("site/");
        u.append(solaredge.site_id());
        u.append("/power?");
        u.append(self.start_time.as_str());
        u.append(self.end_time.as_str());
        u.append(solaredge.api_key_str());
        u
    }

    /// Build the URL for a bulk query over the credentials' bulk site id
    /// list. Fails exactly when no bulk list was set, before any network
    /// activity could take place.
    pub fn build_url_bulk(&self, solaredge: &SolaredgeCredentials) -> (r: Result<String, Error>)
        ensures
            r is Ok <==> solaredge.spec_bulk_list() is Some,
            solaredge.spec_bulk_list() matches Some(ids) ==> (r matches Ok(u) && u@
                == self.bulk_url_chars(ids, solaredge.spec_api_key())),
            r matches Err(e) ==> e.kind_spec() is MissingBulkList,
    {
        match solaredge.bulk_list_str() {
            Some(ids) => {
                let mut u = crate::monitoring_api_url().to_owned();
                u.append("sites/");
                u.append(ids);
                u.append("/power?");
                u.append(self.start_time.as_str());
                u.append(self.end_time.as_str());
                u.append(solaredge.api_key_str());
                Ok(u)
            },
            None => Err(Error::new(Kind::MissingBulkList)),
        }
    }
}

} // verus!
