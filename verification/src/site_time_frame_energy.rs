//! The site total energy produced for a given period.
//!
//! The time-frame-energy response carries an energy figure that is floating
//! point on the wire; that record is decoded by the unverified transport
//! shell, outside this library.

use crate::date::{date_chars, date_fragment, Date};
use crate::error::{Error, Kind};
use crate::SolaredgeCredentials;
use vstd::prelude::*;
use vstd::string::StringExecFns;

verus! {

/// site_time_frame_energy request
#[derive(Clone, Debug, PartialEq)]
pub struct Req {
    start_date: String,
    end_date: String,
}

impl Req {
    /// The rendered start-date fragment.
    pub closed spec fn spec_start_date(&self) -> Seq<char> {
        self.start_date@
    }

    /// The rendered end-date fragment.
    pub closed spec fn spec_end_date(&self) -> Seq<char> {
        self.end_date@
    }

    /// The URL this request builds for the given site id and api-key
    /// fragment.
    pub open spec fn url_chars(&self, site_id: Seq<char>, api_key: Seq<char>) -> Seq<char> {
        crate::base_url_chars() + "site/"@ + site_id + "/timeFrameEnergy?"@
            + self.spec_start_date() + self.spec_end_date() + api_key
    }

    /// The URL this request builds for a bulk query over the given
    /// comma-joined site id list and api-key fragment.
    pub open spec fn bulk_url_chars(&self, bulk_ids: Seq<char>, api_key: Seq<char>) -> Seq<char> {
        crate::base_url_chars() + "sites/"@ + bulk_ids + "/timeFrameEnergy?"@
            + self.spec_start_date() + self.spec_end_date() + api_key
    }

    /// Create a site_time_frame_energy request message that can be sent to
    /// SolarEdge.
    ///
    /// * `start_date` - beginning date for the total energy
    /// * `end_date`   - end date for the total energy
    pub fn new(start_date: Date, end_date: Date) -> (r: Self)
        requires
            start_date.wf(),
            end_date.wf(),
        ensures
            r.spec_start_date() == "startDate="@ + date_chars(start_date) + "&"@,
            r.spec_end_date() == "endDate="@ + date_chars(end_date) + "&"@,
    {
        Req {
            start_date: date_fragment("startDate=", &start_date),
            end_date: date_fragment("endDate=", &end_date),
        }
    }

    /// Build the URL for this request from the given credentials.
    pub fn build_url(&self, solaredge: &SolaredgeCredentials) -> (u: String)
        ensures
            u@ == self.url_chars(solaredge.spec_site_id(), solaredge.spec_api_key()),
    {
        let mut u = crate::monitoring_api_url().to_owned();
        u.append("site/");
        u.append(solaredge.site_id());
        u.append("/timeFrameEnergy?");
        u.append(self.start_date.as_str());
        u.append(self.end_date.as_str());
        u.append(solaredge.api_key_str());
        u
    }

    /// Build the URL for a bulk query over the credentials' bulk site id
    /// list. Fails exactly when no bulk list was set, before any network
    /// activity could take place.
    pub fn build_url_bulk(&self, solaredge: &SolaredgeCredentials) -> (r: Result<String, Error>)
        ensures
            r is Ok <==> solaredge.spec_bulk_list() is Some,
            solaredge.spec_bulk_list() matches Some(ids) ==> (r matches Ok(u) && u@
                == self.bulk_url_chars(ids, solaredge.spec_api_key())),
            r matches Err(e) ==> e.kind_spec() is MissingBulkList,
    {
        match solaredge.bulk_list_str() {
            Some(ids) => {
                let mut u = crate::monitoring_api_url().to_owned();
                u.append("sites/");
                u.append(ids);
                u.append("/timeFrameEnergy?");
                u.append(self.start_date.as_str());
                u.append(self.end_date.as_str());
                u.append(solaredge.api_key_str());
                Ok(u)
            },
            None => Err(Error::new(Kind::MissingBulkList)),
        }
    }
}

} // verus!
