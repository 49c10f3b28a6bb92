//! Detailed storage information from batteries: the state of energy, power
//! and lifetime energy.

use crate::date::{datetime_chars, datetime_fragment, DateTime};
use crate::textfmt::{comma_join, comma_join_strings};
use crate::SolaredgeCredentials;
use vstd::prelude::*;
use vstd::string::StringExecFns;

verus! {

/// site_storage_data request
#[derive(Clone, Debug, PartialEq)]
pub struct Req {
    start_time: String,
    end_time: String,
    serials: String,
}

/// site_storage_data response
#[derive(Clone, Debug, Default, PartialEq)]
pub struct Resp {
    /// Information about the site's storage
    pub storage_data: StorageData,
}

/// Information about the site's storage
#[derive(Clone, Debug, Default, PartialEq)]
pub struct StorageData {
    /// Number of batteries at the site
    pub battery_count: u16,
    /// Data for each battery
    pub batteries: Batteries,
}

/// Array of batteries
#[derive(Clone, Debug, Default, PartialEq)]
pub struct Batteries {
    /// Transparent list of batteries
    pub e: Vec<Battery>,
}

/// Data for a single battery
#[derive(Clone, Debug, Default, PartialEq)]
pub struct Battery {
    /// The nameplate capacity of the battery
    pub nameplate: u32,
}

/// The `serials=a,b,c&` query fragment for an optional list of battery
/// serial numbers: empty when the list is absent.
pub open spec fn serials_fragment(s: Option<Seq<Seq<char>>>) -> Seq<char> {
    match s {
        Some(v) => "serials="@ + comma_join(v) + "&"@,
        None => Seq::<char>::empty(),
    }
}

/// Renders the `serials=a,b,c&` fragment for an optional list of serial
/// numbers.
fn render_serials_fragment(s: &Option<Vec<String>>) -> (r: String)
    ensures
        r@ == serials_fragment(s.deep_view()),
{
    match s {
        Some(v) => {
            let mut f = "serials=".to_owned();
            let joined = comma_join_strings(v);
            f.append(joined.as_str());
            f.append("&");
            f
        },
        None => String::new(),
    }
}

impl Req {
    /// The rendered start-time fragment.
    pub closed spec fn spec_start_time(&self) -> Seq<char> {
        self.start_time@
    }

    /// The rendered end-time fragment.
    pub closed spec fn spec_end_time(&self) -> Seq<char> {
        self.end_time@
    }

    /// The rendered serial-numbers fragment.
    pub closed spec fn spec_serials(&self) -> Seq<char> {
        self.serials@
    }

    /// The URL this request builds for the given site id and api-key
    /// fragment.
    pub open spec fn url_chars(&self, site_id: Seq<char>, api_key: Seq<char>) -> Seq<char> {
        crate::base_url_chars() + "site/"@ + site_id + "/storageData?"@ + self.spec_start_time()
            + self.spec_end_time() + self.spec_serials() + api_key
    }

    /// Create a site storage data request message that can be sent to
    /// SolarEdge.
    ///
    /// * `start_time` - beginning of the time period for the storage data
    /// * `end_time`   - end of the time period for the storage data
    /// * `serials`    - battery serial numbers to restrict the data to
    pub fn new(start_time: DateTime, end_time: DateTime, serials: Option<Vec<String>>) -> (r: Self)
        requires
            start_time.wf(),
            end_time.wf(),
        ensures
            r.spec_start_time() == "startTime="@ + datetime_chars(start_time) + "&"@,
            r.spec_end_time() == "endTime="@ + datetime_chars(end_time) + "&"@,
            r.spec_serials() == serials_fragment(serials.deep_view()),
    {
        Req {
            start_time: datetime_fragment("startTime=", &start_time),
            end_time: datetime_fragment("endTime=", &end_time),
            serials: render_serials_fragment(&serials),
        }
    }

    /// Build the URL for this request from the given credentials.
    pub fn build_url(&self, solaredge: &SolaredgeCredentials) -> (u: String)
        ensures
            u@ == self.url_chars(solaredge.spec_site_id(), solaredge.spec_api_key()),
    {
        let mut u = crate::monitoring_api_url().to_owned();
        u.append("site/");
        u.append(solaredge.site_id());
        u.append("/storageData?");
        u.append(self.start_time.as_str());
        u.append(self.end_time.as_str());
        u.append(self.serials.as_str());
        u.append(solaredge.api_key_str());
        u
    }
}

/// With the optional serial list absent, the URL holds exactly the base
/// URL, the path, the two mandatory time fragments, and the api-key
/// fragment: the omitted parameter leaves no stray characters behind.
pub proof fn lemma_no_serials_url(r: Req, site_id: Seq<char>, api_key: Seq<char>)
    requires
        r.spec_serials() == Seq::<char>::empty(),
    ensures
        r.url_chars(site_id, api_key) == crate::base_url_chars() + "site/"@ + site_id
            + "/storageData?"@ + r.spec_start_time() + r.spec_end_time() + api_key,
{
    assert(r.url_chars(site_id, api_key) =~= crate::base_url_chars() + "site/"@ + site_id
        + "/storageData?"@ + r.spec_start_time() + r.spec_end_time() + api_key);
}

} // verus!
