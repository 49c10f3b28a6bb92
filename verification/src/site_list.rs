//! A list of sites related to the given token, which is the account api
//! key. This request accepts parameters for convenient search, sort and
//! pagination.

use crate::site_details::SiteDetails;
use crate::sort_order::{render_sort_order_fragment, sort_order_fragment, SortOrder};
use crate::textfmt::{
    comma_join, num_fragment, render_num_fragment, render_size_fragment, render_text_fragment,
    size_fragment, text_fragment,
};
use crate::SolaredgeCredentials;
use vstd::prelude::*;
use vstd::string::StringExecFns;

verus! {

/// site_list request
#[derive(Clone, Debug, PartialEq)]
pub struct Req {
    size: String,
    start_index: String,
    search_text: String,
    sort_property: String,
    sort_order: String,
    status: String,
}

/// A sorting option for this site list, based on one of its properties.
#[derive(Clone, Debug, PartialEq, Eq, Structural)]
pub enum SortProperty {
    /// sort by site name
    Name,
    /// sort by site country
    Country,
    /// sort by site state
    State,
    /// sort by site city
    City,
    /// sort by site address
    Address,
    /// sort by site zip code
    Zip,
    /// sort by site status
    Status,
    /// sort by peak power
    PeakPower,
    /// sort by installation date
    InstallationDate,
    /// sort by amount of alerts
    Amount,
    /// sort by alert severity
    MaxSeverity,
    /// sort by site creation time
    CreationTime,
}

impl SortProperty {
    /// The exact external rendering of the sort property; part of the wire
    /// contract.
    pub open spec fn str_chars(self) -> Seq<char> {
        match self {
            SortProperty::Name => "name"@,
            SortProperty::Country => "country"@,
            SortProperty::State => "state"@,
            SortProperty::City => "city"@,
            SortProperty::Address => "address"@,
            SortProperty::Zip => "zip"@,
            SortProperty::Status => "status"@,
            SortProperty::PeakPower => "peakPower"@,
            SortProperty::InstallationDate => "installationDate"@,
            SortProperty::Amount => "amount"@,
            SortProperty::MaxSeverity => "maxSeverity"@,
            SortProperty::CreationTime => "creationTime"@,
        }
    }

    /// Renders the sort property for a URL or a display.
    pub fn to_str(&self) -> (r: &'static str)
        ensures
            r@ == self.str_chars(),
    {
        match self {
            SortProperty::Name => "name",
            SortProperty::Country => "country",
            SortProperty::State => "state",
            SortProperty::City => "city",
            SortProperty::Address => "address",
            SortProperty::Zip => "zip",
            SortProperty::Status => "status",
            SortProperty::PeakPower => "peakPower",
            SortProperty::InstallationDate => "installationDate",
            SortProperty::Amount => "amount",
            SortProperty::MaxSeverity => "maxSeverity",
            SortProperty::CreationTime => "creationTime",
        }
    }
}

/// A site status to select the sites to be included in the list.
#[derive(Clone, Debug, PartialEq, Eq, Structural)]
pub enum Status {
    /// Active sites
    Active,
    /// Sites not active yet
    Pending,
    /// Sites that are disabled
    Disabled,
    /// All sites
    All,
}

impl Status {
    /// The exact external rendering of the status; part of the wire
    /// contract.
    pub open spec fn str_chars(self) -> Seq<char> {
        match self {
            Status::Active => "Active"@,
            Status::Pending => "Pending"@,
            Status::Disabled => "Disabled"@,
            Status::All => "All"@,
        }
    }

    /// Renders the status for a URL or a display.
    pub fn to_str(&self) -> (r: &'static str)
        ensures
            r@ == self.str_chars(),
    {
        match self {
            Status::Active => "Active",
            Status::Pending => "Pending",
            Status::Disabled => "Disabled",
            Status::All => "All",
        }
    }
}

/// The renderings of a sequence of statuses.
pub open spec fn status_strs(s: Seq<Status>) -> Seq<Seq<char>> {
    s.map_values(|st: Status| st.str_chars())
}

/// The `status=a,b&` query fragment for an optional list of statuses:
/// empty when the list is absent.
pub open spec fn status_fragment(s: Option<Seq<Status>>) -> Seq<char> {
    match s {
        Some(v) => "status="@ + comma_join(status_strs(v)) + "&"@,
        None => Seq::<char>::empty(),
    }
}

/// Joins the renderings of the given statuses with commas.
fn statuses_string(s: &Vec<Status>) -> (r: String)
    ensures
        r@ == comma_join(status_strs(s@)),
{
    let mut joined = String::new();
    let mut i: usize = 0;
    proof {
        assert(status_strs(s@).take(0) =~= Seq::<Seq<char>>::empty());
    }
    while i < s.len()
        invariant
            i <= s.len(),
            joined@ == comma_join(status_strs(s@).take(i as int)),
        decreases s.len() - i,
    {
        if i > 0 {
            joined.append(",");
            proof {
                reveal_strlit(",");
                assert(","@ =~= seq![',']);
            }
        }
        joined.append(s[i].to_str());
        proof {
            crate::textfmt::lemma_comma_join_push(
                status_strs(s@).take(i as int),
                status_strs(s@)[i as int],
            );
            assert(status_strs(s@).take(i as int).push(status_strs(s@)[i as int])
                =~= status_strs(s@).take(i + 1));
            assert(joined@ =~= comma_join(status_strs(s@).take(i + 1)));
        }
        i = i + 1;
    }
    proof {
        assert(status_strs(s@).take(s.len() as int) =~= status_strs(s@));
    }
    joined
}

/// Renders the `status=a,b&` fragment for an optional list of statuses.
fn render_status_fragment(s: &Option<Vec<Status>>) -> (r: String)
    ensures
        r@ == status_fragment(match s {
            Some(v) => Some(v@),
            None => None,
        }),
{
    match s {
        Some(v) => {
            let mut f = "status=".to_owned();
            let joined = statuses_string(v);
            f.append(joined.as_str());
            f.append("&");
            f
        },
        None => String::new(),
    }
}

/// Renders the `sortProperty=...&` fragment for an optional sort property.
fn render_sort_property_fragment(p: &Option<SortProperty>) -> (r: String)
    ensures
        r@ == sort_property_fragment(*p),
{
    match p {
        Some(sp) => {
            let mut s = "sortProperty=".to_owned();
            s.append(sp.to_str());
            s.append("&");
            s
        },
        None => String::new(),
    }
}

/// The `sortProperty=...&` query fragment for an optional sort property:
/// empty when the property is absent.
pub open spec fn sort_property_fragment(p: Option<SortProperty>) -> Seq<char> {
    match p {
        Some(sp) => "sortProperty="@ + sp.str_chars() + "&"@,
        None => Seq::<char>::empty(),
    }
}

/// site_list response
#[derive(Clone, Debug, Default, PartialEq)]
pub struct Resp {
    /// The sites matching the request.
    pub sites: Sites,
}

/// The sites matching the request.
#[derive(Clone, Debug, Default, PartialEq)]
pub struct Sites {
    /// The count of matching sites
    pub count: u16,
    /// Array of matching sites
    pub site: Entries,
}

/// Array of matching sites
#[derive(Clone, Debug, Default, PartialEq)]
pub struct Entries {
    /// Transparent list of sites
    pub e: Vec<SiteDetails>,
}

impl Req {
    /// The rendered pagination fragment.
    pub closed spec fn spec_size(&self) -> Seq<char> {
        self.size@
    }

    /// The rendered start-index fragment.
    pub closed spec fn spec_start_index(&self) -> Seq<char> {
        self.start_index@
    }

    /// The rendered search-text fragment.
    pub closed spec fn spec_search_text(&self) -> Seq<char> {
        self.search_text@
    }

    /// The rendered sort-property fragment.
    pub closed spec fn spec_sort_property(&self) -> Seq<char> {
        self.sort_property@
    }

    /// The rendered sort-order fragment.
    pub closed spec fn spec_sort_order(&self) -> Seq<char> {
        self.sort_order@
    }

    /// The rendered status-list fragment.
    pub closed spec fn spec_status(&self) -> Seq<char> {
        self.status@
    }

    /// The URL this request builds for the given api-key fragment: the base
    /// URL, the fixed path, every non-empty parameter fragment in a fixed
    /// order, and the api-key fragment last.
    pub open spec fn url_chars(&self, api_key: Seq<char>) -> Seq<char> {
        crate::base_url_chars() + "sites/list?"@ + self.spec_size() + self.spec_start_index()
            + self.spec_search_text() + self.spec_sort_property() + self.spec_sort_order()
            + self.spec_status() + api_key
    }

    /// Create a site_list request message that can be sent to SolarEdge.
    ///
    /// * `size` - the maximum number of sites returned by this call, in the
    ///   range 1..=100; a size outside that range is dropped silently.
    /// * `start_index` - the first site index to be returned.
    /// * `search_text` - search text for this site.
    /// * `sort_property` - a sorting option for this site list.
    /// * `sort_order` - sort order for the sort property.
    /// * `status` - select the sites to be included in the list by their
    ///   status; the server's default includes active and pending sites.
    pub fn new(
        size: Option<u16>,
        start_index: Option<u16>,
        search_text: Option<String>,
        sort_property: Option<SortProperty>,
        sort_order: Option<SortOrder>,
        status: Option<Vec<Status>>,
    ) -> (r: Self)
        ensures
            r.spec_size() == size_fragment(size),
            r.spec_start_index() == num_fragment("startIndex="@, start_index),
            r.spec_search_text() == text_fragment("searchText="@, search_text.deep_view()),
            r.spec_sort_property() == sort_property_fragment(sort_property),
            r.spec_sort_order() == sort_order_fragment(sort_order),
            r.spec_status() == status_fragment(match status {
                Some(v) => Some(v@),
                None => None,
            }),
    {
        Req {
            size: render_size_fragment(size),
            start_index: render_num_fragment("startIndex=", start_index),
            search_text: render_text_fragment("searchText=", &search_text),
            sort_property: render_sort_property_fragment(&sort_property),
            sort_order: render_sort_order_fragment(&sort_order),
            status: render_status_fragment(&status),
        }
    }

    /// Build the URL for this request from the given credentials.
    pub fn build_url(&self, solaredge: &SolaredgeCredentials) -> (u: String)
        ensures
            u@ == self.url_chars(solaredge.spec_api_key()),
    {
        let mut u = crate::monitoring_api_url().to_owned();
        u.append("sites/list?");
        u.append(self.size.as_str());
        u.append(self.start_index.as_str());
        u.append(self.search_text.as_str());
        u.append(self.sort_property.as_str());
        u.append(self.sort_order.as_str());
        u.append(self.status.as_str());
        u.append(solaredge.api_key_str());
        u
    }
}

/// With every optional parameter absent, the URL holds exactly the base
/// URL, the fixed path, and the api-key fragment: omitted parameters leave
/// no stray characters behind.
pub proof fn lemma_all_none_url(r: Req, api_key: Seq<char>)
    requires
        r.spec_size() == Seq::<char>::empty(),
        r.spec_start_index() == Seq::<char>::empty(),
        r.spec_search_text() == Seq::<char>::empty(),
        r.spec_sort_property() == Seq::<char>::empty(),
        r.spec_sort_order() == Seq::<char>::empty(),
        r.spec_status() == Seq::<char>::empty(),
    ensures
        r.url_chars(api_key) == crate::base_url_chars() + "sites/list?"@ + api_key,
{
    assert(r.url_chars(api_key) =~= crate::base_url_chars() + "sites/list?"@ + api_key);
}

} // verus!
