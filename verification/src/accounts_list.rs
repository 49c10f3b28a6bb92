//! The accounts and list of sub-accounts related to the given token.
//! This request accepts parameters for convenient search, sorting and
//! pagination.

use crate::sort_order::{render_sort_order_fragment, sort_order_fragment, SortOrder};
use crate::textfmt::{
    num_fragment, render_num_fragment, render_size_fragment, render_text_fragment, size_fragment,
    text_fragment,
};
use crate::SolaredgeCredentials;
use std::collections::HashMap;
use vstd::prelude::*;
use vstd::string::StringExecFns;

verus! {

/// accounts_list request
#[derive(Clone, Debug, PartialEq)]
pub struct Req {
    size: String,
    start_index: String,
    search_text: String,
    sort_property: String,
    sort_order: String,
}

/// A sorting option for this account list, based on one of its properties.
#[derive(Clone, Debug, PartialEq, Eq, Structural)]
pub enum SortProperty {
    /// sort by account name
    Name,
    /// sort by account country
    Country,
    /// sort by account city
    City,
    /// sort by account address
    Address,
    /// sort by account zip code
    Zip,
    /// sort by account FAX number
    Fax,
    /// sort by account phone number
    Phone,
    /// sort by account notes
    Notes,
}

impl SortProperty {
    /// The exact external rendering of the sort property; part of the wire
    /// contract.
    pub open spec fn str_chars(self) -> Seq<char> {
        match self {
            SortProperty::Name => "name"@,
            SortProperty::Country => "country"@,
            SortProperty::City => "city"@,
            SortProperty::Address => "address"@,
            SortProperty::Zip => "zip"@,
            SortProperty::Fax => "fax"@,
            SortProperty::Phone => "phone"@,
            SortProperty::Notes => "notes"@,
        }
    }

    /// Renders the sort property for a URL or a display.
    pub fn to_str(&self) -> (r: &'static str)
        ensures
            r@ == self.str_chars(),
    {
        match self {
            SortProperty::Name => "name",
            SortProperty::Country => "country",
            SortProperty::City => "city",
            SortProperty::Address => "address",
            SortProperty::Zip => "zip",
            SortProperty::Fax => "fax",
            SortProperty::Phone => "phone",
            SortProperty::Notes => "notes",
        }
    }
}

/// The `sortProperty=...&` query fragment for an optional sort property:
/// empty when the property is absent.
pub open spec fn sort_property_fragment(p: Option<SortProperty>) -> Seq<char> {
    match p {
        Some(sp) => "sortProperty="@ + sp.str_chars() + "&"@,
        None => Seq::<char>::empty(),
    }
}

/// Renders the `sortProperty=...&` fragment for an optional sort property.
fn render_sort_property_fragment(p: &Option<SortProperty>) -> (r: String)
    ensures
        r@ == sort_property_fragment(*p),
{
    match p {
        Some(sp) => {
            let mut s = "sortProperty=".to_owned();
            s.append(sp.to_str());
            s.append("&");
            s
        },
        None => String::new(),
    }
}

/// accounts_list response
#[derive(Clone, Debug, Default, PartialEq)]
pub struct Resp {
    /// The accounts matching the request.
    pub accounts: Accounts,
}

/// The accounts matching the request.
#[derive(Clone, Debug, Default, PartialEq)]
pub struct Accounts {
    /// The count of matching accounts
    pub count: u16,
    /// Array of matching accounts
    pub list: Entries,
}

/// Array of matching accounts
#[derive(Clone, Debug, Default, PartialEq)]
pub struct Entries {
    /// Transparent list of accounts
    pub e: Vec<AccountDetails>,
}

/// Detailed information for a single account.
#[derive(Clone, Debug, Default, PartialEq)]
pub struct AccountDetails {
    /// account ID
    pub id: u32,
    /// account name
    pub name: String,
    /// location associated with account
    pub location: AccountLocation,
    /// the company web site
    pub company_web_site: String,
    /// the account contact person first name and surname
    pub contact_person: String,
    /// the contact person email
    pub email: String,
    /// account phone number
    pub phone_number: String,
    /// account fax number
    pub fax_number: String,
    /// account notes
    pub notes: String,
    /// account parent identifier
    pub parent_id: u32,
    /// Miscellaneous uris associated with the web page for the site.
    pub uris: HashMap<String, String>,
}

/// Location of the account.
#[derive(Clone, Debug, Default, PartialEq)]
pub struct AccountLocation {
    /// Country of the account.
    pub country: String,
    /// State of the account, where one applies.
    pub state: Option<String>,
    /// City of the account.
    pub city: String,
    /// Address line 1 of the account.
    pub address: String,
    /// Address line 2 of the account.
    pub address2: String,
    /// Zip code of the account.
    pub zip: String,
}

impl Req {
    /// The rendered pagination fragment.
    pub closed spec fn spec_size(&self) -> Seq<char> {
        self.size@
    }

    /// The rendered start-index fragment.
    pub closed spec fn spec_start_index(&self) -> Seq<char> {
        self.start_index@
    }

    /// The rendered search-text fragment.
    pub closed spec fn spec_search_text(&self) -> Seq<char> {
        self.search_text@
    }

    /// The rendered sort-property fragment.
    pub closed spec fn spec_sort_property(&self) -> Seq<char> {
        self.sort_property@
    }

    /// The rendered sort-order fragment.
    pub closed spec fn spec_sort_order(&self) -> Seq<char> {
        self.sort_order@
    }

    /// The URL this request builds for the given api-key fragment: the base
    /// URL, the fixed path, every non-empty parameter fragment in a fixed
    /// order, and the api-key fragment last.
    pub open spec fn url_chars(&self, api_key: Seq<char>) -> Seq<char> {
        crate::base_url_chars() + "accounts/list?"@ + self.spec_size() + self.spec_start_index()
            + self.spec_search_text() + self.spec_sort_property() + self.spec_sort_order()
            + api_key
    }

    /// Create an accounts_list request message that can be sent to
    /// SolarEdge.
    ///
    /// * `size` - the maximum number of accounts returned by this call, in
    ///   the range 1..=100; a size outside that range is dropped silently.
    /// * `start_index` - the first account index to be returned.
    /// * `search_text` - search text for this account.
    /// * `sort_property` - a sorting option for this account list.
    /// * `sort_order` - sort order for the sort property.
    pub fn new(
        size: Option<u16>,
        start_index: Option<u16>,
        search_text: Option<String>,
        sort_property: Option<SortProperty>,
        sort_order: Option<SortOrder>,
    ) -> (r: Self)
        ensures
            r.spec_size() == size_fragment(size),
            r.spec_start_index() == num_fragment("startIndex="@, start_index),
            r.spec_search_text() == text_fragment("searchText="@, search_text.deep_view()),
            r.spec_sort_property() == sort_property_fragment(sort_property),
            r.spec_sort_order() == sort_order_fragment(sort_order),
    {
        Req {
            size: render_size_fragment(size),
            start_index: render_num_fragment("startIndex=", start_index),
            search_text: render_text_fragment("searchText=", &search_text),
            sort_property: render_sort_property_fragment(&sort_property),
            sort_order: render_sort_order_fragment(&sort_order),
        }
    }

    /// Build the URL for this request from the given credentials.
    pub fn build_url(&self, solaredge: &SolaredgeCredentials) -> (u: String)
        ensures
            u@ == self.url_chars(solaredge.spec_api_key()),
    {
        let mut u = crate::monitoring_api_url().to_owned();
        u.append("accounts/list?");
        u.append(self.size.as_str());
        u.append(self.start_index.as_str());
        u.append(self.search_text.as_str());
        u.append(self.sort_property.as_str());
        u.append(self.sort_order.as_str());
        u.append(solaredge.api_key_str());
        u
    }
}

/// With every optional parameter absent, the URL holds exactly the base
/// URL, the fixed path, and the api-key fragment: omitted parameters leave
/// no stray characters behind.
pub proof fn lemma_all_none_url(r: Req, api_key: Seq<char>)
    requires
        r.spec_size() == Seq::<char>::empty(),
        r.spec_start_index() == Seq::<char>::empty(),
        r.spec_search_text() == Seq::<char>::empty(),
        r.spec_sort_property() == Seq::<char>::empty(),
        r.spec_sort_order() == Seq::<char>::empty(),
    ensures
        r.url_chars(api_key) == crate::base_url_chars() + "accounts/list?"@ + api_key,
{
    assert(r.url_chars(api_key) =~= crate::base_url_chars() + "accounts/list?"@ + api_key);
}

} // verus!
