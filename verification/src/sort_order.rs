//! Sort order of the output from the SolarEdge server monitoring API.

use vstd::prelude::*;
use vstd::string::StringExecFns;

verus! {

/// Sort order for the sort property.
#[derive(Clone, Debug, PartialEq, Eq, Structural)]
pub enum SortOrder {
    /// Sort ascending
    Asc,
    /// Sort descending
    Desc,
}

impl SortOrder {
    /// The exact external rendering of the sort order; part of the wire
    /// contract.
    pub open spec fn str_chars(self) -> Seq<char> {
        match self {
            SortOrder::Asc => "ASC"@,
            SortOrder::Desc => "DESC"@,
        }
    }

    /// Renders the sort order for a URL or a display.
    pub fn to_str(&self) -> (r: &'static str)
        ensures
            r@ == self.str_chars(),
    {
        match self {
            SortOrder::Asc => "ASC",
            SortOrder::Desc => "DESC",
        }
    }
}

/// The `sortOrder=...&` query fragment for an optional sort order: empty
/// when the order is absent.
pub open spec fn sort_order_fragment(o: Option<SortOrder>) -> Seq<char> {
    match o {
        Some(so) => "sortOrder="@ + so.str_chars() + "&"@,
        None => Seq::<char>::empty(),
    }
}

/// Renders the `sortOrder=...&` fragment for an optional sort order.
pub fn render_sort_order_fragment(o: &Option<SortOrder>) -> (r: String)
    ensures
        r@ == sort_order_fragment(*o),
{
    match o {
        Some(so) => {
            let mut s = "sortOrder=".to_owned();
            s.append(so.to_str());
            s.append("&");
            s
        },
        None => String::new(),
    }
}

} // verus!
