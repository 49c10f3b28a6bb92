//! Information about the web pages for the site served by SolarEdge.

use vstd::prelude::*;

verus! {

/// Information about the public web page for the site provided by
/// SolarEdge.
#[derive(Clone, Debug, Default, PartialEq)]
pub struct SitePublicSettings {
    /// Optional name given to the web page for the site.
    pub name: Option<String>,
    /// Is the web page accessible to the public (i.e. no password
    /// required)?
    pub is_public: bool,
}

} // verus!
