//! The measurement units used with the SolarEdge server monitoring API.

use vstd::prelude::*;
use vstd::string::StringExecFns;

verus! {

/// Measurement units specified in SolarEdge server monitoring API requests
/// and responses.
#[derive(Clone, Debug, PartialEq, Eq, Structural)]
pub enum SystemUnits {
    /// Imperial measurement units
    Imperial,
    /// Metric measurement units
    Metrics,
}

impl SystemUnits {
    /// The exact external rendering of the measurement units; part of the
    /// wire contract.
    pub open spec fn str_chars(self) -> Seq<char> {
        match self {
            SystemUnits::Imperial => "Imperial"@,
            SystemUnits::Metrics => "Metrics"@,
        }
    }

    /// Renders the measurement units for a URL or a display.
    pub fn to_str(&self) -> (r: &'static str)
        ensures
            r@ == self.str_chars(),
    {
        match self {
            SystemUnits::Imperial => "Imperial",
            SystemUnits::Metrics => "Metrics",
        }
    }
}

/// The `systemUnits=...&` query fragment for an optional unit system: empty
/// when the parameter is absent.
pub open spec fn system_units_fragment(u: Option<SystemUnits>) -> Seq<char> {
    match u {
        Some(su) => "systemUnits="@ + su.str_chars() + "&"@,
        None => Seq::<char>::empty(),
    }
}

/// Renders the `systemUnits=...&` fragment for an optional unit system.
pub fn render_system_units_fragment(u: &Option<SystemUnits>) -> (r: String)
    ensures
        r@ == system_units_fragment(*u),
{
    match u {
        Some(su) => {
            let mut s = "systemUnits=".to_owned();
            s.append(su.to_str());
            s.append("&");
            s
        },
        None => String::new(),
    }
}

} // verus!
