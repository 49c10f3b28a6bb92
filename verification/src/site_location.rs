//! Site location data returned in the SolarEdge server monitoring API
//! responses.

use vstd::prelude::*;

verus! {

/// Location of the SolarEdge inverter.
#[derive(Clone, Debug, Default, PartialEq)]
pub struct SiteLocation {
    /// Country of the SolarEdge inverter.
    pub country: String,
    /// State of the SolarEdge inverter, where one applies.
    pub state: Option<String>,
    /// City of the SolarEdge inverter.
    pub city: String,
    /// Address line 1 of the SolarEdge inverter.
    pub address: String,
    /// Address line 2 of the SolarEdge inverter.
    pub address2: String,
    /// Zip code of the SolarEdge inverter.
    pub zip: String,
    /// Time zone of the SolarEdge inverter.
    pub time_zone: String,
    /// Country code (abbreviation) of the SolarEdge inverter.
    pub country_code: String,
    /// State code (abbreviation) of the SolarEdge inverter, where one
    /// applies.
    pub state_code: Option<String>,
}

} // verus!
