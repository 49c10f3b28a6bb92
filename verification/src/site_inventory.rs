//! The inventory of SolarEdge equipment in the site, including
//! inverters/SMIs, batteries, meters, gateways and sensors.

use crate::meter_type::MeterType;
use crate::SolaredgeCredentials;
use vstd::prelude::*;
use vstd::string::StringExecFns;

verus! {

/// site_inventory request
#[derive(Clone, Debug, PartialEq, Eq, Structural)]
pub struct Req;

/// site_inventory response
#[derive(Clone, Debug, Default, PartialEq)]
pub struct Resp {
    /// List size and list
    pub inventory: Inventory,
}

/// Inventory of site equipment
#[derive(Clone, Debug, Default, PartialEq)]
pub struct Inventory {
    /// List of site meters
    pub meters: Vec<Meter>,
    /// List of site sensors
    pub sensors: Vec<Sensor>,
    /// List of site gateways
    pub gateways: Vec<Gateway>,
    /// List of site batteries
    pub batteries: Vec<Battery>,
    /// List of site inverters
    pub inverters: Vec<Inverter>,
}

/// Meter info
#[derive(Clone, Debug, Default, PartialEq)]
pub struct Meter {
    /// Meter's name
    pub name: String,
    /// Meter's manufacturer
    pub manufacturer: Option<String>,
    /// Meter model
    pub model: Option<String>,
    /// Meter's firmware version
    pub firmware_version: String,
    /// Which SolarEdge device the meter is connected to
    pub connected_to: String,
    /// Serial number of the SolarEdge device the meter is connected to
    pub connected_solaredge_device_sn: String,
    /// Meter type
    pub meter_type: MeterType,
    /// Physical for a HW meter or virtual if calculated by arithmetic
    /// between other meters
    pub form: String,
    /// Meter serial number
    pub sn: Option<String>,
}

/// Sensor info
#[derive(Clone, Debug, Default, PartialEq)]
pub struct Sensor {
    /// Serial number of connected SolarEdge device
    pub connected_solaredge_device_sn: String,
    /// Sensor ID
    pub id: String,
    /// Which SolarEdge device the sensor is connected to
    pub connected_to: String,
    /// Sensor category
    pub category: String,
    /// Sensor type
    pub sensor_type: String,
}

/// Gateway info
#[derive(Clone, Debug, Default, PartialEq)]
pub struct Gateway {
    /// Gateway name
    pub name: String,
    /// The communication interface used to connect to server.
    /// e.g.: Ethernet.
    pub communication_method: String,
    /// Gateway serial number
    pub sn: String,
    /// CPU version
    pub cpu_version: String,
}

/// Battery info
#[derive(Clone, Debug, Default, PartialEq)]
pub struct Battery {
    /// Battery's name
    pub name: String,
    /// Battery's manufacturer
    pub manufacturer: String,
    /// Battery model
    pub model: String,
    /// Battery firmware version
    pub firmware_version: String,
    /// Serial number of connected inverter
    pub connected_inverter_sn: String,
    /// The nameplate capacity of the battery as provided by the
    /// manufacturer
    pub nameplate_capacity: String,
    /// Battery serial number
    pub sn: String,
}

/// Inverter info
#[derive(Clone, Debug, Default, PartialEq)]
pub struct Inverter {
    /// Inverter's name
    pub name: String,
    /// Inverter's manufacturer
    pub manufacturer: String,
    /// Inverter's model
    pub model: String,
    /// The communication interface used to connect to server.
    /// e.g.: Ethernet.
    pub communication_method: String,
    /// CPU version
    pub cpu_version: String,
    /// Inverter serial number
    pub sn: String,
    /// number of optimizers connected to the inverter
    pub connected_optimizers: u32,
}

impl Req {
    /// The URL this request builds for the given site id and api-key
    /// fragment.
    pub open spec fn url_chars(&self, site_id: Seq<char>, api_key: Seq<char>) -> Seq<char> {
        crate::base_url_chars() + "site/"@ + site_id + "/inventory?"@ + api_key
    }

    /// Create a site inventory request message that can be sent to
    /// SolarEdge.
    pub fn new() -> (r: Self)
        ensures
            r == (Req {  }),
    {
        Req {  }
    }

    /// Build the URL for this request from the given credentials.
    pub fn build_url(&self, solaredge: &SolaredgeCredentials) -> (u: String)
        ensures
            u@ == self.url_chars(solaredge.spec_site_id(), solaredge.spec_api_key()),
    {
        let mut u = crate::monitoring_api_url().to_owned();
        u.append("site/");
        u.append(solaredge.site_id());
        u.append("/inventory?");
        u.append(solaredge.api_key_str());
        u
    }
}

impl Default for Req {
    fn default() -> (r: Self)
        ensures
            r == (Req {  }),
    {
        Req {  }
    }
}

} // verus!
