//! The list of all the sensors in the site, and the device to which they
//! are connected.

use crate::SolaredgeCredentials;
use vstd::prelude::*;
use vstd::string::StringExecFns;

verus! {

/// site_get_sensor_list request
#[derive(Clone, Debug, PartialEq, Eq, Structural)]
pub struct Req;

/// site_get_sensor_list response
#[derive(Clone, Debug, Default, PartialEq)]
pub struct Resp {
    /// The list of sensors installed in the site associated with the
    /// gateway they are connected with.
    pub site_sensors: SiteSensors,
}

/// The list of sensors installed in the site associated with the gateway
/// they are connected with.
#[derive(Clone, Debug, Default, PartialEq)]
pub struct SiteSensors {
    /// Number of gateways in the list.
    pub total: u16,
    /// list of gateways
    pub list: Gateways,
}

/// List of gateways
#[derive(Clone, Debug, Default, PartialEq)]
pub struct Gateways {
    /// Transparent list of gateways
    pub g: Vec<Gateway>,
}

/// Sensor information for a gateway
#[derive(Clone, Debug, Default, PartialEq)]
pub struct Gateway {
    /// Gateway that the sensors are connected to
    pub connected_to: String,
    /// Number of sensors in list
    pub count: u16,
    /// List of sensors
    pub sensors: Sensors,
}

/// List of sensors
#[derive(Clone, Debug, Default, PartialEq)]
pub struct Sensors {
    /// Transparent list of sensors
    pub s: Vec<Sensor>,
}

/// Information for a single sensor
#[derive(Clone, Debug, Default, PartialEq)]
pub struct Sensor {
    /// Name of the sensor
    pub name: String,
    /// What the sensor measures
    pub measurement: String,
    /// Sensor type
    pub sensor_type: String,
}

impl Req {
    /// The URL this request builds for the given site id and api-key
    /// fragment.
    pub open spec fn url_chars(&self, site_id: Seq<char>, api_key: Seq<char>) -> Seq<char> {
        crate::base_url_chars() + "equipment/"@ + site_id + "/sensors?"@ + api_key
    }

    /// Create a sensor list request message that can be sent to SolarEdge.
    pub fn new() -> (r: Self)
        ensures
            r == (Req {  }),
    {
        Req {  }
    }

    /// Build the URL for this request from the given credentials.
    pub fn build_url(&self, solaredge: &SolaredgeCredentials) -> (u: String)
        ensures
            u@ == self.url_chars(solaredge.spec_site_id(), solaredge.spec_api_key()),
    {
        let mut u = crate::monitoring_api_url().to_owned();
        u.append("equipment/");
        u.append(solaredge.site_id());
        u.append("/sensors?");
        u.append(solaredge.api_key_str());
        u
    }
}

impl Default for Req {
    fn default() -> (r: Self)
        ensures
            r == (Req {  }),
    {
        Req {  }
    }
}

} // verus!
