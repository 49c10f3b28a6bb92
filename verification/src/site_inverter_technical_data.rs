//! Specific inverter data for a given time frame.
//!
//! The telemetry response carries voltages, powers and temperatures that
//! are floating point on the wire; those records are decoded by the
//! unverified transport shell, outside this library.

use crate::date::{datetime_chars, datetime_fragment, DateTime};
use crate::SolaredgeCredentials;
use vstd::prelude::*;
use vstd::string::StringExecFns;

verus! {

/// site_inverter_technical_data request
#[derive(Clone, Debug, PartialEq)]
pub struct Req {
    serial_number: String,
    start_time: String,
    end_time: String,
}

/// Inverter operating mode
#[derive(Clone, Debug, PartialEq, Eq, Structural, Default)]
pub enum InverterMode {
    /// Off
    #[default]
    Off,
    /// Night mode
    Night,
    /// Pre-production
    WakeUp,
    /// Production
    Production,
    /// Forced power reduction
    ProductionLimit,
    /// Shutdown procedure
    Shutdown,
    /// Error mode
    Error,
    /// Maintenance
    Setup,
    /// Standby mode lock
    LockedStdby,
    /// Fire fighters lock mode
    LockedFireFighters,
    /// Forced shutdown from server
    LockedForceShutdown,
    /// Communication timeout
    LockedCommTimeout,
    /// Inverter self-lock trip
    LockedInvTrip,
    /// Inverter self-lock arc detection
    LockedInvArcDetected,
    /// Inverter lock due to DG mode enable
    LockedDG,
    /// Maximum power point tracking
    Mppt,
    /// Sleeping
    Sleeping,
}

impl InverterMode {
    /// The exact display rendering of the inverter mode.
    pub open spec fn str_chars(self) -> Seq<char> {
        match self {
            InverterMode::Off => "Off"@,
            InverterMode::Night => "Night"@,
            InverterMode::WakeUp => "Wake Up"@,
            InverterMode::Production => "Production"@,
            InverterMode::ProductionLimit => "Production Limit"@,
            InverterMode::Shutdown => "Shutdown"@,
            InverterMode::Error => "Error"@,
            InverterMode::Setup => "Setup"@,
            InverterMode::LockedStdby => "Locked Standby"@,
            InverterMode::LockedFireFighters => "Locked Fire Fighters"@,
            InverterMode::LockedForceShutdown => "Locked Force Shutdown"@,
            InverterMode::LockedCommTimeout => "Locked Communication Timeout"@,
            InverterMode::LockedInvTrip => "Locked Inverter Trip"@,
            InverterMode::LockedInvArcDetected => "Locked Inverter Arc Detected"@,
            InverterMode::LockedDG => "Locked DG"@,
            InverterMode::Mppt => "MPPT"@,
            InverterMode::Sleeping => "Sleeping"@,
        }
    }

    /// Renders the inverter mode for a display.
    pub fn to_str(&self) -> (r: &'static str)
        ensures
            r@ == self.str_chars(),
    {
        match self {
            InverterMode::Off => "Off",
            InverterMode::Night => "Night",
            InverterMode::WakeUp => "Wake Up",
            InverterMode::Production => "Production",
            InverterMode::ProductionLimit => "Production Limit",
            InverterMode::Shutdown => "Shutdown",
            InverterMode::Error => "Error",
            InverterMode::Setup => "Setup",
            InverterMode::LockedStdby => "Locked Standby",
            InverterMode::LockedFireFighters => "Locked Fire Fighters",
            InverterMode::LockedForceShutdown => "Locked Force Shutdown",
            InverterMode::LockedCommTimeout => "Locked Communication Timeout",
            InverterMode::LockedInvTrip => "Locked Inverter Trip",
            InverterMode::LockedInvArcDetected => "Locked Inverter Arc Detected",
            InverterMode::LockedDG => "Locked DG",
            InverterMode::Mppt => "MPPT",
            InverterMode::Sleeping => "Sleeping",
        }
    }
}

impl Req {
    /// The serial number the data is asked for.
    pub closed spec fn spec_serial_number(&self) -> Seq<char> {
        self.serial_number@
    }

    /// The rendered start-time fragment.
    pub closed spec fn spec_start_time(&self) -> Seq<char> {
        self.start_time@
    }

    /// The rendered end-time fragment.
    pub closed spec fn spec_end_time(&self) -> Seq<char> {
        self.end_time@
    }

    /// The URL this request builds for the given site id and api-key
    /// fragment.
    pub open spec fn url_chars(&self, site_id: Seq<char>, api_key: Seq<char>) -> Seq<char> {
        crate::base_url_chars() + "equipment/"@ + site_id + "/"@ + self.spec_serial_number()
            + "/data?"@ + self.spec_start_time() + self.spec_end_time() + api_key
    }

    /// Create an inverter technical data request message that can be sent
    /// to SolarEdge.
    ///
    /// * `serial_number` - inverter short serial number
    /// * `start_time` - beginning of the time period for the inverter data
    /// * `end_time`   - end of the time period for the inverter data
    pub fn new(serial_number: &str, start_time: DateTime, end_time: DateTime) -> (r: Self)
        requires
            start_time.wf(),
            end_time.wf(),
        ensures
            r.spec_serial_number() == serial_number@,
            r.spec_start_time() == "startTime="@ + datetime_chars(start_time) + "&"@,
            r.spec_end_time() == "endTime="@ + datetime_chars(end_time) + "&"@,
    {
        Req {
            serial_number: serial_number.to_owned(),
            start_time: datetime_fragment("startTime=", &start_time),
            end_time: datetime_fragment("endTime=", &end_time),
        }
    }

    /// The serial number the data is asked for, for inspection.
    pub fn serial_number(&self) -> (r: &str)
        ensures
            r@ == self.spec_serial_number(),
    {
        self.serial_number.as_str()
    }

    /// The rendered start-time fragment, for inspection.
    pub fn start_time_fragment(&self) -> (r: &str)
        ensures
            r@ == self.spec_start_time(),
    {
        self.start_time.as_str()
    }

    /// The rendered end-time fragment, for inspection.
    pub fn end_time_fragment(&self) -> (r: &str)
        ensures
            r@ == self.spec_end_time(),
    {
        self.end_time.as_str()
    }

    /// Build the URL for this request from the given credentials.
    pub fn build_url(&self, solaredge: &SolaredgeCredentials) -> (u: String)
        ensures
            u@ == self.url_chars(solaredge.spec_site_id(), solaredge.spec_api_key()),
    {
        let mut u = crate::monitoring_api_url().to_owned();
        u.append("equipment/");
        u.append(solaredge.site_id());
        u.append("/");
        u.append(self.serial_number.as_str());
        u.append("/data?");
        u.append(self.start_time.as_str());
        u.append(self.end_time.as_str());
        u.append(solaredge.api_key_str());
        u
    }
}

} // verus!
