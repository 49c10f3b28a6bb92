//! Client library for the SolarEdge monitoring server API.
//!
//! The basic use case is:
//!  1) Create a [`SolaredgeCredentials`] value that holds the site id and api
//!     key used for the requests.
//!  2) Create a request for the information that you want.
//!  3) Build the request URL and dispatch it; the HTTP transport and the
//!     JSON decoding live outside this library, in an unverified shell.
//!  4) Read the response to get the information.

use vstd::prelude::*;
use vstd::string::StringExecFns;

mod accounts_list;
mod current_version;
pub mod date;
pub mod error;
mod meter_type;
mod site_data_period;
mod site_details;
mod site_energy;
mod site_energy_detailed;
mod site_environmental_benefits;
mod site_equipment_change_log;
mod site_equipment_list;
mod site_get_meters_data;
mod site_get_sensor_list;
mod site_inventory;
mod site_inverter_technical_data;
pub mod site_list;
mod site_location;
mod site_overview;
mod site_power;
mod site_power_detailed;
mod site_power_flow;
mod site_public_settings;
mod site_storage_data;
mod site_time_frame_energy;
mod sort_order;
mod supported_versions;
mod system_units;
pub mod textfmt;
mod time_unit;

pub use accounts_list::{
    AccountDetails, AccountLocation, Accounts, Entries as AccountListEntries,
    Req as AccountsListReq, Resp as AccountsListResp, SortProperty,
};
pub use current_version::{Req as CurrentVersionReq, Resp as CurrentVersionResp, Version};
pub use date::{Date, DateTime};
pub use error::{Error, Kind};
pub use meter_type::MeterType;
pub use site_data_period::{Req as SiteDataPeriodReq, Resp as SiteDataPeriodResp, SiteDataPeriod};
pub use site_details::{Req as SiteDetailsReq, Resp as SiteDetailsResp, SiteDetails};
pub use site_energy::Req as SiteEnergyReq;
pub use site_energy_detailed::Req as SiteEnergyDetailedReq;
pub use site_environmental_benefits::Req as SiteEnvironmentalBenefitsReq;
pub use site_equipment_change_log::{
    ChangeEntry, ChangeLog, Req as SiteEquipmentChangeLogReq, Resp as SiteEquipmentChangeLogResp,
};
pub use site_equipment_list::{
    Equipment, EquipmentList, Reporters, Req as SiteEquipmentListReq, Resp as SiteEquipmentListResp,
};
pub use site_get_meters_data::Req as SiteGetMetersDataReq;
pub use site_get_sensor_list::{
    Gateway as SiteGetSensorListGateway, Gateways, Req as SiteGetSensorListReq,
    Resp as SiteGetSensorListResp, Sensor as SiteGetSensorListSensor, Sensors, SiteSensors,
};
pub use site_inventory::{
    Battery as SiteInventoryBattery, Gateway as SiteInventoryGateway, Inventory, Inverter,
    Meter as SiteInventoryMeter, Req as SiteInventoryReq, Resp as SiteInventoryResp,
    Sensor as SiteInventorySensor,
};
pub use site_inverter_technical_data::{InverterMode, Req as SiteInverterTechnicalDataReq};
pub use site_list::{Entries as SiteListEntries, Req as SiteListReq, Resp as SiteListResp, Sites};
pub use site_location::SiteLocation;
pub use site_overview::Req as SiteOverviewReq;
pub use site_power::Req as SitePowerReq;
pub use site_power_detailed::Req as SitePowerDetailedReq;
pub use site_power_flow::{Connections, Req as SitePowerFlowReq};
pub use site_public_settings::SitePublicSettings;
pub use site_storage_data::{
    Batteries, Battery as SiteStorageDataBattery, Req as SiteStorageDataReq,
    Resp as SiteStorageDataResp, StorageData,
};
pub use site_time_frame_energy::Req as SiteTimeFrameEnergyReq;
pub use sort_order::SortOrder;
pub use supported_versions::{Release, Req as SupportedVersionsReq, Resp as SupportedVersionsResp};
pub use system_units::SystemUnits;
pub use time_unit::TimeUnit;

verus! {

/// The characters of the base URL of the monitoring server.
pub open spec fn base_url_chars() -> Seq<char> {
    "https://monitoringapi.solaredge.com/"@
}

/// The base URL of the monitoring server.
pub fn monitoring_api_url() -> (r: &'static str)
    ensures
        r@ == base_url_chars(),
{
    "https://monitoringapi.solaredge.com/"
}

/// Struct for accessing SolarEdge's monitoring server for a given site and
/// api key. Used as the parameter for building the URL of every request.
#[derive(Clone, Debug, PartialEq)]
pub struct SolaredgeCredentials {
    site_id: String,
    api_key: String,
    bulk_list: Option<String>,
}

impl SolaredgeCredentials {
    /// The site id these credentials are for.
    pub closed spec fn spec_site_id(&self) -> Seq<char> {
        self.site_id@
    }

    /// The `api_key=...` fragment appended to every URL.
    pub closed spec fn spec_api_key(&self) -> Seq<char> {
        self.api_key@
    }

    /// The comma-joined bulk site id list, if one was set.
    pub closed spec fn spec_bulk_list(&self) -> Option<Seq<char>> {
        match self.bulk_list {
            Some(l) => Some(l@),
            None => None,
        }
    }

    /// Create a Solaredge destination for the requests from the given site
    /// id and api key.
    pub fn new(site_id: &str, api_key: &str) -> (r: Self)
        ensures
            r.spec_site_id() == site_id@,
            r.spec_api_key() == "api_key="@ + api_key@,
            r.spec_bulk_list() is None,
    {
        let site_id = site_id.to_owned();
        let mut key = "api_key=".to_owned();
        key.append(api_key);
        SolaredgeCredentials { site_id, api_key: key, bulk_list: None }
    }

    /// See the site ID being used in the credentials.
    pub fn site_id(&self) -> (r: &str)
        ensures
            r@ == self.spec_site_id(),
    {
        self.site_id.as_str()
    }

    pub(crate) fn api_key_str(&self) -> (r: &str)
        ensures
            r@ == self.spec_api_key(),
    {
        self.api_key.as_str()
    }

    /// Attach a comma-joined bulk list of 1 to 100 site ids, for the
    /// requests that support querying several sites in one call. A list
    /// of any other length is rejected and the credentials are unchanged.
    pub fn set_bulk_list(&mut self, list: Vec<String>) -> (r: Result<(), Error>)
        ensures
            r is Ok <==> (1 <= list@.len() <= 100),
            r is Ok ==> final(self).spec_bulk_list() == Some(
                textfmt::comma_join(list.deep_view()),
            ),
            r is Err ==> final(self).spec_bulk_list() == old(self).spec_bulk_list(),
            r matches Err(e) ==> e.kind_spec() is InvalidBulkList,
            final(self).spec_site_id() == old(self).spec_site_id(),
            final(self).spec_api_key() == old(self).spec_api_key(),
    {
        if list.len() == 0 || list.len() > 100 {
            Err(Error::new(Kind::InvalidBulkList))
        } else {
            self.bulk_list = Some(textfmt::comma_join_strings(&list));
            Ok(())
        }
    }

    pub(crate) fn bulk_list_str(&self) -> (r: Option<&str>)
        ensures
            match r {
                Some(l) => self.spec_bulk_list() == Some(l@),
                None => self.spec_bulk_list() is None,
            },
    {
        match &self.bulk_list {
            Some(l) => Some(l.as_str()),
            None => None,
        }
    }
}

/// Check that a type is Sized + Send + Sync + Unpin.
pub fn is_normal<T: Sized + Send + Sync + Unpin>() {
}

} // verus!
