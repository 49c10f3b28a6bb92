//! Unit tests for the request builders, the credentials and the enums.

use se_ms_api::{
    is_normal, AccountDetails, AccountLocation, AccountListEntries, Accounts, AccountsListReq,
    AccountsListResp, ChangeEntry, ChangeLog, CurrentVersionReq, CurrentVersionResp, DateTime,
    Equipment, EquipmentList, Gateways, Inventory, Inverter, MeterType, Release, Reporters,
    SiteDataPeriod, SiteDataPeriodReq, SiteDataPeriodResp, SiteEnergyDetailedReq,
    SiteEquipmentChangeLogReq, SiteEquipmentChangeLogResp, SiteEquipmentListReq,
    SiteEquipmentListResp, SiteGetMetersDataReq, SiteGetSensorListGateway, SiteGetSensorListReq,
    SiteGetSensorListResp, SiteGetSensorListSensor, SiteInventoryBattery, SiteInventoryGateway,
    SiteInventoryMeter, SiteInventoryReq, SiteInventoryResp, SiteInventorySensor,
    SiteInverterTechnicalDataReq, SiteListEntries, SiteListReq, SiteListResp, SiteLocation,
    SitePowerDetailedReq, SitePublicSettings, SiteSensors, SiteStorageDataBattery,
    SiteStorageDataReq, SiteStorageDataResp, Sites, SolaredgeCredentials, SortOrder, SortProperty,
    StorageData, SupportedVersionsReq, SupportedVersionsResp, SystemUnits, TimeUnit, Version,
};

#[test]
fn solaredge_credentials_unit_test() {
    let se = SolaredgeCredentials::new("id", "key");
    assert_eq!(se.site_id(), "id");
    // The api key itself is write-only; its exact rendering shows in every
    // built URL, always as the last fragment.
    let url = CurrentVersionReq::new().build_url(&se);
    assert_eq!(
        url,
        "https://monitoringapi.solaredge.com/version/current?api_key=key"
    );
}

#[test]
fn meter_type_fmt_unit_test() {
    let t = MeterType::Production;
    assert_eq!(format!("{}", t.to_str()), "Production");
}

#[test]
fn system_units_fmt_unit_test() {
    let t = SystemUnits::Imperial;
    assert_eq!(format!("{}", t.to_str()), "Imperial");
}

#[test]
fn time_unit_fmt_unit_test() {
    let t = TimeUnit::Year;
    assert_eq!(format!("{}", t.to_str()), "YEAR");
}

#[test]
fn site_energy_detailed_req_new_unit_test() {
    let dt = "2022-01-01 00:00:00";
    if let Some(ndt) = DateTime::new(2022, 1, 1, 0, 0, 0) {
        let req = SiteEnergyDetailedReq::new(ndt, ndt, None, None);
        assert_eq!(req.start_time_fragment(), format!("startTime={}&", dt));
        assert_eq!(req.end_time_fragment(), format!("endTime={}&", dt));
        assert_eq!(req.time_unit_fragment(), "");
        assert_eq!(req.meters_fragment(), "");
    } else {
        panic!("test failed");
    }
}

#[test]
fn site_get_meters_data_req_new_unit_test() {
    let dt = "2022-01-01 00:00:00";
    if let Some(ndt) = DateTime::new(2022, 1, 1, 0, 0, 0) {
        let req = SiteGetMetersDataReq::new(ndt, ndt, None, None);
        assert_eq!(req.start_time_fragment(), format!("startTime={}&", dt));
        assert_eq!(req.end_time_fragment(), format!("endTime={}&", dt));
        assert_eq!(req.time_unit_fragment(), "");
        assert_eq!(req.meters_fragment(), "");
    } else {
        panic!("test failed");
    }
}

#[test]
fn site_inverter_technical_data_req_new_unit_test() {
    let dt = "2022-01-01 00:00:00";
    if let Some(ndt) = DateTime::new(2022, 1, 1, 0, 0, 0) {
        let req = SiteInverterTechnicalDataReq::new("foo", ndt, ndt);
        assert_eq!(req.start_time_fragment(), format!("startTime={dt}&"));
        assert_eq!(req.end_time_fragment(), format!("endTime={dt}&"));
        assert_eq!(req.serial_number(), "foo");
    } else {
        panic!("test failed");
    }
}

#[test]
fn site_power_detailed_req_new_unit_test() {
    let dt = "2022-01-01 00:00:00";
    if let Some(ndt) = DateTime::new(2022, 1, 1, 0, 0, 0) {
        let req = SitePowerDetailedReq::new(ndt, ndt, None);
        assert_eq!(req.start_time_fragment(), format!("startTime={}&", dt));
        assert_eq!(req.end_time_fragment(), format!("endTime={}&", dt));
        assert_eq!(req.meters_fragment(), "");
    } else {
        panic!("test failed");
    }
}

#[test]
fn se_ms_api_normal_types_unit_test() {
    is_normal::<SolaredgeCredentials>();
}

#[test]
fn meter_type_normal_types_unit_test() {
    is_normal::<MeterType>();
}

#[test]
fn site_location_normal_types_unit_test() {
    is_normal::<SiteLocation>();
}

#[test]
fn site_public_settings_normal_types_unit_test() {
    is_normal::<SitePublicSettings>();
}

#[test]
fn sort_order_normal_types_unit_test() {
    is_normal::<SortOrder>();
}

#[test]
fn system_units_normal_types_unit_test() {
    is_normal::<SystemUnits>();
}

#[test]
fn time_unit_normal_types_unit_test() {
    is_normal::<TimeUnit>();
}

#[test]
fn accounts_list_normal_types_unit_test() {
    is_normal::<AccountsListReq>();
    is_normal::<SortProperty>();
    is_normal::<AccountsListResp>();
    is_normal::<Accounts>();
    is_normal::<AccountListEntries>();
    is_normal::<AccountDetails>();
    is_normal::<AccountLocation>();
}

#[test]
fn current_version_normal_types_unit_test() {
    is_normal::<CurrentVersionReq>();
    is_normal::<CurrentVersionResp>();
    is_normal::<Version>();
}

#[test]
fn site_data_period_normal_types_unit_test() {
    is_normal::<SiteDataPeriodReq>();
    is_normal::<SiteDataPeriodResp>();
    is_normal::<SiteDataPeriod>();
}

#[test]
fn site_equipment_change_log_normal_types_unit_test() {
    is_normal::<SiteEquipmentChangeLogReq>();
    is_normal::<SiteEquipmentChangeLogResp>();
    is_normal::<ChangeLog>();
    is_normal::<ChangeEntry>();
}

#[test]
fn site_equipment_list_normal_types_unit_test() {
    is_normal::<SiteEquipmentListReq>();
    is_normal::<SiteEquipmentListResp>();
    is_normal::<Reporters>();
    is_normal::<EquipmentList>();
    is_normal::<Equipment>();
}

#[test]
fn site_get_sensor_list_normal_types_unit_test() {
    is_normal::<SiteGetSensorListReq>();
    is_normal::<SiteGetSensorListResp>();
    is_normal::<SiteSensors>();
    is_normal::<Gateways>();
    is_normal::<SiteGetSensorListGateway>();
    is_normal::<se_ms_api::Sensors>();
    is_normal::<SiteGetSensorListSensor>();
}

#[test]
fn site_inventory_normal_types_unit_test() {
    is_normal::<SiteInventoryReq>();
    is_normal::<SiteInventoryResp>();
    is_normal::<Inventory>();
    is_normal::<SiteInventoryMeter>();
    is_normal::<SiteInventorySensor>();
    is_normal::<SiteInventoryGateway>();
    is_normal::<SiteInventoryBattery>();
    is_normal::<Inverter>();
}

#[test]
fn site_list_normal_types_unit_test() {
    is_normal::<SiteListReq>();
    is_normal::<se_ms_api::site_list::SortProperty>();
    is_normal::<se_ms_api::site_list::Status>();
    is_normal::<SiteListResp>();
    is_normal::<Sites>();
    is_normal::<SiteListEntries>();
}

#[test]
fn site_storage_data_normal_types_unit_test() {
    is_normal::<SiteStorageDataReq>();
    is_normal::<SiteStorageDataResp>();
    is_normal::<StorageData>();
    is_normal::<se_ms_api::Batteries>();
    is_normal::<SiteStorageDataBattery>();
}

#[test]
fn supported_versions_normal_types_unit_test() {
    is_normal::<SupportedVersionsReq>();
    is_normal::<SupportedVersionsResp>();
    is_normal::<Release>();
}
