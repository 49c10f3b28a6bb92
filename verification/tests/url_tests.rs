//! Byte-exact checks of the URLs every request builds: with all optional
//! parameters absent, with dates and date-times, and with comma-joined
//! lists.

use se_ms_api::{
    AccountsListReq, CurrentVersionReq, Date, DateTime, MeterType, SiteDataPeriodReq,
    SiteDetailsReq, SiteEnergyDetailedReq, SiteEnergyReq, SiteEnvironmentalBenefitsReq,
    SiteEquipmentChangeLogReq, SiteEquipmentListReq, SiteGetMetersDataReq, SiteGetSensorListReq,
    SiteInventoryReq, SiteInverterTechnicalDataReq, SiteListReq, SiteOverviewReq,
    SitePowerDetailedReq, SitePowerFlowReq, SitePowerReq, SiteStorageDataReq,
    SiteTimeFrameEnergyReq, SolaredgeCredentials, SupportedVersionsReq, SystemUnits, TimeUnit,
};

const BASE: &str = "https://monitoringapi.solaredge.com/";

fn cred() -> SolaredgeCredentials {
    SolaredgeCredentials::new("id", "key")
}

fn d1() -> Date {
    Date::new(2022, 1, 1).unwrap()
}

fn d2() -> Date {
    Date::new(2022, 1, 2).unwrap()
}

fn t1() -> DateTime {
    DateTime::new(2022, 1, 1, 0, 0, 0).unwrap()
}

fn t2() -> DateTime {
    DateTime::new(2022, 1, 31, 23, 59, 59).unwrap()
}

#[test]
fn accounts_list_all_none_url() {
    let url = AccountsListReq::new(None, None, None, None, None).build_url(&cred());
    assert_eq!(url, format!("{BASE}accounts/list?api_key=key"));
}

#[test]
fn site_list_all_none_url() {
    let url = SiteListReq::new(None, None, None, None, None, None).build_url(&cred());
    assert_eq!(url, format!("{BASE}sites/list?api_key=key"));
}

#[test]
fn current_version_url() {
    let url = CurrentVersionReq::new().build_url(&cred());
    assert_eq!(url, format!("{BASE}version/current?api_key=key"));
}

#[test]
fn supported_versions_url() {
    let url = SupportedVersionsReq::new().build_url(&cred());
    assert_eq!(url, format!("{BASE}version/supported?api_key=key"));
}

#[test]
fn site_data_period_url() {
    let url = SiteDataPeriodReq::new().build_url(&cred());
    assert_eq!(url, format!("{BASE}site/id/dataPeriod?api_key=key"));
}

#[test]
fn site_details_url() {
    let url = SiteDetailsReq::new().build_url(&cred());
    assert_eq!(url, format!("{BASE}site/id/details?api_key=key"));
}

#[test]
fn site_overview_url() {
    let url = SiteOverviewReq::new().build_url(&cred());
    assert_eq!(url, format!("{BASE}site/id/overview?api_key=key"));
}

#[test]
fn site_power_flow_url() {
    let url = SitePowerFlowReq::new().build_url(&cred());
    assert_eq!(url, format!("{BASE}site/id/currentPowerFlow?api_key=key"));
}

#[test]
fn site_inventory_url() {
    let url = SiteInventoryReq::new().build_url(&cred());
    assert_eq!(url, format!("{BASE}site/id/inventory?api_key=key"));
}

#[test]
fn site_equipment_list_url() {
    let url = SiteEquipmentListReq::new().build_url(&cred());
    assert_eq!(url, format!("{BASE}equipment/id/list?api_key=key"));
}

#[test]
fn site_get_sensor_list_url() {
    let url = SiteGetSensorListReq::new().build_url(&cred());
    assert_eq!(url, format!("{BASE}equipment/id/sensors?api_key=key"));
}

#[test]
fn site_environmental_benefits_all_none_url() {
    let url = SiteEnvironmentalBenefitsReq::new(None).build_url(&cred());
    assert_eq!(url, format!("{BASE}site/id/envBenefits?api_key=key"));
}

#[test]
fn site_environmental_benefits_units_url() {
    let url = SiteEnvironmentalBenefitsReq::new(Some(SystemUnits::Metrics)).build_url(&cred());
    assert_eq!(
        url,
        format!("{BASE}site/id/envBenefits?systemUnits=Metrics&api_key=key")
    );
}

#[test]
fn site_energy_all_none_url() {
    let url = SiteEnergyReq::new(d1(), d2(), None).build_url(&cred());
    assert_eq!(
        url,
        format!("{BASE}site/id/energy?startDate=2022-01-01&endDate=2022-01-02&api_key=key")
    );
}

#[test]
fn site_energy_time_unit_url() {
    let url = SiteEnergyReq::new(d1(), d2(), Some(TimeUnit::QuarterOfAnHour)).build_url(&cred());
    assert_eq!(
        url,
        format!(
            "{BASE}site/id/energy?timeUnit=QUARTER_OF_AN_HOUR&startDate=2022-01-01&endDate=2022-01-02&api_key=key"
        )
    );
}

#[test]
fn site_time_frame_energy_url() {
    let url = SiteTimeFrameEnergyReq::new(d1(), d2()).build_url(&cred());
    assert_eq!(
        url,
        format!(
            "{BASE}site/id/timeFrameEnergy?startDate=2022-01-01&endDate=2022-01-02&api_key=key"
        )
    );
}

#[test]
fn site_power_url() {
    let url = SitePowerReq::new(t1(), t2()).build_url(&cred());
    assert_eq!(
        url,
        format!(
            "{BASE}site/id/power?startTime=2022-01-01 00:00:00&endTime=2022-01-31 23:59:59&api_key=key"
        )
    );
}

#[test]
fn site_power_detailed_all_none_url() {
    let url = SitePowerDetailedReq::new(t1(), t1(), None).build_url(&cred());
    assert_eq!(
        url,
        format!(
            "{BASE}site/id/powerDetails?startTime=2022-01-01 00:00:00&endTime=2022-01-01 00:00:00&api_key=key"
        )
    );
}

#[test]
fn site_power_detailed_meters_url() {
    let url =
        SitePowerDetailedReq::new(t1(), t1(), Some(vec![MeterType::Purchased])).build_url(&cred());
    assert_eq!(
        url,
        format!(
            "{BASE}site/id/powerDetails?meters=Purchased&startTime=2022-01-01 00:00:00&endTime=2022-01-01 00:00:00&api_key=key"
        )
    );
}

#[test]
fn site_energy_detailed_all_none_url() {
    let url = SiteEnergyDetailedReq::new(t1(), t1(), None, None).build_url(&cred());
    assert_eq!(
        url,
        format!(
            "{BASE}site/id/energyDetails?startTime=2022-01-01 00:00:00&endTime=2022-01-01 00:00:00&api_key=key"
        )
    );
}

#[test]
fn site_energy_detailed_full_url() {
    let url = SiteEnergyDetailedReq::new(
        t1(),
        t1(),
        Some(TimeUnit::Week),
        Some(vec![MeterType::Production, MeterType::Consumption]),
    )
    .build_url(&cred());
    assert_eq!(
        url,
        format!(
            "{BASE}site/id/energyDetails?meters=Production,Consumption&timeUnit=WEEK&startTime=2022-01-01 00:00:00&endTime=2022-01-01 00:00:00&api_key=key"
        )
    );
}

#[test]
fn site_get_meters_data_all_none_url() {
    let url = SiteGetMetersDataReq::new(t1(), t1(), None, None).build_url(&cred());
    assert_eq!(
        url,
        format!(
            "{BASE}site/id/meters?startTime=2022-01-01 00:00:00&endTime=2022-01-01 00:00:00&api_key=key"
        )
    );
}

#[test]
fn site_storage_data_all_none_url() {
    let url = SiteStorageDataReq::new(t1(), t1(), None).build_url(&cred());
    assert_eq!(
        url,
        format!(
            "{BASE}site/id/storageData?startTime=2022-01-01 00:00:00&endTime=2022-01-01 00:00:00&api_key=key"
        )
    );
}

#[test]
fn site_storage_data_serials_url() {
    let serials = vec!["AA".to_string(), "BB".to_string(), "CC".to_string()];
    let url = SiteStorageDataReq::new(t1(), t1(), Some(serials)).build_url(&cred());
    assert_eq!(
        url,
        format!(
            "{BASE}site/id/storageData?startTime=2022-01-01 00:00:00&endTime=2022-01-01 00:00:00&serials=AA,BB,CC&api_key=key"
        )
    );
}

#[test]
fn site_equipment_change_log_url() {
    let url = SiteEquipmentChangeLogReq::new("7308CC3E-85").build_url(&cred());
    assert_eq!(
        url,
        format!("{BASE}equipment/id/7308CC3E-85/changeLog?api_key=key")
    );
}

#[test]
fn site_inverter_technical_data_url() {
    let url = SiteInverterTechnicalDataReq::new("foo", t1(), t2()).build_url(&cred());
    assert_eq!(
        url,
        format!(
            "{BASE}equipment/id/foo/data?startTime=2022-01-01 00:00:00&endTime=2022-01-31 23:59:59&api_key=key"
        )
    );
}

#[test]
fn accounts_list_full_url() {
    let url = AccountsListReq::new(
        Some(50),
        Some(10),
        Some("roof".to_string()),
        Some(se_ms_api::SortProperty::City),
        Some(se_ms_api::SortOrder::Desc),
    )
    .build_url(&cred());
    assert_eq!(
        url,
        format!(
            "{BASE}accounts/list?size=50&startIndex=10&searchText=roof&sortProperty=city&sortOrder=DESC&api_key=key"
        )
    );
}

#[test]
fn site_list_full_url() {
    let url = SiteListReq::new(
        Some(100),
        Some(0),
        Some("home".to_string()),
        Some(se_ms_api::site_list::SortProperty::PeakPower),
        Some(se_ms_api::SortOrder::Asc),
        Some(vec![
            se_ms_api::site_list::Status::Active,
            se_ms_api::site_list::Status::Pending,
        ]),
    )
    .build_url(&cred());
    assert_eq!(
        url,
        format!(
            "{BASE}sites/list?size=100&startIndex=0&searchText=home&sortProperty=peakPower&sortOrder=ASC&status=Active,Pending&api_key=key"
        )
    );
}

#[test]
fn date_rendering_is_zero_padded() {
    let early = Date::new(33, 2, 3).unwrap();
    let url = SiteEnergyReq::new(early, early, None).build_url(&cred());
    assert_eq!(
        url,
        format!("{BASE}site/id/energy?startDate=0033-02-03&endDate=0033-02-03&api_key=key")
    );
}

#[test]
fn date_new_checks_ranges() {
    assert!(Date::new(2022, 1, 1).is_some());
    assert!(Date::new(9999, 12, 31).is_some());
    assert!(Date::new(10000, 1, 1).is_none());
    assert!(Date::new(2022, 0, 1).is_none());
    assert!(Date::new(2022, 13, 1).is_none());
    assert!(Date::new(2022, 1, 0).is_none());
    assert!(Date::new(2022, 1, 32).is_none());
}

#[test]
fn datetime_new_checks_ranges() {
    assert!(DateTime::new(2022, 1, 1, 23, 59, 59).is_some());
    assert!(DateTime::new(2022, 1, 1, 24, 0, 0).is_none());
    assert!(DateTime::new(2022, 1, 1, 0, 60, 0).is_none());
    assert!(DateTime::new(2022, 1, 1, 0, 0, 60).is_none());
    assert!(DateTime::new(2022, 0, 1, 0, 0, 0).is_none());
}

#[test]
fn decimal_rendering_edges() {
    assert_eq!(se_ms_api::textfmt::u16_dec_string(0), "0");
    assert_eq!(se_ms_api::textfmt::u16_dec_string(7), "7");
    assert_eq!(se_ms_api::textfmt::u16_dec_string(100), "100");
    assert_eq!(se_ms_api::textfmt::u16_dec_string(65535), "65535");
}
