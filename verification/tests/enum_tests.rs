//! Exact-string checks for the external rendering of every enumeration
//! variant; the renderings are part of the wire contract.

use se_ms_api::site_list::SortProperty as SiteSort;
use se_ms_api::site_list::Status;
use se_ms_api::{InverterMode, MeterType, SortOrder, SortProperty, SystemUnits, TimeUnit};

#[test]
fn meter_type_renderings() {
    assert_eq!(MeterType::Production.to_str(), "Production");
    assert_eq!(MeterType::Consumption.to_str(), "Consumption");
    assert_eq!(MeterType::SelfConsumption.to_str(), "SelfConsumption");
    assert_eq!(MeterType::FeedIn.to_str(), "FeedIn");
    assert_eq!(MeterType::Purchased.to_str(), "Purchased");
}

#[test]
fn time_unit_renderings() {
    assert_eq!(TimeUnit::QuarterOfAnHour.to_str(), "QUARTER_OF_AN_HOUR");
    assert_eq!(TimeUnit::Hour.to_str(), "HOUR");
    assert_eq!(TimeUnit::Day.to_str(), "DAY");
    assert_eq!(TimeUnit::Week.to_str(), "WEEK");
    assert_eq!(TimeUnit::Month.to_str(), "MONTH");
    assert_eq!(TimeUnit::Year.to_str(), "YEAR");
}

#[test]
fn sort_order_renderings() {
    assert_eq!(SortOrder::Asc.to_str(), "ASC");
    assert_eq!(SortOrder::Desc.to_str(), "DESC");
}

#[test]
fn system_units_renderings() {
    assert_eq!(SystemUnits::Imperial.to_str(), "Imperial");
    assert_eq!(SystemUnits::Metrics.to_str(), "Metrics");
}

#[test]
fn account_sort_property_renderings() {
    assert_eq!(SortProperty::Name.to_str(), "name");
    assert_eq!(SortProperty::Country.to_str(), "country");
    assert_eq!(SortProperty::City.to_str(), "city");
    assert_eq!(SortProperty::Address.to_str(), "address");
    assert_eq!(SortProperty::Zip.to_str(), "zip");
    assert_eq!(SortProperty::Fax.to_str(), "fax");
    assert_eq!(SortProperty::Phone.to_str(), "phone");
    assert_eq!(SortProperty::Notes.to_str(), "notes");
}

#[test]
fn site_sort_property_renderings() {
    assert_eq!(SiteSort::Name.to_str(), "name");
    assert_eq!(SiteSort::Country.to_str(), "country");
    assert_eq!(SiteSort::State.to_str(), "state");
    assert_eq!(SiteSort::City.to_str(), "city");
    assert_eq!(SiteSort::Address.to_str(), "address");
    assert_eq!(SiteSort::Zip.to_str(), "zip");
    assert_eq!(SiteSort::Status.to_str(), "status");
    assert_eq!(SiteSort::PeakPower.to_str(), "peakPower");
    assert_eq!(SiteSort::InstallationDate.to_str(), "installationDate");
    assert_eq!(SiteSort::Amount.to_str(), "amount");
    assert_eq!(SiteSort::MaxSeverity.to_str(), "maxSeverity");
    assert_eq!(SiteSort::CreationTime.to_str(), "creationTime");
}

#[test]
fn site_status_renderings() {
    assert_eq!(Status::Active.to_str(), "Active");
    assert_eq!(Status::Pending.to_str(), "Pending");
    assert_eq!(Status::Disabled.to_str(), "Disabled");
    assert_eq!(Status::All.to_str(), "All");
}

#[test]
fn inverter_mode_renderings() {
    assert_eq!(InverterMode::Off.to_str(), "Off");
    assert_eq!(InverterMode::Night.to_str(), "Night");
    assert_eq!(InverterMode::WakeUp.to_str(), "Wake Up");
    assert_eq!(InverterMode::Production.to_str(), "Production");
    assert_eq!(InverterMode::ProductionLimit.to_str(), "Production Limit");
    assert_eq!(InverterMode::Shutdown.to_str(), "Shutdown");
    assert_eq!(InverterMode::Error.to_str(), "Error");
    assert_eq!(InverterMode::Setup.to_str(), "Setup");
    assert_eq!(InverterMode::LockedStdby.to_str(), "Locked Standby");
    assert_eq!(
        InverterMode::LockedFireFighters.to_str(),
        "Locked Fire Fighters"
    );
    assert_eq!(
        InverterMode::LockedForceShutdown.to_str(),
        "Locked Force Shutdown"
    );
    assert_eq!(
        InverterMode::LockedCommTimeout.to_str(),
        "Locked Communication Timeout"
    );
    assert_eq!(InverterMode::LockedInvTrip.to_str(), "Locked Inverter Trip");
    assert_eq!(
        InverterMode::LockedInvArcDetected.to_str(),
        "Locked Inverter Arc Detected"
    );
    assert_eq!(InverterMode::LockedDG.to_str(), "Locked DG");
    assert_eq!(InverterMode::Mppt.to_str(), "MPPT");
    assert_eq!(InverterMode::Sleeping.to_str(), "Sleeping");
}
