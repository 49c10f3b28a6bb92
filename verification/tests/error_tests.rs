//! Tests of the HTTP status classification, the error kinds, the bulk site
//! id list, and the pagination size policy.

use se_ms_api::error::check_http_status;
use se_ms_api::{
    DateTime, Kind, SitePowerReq, SiteTimeFrameEnergyReq, SolaredgeCredentials,
};

#[test]
fn forbidden_status_yields_http_error() {
    let r = check_http_status(
        false,
        Some("Forbidden"),
        "403",
        Some("Access denied".to_string()),
    );
    match r {
        Ok(()) => panic!("unexpected success"),
        Err(e) => match e.kind() {
            Kind::HttpErrorStatus(reason, body) => {
                assert_eq!(reason, "Forbidden");
                assert_eq!(body, "Access denied");
            }
            _ => panic!("unexpected error kind"),
        },
    }
}

#[test]
fn success_status_yields_ok() {
    let r = check_http_status(true, Some("OK"), "200", None);
    assert!(r.is_ok());
}

#[test]
fn unknown_status_falls_back_to_code_and_empty_body() {
    let r = check_http_status(false, None, "599", None);
    match r {
        Ok(()) => panic!("unexpected success"),
        Err(e) => match e.kind() {
            Kind::HttpErrorStatus(reason, body) => {
                assert_eq!(reason, "599");
                assert_eq!(body, "");
            }
            _ => panic!("unexpected error kind"),
        },
    }
}

#[test]
fn http_error_description_and_message() {
    let r = check_http_status(
        false,
        Some("Forbidden"),
        "403",
        Some("Access denied".to_string()),
    );
    let e = r.unwrap_err();
    assert_eq!(e.description(), "HTTP error");
    assert_eq!(e.message(), "HTTP error: Forbidden: Access denied");
}

fn ids(n: usize) -> Vec<String> {
    let mut v = Vec::new();
    let mut i = 0;
    while i < n {
        v.push(format!("s{i}"));
        i += 1;
    }
    v
}

#[test]
fn bulk_list_of_one_and_of_hundred_succeed() {
    let mut c = SolaredgeCredentials::new("id", "key");
    assert!(c.set_bulk_list(ids(1)).is_ok());
    let mut c = SolaredgeCredentials::new("id", "key");
    assert!(c.set_bulk_list(ids(100)).is_ok());
}

#[test]
fn bulk_list_of_zero_and_of_hundred_one_fail() {
    let mut c = SolaredgeCredentials::new("id", "key");
    let r = c.set_bulk_list(ids(0));
    match r {
        Ok(()) => panic!("unexpected success"),
        Err(e) => assert!(matches!(e.kind(), Kind::InvalidBulkList)),
    }
    let r = c.set_bulk_list(ids(101));
    match r {
        Ok(()) => panic!("unexpected success"),
        Err(e) => assert!(matches!(e.kind(), Kind::InvalidBulkList)),
    }
}

#[test]
fn bulk_url_uses_comma_joined_site_ids() {
    let mut c = SolaredgeCredentials::new("id", "key");
    let list = vec!["11".to_string(), "22".to_string(), "33".to_string()];
    assert!(c.set_bulk_list(list).is_ok());
    let t = DateTime::new(2022, 1, 1, 0, 0, 0).unwrap();
    let url = SitePowerReq::new(t, t).build_url_bulk(&c).unwrap();
    assert_eq!(
        url,
        "https://monitoringapi.solaredge.com/sites/11,22,33/power?startTime=2022-01-01 00:00:00&endTime=2022-01-01 00:00:00&api_key=key"
    );
    let d = se_ms_api::Date::new(2022, 1, 1).unwrap();
    let url = SiteTimeFrameEnergyReq::new(d, d).build_url_bulk(&c).unwrap();
    assert_eq!(
        url,
        "https://monitoringapi.solaredge.com/sites/11,22,33/timeFrameEnergy?startDate=2022-01-01&endDate=2022-01-01&api_key=key"
    );
}

#[test]
fn bulk_url_without_list_fails() {
    let c = SolaredgeCredentials::new("id", "key");
    let t = DateTime::new(2022, 1, 1, 0, 0, 0).unwrap();
    let r = SitePowerReq::new(t, t).build_url_bulk(&c);
    match r {
        Ok(_) => panic!("unexpected success"),
        Err(e) => {
            assert!(matches!(e.kind(), Kind::MissingBulkList));
            assert_eq!(e.description(), "Missing bulk list");
        }
    }
}

#[test]
fn size_zero_and_oversize_render_empty() {
    assert_eq!(se_ms_api::textfmt::render_size_fragment(Some(0)), "");
    assert_eq!(se_ms_api::textfmt::render_size_fragment(Some(101)), "");
    assert_eq!(se_ms_api::textfmt::render_size_fragment(None), "");
}

#[test]
fn size_in_range_renders_fragment() {
    assert_eq!(se_ms_api::textfmt::render_size_fragment(Some(1)), "size=1&");
    assert_eq!(
        se_ms_api::textfmt::render_size_fragment(Some(100)),
        "size=100&"
    );
}

#[test]
fn size_policy_shows_in_urls() {
    let cred = SolaredgeCredentials::new("id", "key");
    let url = se_ms_api::AccountsListReq::new(Some(0), None, None, None, None).build_url(&cred);
    assert_eq!(
        url,
        "https://monitoringapi.solaredge.com/accounts/list?api_key=key"
    );
    let url = se_ms_api::AccountsListReq::new(Some(101), None, None, None, None).build_url(&cred);
    assert_eq!(
        url,
        "https://monitoringapi.solaredge.com/accounts/list?api_key=key"
    );
    let url = se_ms_api::AccountsListReq::new(Some(100), None, None, None, None).build_url(&cred);
    assert_eq!(
        url,
        "https://monitoringapi.solaredge.com/accounts/list?size=100&api_key=key"
    );
}
