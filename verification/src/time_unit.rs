//! Units of time used by the SolarEdge server monitoring API.

use vstd::prelude::*;
use vstd::string::StringExecFns;

verus! {

/// Time units specified in SolarEdge server monitoring API requests and
/// responses. Specifies the aggregation granularity of the data.
#[derive(Clone, Debug, PartialEq, Eq, Structural, Default)]
pub enum TimeUnit {
    /// 15 minutes
    QuarterOfAnHour,
    /// 60 minutes
    Hour,
    /// 24 hours
    #[default]
    Day,
    /// 7 days
    Week,
    /// Calendar month
    Month,
    /// Calendar year
    Year,
}

impl TimeUnit {
    /// The exact external rendering of the time unit; part of the wire
    /// contract.
    pub open spec fn str_chars(self) -> Seq<char> {
        match self {
            TimeUnit::QuarterOfAnHour => "QUARTER_OF_AN_HOUR"@,
            TimeUnit::Hour => "HOUR"@,
            TimeUnit::Day => "DAY"@,
            TimeUnit::Week => "WEEK"@,
            TimeUnit::Month => "MONTH"@,
            TimeUnit::Year => "YEAR"@,
        }
    }

    /// Renders the time unit for a URL or a display.
    pub fn to_str(&self) -> (r: &'static str)
        ensures
            r@ == self.str_chars(),
    {
        match self {
            TimeUnit::QuarterOfAnHour => "QUARTER_OF_AN_HOUR",
            TimeUnit::Hour => "HOUR",
            TimeUnit::Day => "DAY",
            TimeUnit::Week => "WEEK",
            TimeUnit::Month => "MONTH",
            TimeUnit::Year => "YEAR",
        }
    }
}

/// The `timeUnit=...&` query fragment for an optional time unit: empty when
/// the unit is absent.
pub open spec fn time_unit_fragment(t: Option<TimeUnit>) -> Seq<char> {
    match t {
        Some(u) => "timeUnit="@ + u.str_chars() + "&"@,
        None => Seq::<char>::empty(),
    }
}

/// Renders the `timeUnit=...&` fragment for an optional time unit.
pub fn render_time_unit_fragment(t: &Option<TimeUnit>) -> (r: String)
    ensures
        r@ == time_unit_fragment(*t),
{
    match t {
        Some(u) => {
            let mut s = "timeUnit=".to_owned();
            s.append(u.to_str());
            s.append("&");
            s
        },
        None => String::new(),
    }
}

} // verus!
