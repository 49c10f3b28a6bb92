//! Calendar dates and date-times as plain values, and their fixed wire
//! renderings: `YYYY-MM-DD` for dates and `YYYY-MM-DD HH:MM:SS` for
//! date-times. The exact renderings are part of the wire contract.

use crate::textfmt::{pad2_chars, pad4_chars, push_pad2, push_pad4};
use vstd::prelude::*;
use vstd::string::StringExecFns;

verus! {

/// A calendar date. Only the field ranges are checked (a day of 31 is
/// accepted in every month); the monitoring server validates the rest.
#[derive(Clone, Copy, Debug, PartialEq, Eq, Structural)]
pub struct Date {
    year: u16,
    month: u8,
    day: u8,
}

/// A calendar date with a time of day.
#[derive(Clone, Copy, Debug, PartialEq, Eq, Structural)]
pub struct DateTime {
    year: u16,
    month: u8,
    day: u8,
    hour: u8,
    minute: u8,
    second: u8,
}

impl Date {
    pub closed spec fn spec_year(&self) -> u16 {
        self.year
    }

    pub closed spec fn spec_month(&self) -> u8 {
        self.month
    }

    pub closed spec fn spec_day(&self) -> u8 {
        self.day
    }

    /// The field ranges every `Date` satisfies by construction.
    pub open spec fn wf(&self) -> bool {
        self.spec_year() <= 9999 && 1 <= self.spec_month() <= 12 && 1 <= self.spec_day() <= 31
    }

    /// Create a date. Returns `None` exactly when a field is out of range.
    pub fn new(year: u16, month: u8, day: u8) -> (r: Option<Date>)
        ensures
            r is Some <==> (year <= 9999 && 1 <= month <= 12 && 1 <= day <= 31),
            r matches Some(d) ==> d.spec_year() == year && d.spec_month() == month
                && d.spec_day() == day && d.wf(),
    {
        if year <= 9999 && 1 <= month && month <= 12 && 1 <= day && day <= 31 {
            Some(Date { year, month, day })
        } else {
            None
        }
    }

    pub fn year(&self) -> (r: u16)
        ensures
            r == self.spec_year(),
    {
        self.year
    }

    pub fn month(&self) -> (r: u8)
        ensures
            r == self.spec_month(),
    {
        self.month
    }

    pub fn day(&self) -> (r: u8)
        ensures
            r == self.spec_day(),
    {
        self.day
    }
}

impl DateTime {
    pub closed spec fn spec_year(&self) -> u16 {
        self.year
    }

    pub closed spec fn spec_month(&self) -> u8 {
        self.month
    }

    pub closed spec fn spec_day(&self) -> u8 {
        self.day
    }

    pub closed spec fn spec_hour(&self) -> u8 {
        self.hour
    }

    pub closed spec fn spec_minute(&self) -> u8 {
        self.minute
    }

    pub closed spec fn spec_second(&self) -> u8 {
        self.second
    }

    /// The field ranges every `DateTime` satisfies by construction.
    pub open spec fn wf(&self) -> bool {
        self.spec_year() <= 9999 && 1 <= self.spec_month() <= 12 && 1 <= self.spec_day() <= 31
            && self.spec_hour() < 24 && self.spec_minute() < 60 && self.spec_second() < 60
    }

    /// Create a date-time. Returns `None` exactly when a field is out of
    /// range.
    pub fn new(year: u16, month: u8, day: u8, hour: u8, minute: u8, second: u8) -> (r: Option<
        DateTime,
    >)
        ensures
            r is Some <==> (year <= 9999 && 1 <= month <= 12 && 1 <= day <= 31 && hour < 24
                && minute < 60 && second < 60),
            r matches Some(t) ==> t.spec_year() == year && t.spec_month() == month
                && t.spec_day() == day && t.spec_hour() == hour && t.spec_minute() == minute
                && t.spec_second() == second && t.wf(),
    {
        if year <= 9999 && 1 <= month && month <= 12 && 1 <= day && day <= 31 && hour < 24
            && minute < 60 && second < 60 {
            Some(DateTime { year, month, day, hour, minute, second })
        } else {
            None
        }
    }
}

/// The `YYYY-MM-DD` rendering of a date.
pub open spec fn date_chars(d: Date) -> Seq<char> {
    pad4_chars(d.spec_year() as nat) + seq!['-'] + pad2_chars(d.spec_month() as nat) + seq!['-']
        + pad2_chars(d.spec_day() as nat)
}

/// The `YYYY-MM-DD HH:MM:SS` rendering of a date-time.
pub open spec fn datetime_chars(t: DateTime) -> Seq<char> {
    pad4_chars(t.spec_year() as nat) + seq!['-'] + pad2_chars(t.spec_month() as nat) + seq!['-']
        + pad2_chars(t.spec_day() as nat) + seq![' '] + pad2_chars(t.spec_hour() as nat)
        + seq![':'] + pad2_chars(t.spec_minute() as nat) + seq![':'] + pad2_chars(
        t.spec_second() as nat,
    )
}

/// Appends the `YYYY-MM-DD` rendering of `d` to `s`.
pub fn push_date(s: &mut String, d: &Date)
    requires
        d.wf(),
    ensures
        final(s)@ == old(s)@ + date_chars(*d),
{
    push_pad4(s, d.year());
    s.append("-");
    push_pad2(s, d.month());
    s.append("-");
    push_pad2(s, d.day());
    proof {
        reveal_strlit("-");
        assert("-"@ =~= seq!['-']);
        assert(final(s)@ =~= old(s)@ + date_chars(*d));
    }
}

/// Appends the `YYYY-MM-DD HH:MM:SS` rendering of `t` to `s`.
pub fn push_datetime(s: &mut String, t: &DateTime)
    requires
        t.wf(),
    ensures
        final(s)@ == old(s)@ + datetime_chars(*t),
{
    push_pad4(s, t.year);
    s.append("-");
    push_pad2(s, t.month);
    s.append("-");
    push_pad2(s, t.day);
    s.append(" ");
    push_pad2(s, t.hour);
    s.append(":");
    push_pad2(s, t.minute);
    s.append(":");
    push_pad2(s, t.second);
    proof {
        reveal_strlit("-");
        reveal_strlit(" ");
        reveal_strlit(":");
        assert("-"@ =~= seq!['-']);
        assert(" "@ =~= seq![' ']);
        assert(":"@ =~= seq![':']);
        assert(final(s)@ =~= old(s)@ + datetime_chars(*t));
    }
}

/// Renders a `name=YYYY-MM-DD&` query fragment. `prefix` must be the
/// parameter name followed by `=`.
pub fn date_fragment(prefix: &str, d: &Date) -> (r: String)
    requires
        d.wf(),
    ensures
        r@ == prefix@ + date_chars(*d) + "&"@,
{
    let mut s = prefix.to_owned();
    push_date(&mut s, d);
    s.append("&");
    s
}

/// Renders a `name=YYYY-MM-DD HH:MM:SS&` query fragment. `prefix` must be
/// the parameter name followed by `=`.
pub fn datetime_fragment(prefix: &str, t: &DateTime) -> (r: String)
    requires
        t.wf(),
    ensures
        r@ == prefix@ + datetime_chars(*t) + "&"@,
{
    let mut s = prefix.to_owned();
    push_datetime(&mut s, t);
    s.append("&");
    s
}

} // verus!
