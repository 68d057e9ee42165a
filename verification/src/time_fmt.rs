//! Timestamp rendering. The chrono and chrono-tz crates do the calendar
//! work behind trusted wrappers; the zero-timestamp and fallback handling is
//! verified.

use chrono::TimeZone;
use std::fmt::Write;

use vstd::prelude::*;

verus! {

/// What formatting a Unix timestamp in UTC with a chrono format string
/// yields: `None` when the timestamp is out of chrono's range or the format
/// string is rejected.
pub uninterp spec fn utc_render(fmt: Seq<char>, ts: int) -> Option<Seq<char>>;

/// Whether a timezone identifier is in the tz database embedded in
/// chrono-tz, i.e. whether parsing it as a `chrono_tz::Tz` succeeds.
pub uninterp spec fn tz_valid(name: Seq<char>) -> bool;

/// What rendering a Unix timestamp as a local time of the named timezone
/// yields: `None` when the name is not a known zone or the timestamp is out
/// of chrono's range.
pub uninterp spec fn tz_render(name: Seq<char>, ts: int) -> Option<Seq<char>>;

/// Relies on `chrono::DateTime::from_timestamp` and `DateTime::format`: the
/// rendered text is a pure function of the format string and the timestamp.
#[verifier::external_body]
fn utc_format(fmt: &str, ts: i64) -> (r: Option<String>)
    ensures
        r is Some <==> utc_render(fmt@, ts as int) is Some,
        r matches Some(s) ==> s@ == utc_render(fmt@, ts as int)->0,
{
    match chrono::DateTime::<chrono::Utc>::from_timestamp(ts, 0) {
        None => None,
        Some(t) => {
            let mut s = String::new();
            match write!(s, "{}", t.format(fmt)) {
                Ok(()) => Some(s),
                Err(_) => None,
            }
        }
    }
}

/// Relies on `str::parse::<chrono_tz::Tz>`: acceptance of a zone name is a
/// pure function of the name, decided by the embedded tz database.
#[verifier::external_body]
pub(crate) fn tz_name_valid(name: &str) -> (r: bool)
    ensures
        r == tz_valid(name@),
{
    name.parse::<chrono_tz::Tz>().is_ok()
}

/// Relies on `chrono_tz::Tz::from_utc_datetime` and the display form of the
/// zoned time: a pure function of the zone name and the timestamp.
#[verifier::external_body]
pub(crate) fn tz_format(name: &str, ts: i64) -> (r: Option<String>)
    ensures
        r is Some <==> tz_render(name@, ts as int) is Some,
        r matches Some(s) ==> s@ == tz_render(name@, ts as int)->0,
{
    match name.parse::<chrono_tz::Tz>() {
        Err(_) => None,
        Ok(tz) => match chrono::DateTime::<chrono::Utc>::from_timestamp(ts, 0) {
            None => None,
            Some(t) => Some(tz.from_utc_datetime(&t.naive_utc()).to_string()),
        },
    }
}

pub const TS_FMT_LONG: &'static str = "%Y-%m-%d %H:%M:%S";

pub const TS_FMT_SHORT: &'static str = "%b %d %H:%M";

pub const TS_FMT_SHORT_YEAR: &'static str = "%Y %b %d %H:%M";

pub const TS_NONE: &'static str = "(none)";

/// The rendered form of a timestamp: `"(none)"` for the zero timestamp and
/// for anything chrono cannot render, the UTC rendering otherwise.
pub open spec fn spec_ts_fmt(fmt: Seq<char>, ts: i64) -> Seq<char> {
    if ts == 0 {
        TS_NONE@
    } else {
        match utc_render(fmt, ts as int) {
            Some(s) => s,
            None => TS_NONE@,
        }
    }
}

/// Render a timestamp with a chrono format string, with `"(none)"` for the
/// zero timestamp and for out-of-range values.
pub fn ts_fmt(fmt: &str, ts: i64) -> (r: String)
    ensures
        r@ == spec_ts_fmt(fmt@, ts),
{
    if ts == 0 {
        TS_NONE.to_owned()
    } else {
        match utc_format(fmt, ts) {
            Some(s) => s,
            None => TS_NONE.to_owned(),
        }
    }
}

/// The common timestamp renderings, on the timestamp value itself.
pub trait TimeStampFormats: Sized {
    spec fn ts_val(self) -> i64;

    fn ts_long(self) -> (r: String)
        ensures
            r@ == spec_ts_fmt(TS_FMT_LONG@, self.ts_val()),
    ;

    fn ts_short(self) -> (r: String)
        ensures
            r@ == spec_ts_fmt(TS_FMT_SHORT@, self.ts_val()),
    ;

    fn ts_short_y(self) -> (r: String)
        ensures
            r@ == spec_ts_fmt(TS_FMT_SHORT_YEAR@, self.ts_val()),
    ;
}

impl TimeStampFormats for i64 {
    open spec fn ts_val(self) -> i64 {
        self
    }

    fn ts_long(self) -> (r: String) {
        ts_fmt(TS_FMT_LONG, self)
    }

    fn ts_short(self) -> (r: String) {
        ts_fmt(TS_FMT_SHORT, self)
    }

    fn ts_short_y(self) -> (r: String) {
        ts_fmt(TS_FMT_SHORT_YEAR, self)
    }
}

} // verus!
