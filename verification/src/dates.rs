//! Instants in time. The text of a date is read by the `chrono` crate; the
//! model keeps the instant as seconds since the Unix epoch.
use vstd::prelude::*;

verus! {

/// An instant in UTC, to the second.
#[derive(Clone, Copy, Debug, PartialEq, Eq, Structural)]
pub struct DateTime {
    /// Seconds since 1970-01-01 00:00:00 UTC, without leap seconds.
    pub timestamp: i64,
}

/// The instant that `text` denotes as a Unix timestamp: what chrono reads
/// from it with the format `%s`, in seconds.
pub uninterp spec fn unix_timestamp_parse(text: Seq<char>) -> Option<i64>;

/// The instant that `text` denotes as a calendar date: midnight UTC of the
/// day that chrono reads from it with the format `%Y-%m-%d`, in seconds.
pub uninterp spec fn calendar_date_parse(text: Seq<char>) -> Option<i64>;

/// `TimeZone::datetime_from_str` of `Utc` with the format `%s`: reads a Unix
/// timestamp. The result depends on the text alone, and is named by
/// [`unix_timestamp_parse`].
#[allow(deprecated)]
#[verifier::external_body]
pub(crate) fn parse_unix_timestamp(text: &str) -> (r: Option<i64>)
    ensures
        r == unix_timestamp_parse(text@),
{
    chrono::TimeZone::datetime_from_str(&chrono::Utc, text, "%s").ok().map(|d| d.timestamp())
}

/// `NaiveDate::parse_from_str` with the format `%Y-%m-%d`, then midnight of
/// that day in UTC. The result depends on the text alone, and is named by
/// [`calendar_date_parse`].
#[verifier::external_body]
pub(crate) fn parse_calendar_date(text: &str) -> (r: Option<i64>)
    ensures
        r == calendar_date_parse(text@),
{
    chrono::NaiveDate::parse_from_str(text, "%Y-%m-%d")
        .ok()
        .and_then(|d| d.and_hms_opt(0, 0, 0))
        .map(|d| d.and_utc().timestamp())
}

/// The instant that a text denotes, given what it denotes as a timestamp and
/// as a calendar date: the timestamp where there is one, else the date.
pub open spec fn spec_resolve_date(timestamp: Option<i64>, calendar: Option<i64>) -> Option<
    DateTime,
> {
    match timestamp {
        Some(t) => Some(DateTime { timestamp: t }),
        None => match calendar {
            Some(t) => Some(DateTime { timestamp: t }),
            None => None,
        },
    }
}

/// The instant that `text` denotes: a Unix timestamp, or else a calendar
/// date `YYYY-MM-DD`, taken at midnight UTC.
pub open spec fn date_of(text: Seq<char>) -> Option<DateTime> {
    spec_resolve_date(unix_timestamp_parse(text), calendar_date_parse(text))
}

/// The instant that a text denotes, given what it denotes as a timestamp and
/// as a calendar date: the timestamp where there is one, else the date.
pub fn resolve_date(timestamp: Option<i64>, calendar: Option<i64>) -> (r: Option<DateTime>)
    ensures
        r == spec_resolve_date(timestamp, calendar),
{
    match timestamp {
        Some(t) => Some(DateTime { timestamp: t }),
        None => match calendar {
            Some(t) => Some(DateTime { timestamp: t }),
            None => None,
        },
    }
}

/// Reads the instant that `text` denotes: a Unix timestamp, or else a
/// calendar date `YYYY-MM-DD`, taken at midnight UTC.
pub fn deserialize_date(text: &str) -> (r: Option<DateTime>)
    ensures
        r == date_of(text@),
{
    match parse_unix_timestamp(text) {
        Some(t) => resolve_date(Some(t), None),
        None => resolve_date(None, parse_calendar_date(text)),
    }
}

impl DateTime {
    /// The instant `timestamp` seconds after the Unix epoch.
    pub fn from_timestamp(timestamp: i64) -> (r: Self)
        ensures
            r == (DateTime { timestamp }),
    {
        DateTime { timestamp }
    }

    /// Seconds since the Unix epoch.
    pub fn timestamp(&self) -> (r: i64)
        ensures
            r == self.timestamp,
    {
        self.timestamp
    }
}

} // verus!
