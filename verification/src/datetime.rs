//! A date-time value held as plain numbers, and the ISO 8601 parse that
//! fills it.

use vstd::prelude::*;
use crate::errors::IngestionError;

verus! {

/// The date part of an ISO 8601 date-time, in one of the three calendar
/// forms the format allows.
#[derive(Clone, Copy, Debug, PartialEq, Eq, Structural)]
pub enum DatePart {
    /// Year, month and day of month.
    Calendar { year: i32, month: u32, day: u32 },
    /// Year, week and day of week.
    WeekBased { year: i32, week: u32, weekday: u32 },
    /// Year and day of year.
    Ordinal { year: i32, day_of_year: u32 },
}

/// A date-time as plain numbers: a date part, a time of day, and the
/// declared offset from UTC.
#[derive(Clone, Copy, Debug, PartialEq, Eq, Structural)]
pub struct DateTimeValue {
    pub date: DatePart,
    pub hour: u32,
    pub minute: u32,
    pub second: u32,
    pub millisecond: u32,
    pub tz_offset_hours: i32,
    pub tz_offset_minutes: i32,
}

/// The date-time that an ISO 8601 text denotes, or `None` where the text
/// does not parse.
pub uninterp spec fn iso8601_parse(text: Seq<char>) -> Option<DateTimeValue>;

/// Relies on `iso8601::datetime`: parses an ISO 8601 date-time text; the
/// result is a function of the characters alone.
#[verifier::external_body]
pub fn parse_iso8601(text: &str) -> (r: Option<DateTimeValue>)
    ensures
        r == iso8601_parse(text@),
{
    match iso8601::datetime(text) {
        Err(_) => None,
        Ok(dt) => {
            let date = match dt.date {
                iso8601::Date::YMD { year, month, day } => DatePart::Calendar { year, month, day },
                iso8601::Date::Week { year, ww, d } => DatePart::WeekBased { year, week: ww, weekday: d },
                iso8601::Date::Ordinal { year, ddd } => DatePart::Ordinal { year, day_of_year: ddd },
            };
            let t = dt.time;
            Some(DateTimeValue { date, hour: t.hour, minute: t.minute, second: t.second, millisecond: t.millisecond, tz_offset_hours: t.tz_offset_hours, tz_offset_minutes: t.tz_offset_minutes })
        },
    }
}

/// Reads the date-time field of an inbound payload: a text that does not
/// parse as ISO 8601 is well-formed JSON of the wrong shape, so it is
/// classified as a schema violation.
pub fn ingest_iso8601(text: &str) -> (r: Result<DateTimeValue, IngestionError>)
    ensures
        iso8601_parse(text@) matches Some(d) ==> r == Ok::<DateTimeValue, IngestionError>(d),
        iso8601_parse(text@) is None ==> r == Err::<DateTimeValue, IngestionError>(
            IngestionError::SchemaViolation,
        ),
{
    match parse_iso8601(text) {
        Some(d) => Ok(d),
        None => Err(IngestionError::SchemaViolation),
    }
}

} // verus!
