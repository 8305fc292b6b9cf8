use crate::model::Date;
use chrono::Datelike;
use vstd::prelude::*;

verus! {

/// `chrono::ParseError`: why text did not read as a date. Nothing is said of
/// it.
#[verifier::external_type_specification]
#[verifier::external_body]
pub struct ExParseError(chrono::ParseError);

/// The year, month and day that `chrono::NaiveDate::parse_from_str` reads
/// from `text` by `format`, where it reads a date.
pub uninterp spec fn date_by_format(text: Seq<char>, format: Seq<char>) -> Option<(int, int, int)>;

/// The year, month and day, in the offset that the text names, of what
/// `chrono::DateTime::parse_from_rfc3339` reads from `text`, where it reads
/// a date and time.
pub uninterp spec fn date_by_rfc3339(text: Seq<char>) -> Option<(int, int, int)>;

/// A date as year, month and day.
pub open spec fn date_parts(date: Date) -> (int, int, int) {
    (date.year as int, date.month as int, date.day as int)
}

/// `chrono::NaiveDate::parse_from_str`: reads a date from text by a format
/// of `strftime` items. What it reads depends on the text and the format
/// alone; it is not stated here, only named.
#[verifier::external_body]
pub(crate) fn parse_date(text: &str, format: &str) -> (date: Result<Date, chrono::ParseError>)
    ensures
        match date {
            Ok(date) => date_by_format(text@, format@) == Some(date_parts(date)),
            Err(_) => date_by_format(text@, format@) is None,
        },
{
    match chrono::NaiveDate::parse_from_str(text, format) {
        Ok(date) => Ok(Date { year: date.year(), month: date.month(), day: date.day() }),
        Err(e) => Err(e),
    }
}

/// `chrono::DateTime::parse_from_rfc3339`: reads a date and time with an
/// offset from text in the form of RFC 3339. What it reads depends on the
/// text alone; it is not stated here, only named. Of what it reads, the date
/// in the named offset is handed on.
#[verifier::external_body]
pub(crate) fn parse_rfc3339_date(text: &str) -> (date: Result<Date, chrono::ParseError>)
    ensures
        match date {
            Ok(date) => date_by_rfc3339(text@) == Some(date_parts(date)),
            Err(_) => date_by_rfc3339(text@) is None,
        },
{
    match chrono::DateTime::parse_from_rfc3339(text) {
        Ok(time) => Ok(Date { year: time.year(), month: time.month(), day: time.day() }),
        Err(e) => Err(e),
    }
}

} // verus!
