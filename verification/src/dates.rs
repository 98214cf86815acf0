//! The multi-format date decoder: a calendar day modelled as plain numbers,
//! a trusted parse per format, and the first-success rule over the configured
//! format list. Unparsable dates degrade to "absent", never to an error.

use vstd::prelude::*;

verus! {

/// A calendar day as the decoders see it: plain numbers, ordered like dates.
#[derive(Debug, Clone, Copy, PartialEq, Eq, Structural)]
pub struct OlDate {
    pub year: i32,
    pub month: u8,
    pub day: u8,
}

/// The (year, month, day) triple of a date, for contracts.
pub open spec fn date_triple(d: OlDate) -> (int, int, int) {
    (d.year as int, d.month as int, d.day as int)
}

/// The triple of an optional date.
pub open spec fn date_opt_triple(r: Option<OlDate>) -> Option<(int, int, int)> {
    match r {
        Some(d) => Some(date_triple(d)),
        None => None,
    }
}

/// What the outside date parser returns for a text under a format: the
/// denoted calendar day, or nothing when the text does not match.
pub uninterp spec fn date_parsed(s: Seq<char>, fmt: Seq<char>) -> Option<(int, int, int)>;

/// Relies on chrono's `NaiveDate::parse_from_str` with `Datelike::{year,
/// month, day}`: whether a text parses under a format, and which calendar day
/// it denotes, depend on the two texts alone; chrono documents a month as
/// 1..=12 and a day of month as 1..=31.
#[verifier::external_body]
fn parse_date_with_format(input: &str, format: &str) -> (r: Option<OlDate>)
    ensures
        date_opt_triple(r) == date_parsed(input@, format@),
        r matches Some(d) ==> 1 <= d.month <= 12 && 1 <= d.day <= 31,
{
    match chrono::NaiveDate::parse_from_str(input, format) {
        Ok(d) => Some(
            OlDate {
                year: chrono::Datelike::year(&d),
                month: chrono::Datelike::month(&d) as u8,
                day: chrono::Datelike::day(&d) as u8,
            },
        ),
        Err(_) => None,
    }
}

/// The first successful parse over the configured format list, in order:
/// `"%b %d, %Y"` (for example `Jan 1, 1950`), then `"%Y"`.
pub open spec fn spec_parse_date(s: Seq<char>) -> Option<(int, int, int)> {
    if date_parsed(s, "%b %d, %Y"@) is Some {
        date_parsed(s, "%b %d, %Y"@)
    } else {
        date_parsed(s, "%Y"@)
    }
}

/// Tries each configured date format in order and returns the first
/// successful parse; a text no format matches is absent, never an error.
pub fn parse_date(input: &str) -> (r: Option<OlDate>)
    ensures
        date_opt_triple(r) == spec_parse_date(input@),
        r matches Some(d) ==> 1 <= d.month <= 12 && 1 <= d.day <= 31,
{
    let first = parse_date_with_format(input, "%b %d, %Y");
    match first {
        Some(d) => Some(d),
        None => parse_date_with_format(input, "%Y"),
    }
}

/// Date order: by year, then month, then day.
pub open spec fn triple_le(a: (int, int, int), b: (int, int, int)) -> bool {
    a.0 < b.0 || (a.0 == b.0 && (a.1 < b.1 || (a.1 == b.1 && a.2 <= b.2)))
}

/// Compares two dates chronologically.
pub fn date_le(a: &OlDate, b: &OlDate) -> (r: bool)
    ensures
        r == triple_le(date_triple(*a), date_triple(*b)),
{
    a.year < b.year || (a.year == b.year && (a.month < b.month || (a.month == b.month && a.day
        <= b.day)))
}

} // verus!
