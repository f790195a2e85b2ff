use vstd::prelude::*;
use chrono::{Datelike, TimeZone};

verus! {

/// `chrono::Local::now().year()`: the current year in the local time zone. It rests on the
/// clock and the machine's time zone, so the contract leaves it unsaid.
#[verifier::external_body]
pub(crate) fn local_year() -> (r: i32) {
    chrono::Local::now().year()
}

/// `chrono::Local::now().iso_week()`: the current ISO year and week in the local time zone. It
/// rests on the clock and the machine's time zone, so the contract leaves it unsaid.
#[verifier::external_body]
pub(crate) fn local_iso_week() -> (r: (i32, u32)) {
    let w = chrono::Local::now().iso_week();
    (w.year(), w.week())
}

/// `chrono::NaiveDateTime::parse_from_str(text, fmt)` then `Local::from_local_datetime`: the
/// local time as seconds since the Unix epoch, or the error described. The result rests on the
/// machine's time zone, so the contract leaves it unsaid.
#[verifier::external_body]
pub(crate) fn parse_local_datetime(text: &str, fmt: &str) -> (r: Result<i64, String>) {
    let naive = chrono::NaiveDateTime::parse_from_str(text, fmt).map_err(|e| e.to_string())?;
    match chrono::Local.from_local_datetime(&naive) {
        chrono::LocalResult::Single(t) => Ok(t.timestamp()),
        chrono::LocalResult::Ambiguous(a, b) => Err(format!("{} is ambiguous: {} or {}", naive, a, b)),
        chrono::LocalResult::None => Err(format!("{} does not exist locally", naive)),
    }
}

/// `chrono::format::Parsed` with the ISO year and week set, then `format::parse(text, fmt)` and
/// `to_datetime_with_timezone(&Local)`: the local time as seconds since the Unix epoch. The
/// result rests on the machine's time zone, so the contract leaves it unsaid.
#[verifier::external_body]
pub(crate) fn parse_local_week_time(text: &str, fmt: &str, isoyear: i32, isoweek: u32) -> (r: Option<i64>) {
    let mut partial = chrono::format::Parsed::new();
    partial.set_isoyear(isoyear as i64).ok()?;
    partial.set_isoweek(isoweek as i64).ok()?;
    chrono::format::parse(&mut partial, text, chrono::format::StrftimeItems::new(fmt)).ok()?;
    partial.to_datetime_with_timezone(&chrono::Local).ok().map(|t| t.timestamp())
}

} // verus!
