//! Parsing of option values given on the command line.
use vstd::prelude::*;

use crate::text::{parse_unsigned, parses_within, unsigned_value};

verus! {

/// Required date format.
pub const DATE_FORMAT: &'static str = "%Y-%m-%d";

/// Whether chrono reads `text` as a calendar date in the strftime-style
/// `format`.
pub uninterp spec fn date_parses(text: Seq<char>, format: Seq<char>) -> bool;

/// Relies on `chrono::NaiveDate::parse_from_str`: whether it accepts `value`
/// under `format`, which depends on the two strings alone.
#[verifier::external_body]
fn is_date_like(value: &str, format: &str) -> (r: bool)
    ensures
        r == date_parses(value@, format@),
{
    chrono::NaiveDate::parse_from_str(value, format).is_ok()
}

/// Parses one line range value, a line number.
pub fn parse_line_range_value(value: &str) -> (r: Result<usize, String>)
    ensures
        match r {
            Ok(n) => parses_within(value@, usize::MAX as int) && n as int == unsigned_value(
                value@,
            ),
            Err(msg) => !parses_within(value@, usize::MAX as int) && msg@ == value@
                + " must be a valid usize."@,
        },
{
    match parse_unsigned(value, usize::MAX) {
        Some(n) => Ok(n),
        None => {
            let msg = String::from_str(value);
            Err(msg.concat(" must be a valid usize."))
        },
    }
}

/// The result for a date range value once it is known whether it is a date:
/// the value itself, or the message that names the required format.
pub fn date_range_result(value: &str, is_date: bool) -> (r: Result<String, String>)
    ensures
        match r {
            Ok(s) => is_date && s@ == value@,
            Err(msg) => !is_date && msg@ == "Date format must be "@ + DATE_FORMAT@ + "."@,
        },
{
    if !is_date {
        let msg = String::from_str("Date format must be ");
        return Err(msg.concat(DATE_FORMAT).concat("."));
    }
    Ok(String::from_str(value))
}

/// Parses one date range value, which must be a date written as
/// `DATE_FORMAT` gives it.
pub fn parse_date_range_value(value: &str) -> (r: Result<String, String>)
    ensures
        match r {
            Ok(s) => date_parses(value@, DATE_FORMAT@) && s@ == value@,
            Err(msg) => !date_parses(value@, DATE_FORMAT@) && msg@ == "Date format must be "@
                + DATE_FORMAT@ + "."@,
        },
{
    date_range_result(value, is_date_like(value, DATE_FORMAT))
}

} // verus!
