//! Checks on tool parameters that do not involve coordinates: forecast
//! lengths, the number of compared locations, and archive date ranges.

use vstd::prelude::*;
use crate::dates::{is_valid_date, is_valid_date_format};
use crate::error::{Error, McpError};
use crate::text::{decimal, decimal_string, joined};

verus! {

/// The problem with a forecast length, if any: the API serves 1 to 16 days.
pub open spec fn forecast_days_problem(days: Option<u8>) -> Option<Seq<char>> {
    match days {
        Some(d) => if d < 1 || d > 16 {
            Some("forecast_days must be between 1 and 16, got "@ + decimal(d as nat))
        } else {
            None
        },
        None => None,
    }
}

/// Validates a requested forecast length: absent, or 1..=16 days.
pub fn validate_forecast_days(days: Option<u8>) -> (r: Result<(), Error>)
    ensures
        r is Ok <==> forecast_days_problem(days) is None,
        r matches Err(e) ==> e matches Error::InvalidParameter(m) && forecast_days_problem(days)
            == Some(m@),
{
    if let Some(d) = days {
        if d < 1 || d > 16 {
            let n = decimal_string(d as u64);
            return Err(
                Error::InvalidParameter(joined("forecast_days must be between 1 and 16, got ", n.as_str())),
            );
        }
    }
    Ok(())
}

/// The problem with the number of locations to compare, if any: the
/// comparison takes 2 to 10 locations.
pub open spec fn location_count_problem(n: nat) -> Option<Seq<char>> {
    if n < 2 {
        Some("at least 2 locations required for comparison"@)
    } else if n > 10 {
        Some("Maximum 10 locations allowed for comparison"@)
    } else {
        None
    }
}

/// Validates the number of locations given to `compare_locations`.
pub fn validate_location_count(n: usize) -> (r: Result<(), McpError>)
    ensures
        r is Ok <==> location_count_problem(n as nat) is None,
        r matches Err(e) ==> e matches McpError::InvalidParameter(m) && location_count_problem(
            n as nat,
        ) == Some(m@),
{
    if n < 2 {
        return Err(
            McpError::InvalidParameter(
                String::from_str("at least 2 locations required for comparison"),
            ),
        );
    }
    if n > 10 {
        return Err(
            McpError::InvalidParameter(
                String::from_str("Maximum 10 locations allowed for comparison"),
            ),
        );
    }
    Ok(())
}

/// The problem with an archive date range, if any: both ends must be
/// `YYYY-MM-DD` dates (the start is checked first).
pub open spec fn date_range_problem(start: Seq<char>, end: Seq<char>) -> Option<Seq<char>> {
    if !is_valid_date(start) {
        Some("Invalid start_date format, use YYYY-MM-DD"@)
    } else if !is_valid_date(end) {
        Some("Invalid end_date format, use YYYY-MM-DD"@)
    } else {
        None
    }
}

/// Validates the start and end dates of a historical weather request.
pub fn validate_date_range(start_date: &str, end_date: &str) -> (r: Result<(), Error>)
    ensures
        r is Ok <==> date_range_problem(start_date@, end_date@) is None,
        r matches Err(e) ==> e matches Error::InvalidParameter(m) && date_range_problem(
            start_date@,
            end_date@,
        ) == Some(m@),
{
    if !is_valid_date_format(start_date) {
        return Err(
            Error::InvalidParameter(String::from_str("Invalid start_date format, use YYYY-MM-DD")),
        );
    }
    if !is_valid_date_format(end_date) {
        return Err(
            Error::InvalidParameter(String::from_str("Invalid end_date format, use YYYY-MM-DD")),
        );
    }
    Ok(())
}

} // verus!
