//! What the Open-Meteo API client decides: where each endpoint lives and how
//! an HTTP status is judged. Sending the requests is left to the caller.

use vstd::prelude::*;
use crate::error::Error;
use crate::text::{decimal, decimal_string, joined, joined3};

verus! {

/// Base URLs of the Open-Meteo APIs.
#[derive(Debug, Clone)]
pub struct BaseUrls {
    pub weather: String,
    pub geocoding: String,
    pub air_quality: String,
    pub marine: String,
    pub archive: String,
}

impl Default for BaseUrls {
    /// The public Open-Meteo endpoints.
    fn default() -> (b: Self)
        ensures
            b.weather@ == "https://api.open-meteo.com/v1"@,
            b.geocoding@ == "https://geocoding-api.open-meteo.com/v1"@,
            b.air_quality@ == "https://air-quality-api.open-meteo.com/v1"@,
            b.marine@ == "https://marine-api.open-meteo.com/v1"@,
            b.archive@ == "https://archive-api.open-meteo.com/v1"@,
    {
        BaseUrls {
            weather: String::from_str("https://api.open-meteo.com/v1"),
            geocoding: String::from_str("https://geocoding-api.open-meteo.com/v1"),
            air_quality: String::from_str("https://air-quality-api.open-meteo.com/v1"),
            marine: String::from_str("https://marine-api.open-meteo.com/v1"),
            archive: String::from_str("https://archive-api.open-meteo.com/v1"),
        }
    }
}

impl BaseUrls {
    /// The forecast endpoint.
    pub fn forecast_url(&self) -> (u: String)
        ensures
            u@ == self.weather@ + "/forecast"@,
    {
        joined(self.weather.as_str(), "/forecast")
    }

    /// The geocoding search endpoint.
    pub fn search_url(&self) -> (u: String)
        ensures
            u@ == self.geocoding@ + "/search"@,
    {
        joined(self.geocoding.as_str(), "/search")
    }

    /// The air quality endpoint.
    pub fn air_quality_url(&self) -> (u: String)
        ensures
            u@ == self.air_quality@ + "/air_quality"@,
    {
        joined(self.air_quality.as_str(), "/air_quality")
    }

    /// The marine endpoint.
    pub fn marine_url(&self) -> (u: String)
        ensures
            u@ == self.marine@ + "/marine"@,
    {
        joined(self.marine.as_str(), "/marine")
    }

    /// The historical archive endpoint.
    pub fn archive_url(&self) -> (u: String)
        ensures
            u@ == self.archive@ + "/archive"@,
    {
        joined(self.archive.as_str(), "/archive")
    }
}

/// The standard reason phrase of an HTTP status code, as the `http` crate
/// (re-exported by `reqwest`) lists it; `None` for codes it does not list.
pub uninterp spec fn reason_phrase(code: u16) -> Option<Seq<char>>;

/// Calls `reqwest::StatusCode::from_u16` and then `canonical_reason`: the
/// reason phrase registered for `code`, `None` when the code is outside
/// 100..=999 or has no registered phrase. The contract names the result.
#[verifier::external_body]
fn canonical_reason(code: u16) -> (r: Option<&'static str>)
    ensures
        r matches Some(p) ==> reason_phrase(code) == Some(p@),
        r is None ==> reason_phrase(code) is None,
{
    match reqwest::StatusCode::from_u16(code) {
        Ok(status) => status.canonical_reason(),
        Err(_) => None,
    }
}

/// The phrase shown for a status whose reason phrase is `reason`: that
/// phrase, or `Unknown` when there is none.
pub open spec fn shown_reason(reason: Option<Seq<char>>) -> Seq<char> {
    match reason {
        Some(p) => p,
        None => "Unknown"@,
    }
}

/// How a response status is judged, given its reason phrase: 2xx is a
/// success, 4xx a client error, anything else a server error.
pub open spec fn status_problem_with(code: u16, reason: Option<Seq<char>>) -> Option<Seq<char>> {
    if 200 <= code < 300 {
        None
    } else if 400 <= code < 500 {
        Some("Client error: "@ + decimal(code as nat) + " "@ + shown_reason(reason))
    } else {
        Some("Server error: "@ + decimal(code as nat) + " "@ + shown_reason(reason))
    }
}

/// How a response status is judged, with the reason phrase that `http`
/// registers for it.
pub open spec fn status_problem(code: u16) -> Option<Seq<char>> {
    status_problem_with(code, reason_phrase(code))
}

/// Judges a response status whose reason phrase is `reason`: success for
/// 2xx, an API error naming the status and the phrase otherwise.
pub fn status_outcome(code: u16, reason: Option<&str>) -> (r: Result<(), Error>)
    ensures
        r is Ok <==> 200 <= code < 300,
        r matches Err(e) ==> e matches Error::ApiError(m) && status_problem_with(
            code,
            match reason {
                Some(p) => Some(p@),
                None => None,
            },
        ) == Some(m@),
{
    if 200 <= code && code < 300 {
        return Ok(());
    }
    let shown = match reason {
        Some(p) => p,
        None => "Unknown",
    };
    let n = decimal_string(code as u64);
    let tail = joined3(n.as_str(), " ", shown);
    if 400 <= code && code < 500 {
        Err(Error::ApiError(joined("Client error: ", tail.as_str())))
    } else {
        Err(Error::ApiError(joined("Server error: ", tail.as_str())))
    }
}

/// Validates an HTTP response status: success for 2xx, an API error naming
/// the status otherwise.
pub fn validate_response_status(code: u16) -> (r: Result<(), Error>)
    ensures
        r is Ok <==> status_problem(code) is None,
        r matches Err(e) ==> e matches Error::ApiError(m) && status_problem(code) == Some(m@),
{
    status_outcome(code, canonical_reason(code))
}

} // verus!
