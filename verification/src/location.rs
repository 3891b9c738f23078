//! Location search (geocoding) requests and the Swiss result filter.

use vstd::prelude::*;
use crate::error::{Error, McpError};
use crate::text::{contains_seq, decimal, decimal_string, joined, occurs_at, str_contains, str_equal};

verus! {

/// Request for location search/geocoding.
#[derive(Debug, Clone)]
pub struct GeocodeRequest {
    pub name: String,
    pub count: Option<u32>,
    pub language: Option<String>,
    pub format: Option<String>,
}

/// Parameters of the `search_location` tool.
#[derive(Debug, Clone)]
pub struct SearchLocationParams {
    /// Location name to search for.
    pub name: String,
    /// Maximum number of results.
    pub count: Option<u32>,
    /// Language code for results, e.g. en, de.
    pub language: Option<String>,
}

/// Parameters of the `search_location_swiss` tool.
#[derive(Debug, Clone)]
pub struct SearchLocationSwissParams {
    /// Location name to search for.
    pub name: String,
    /// Maximum number of results.
    pub count: Option<u32>,
}

/// The first problem with a search for `name` returning up to `count`
/// results, if any: an empty name, or a count outside 1..=100.
pub open spec fn search_problem(name: Seq<char>, count: Option<u32>) -> Option<Seq<char>> {
    if name.len() == 0 {
        Some("Location name cannot be empty"@)
    } else if count matches Some(c) && (c < 1 || c > 100) {
        Some("count must be between 1 and 100, got "@ + decimal(count->0 as nat))
    } else {
        None
    }
}

/// The first problem with a location search request, if any; its language
/// and format are free.
pub open spec fn geocode_problem(r: GeocodeRequest) -> Option<Seq<char>> {
    search_problem(r.name@, r.count)
}

impl GeocodeRequest {
    /// A search for `name` returning up to 10 results.
    pub fn new(name: String) -> (r: Self)
        ensures
            r.name == name,
            r.count == Some(10u32),
            r.language is None,
            r.format is None,
    {
        GeocodeRequest { name, count: Some(10), language: None, format: None }
    }

    /// The request the Swiss search sends: results in English.
    pub fn swiss(name: String, count: Option<u32>) -> (r: Self)
        ensures
            r.name == name,
            r.count == count,
            r.language matches Some(l) && l@ == "en"@,
            r.format is None,
    {
        GeocodeRequest { name, count, language: Some(String::from_str("en")), format: None }
    }

    /// Validates the request: the name must not be empty and the count, when
    /// given, must be 1..=100.
    pub fn validate(&self) -> (r: Result<(), Error>)
        ensures
            r is Ok <==> geocode_problem(*self) is None,
            r matches Err(e) ==> e matches Error::InvalidParameter(m) && geocode_problem(*self)
                == Some(m@),
    {
        self.check_name()?;
        if let Some(c) = self.count {
            if c < 1 || c > 100 {
                let n = decimal_string(c as u64);
                return Err(
                    Error::InvalidParameter(joined("count must be between 1 and 100, got ", n.as_str())),
                );
            }
        }
        Ok(())
    }

    /// The check the API client makes before searching: the name must not be
    /// empty.
    pub fn check_name(&self) -> (r: Result<(), Error>)
        ensures
            r is Ok <==> self.name@.len() > 0,
            r matches Err(e) ==> e matches Error::InvalidParameter(m) && m@
                == "Location name cannot be empty"@,
    {
        if self.name.as_str().is_empty() {
            Err(Error::InvalidParameter(String::from_str("Location name cannot be empty")))
        } else {
            Ok(())
        }
    }
}

/// The request the `search_location` tool sends, or the parameter error it
/// reports when the name is empty or the count is outside 1..=100.
pub fn prepare_search(name: String, count: Option<u32>, language: Option<String>) -> (r: Result<
    GeocodeRequest,
    McpError,
>)
    ensures
        r matches Ok(req) ==> req == (GeocodeRequest { name, count, language, format: None }),
        r is Ok <==> geocode_problem(GeocodeRequest { name, count, language, format: None }) is None,
        r matches Err(e) ==> e matches McpError::InvalidParameter(m) && geocode_problem(
            GeocodeRequest { name, count, language, format: None },
        ) == Some(m@),
{
    let req = GeocodeRequest { name, count, language, format: None };
    match req.validate() {
        Ok(()) => Ok(req),
        Err(Error::InvalidParameter(m)) => Err(McpError::InvalidParameter(m)),
        Err(other) => Err(McpError::InternalError(other.to_string())),
    }
}

/// The request the `search_location_swiss` tool sends (results in English),
/// or the parameter error it reports.
pub fn prepare_swiss_search(name: String, count: Option<u32>) -> (r: Result<GeocodeRequest, McpError>)
    ensures
        r matches Ok(req) ==> req.name == name && req.count == count && req.format is None && (
        req.language matches Some(l) && l@ == "en"@),
        r is Ok <==> search_problem(name@, count) is None,
        r matches Err(e) ==> e matches McpError::InvalidParameter(m) && search_problem(name@, count)
            == Some(m@),
{
    let req = GeocodeRequest::swiss(name, count);
    match req.validate() {
        Ok(()) => Ok(req),
        Err(Error::InvalidParameter(m)) => Err(McpError::InvalidParameter(m)),
        Err(other) => Err(McpError::InternalError(other.to_string())),
    }
}

/// The country fields of a search result.
#[derive(Debug, Clone)]
pub struct PlaceCountry {
    pub country_code: Option<String>,
    pub country: Option<String>,
}

/// A search result lies in Switzerland: its country code is `CH`, or its
/// country name contains `Switzerland`.
pub open spec fn is_swiss(p: PlaceCountry) -> bool {
    ||| p.country_code matches Some(c) && c@ == "CH"@
    ||| p.country matches Some(c) && contains_seq(c@, "Switzerland"@)
}

/// `indices` lists, in increasing order, exactly the positions of the Swiss
/// results in `places`.
pub open spec fn lists_swiss(places: Seq<PlaceCountry>, indices: Seq<usize>) -> bool {
    &&& forall|i: int, j: int| 0 <= i < j < indices.len() ==> indices[i] < indices[j]
    &&& forall|i: int| 0 <= i < indices.len() ==> indices[i] < places.len()
    &&& forall|i: int| 0 <= i < indices.len() ==> is_swiss(#[trigger] places[indices[i] as int])
    &&& forall|k: int|
        0 <= k < places.len() && is_swiss(#[trigger] places[k]) ==> indices.contains(k as usize)
}

impl PlaceCountry {
    /// The result lies in Switzerland.
    pub fn is_swiss(&self) -> (b: bool)
        ensures
            b == is_swiss(*self),
    {
        let by_code = match &self.country_code {
            Some(c) => str_equal(c.as_str(), "CH"),
            None => false,
        };
        if by_code {
            return true;
        }
        match &self.country {
            Some(c) => str_contains(c.as_str(), "Switzerland"),
            None => false,
        }
    }
}

/// The positions of the Swiss results, in order.
pub fn swiss_indices(places: &Vec<PlaceCountry>) -> (indices: Vec<usize>)
    ensures
        lists_swiss(places@, indices@),
{
    let mut indices: Vec<usize> = Vec::new();
    let n = places.len();
    let mut k: usize = 0;
    while k < n
        invariant
            n == places@.len(),
            k <= n,
            forall|i: int, j: int| 0 <= i < j < indices@.len() ==> indices@[i] < indices@[j],
            forall|i: int| 0 <= i < indices@.len() ==> indices@[i] < k,
            forall|i: int|
                0 <= i < indices@.len() ==> is_swiss(#[trigger] places@[indices@[i] as int]),
            forall|m: int|
                0 <= m < k && is_swiss(#[trigger] places@[m]) ==> indices@.contains(m as usize),
        decreases n - k,
    {
        if places[k].is_swiss() {
            let ghost before = indices@;
            indices.push(k);
            assert(indices@[indices@.len() - 1] == k);
            assert forall|m: int| 0 <= m < k + 1 && is_swiss(#[trigger] places@[m]) implies indices@.contains(
                m as usize,
            ) by {
                if m < k {
                    let w = choose|w: int| 0 <= w < before.len() && before[w] == m as usize;
                    assert(indices@[w] == m as usize);
                }
            }
        }
        k = k + 1;
    }
    indices
}

/// A search made with `GeocodeRequest::new` is valid exactly when the name
/// is not empty.
pub proof fn lemma_new_request_valid(name: String)
    ensures
        geocode_problem(GeocodeRequest { name, count: Some(10u32), language: None, format: None })
            is None <==> name@.len() > 0,
{
}

/// A search result counts as Swiss exactly when its country code is `CH`
/// or its country name contains `Switzerland` somewhere; any other result
/// is dropped by the Swiss filter.
pub proof fn lemma_swiss_is_ch_or_switzerland(p: PlaceCountry)
    ensures
        is_swiss(p) <==> ((p.country_code matches Some(code) && code@ == "CH"@) || (
        p.country matches Some(name) && exists|i: int|
            0 <= i && i + 11 <= name@.len() && #[trigger] name@.subrange(i, i + 11)
                == "Switzerland"@)),
{
    reveal_strlit("Switzerland");
    if let Some(name) = p.country {
        if contains_seq(name@, "Switzerland"@) {
            let at = choose|at: int| occurs_at(name@, "Switzerland"@, at);
            assert(name@.subrange(at, at + 11) == "Switzerland"@);
        }
        if exists|i: int|
            0 <= i && i + 11 <= name@.len() && #[trigger] name@.subrange(i, i + 11)
                == "Switzerland"@ {
            let i = choose|i: int|
                0 <= i && i + 11 <= name@.len() && #[trigger] name@.subrange(i, i + 11)
                    == "Switzerland"@;
            assert(occurs_at(name@, "Switzerland"@, i));
        }
    }
}

/// A search for a non-empty name is accepted exactly when its count, if
/// given, lies in 1..=100; a search for an empty name is refused for the
/// name, whatever the count.
pub proof fn lemma_search_accepts_counts_in_range(name: Seq<char>, count: Option<u32>)
    ensures
        name.len() == 0 ==> search_problem(name, count) == Some("Location name cannot be empty"@),
        name.len() > 0 ==> (search_problem(name, count) is None <==> (count matches Some(c)
            ==> 1 <= c <= 100)),
        (count matches Some(c) && (c == 0 || c > 100) && name.len() > 0) ==> search_problem(
            name,
            count,
        ) is Some,
{
}

} // verus!
