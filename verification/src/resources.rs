//! MCP resources: the reference documents the server publishes and how
//! their URIs are resolved.

use vstd::prelude::*;
use crate::error::McpError;
use crate::text::{joined, str_equal};

verus! {

/// Weather code resource URI.
pub const URI_WEATHER_CODES: &'static str = "weather://codes";

/// Weather parameters resource URI.
pub const URI_PARAMETERS: &'static str = "weather://parameters";

/// AQI reference resource URI.
pub const URI_AQI_REFERENCE: &'static str = "weather://aqi-reference";

/// Swiss locations resource URI.
pub const URI_SWISS_LOCATIONS: &'static str = "weather://swiss-locations";

/// The published resources.
#[derive(Debug, Clone, Copy, PartialEq, Eq, Structural)]
pub enum ResourceKind {
    /// WMO weather code reference.
    WeatherCodes,
    /// Available weather and snow API parameters.
    Parameters,
    /// AQI scales and health recommendations.
    AqiReference,
    /// Swiss cities, mountains and passes.
    SwissLocations,
}

/// The resource published under `uri`, if any.
pub open spec fn resource_at(uri: Seq<char>) -> Option<ResourceKind> {
    if uri == URI_WEATHER_CODES@ {
        Some(ResourceKind::WeatherCodes)
    } else if uri == URI_PARAMETERS@ {
        Some(ResourceKind::Parameters)
    } else if uri == URI_AQI_REFERENCE@ {
        Some(ResourceKind::AqiReference)
    } else if uri == URI_SWISS_LOCATIONS@ {
        Some(ResourceKind::SwissLocations)
    } else {
        None
    }
}

impl ResourceKind {
    /// Resolves a resource URI.
    pub fn from_uri(uri: &str) -> (k: Option<ResourceKind>)
        ensures
            k == resource_at(uri@),
    {
        if str_equal(uri, URI_WEATHER_CODES) {
            Some(ResourceKind::WeatherCodes)
        } else if str_equal(uri, URI_PARAMETERS) {
            Some(ResourceKind::Parameters)
        } else if str_equal(uri, URI_AQI_REFERENCE) {
            Some(ResourceKind::AqiReference)
        } else if str_equal(uri, URI_SWISS_LOCATIONS) {
            Some(ResourceKind::SwissLocations)
        } else {
            None
        }
    }
}

/// The error for a URI under which nothing is published.
pub fn unknown_resource(uri: &str) -> (e: McpError)
    ensures
        e matches McpError::ResourceNotFound(m) && m@ == "Unknown resource URI: "@ + uri@,
{
    McpError::ResourceNotFound(joined("Unknown resource URI: ", uri))
}

/// A resource as it is listed: URI, name and description. All resources are
/// JSON documents.
#[derive(Debug, Clone, Copy)]
pub struct ResourceDef {
    pub uri: &'static str,
    pub name: &'static str,
    pub description: &'static str,
}

/// The media type of every resource.
pub const RESOURCE_MIME_TYPE: &'static str = "application/json";

/// The four resources, in listing order.
pub fn resource_definitions() -> (defs: Vec<ResourceDef>)
    ensures
        defs@.len() == 4,
        defs@[0].uri@ == URI_WEATHER_CODES@,
        defs@[0].name@ == "weather-codes"@,
        defs@[1].uri@ == URI_PARAMETERS@,
        defs@[1].name@ == "weather-parameters"@,
        defs@[2].uri@ == URI_AQI_REFERENCE@,
        defs@[2].name@ == "aqi-reference"@,
        defs@[3].uri@ == URI_SWISS_LOCATIONS@,
        defs@[3].name@ == "swiss-locations"@,
        defs@[0].description@ == "WMO weather code reference"@,
        defs@[1].description@ == "Available weather and snow API parameters"@,
        defs@[2].description@ == "AQI scales and health recommendations"@,
        defs@[3].description@ == "Swiss cities, mountains, and passes"@,
{
    let mut defs = Vec::new();
    defs.push(
        ResourceDef {
            uri: URI_WEATHER_CODES,
            name: "weather-codes",
            description: "WMO weather code reference",
        },
    );
    defs.push(
        ResourceDef {
            uri: URI_PARAMETERS,
            name: "weather-parameters",
            description: "Available weather and snow API parameters",
        },
    );
    defs.push(
        ResourceDef {
            uri: URI_AQI_REFERENCE,
            name: "aqi-reference",
            description: "AQI scales and health recommendations",
        },
    );
    defs.push(
        ResourceDef {
            uri: URI_SWISS_LOCATIONS,
            name: "swiss-locations",
            description: "Swiss cities, mountains, and passes",
        },
    );
    defs
}

/// Every listed resource resolves to a distinct kind: the listing and the
/// lookup agree.
pub proof fn lemma_listed_uris_resolve()
    ensures
        resource_at(URI_WEATHER_CODES@) == Some(ResourceKind::WeatherCodes),
        resource_at(URI_PARAMETERS@) == Some(ResourceKind::Parameters),
        resource_at(URI_AQI_REFERENCE@) == Some(ResourceKind::AqiReference),
        resource_at(URI_SWISS_LOCATIONS@) == Some(ResourceKind::SwissLocations),
{
    reveal_strlit("weather://codes");
    reveal_strlit("weather://parameters");
    reveal_strlit("weather://aqi-reference");
    reveal_strlit("weather://swiss-locations");
    assert(URI_PARAMETERS@[10] != URI_WEATHER_CODES@[10]);
    assert(URI_AQI_REFERENCE@[10] != URI_WEATHER_CODES@[10]);
    assert(URI_AQI_REFERENCE@[10] != URI_PARAMETERS@[10]);
    assert(URI_SWISS_LOCATIONS@[10] != URI_WEATHER_CODES@[10]);
    assert(URI_SWISS_LOCATIONS@[10] != URI_PARAMETERS@[10]);
    assert(URI_SWISS_LOCATIONS@[10] != URI_AQI_REFERENCE@[10]);
}

} // verus!
