//! MCP prompts: workflow templates that guide an assistant through
//! weather-aware planning (ski trips, outdoor activities, travel).

use vstd::prelude::*;
use crate::error::{CallToolResult, McpError, ToolContent};
use crate::text::{joined, str_equal};

verus! {

pub const SKI_HEADING: &'static str = "# Ski Trip Weather Planning ";

pub const SKI_SEPARATOR: &'static str = " ";

pub const SKI_WORKFLOW: &'static str = r#"

Follow this workflow to assess ski conditions:

## Step 1: Identify the Resort Location
- If resort name provided: Use search_location to find coordinates
- If not provided: Ask user for resort name
- Suggested resorts: Zermatt, Verbier, St. Moritz, Davos, Saas-Fee, Grindelwald
- Tip: Swiss resort names can be searched directly

## Step 2: Check Snow Conditions
Use get_snow_conditions tool with:
- Resort coordinates
- 7-day forecast
- Include daily data for snow depth and snowfall analysis

Analyze:
- Current snow depth (ideal: >50cm)
- Recent snowfall (fresh powder: >10cm in last 24h)
- Temperature (ideal: -10°C to -5°C)
- Snowfall trend over forecast period

## Step 3: Check General Weather
Use get_weather tool with:
- Same coordinates
- 7-day forecast
- Include daily data for visibility and precipitation

Analyze:
- Weather code (reference weather://codes resource)
- Wind speed and gusts (concerning if >50 km/h)
- Visibility (important for safety)
- Precipitation probability
- Temperature range

## Step 4: Assess Ski Conditions
Combine data to determine:
- **Excellent**: Fresh powder (>10cm), -15°C to -5°C, clear skies, good visibility
- **Good**: Good depth (>50cm), stable temps (<0°C), mostly clear
- **Fair**: Minimal depth (>20cm), temps below freezing, acceptable visibility
- **Poor**: Insufficient snow, warm temps (>5°C), poor weather, limited visibility

## Step 5: Provide Recommendations
Based on "#;

pub const SKI_CLOSING: &'static str = r#":
- Best days to ski (weather + snow quality)
- Gear recommendations (layers, goggles for flat light, avalanche awareness)
- Safety warnings (wind, visibility, avalanche risk)
- Alternative dates if conditions are poor

## Resources
- Weather codes: weather://codes
- Swiss locations: weather://swiss-locations
- Weather parameters: weather://parameters

## Example Response Format
**Snow Conditions**: [Depth + recent snowfall]
**Weather**: [Conditions + temperature range]
**Ski Assessment**: [Excellent/Good/Fair/Poor with reasoning]
**Best Days**: [Specific dates with why]
**Recommendations**: [Gear, safety, alternatives]
"#;

pub const ACTIVITY_HEADING: &'static str = r#"# Weather-Aware Outdoor Activity Planning

Planning: "#;

pub const ACTIVITY_SEPARATOR: &'static str = " ";

pub const ACTIVITY_DATES: &'static str = r#"
Dates: "#;

pub const ACTIVITY_TYPE: &'static str = r#"

## Step 1: Identify Location & Activity Details
- Activity type: "#;

pub const ACTIVITY_WORKFLOW: &'static str = r#"
- Location coordinates: Use search_location tool to find coordinates
- Elevation: Higher elevations have different weather patterns
- Activity sensitivity level:
  - **High**: Rock climbing, via ferrata, water activities (weather critical)
  - **Medium**: Day hiking, cycling, trail running (weather important)
  - **Low**: Walking, photography (weather nice-to-have)

## Step 2: Check Forecast Weather
Use get_weather tool with:
- Location coordinates
- Hourly forecast for detailed weather progression
- 7-day daily forecast

Critical parameters for outdoor activities:
- Temperature (comfort and safety)
- Precipitation probability (rain, snow)
- Wind speed and gusts (safety factor)
- Cloud cover and visibility (enjoyment)
- Apparent temperature (what it feels like)

## Step 3: Check Air Quality
Use get_air_quality tool if relevant:
- Especially important for people with respiratory conditions
- Reference weather://aqi-reference for health implications
- Consider UV index for sun-exposed activities

## Step 4: Assess Activity Conditions
Rate activity feasibility:
- **Excellent**: Perfect conditions, ideal timing
- **Good**: Suitable conditions, minor considerations
- **Fair**: Conditions manageable with precautions
- **Poor**: Not recommended, suggest alternative dates

## Step 5: Provide Detailed Recommendations
Based on the activity:
- **Timing**: Best time of day and specific dates
- **Equipment**: Necessary gear and clothing layers
- **Safety**: Specific hazards and precautions
- **Alternatives**: Other dates/locations if current conditions poor
- **Health**: Any air quality or UV concerns

## Resources
- Weather codes: weather://codes
- Weather parameters: weather://parameters
- AQI guidance: weather://aqi-reference
- Swiss locations: weather://swiss-locations (if in Switzerland)

## Example Response Format
**Conditions**: [Temperature, wind, precipitation summary]
**Air Quality**: [AQI and pollen if relevant]
**Activity Feasibility**: [Excellent/Good/Fair/Poor]
**Best Times**: [Specific dates and times]
**Recommendations**: [Equipment, safety measures, alternatives]
"#;

pub const TRAVEL_HEADING: &'static str = r#"# Weather-Aware Travel Planning

Destination: "#;

pub const TRAVEL_DATES: &'static str = r#"
Dates: "#;

pub const TRAVEL_WORKFLOW: &'static str = r#"

## Step 1: Location Research
- Primary destination coordinates
- Alternative locations nearby (backups in case of weather)
- Use search_location for coordinate lookup
- Note elevation differences affecting weather

## Step 2: Get Comprehensive Weather Forecast
Use get_weather tool for each location:
- 7-day forecast minimum
- Key metrics:
  - Temperature range (daytime/nighttime)
  - Precipitation type and probability
  - Wind conditions
  - Cloud cover and sunshine hours

## Step 3: Check Specialty Conditions if Needed
Depending on activities:
- Snow conditions: Use get_snow_conditions (winter travel)
- Marine conditions: Use get_marine_conditions (coastal/water activities)
- Air quality: Use get_air_quality (sensitive travelers)
- Astronomy: Use get_astronomy (stargazing trips)

## Step 4: Compare Locations
Use compare_locations tool for:
- Multiple potential destinations
- Different dates at same location
- Elevation-based weather variations

## Step 5: Assess Travel Conditions
Evaluate:
- **Best case**: Ideal weather, all activities possible
- **Good case**: Mostly favorable, some limitations
- **Acceptable**: Manageable with precautions
- **Challenging**: Significant constraints or risks
- **Not recommended**: Poor conditions or safety concerns

## Step 6: Provide Travel Recommendations
Include:
- **Timing**: Best dates for optimal weather
- **Packing**: Climate-appropriate clothing and gear
- **Activities**: Weather-dependent activity suggestions
- **Contingencies**: Rainy day alternatives
- **Logistics**: Weather impact on travel
- **Health**: Altitude, air quality, UV concerns

## Bonus: Historical Context
Use get_historical_weather for:
- What weather was typical for this time
- Expected vs. unusual conditions
- Pattern analysis for planning

## Resources
- weather://codes (interpret weather conditions)
- weather://parameters (understand data)
- weather://aqi-reference (health considerations)
- weather://swiss-locations (Swiss travel)

## Example Response Format
**Weather Summary**: [Expected conditions by day]
**Travel Assessment**: [Best/Good/Acceptable/Challenging]
**Best Travel Dates**: [Specific date recommendations]
**Packing List**: [Climate-appropriate gear]
**Activity Suggestions**: [What to do in given weather]
**Contingency Plan**: [Rainy day alternatives]
"#;

/// `prefix` followed by the value when there is one, `fallback` otherwise.
pub open spec fn optional_phrase(v: Option<String>, prefix: Seq<char>, fallback: Seq<char>) -> Seq<
    char,
> {
    match v {
        Some(s) => prefix + s@,
        None => fallback,
    }
}

fn phrase(v: &Option<String>, prefix: &str, fallback: &str) -> (s: String)
    ensures
        s@ == optional_phrase(*v, prefix@, fallback@),
{
    match v {
        Some(x) => joined(prefix, x.as_str()),
        None => String::from_str(fallback),
    }
}

/// The ski trip prompt: the heading names the resort (`for RESORT`) and the
/// dates (`on DATES`) when given, and the recommendations refer to the dates
/// or, without them, to "the requested dates".
pub open spec fn ski_prompt_text(resort: Option<String>, dates: Option<String>) -> Seq<char> {
    SKI_HEADING@ + optional_phrase(resort, "for "@, ""@) + SKI_SEPARATOR@ + optional_phrase(
        dates,
        "on "@,
        ""@,
    ) + SKI_WORKFLOW@ + optional_phrase(dates, ""@, "the requested dates"@) + SKI_CLOSING@
}

/// The outdoor activity prompt: the activity (default "outdoor activity"),
/// `near LOCATION` (default "your chosen location") and `on DATES` (default
/// "your requested dates").
pub open spec fn activity_prompt_text(
    activity: Option<String>,
    location: Option<String>,
    dates: Option<String>,
) -> Seq<char> {
    let a = optional_phrase(activity, ""@, "outdoor activity"@);
    ACTIVITY_HEADING@ + a + ACTIVITY_SEPARATOR@ + optional_phrase(
        location,
        "near "@,
        "your chosen location"@,
    ) + ACTIVITY_DATES@ + optional_phrase(dates, "on "@, "your requested dates"@)
        + ACTIVITY_TYPE@ + a + ACTIVITY_WORKFLOW@
}

/// The travel planning prompt: `to DESTINATION` (default "your destination")
/// and `from DATES` (default "your requested dates").
pub open spec fn travel_prompt_text(destination: Option<String>, dates: Option<String>) -> Seq<
    char,
> {
    TRAVEL_HEADING@ + optional_phrase(destination, "to "@, "your destination"@) + TRAVEL_DATES@
        + optional_phrase(dates, "from "@, "your requested dates"@) + TRAVEL_WORKFLOW@
}

/// `r` is a successful tool result holding the single text `text`.
pub open spec fn is_text_result(r: Result<CallToolResult, McpError>, text: Seq<char>) -> bool {
    &&& r matches Ok(res)
    &&& !res.is_error
    &&& res.content.len() == 1
    &&& res.content[0] matches ToolContent::Text(t) && t@ == text
}

/// Ski trip weather planning prompt: a workflow for assessing ski conditions
/// from snow depth, weather forecasts and safety considerations.
pub fn ski_trip_weather_prompt(resort: Option<String>, dates: Option<String>) -> (r: Result<
    CallToolResult,
    McpError,
>)
    ensures
        is_text_result(r, ski_prompt_text(resort, dates)),
{
    let mut text = String::from_str(SKI_HEADING);
    let resort_info = phrase(&resort, "for ", "");
    text.append(resort_info.as_str());
    text.append(SKI_SEPARATOR);
    let date_info = phrase(&dates, "on ", "");
    text.append(date_info.as_str());
    text.append(SKI_WORKFLOW);
    let dates_for_format = phrase(&dates, "", "the requested dates");
    text.append(dates_for_format.as_str());
    text.append(SKI_CLOSING);
    assert(text@ =~= ski_prompt_text(resort, dates));
    Ok(CallToolResult::success_text(text))
}

/// Outdoor activity planning prompt: a weather-aware workflow for hiking,
/// cycling and other outdoor pursuits.
pub fn outdoor_activity_prompt(
    activity: Option<String>,
    location: Option<String>,
    dates: Option<String>,
) -> (r: Result<CallToolResult, McpError>)
    ensures
        is_text_result(r, activity_prompt_text(activity, location, dates)),
{
    let activity_str = phrase(&activity, "", "outdoor activity");
    let location_str = phrase(&location, "near ", "your chosen location");
    let date_str = phrase(&dates, "on ", "your requested dates");
    let mut text = String::from_str(ACTIVITY_HEADING);
    text.append(activity_str.as_str());
    text.append(ACTIVITY_SEPARATOR);
    text.append(location_str.as_str());
    text.append(ACTIVITY_DATES);
    text.append(date_str.as_str());
    text.append(ACTIVITY_TYPE);
    text.append(activity_str.as_str());
    text.append(ACTIVITY_WORKFLOW);
    assert(text@ =~= activity_prompt_text(activity, location, dates));
    Ok(CallToolResult::success_text(text))
}

/// Travel planning prompt: a workflow that weighs the weather factors that
/// matter for a trip.
pub fn travel_planning_prompt(destination: Option<String>, dates: Option<String>) -> (r: Result<
    CallToolResult,
    McpError,
>)
    ensures
        is_text_result(r, travel_prompt_text(destination, dates)),
{
    let dest_str = phrase(&destination, "to ", "your destination");
    let date_str = phrase(&dates, "from ", "your requested dates");
    let mut text = String::from_str(TRAVEL_HEADING);
    text.append(dest_str.as_str());
    text.append(TRAVEL_DATES);
    text.append(date_str.as_str());
    text.append(TRAVEL_WORKFLOW);
    assert(text@ =~= travel_prompt_text(destination, dates));
    Ok(CallToolResult::success_text(text))
}

/// Name of the ski trip prompt.
pub const PROMPT_SKI_TRIP: &'static str = "ski-trip-weather";

/// Name of the outdoor activity prompt.
pub const PROMPT_OUTDOOR_ACTIVITY: &'static str = "plan-outdoor-activity";

/// Name of the travel planning prompt.
pub const PROMPT_TRAVEL_PLANNING: &'static str = "weather-aware-travel";

/// The prompts the server offers.
#[derive(Debug, Clone, Copy, PartialEq, Eq, Structural)]
pub enum PromptKind {
    SkiTrip,
    OutdoorActivity,
    TravelPlanning,
}

/// The prompt registered under `name`, if any.
pub open spec fn prompt_named(name: Seq<char>) -> Option<PromptKind> {
    if name == PROMPT_SKI_TRIP@ {
        Some(PromptKind::SkiTrip)
    } else if name == PROMPT_OUTDOOR_ACTIVITY@ {
        Some(PromptKind::OutdoorActivity)
    } else if name == PROMPT_TRAVEL_PLANNING@ {
        Some(PromptKind::TravelPlanning)
    } else {
        None
    }
}

impl PromptKind {
    /// Looks up a prompt by name.
    pub fn from_name(name: &str) -> (k: Option<PromptKind>)
        ensures
            k == prompt_named(name@),
    {
        if str_equal(name, PROMPT_SKI_TRIP) {
            Some(PromptKind::SkiTrip)
        } else if str_equal(name, PROMPT_OUTDOOR_ACTIVITY) {
            Some(PromptKind::OutdoorActivity)
        } else if str_equal(name, PROMPT_TRAVEL_PLANNING) {
            Some(PromptKind::TravelPlanning)
        } else {
            None
        }
    }
}

/// The error for a prompt name that is not registered.
pub fn unknown_prompt(name: &str) -> (e: McpError)
    ensures
        e matches McpError::InvalidParameter(m) && m@ == "Unknown prompt: "@ + name@,
{
    McpError::InvalidParameter(joined("Unknown prompt: ", name))
}

/// A prompt as it is listed: name, description and named arguments with
/// their descriptions.
#[derive(Debug, Clone)]
pub struct PromptDef {
    pub name: &'static str,
    pub description: &'static str,
    pub arguments: Vec<(&'static str, &'static str)>,
}

/// The three prompts, in listing order, with their arguments: the ski trip
/// (resort, dates), the outdoor activity (activity, location, dates) and the
/// travel plan (destination, dates).
pub fn prompt_definitions() -> (defs: Vec<PromptDef>)
    ensures
        defs@.len() == 3,
        defs@[0].name@ == PROMPT_SKI_TRIP@,
        defs@[1].name@ == PROMPT_OUTDOOR_ACTIVITY@,
        defs@[2].name@ == PROMPT_TRAVEL_PLANNING@,
        defs@[0].arguments@.len() == 2,
        defs@[0].arguments@[0].0@ == "resort"@,
        defs@[0].arguments@[1].0@ == "dates"@,
        defs@[1].arguments@.len() == 3,
        defs@[1].arguments@[0].0@ == "activity"@,
        defs@[1].arguments@[1].0@ == "location"@,
        defs@[1].arguments@[2].0@ == "dates"@,
        defs@[2].arguments@.len() == 2,
        defs@[2].arguments@[0].0@ == "destination"@,
        defs@[2].arguments@[1].0@ == "dates"@,
        defs@[0].description@ == "Ski trip planning with snow conditions and weather"@,
        defs@[1].description@ == "Weather-aware outdoor activity planning"@,
        defs@[2].description@ == "Travel planning with weather integration"@,
        defs@[0].arguments@[0].1@ == "Ski resort name"@,
        defs@[0].arguments@[1].1@ == "Trip dates"@,
        defs@[1].arguments@[0].1@ == "Activity type, e.g. hiking, running"@,
        defs@[1].arguments@[1].1@ == "Location name"@,
        defs@[1].arguments@[2].1@ == "Planned dates"@,
        defs@[2].arguments@[0].1@ == "Travel destination"@,
        defs@[2].arguments@[1].1@ == "Travel dates"@,
{
    let mut ski_args = Vec::new();
    ski_args.push(("resort", "Ski resort name"));
    ski_args.push(("dates", "Trip dates"));
    let mut activity_args = Vec::new();
    activity_args.push(("activity", "Activity type, e.g. hiking, running"));
    activity_args.push(("location", "Location name"));
    activity_args.push(("dates", "Planned dates"));
    let mut travel_args = Vec::new();
    travel_args.push(("destination", "Travel destination"));
    travel_args.push(("dates", "Travel dates"));
    let mut defs = Vec::new();
    defs.push(
        PromptDef {
            name: PROMPT_SKI_TRIP,
            description: "Ski trip planning with snow conditions and weather",
            arguments: ski_args,
        },
    );
    defs.push(
        PromptDef {
            name: PROMPT_OUTDOOR_ACTIVITY,
            description: "Weather-aware outdoor activity planning",
            arguments: activity_args,
        },
    );
    defs.push(
        PromptDef {
            name: PROMPT_TRAVEL_PLANNING,
            description: "Travel planning with weather integration",
            arguments: travel_args,
        },
    );
    defs
}

/// The listed prompt names resolve to distinct prompts.
pub proof fn lemma_listed_prompts_resolve()
    ensures
        prompt_named(PROMPT_SKI_TRIP@) == Some(PromptKind::SkiTrip),
        prompt_named(PROMPT_OUTDOOR_ACTIVITY@) == Some(PromptKind::OutdoorActivity),
        prompt_named(PROMPT_TRAVEL_PLANNING@) == Some(PromptKind::TravelPlanning),
{
    reveal_strlit("ski-trip-weather");
    reveal_strlit("plan-outdoor-activity");
    reveal_strlit("weather-aware-travel");
    assert(PROMPT_OUTDOOR_ACTIVITY@[0] != PROMPT_SKI_TRIP@[0]);
    assert(PROMPT_TRAVEL_PLANNING@[0] != PROMPT_SKI_TRIP@[0]);
    assert(PROMPT_TRAVEL_PLANNING@[0] != PROMPT_OUTDOOR_ACTIVITY@[0]);
}

} // verus!
