use open_meteo_mcp::error::{CallToolResult, McpError, ToolContent};
use open_meteo_mcp::prompts::{
    outdoor_activity_prompt, prompt_definitions, ski_trip_weather_prompt, travel_planning_prompt,
    unknown_prompt, PromptKind,
};
use open_meteo_mcp::resources::{
    resource_definitions, unknown_resource, ResourceKind, URI_AQI_REFERENCE, URI_PARAMETERS,
    URI_SWISS_LOCATIONS, URI_WEATHER_CODES,
};

fn text_of(result: Result<CallToolResult, McpError>) -> String {
    let tool_result = result.expect("prompt result");
    assert!(!tool_result.is_error);
    assert_eq!(tool_result.content.len(), 1);
    match &tool_result.content[0] {
        ToolContent::Text(text) => text.clone(),
        ToolContent::Json(_) => panic!("Expected Text content"),
    }
}

#[test]
fn ski_prompt_names_resort_and_dates() {
    let text = text_of(ski_trip_weather_prompt(
        Some("Zermatt".to_string()),
        Some("next weekend".to_string()),
    ));
    assert!(text.contains("Ski Trip"));
    assert!(text.starts_with("# Ski Trip Weather Planning for Zermatt on next weekend\n\n"));
    assert!(text.contains("Based on next weekend:\n"));
}

#[test]
fn ski_prompt_without_arguments() {
    let text = text_of(ski_trip_weather_prompt(None, None));
    assert!(text.starts_with("# Ski Trip Weather Planning  \n\n"));
    assert!(text.contains("Based on the requested dates:\n"));
    assert!(text.contains("Temperature (ideal: -10\u{b0}C to -5\u{b0}C)"));
}

#[test]
fn activity_prompt_fills_in_defaults() {
    let text = text_of(outdoor_activity_prompt(
        Some("hiking".to_string()),
        Some("Munich".to_string()),
        Some("tomorrow".to_string()),
    ));
    assert!(text.contains("Planning: hiking near Munich\nDates: on tomorrow\n"));
    assert!(text.contains("- Activity type: hiking\n"));
    let text = text_of(outdoor_activity_prompt(None, None, None));
    assert!(text.contains(
        "Planning: outdoor activity your chosen location\nDates: your requested dates\n"
    ));
}

#[test]
fn travel_prompt_names_destination() {
    let text = text_of(travel_planning_prompt(Some("Paris".to_string()), None));
    assert!(text.contains("Destination: to Paris\nDates: your requested dates\n"));
    let text = text_of(travel_planning_prompt(None, Some("May 1-5".to_string())));
    assert!(text.contains("Destination: your destination\nDates: from May 1-5\n"));
    assert!(text.ends_with("**Contingency Plan**: [Rainy day alternatives]\n"));
}

#[test]
fn prompts_are_listed_and_found() {
    let defs = prompt_definitions();
    assert_eq!(defs.len(), 3);
    for def in &defs {
        assert!(PromptKind::from_name(def.name).is_some());
    }
    assert_eq!(PromptKind::from_name("ski-trip-weather"), Some(PromptKind::SkiTrip));
    assert_eq!(PromptKind::from_name("plan-outdoor-activity"), Some(PromptKind::OutdoorActivity));
    assert_eq!(PromptKind::from_name("weather-aware-travel"), Some(PromptKind::TravelPlanning));
    assert_eq!(PromptKind::from_name("nope"), None);
    assert_eq!(
        unknown_prompt("nope"),
        McpError::InvalidParameter("Unknown prompt: nope".to_string())
    );
    assert_eq!(defs[1].arguments.len(), 3);
}

#[test]
fn resources_are_listed_and_found() {
    let defs = resource_definitions();
    assert_eq!(defs.len(), 4);
    assert_eq!(ResourceKind::from_uri(URI_WEATHER_CODES), Some(ResourceKind::WeatherCodes));
    assert_eq!(ResourceKind::from_uri(URI_PARAMETERS), Some(ResourceKind::Parameters));
    assert_eq!(ResourceKind::from_uri(URI_AQI_REFERENCE), Some(ResourceKind::AqiReference));
    assert_eq!(ResourceKind::from_uri(URI_SWISS_LOCATIONS), Some(ResourceKind::SwissLocations));
    assert_eq!(ResourceKind::from_uri("weather://unknown"), None);
    for def in &defs {
        assert!(ResourceKind::from_uri(def.uri).is_some());
    }
    assert_eq!(
        unknown_resource("weather://x"),
        McpError::ResourceNotFound("Unknown resource URI: weather://x".to_string())
    );
}
