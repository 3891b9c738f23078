use open_meteo_mcp::client::{status_outcome, validate_response_status, BaseUrls};
use open_meteo_mcp::error::{
    api_error_to_mcp, validation_error_to_mcp, CallToolResult, Error, McpError, RpcErrorKind,
    ToolContent,
};
use open_meteo_mcp::requests::{validate_forecast_days, validate_location_count};
use open_meteo_mcp::text::{decimal_string, str_contains, str_equal};

#[test]
fn test_validate_response_status() {
    assert!(validate_response_status(reqwest::StatusCode::OK.as_u16()).is_ok());
    assert!(validate_response_status(reqwest::StatusCode::NOT_FOUND.as_u16()).is_err());
    assert!(validate_response_status(reqwest::StatusCode::INTERNAL_SERVER_ERROR.as_u16()).is_err());
}

#[test]
fn response_status_messages_name_the_status() {
    assert_eq!(
        validate_response_status(404),
        Err(Error::ApiError("Client error: 404 Not Found".to_string()))
    );
    assert_eq!(
        validate_response_status(500),
        Err(Error::ApiError("Server error: 500 Internal Server Error".to_string()))
    );
    assert_eq!(
        validate_response_status(302),
        Err(Error::ApiError("Server error: 302 Found".to_string()))
    );
    assert_eq!(
        validate_response_status(499),
        Err(Error::ApiError("Client error: 499 Unknown".to_string()))
    );
    assert!(validate_response_status(204).is_ok());
    assert!(validate_response_status(299).is_ok());
}

#[test]
fn endpoint_urls() {
    let urls = BaseUrls::default();
    assert_eq!(urls.forecast_url(), "https://api.open-meteo.com/v1/forecast");
    assert_eq!(urls.search_url(), "https://geocoding-api.open-meteo.com/v1/search");
    assert_eq!(urls.air_quality_url(), "https://air-quality-api.open-meteo.com/v1/air_quality");
    assert_eq!(urls.marine_url(), "https://marine-api.open-meteo.com/v1/marine");
    assert_eq!(urls.archive_url(), "https://archive-api.open-meteo.com/v1/archive");
}

#[test]
fn decimal_rendering() {
    assert_eq!(decimal_string(0), "0");
    assert_eq!(decimal_string(7), "7");
    assert_eq!(decimal_string(10), "10");
    assert_eq!(decimal_string(8888), "8888");
    assert_eq!(decimal_string(u64::MAX), u64::MAX.to_string());
}

#[test]
fn string_search_and_equality() {
    assert!(str_contains("Swiss Confederation (Switzerland)", "Switzerland"));
    assert!(str_contains("abc", ""));
    assert!(!str_contains("Switzerlan", "Switzerland"));
    assert!(!str_contains("Germany", "Switzerland"));
    assert!(str_equal("CH", "CH"));
    assert!(!str_equal("CH", "ch"));
    assert!(!str_equal("CH", "CHE"));
}

#[test]
fn error_display_texts() {
    assert_eq!(Error::Timeout(30).to_string(), "Timeout after 30 seconds");
    assert_eq!(Error::RateLimit { seconds: 5 }.to_string(), "Rate limited: retry after 5 seconds");
    assert_eq!(
        Error::InvalidCoordinates { lat: "91".to_string(), lon: "0".to_string() }.to_string(),
        "Invalid coordinates: latitude 91, longitude 0"
    );
    assert_eq!(Error::HttpClient("boom".to_string()).to_string(), "HTTP client error: boom");
    assert_eq!(McpError::ToolError("x".to_string()).to_string(), "Tool execution error: x");
    assert_eq!(McpError::Timeout("t".to_string()).to_string(), "Timeout: t");
}

#[test]
fn library_errors_map_to_mcp_errors() {
    assert_eq!(
        McpError::from(Error::InvalidCoordinates { lat: "91".to_string(), lon: "0".to_string() }),
        McpError::InvalidParameter("Invalid coordinates: lat=91, lon=0".to_string())
    );
    assert_eq!(
        McpError::from(Error::RateLimit { seconds: 12 }),
        McpError::RateLimit("Retry after 12 seconds".to_string())
    );
    assert_eq!(
        McpError::from(Error::Timeout(30)),
        McpError::Timeout("Timeout after 30 seconds".to_string())
    );
    assert_eq!(
        McpError::from(Error::ApiError("bad".to_string())),
        McpError::ToolError("bad".to_string())
    );
    assert_eq!(
        McpError::from(Error::HttpClient("refused".to_string())),
        McpError::InternalError("HTTP error: refused".to_string())
    );
    assert_eq!(
        McpError::from(Error::Config("no".to_string())),
        McpError::InternalError("Config error: no".to_string())
    );
    assert_eq!(
        McpError::from(Error::Internal("oops".to_string())),
        McpError::InternalError("oops".to_string())
    );
}

#[test]
fn tool_error_mappings() {
    assert_eq!(
        validation_error_to_mcp(Error::InvalidCoordinates {
            lat: "999".to_string(),
            lon: "11.6".to_string()
        }),
        McpError::InvalidParameter(
            "Invalid coordinates: latitude must be -90..90, got 999, longitude must be -180..180, got 11.6"
                .to_string()
        )
    );
    assert_eq!(
        validation_error_to_mcp(Error::Mcp("m".to_string())),
        McpError::InternalError("MCP error: m".to_string())
    );
    assert_eq!(
        api_error_to_mcp(Error::Timeout(3), "Weather API request timed out"),
        McpError::Timeout("Weather API request timed out".to_string())
    );
    assert_eq!(
        api_error_to_mcp(Error::RateLimit { seconds: 9 }, "t"),
        McpError::RateLimit("Rate limited, retry after 9 seconds".to_string())
    );
    assert_eq!(
        api_error_to_mcp(Error::HttpClient("dns".to_string()), "t"),
        McpError::InternalError("HTTP request failed: dns".to_string())
    );
    assert_eq!(
        api_error_to_mcp(Error::Io("disk".to_string()), "t"),
        McpError::InternalError("IO error: disk".to_string())
    );
}

#[test]
fn rpc_kinds() {
    assert_eq!(McpError::InvalidRequest("a".into()).rpc_kind(), RpcErrorKind::InvalidRequest);
    assert_eq!(McpError::InvalidParameter("a".into()).rpc_kind(), RpcErrorKind::InvalidParams);
    assert_eq!(McpError::ResourceNotFound("a".into()).rpc_kind(), RpcErrorKind::ResourceNotFound);
    assert_eq!(McpError::RateLimit("a".into()).rpc_kind(), RpcErrorKind::InternalError);
    assert_eq!(McpError::ToolError("detail".into()).detail(), "detail");
}

#[test]
fn call_tool_results() {
    let ok = CallToolResult::success(vec![CallToolResult::text("hi".to_string())]);
    assert!(!ok.is_error);
    assert!(matches!(&ok.content[0], ToolContent::Text(t) if t == "hi"));
    let err = CallToolResult::error("bad".to_string());
    assert!(err.is_error);
    assert_eq!(err.content.len(), 1);
    let json = CallToolResult::json(serde_json::Value::Bool(true));
    assert!(matches!(json, ToolContent::Json(serde_json::Value::Bool(true))));
}

#[test]
fn forecast_days_range() {
    assert!(validate_forecast_days(None).is_ok());
    assert!(validate_forecast_days(Some(1)).is_ok());
    assert!(validate_forecast_days(Some(16)).is_ok());
    assert_eq!(
        validate_forecast_days(Some(20)),
        Err(Error::InvalidParameter("forecast_days must be between 1 and 16, got 20".to_string()))
    );
    assert_eq!(
        validate_forecast_days(Some(0)),
        Err(Error::InvalidParameter("forecast_days must be between 1 and 16, got 0".to_string()))
    );
}

#[test]
fn comparison_takes_two_to_ten_locations() {
    match validate_location_count(1) {
        Err(McpError::InvalidParameter(msg)) => assert!(msg.contains("at least 2")),
        _ => panic!("Expected InvalidParameter error"),
    }
    assert!(validate_location_count(0).is_err());
    assert!(validate_location_count(2).is_ok());
    assert!(validate_location_count(10).is_ok());
    assert_eq!(
        validate_location_count(11),
        Err(McpError::InvalidParameter("Maximum 10 locations allowed for comparison".to_string()))
    );
}

#[test]
fn parameter_errors_reach_clients_as_invalid_params() {
    let direct = McpError::from(Error::InvalidParameter("bad".to_string()));
    assert_eq!(direct.rpc_kind(), RpcErrorKind::InvalidParams);
    let coords = McpError::from(Error::InvalidCoordinates { lat: "91".into(), lon: "0".into() });
    assert_eq!(coords.rpc_kind(), RpcErrorKind::InvalidParams);
    let via_tool = validation_error_to_mcp(Error::InvalidParameter("bad".to_string()));
    assert_eq!(via_tool.rpc_kind(), RpcErrorKind::InvalidParams);
    let internal = McpError::from(Error::Serialization("eof".to_string()));
    assert_eq!(internal.rpc_kind(), RpcErrorKind::InternalError);
}

#[test]
fn status_outcome_formats_the_given_reason() {
    assert!(status_outcome(200, None).is_ok());
    assert!(status_outcome(250, Some("Anything")).is_ok());
    match status_outcome(404, Some("Not Found")) {
        Err(Error::ApiError(m)) => assert_eq!(m, "Client error: 404 Not Found"),
        other => panic!("unexpected {:?}", other),
    }
    match status_outcome(503, None) {
        Err(Error::ApiError(m)) => assert_eq!(m, "Server error: 503 Unknown"),
        other => panic!("unexpected {:?}", other),
    }
    match status_outcome(302, Some("Found")) {
        Err(Error::ApiError(m)) => assert_eq!(m, "Server error: 302 Found"),
        other => panic!("unexpected {:?}", other),
    }
}
