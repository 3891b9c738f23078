//! Error types: the MCP protocol error, the library's error, tool results,
//! and the mappings between them.

use vstd::prelude::*;
use crate::text::{decimal, decimal_string, joined, joined3};

verus! {

/// A JSON document as handled by `serde_json`.
#[verifier::external_type_specification]
#[verifier::external_body]
pub struct ExJsonValue(serde_json::Value);

/// MCP protocol error type.
#[derive(Debug, Clone, PartialEq, Eq)]
pub enum McpError {
    InvalidRequest(String),
    InvalidParameter(String),
    ResourceNotFound(String),
    InternalError(String),
    ToolError(String),
    RateLimit(String),
    Timeout(String),
}

/// The JSON-RPC error class that an [`McpError`] is reported under.
#[derive(Debug, Clone, Copy, PartialEq, Eq, Structural)]
pub enum RpcErrorKind {
    InvalidRequest,
    InvalidParams,
    ResourceNotFound,
    InternalError,
}

/// The text of an MCP error: a label for its kind, then its detail.
pub open spec fn mcp_error_text(e: McpError) -> Seq<char> {
    match e {
        McpError::InvalidRequest(m) => "Invalid request: "@ + m@,
        McpError::InvalidParameter(m) => "Invalid parameter: "@ + m@,
        McpError::ResourceNotFound(m) => "Resource not found: "@ + m@,
        McpError::InternalError(m) => "Internal error: "@ + m@,
        McpError::ToolError(m) => "Tool execution error: "@ + m@,
        McpError::RateLimit(m) => "Rate limit exceeded: "@ + m@,
        McpError::Timeout(m) => "Timeout: "@ + m@,
    }
}

/// The detail carried by an MCP error.
pub open spec fn mcp_error_detail(e: McpError) -> String {
    match e {
        McpError::InvalidRequest(m) => m,
        McpError::InvalidParameter(m) => m,
        McpError::ResourceNotFound(m) => m,
        McpError::InternalError(m) => m,
        McpError::ToolError(m) => m,
        McpError::RateLimit(m) => m,
        McpError::Timeout(m) => m,
    }
}

/// Invalid requests and parameters and unknown resources keep their own
/// JSON-RPC class; every other error is reported as an internal error.
pub open spec fn mcp_error_kind(e: McpError) -> RpcErrorKind {
    match e {
        McpError::InvalidRequest(_) => RpcErrorKind::InvalidRequest,
        McpError::InvalidParameter(_) => RpcErrorKind::InvalidParams,
        McpError::ResourceNotFound(_) => RpcErrorKind::ResourceNotFound,
        _ => RpcErrorKind::InternalError,
    }
}

impl McpError {
    /// The error's message, as its `Display` shows it.
    pub fn to_string(&self) -> (s: String)
        ensures
            s@ == mcp_error_text(*self),
    {
        match self {
            McpError::InvalidRequest(m) => joined("Invalid request: ", m.as_str()),
            McpError::InvalidParameter(m) => joined("Invalid parameter: ", m.as_str()),
            McpError::ResourceNotFound(m) => joined("Resource not found: ", m.as_str()),
            McpError::InternalError(m) => joined("Internal error: ", m.as_str()),
            McpError::ToolError(m) => joined("Tool execution error: ", m.as_str()),
            McpError::RateLimit(m) => joined("Rate limit exceeded: ", m.as_str()),
            McpError::Timeout(m) => joined("Timeout: ", m.as_str()),
        }
    }

    /// The detail carried by the error, without its label.
    pub fn detail(&self) -> (m: String)
        ensures
            m == mcp_error_detail(*self),
    {
        match self {
            McpError::InvalidRequest(m) => m.clone(),
            McpError::InvalidParameter(m) => m.clone(),
            McpError::ResourceNotFound(m) => m.clone(),
            McpError::InternalError(m) => m.clone(),
            McpError::ToolError(m) => m.clone(),
            McpError::RateLimit(m) => m.clone(),
            McpError::Timeout(m) => m.clone(),
        }
    }

    /// The JSON-RPC error class the error is reported under.
    pub fn rpc_kind(&self) -> (k: RpcErrorKind)
        ensures
            k == mcp_error_kind(*self),
    {
        match self {
            McpError::InvalidRequest(_) => RpcErrorKind::InvalidRequest,
            McpError::InvalidParameter(_) => RpcErrorKind::InvalidParams,
            McpError::ResourceNotFound(_) => RpcErrorKind::ResourceNotFound,
            _ => RpcErrorKind::InternalError,
        }
    }
}

/// Unified error type of the library.
///
/// Errors raised by the transport, by JSON handling and by I/O arrive as
/// their rendered messages; coordinates arrive as the text of the numbers
/// that were out of range.
#[derive(Debug, Clone, PartialEq, Eq)]
pub enum Error {
    HttpClient(String),
    Serialization(String),
    Mcp(String),
    Config(String),
    InvalidParameter(String),
    ApiError(String),
    InvalidCoordinates { lat: String, lon: String },
    RateLimit { seconds: u64 },
    Timeout(u64),
    Io(String),
    Internal(String),
}

/// The text of an error, as its `Display` shows it.
pub open spec fn error_text(e: Error) -> Seq<char> {
    match e {
        Error::HttpClient(m) => "HTTP client error: "@ + m@,
        Error::Serialization(m) => "JSON serialization error: "@ + m@,
        Error::Mcp(m) => "MCP error: "@ + m@,
        Error::Config(m) => "Configuration error: "@ + m@,
        Error::InvalidParameter(m) => "Invalid parameter: "@ + m@,
        Error::ApiError(m) => "API error: "@ + m@,
        Error::InvalidCoordinates { lat, lon } => "Invalid coordinates: latitude "@ + lat@
            + ", longitude "@ + lon@,
        Error::RateLimit { seconds } => "Rate limited: retry after "@ + decimal(seconds as nat)
            + " seconds"@,
        Error::Timeout(secs) => "Timeout after "@ + decimal(secs as nat) + " seconds"@,
        Error::Io(m) => "IO error: "@ + m@,
        Error::Internal(m) => "Internal error: "@ + m@,
    }
}

impl Error {
    /// The error's message, as its `Display` shows it.
    pub fn to_string(&self) -> (s: String)
        ensures
            s@ == error_text(*self),
    {
        match self {
            Error::HttpClient(m) => joined("HTTP client error: ", m.as_str()),
            Error::Serialization(m) => joined("JSON serialization error: ", m.as_str()),
            Error::Mcp(m) => joined("MCP error: ", m.as_str()),
            Error::Config(m) => joined("Configuration error: ", m.as_str()),
            Error::InvalidParameter(m) => joined("Invalid parameter: ", m.as_str()),
            Error::ApiError(m) => joined("API error: ", m.as_str()),
            Error::InvalidCoordinates { lat, lon } => {
                let s = joined3("Invalid coordinates: latitude ", lat.as_str(), ", longitude ");
                s.concat(lon.as_str())
            },
            Error::RateLimit { seconds } => {
                let n = decimal_string(*seconds);
                joined3("Rate limited: retry after ", n.as_str(), " seconds")
            },
            Error::Timeout(secs) => {
                let n = decimal_string(*secs);
                joined3("Timeout after ", n.as_str(), " seconds")
            },
            Error::Io(m) => joined("IO error: ", m.as_str()),
            Error::Internal(m) => joined("Internal error: ", m.as_str()),
        }
    }
}

/// `r` is how the library error `e` is reported over MCP: parameter
/// problems stay parameter problems, rate limits and timeouts keep their
/// kind, API errors become tool errors, and the rest become internal errors.
pub open spec fn reports_as(e: Error, r: McpError) -> bool {
    match e {
        Error::InvalidCoordinates { lat, lon } => r matches McpError::InvalidParameter(m)
            && m@ == "Invalid coordinates: lat="@ + lat@ + ", lon="@ + lon@,
        Error::InvalidParameter(msg) => r matches McpError::InvalidParameter(m) && m@ == msg@,
        Error::RateLimit { seconds } => r matches McpError::RateLimit(m) && m@ == "Retry after "@
            + decimal(seconds as nat) + " seconds"@,
        Error::Timeout(secs) => r matches McpError::Timeout(m) && m@ == "Timeout after "@
            + decimal(secs as nat) + " seconds"@,
        Error::ApiError(msg) => r matches McpError::ToolError(m) && m@ == msg@,
        Error::HttpClient(msg) => r matches McpError::InternalError(m) && m@ == "HTTP error: "@
            + msg@,
        Error::Serialization(msg) => r matches McpError::InternalError(m) && m@
            == "Serialization error: "@ + msg@,
        Error::Mcp(msg) => r matches McpError::InternalError(m) && m@ == msg@,
        Error::Config(msg) => r matches McpError::InternalError(m) && m@ == "Config error: "@
            + msg@,
        Error::Io(msg) => r matches McpError::InternalError(m) && m@ == "IO error: "@ + msg@,
        Error::Internal(msg) => r matches McpError::InternalError(m) && m@ == msg@,
    }
}

impl McpError {
    /// Converts an error of the library into the MCP error it is reported as.
    pub fn from(err: Error) -> (r: McpError)
        ensures
            reports_as(err, r),
    {
        match err {
            Error::InvalidCoordinates { lat, lon } => {
                let s = joined3("Invalid coordinates: lat=", lat.as_str(), ", lon=");
                McpError::InvalidParameter(s.concat(lon.as_str()))
            },
            Error::InvalidParameter(msg) => McpError::InvalidParameter(msg),
            Error::RateLimit { seconds } => {
                let n = decimal_string(seconds);
                McpError::RateLimit(joined3("Retry after ", n.as_str(), " seconds"))
            },
            Error::Timeout(secs) => {
                let n = decimal_string(secs);
                McpError::Timeout(joined3("Timeout after ", n.as_str(), " seconds"))
            },
            Error::ApiError(msg) => McpError::ToolError(msg),
            Error::HttpClient(msg) => McpError::InternalError(joined("HTTP error: ", msg.as_str())),
            Error::Serialization(msg) => McpError::InternalError(
                joined("Serialization error: ", msg.as_str()),
            ),
            Error::Mcp(msg) => McpError::InternalError(msg),
            Error::Config(msg) => McpError::InternalError(joined("Config error: ", msg.as_str())),
            Error::Io(msg) => McpError::InternalError(joined("IO error: ", msg.as_str())),
            Error::Internal(msg) => McpError::InternalError(msg),
        }
    }
}

/// Parameter problems reach MCP clients as invalid-params errors, whether the
/// library error is converted directly or reported by a tool's validation;
/// API errors, transport failures and internal errors reach them as internal
/// errors.
pub proof fn lemma_parameter_errors_reach_clients_as_invalid_params(e: Error, r: McpError)
    requires
        reports_as(e, r) || validation_reported_as(e, r),
    ensures
        (e is InvalidParameter || e is InvalidCoordinates) ==> mcp_error_kind(r)
            == RpcErrorKind::InvalidParams,
        (e is HttpClient || e is Serialization || e is Internal || e is Mcp) ==> mcp_error_kind(r)
            == RpcErrorKind::InternalError,
{
}

/// `r` is how a tool reports an error found while validating its request:
/// coordinates out of range and bad parameters are parameter errors, anything
/// else is an internal error carrying the error's text.
pub open spec fn validation_reported_as(e: Error, r: McpError) -> bool {
    match e {
        Error::InvalidCoordinates { lat, lon } => r matches McpError::InvalidParameter(m) && m@
            == "Invalid coordinates: latitude must be -90..90, got "@ + lat@
            + ", longitude must be -180..180, got "@ + lon@,
        Error::InvalidParameter(msg) => r matches McpError::InvalidParameter(m) && m@ == msg@,
        _ => r matches McpError::InternalError(m) && m@ == error_text(e),
    }
}

/// Maps an error found while validating a tool request to the MCP error the
/// tool returns.
pub fn validation_error_to_mcp(e: Error) -> (r: McpError)
    ensures
        validation_reported_as(e, r),
{
    match e {
        Error::InvalidCoordinates { lat, lon } => {
            let s = joined3(
                "Invalid coordinates: latitude must be -90..90, got ",
                lat.as_str(),
                ", longitude must be -180..180, got ",
            );
            McpError::InvalidParameter(s.concat(lon.as_str()))
        },
        Error::InvalidParameter(msg) => McpError::InvalidParameter(msg),
        other => McpError::InternalError(other.to_string()),
    }
}

/// `r` is how a tool reports an error raised while calling the API: transport
/// failures and other errors are internal errors, API errors are tool errors,
/// a timeout is reported with the tool's own `timeout_message`, and a rate
/// limit keeps the number of seconds to wait.
pub open spec fn api_failure_reported_as(e: Error, timeout_message: Seq<char>, r: McpError) -> bool {
    match e {
        Error::HttpClient(msg) => r matches McpError::InternalError(m) && m@
            == "HTTP request failed: "@ + msg@,
        Error::ApiError(msg) => r matches McpError::ToolError(m) && m@ == msg@,
        Error::Timeout(_) => r matches McpError::Timeout(m) && m@ == timeout_message,
        Error::RateLimit { seconds } => r matches McpError::RateLimit(m) && m@
            == "Rate limited, retry after "@ + decimal(seconds as nat) + " seconds"@,
        _ => r matches McpError::InternalError(m) && m@ == error_text(e),
    }
}

/// Maps an error raised while calling the API to the MCP error a tool
/// returns.
pub fn api_error_to_mcp(e: Error, timeout_message: &str) -> (r: McpError)
    ensures
        api_failure_reported_as(e, timeout_message@, r),
{
    match e {
        Error::HttpClient(msg) => McpError::InternalError(
            joined("HTTP request failed: ", msg.as_str()),
        ),
        Error::ApiError(msg) => McpError::ToolError(msg),
        Error::Timeout(_) => McpError::Timeout(String::from_str(timeout_message)),
        Error::RateLimit { seconds } => {
            let n = decimal_string(seconds);
            McpError::RateLimit(joined3("Rate limited, retry after ", n.as_str(), " seconds"))
        },
        other => McpError::InternalError(other.to_string()),
    }
}

/// Tool response content.
#[derive(Debug)]
pub enum ToolContent {
    Text(String),
    Json(serde_json::Value),
}

/// MCP tool call result.
#[derive(Debug)]
pub struct CallToolResult {
    pub content: Vec<ToolContent>,
    pub is_error: bool,
}

impl CallToolResult {
    /// A successful tool result with the given content.
    pub fn success(content: Vec<ToolContent>) -> (r: Self)
        ensures
            r.content == content,
            !r.is_error,
    {
        CallToolResult { content, is_error: false }
    }

    /// An error result whose only content is `message`.
    pub fn error(message: String) -> (r: Self)
        ensures
            r.is_error,
            r.content.len() == 1,
            r.content[0] == ToolContent::Text(message),
    {
        let mut content = Vec::new();
        content.push(ToolContent::Text(message));
        CallToolResult { content, is_error: true }
    }

    /// Text content.
    pub fn text(content: String) -> (c: ToolContent)
        ensures
            c == ToolContent::Text(content),
    {
        ToolContent::Text(content)
    }

    /// JSON content.
    pub fn json(value: serde_json::Value) -> (c: ToolContent)
        ensures
            c == ToolContent::Json(value),
    {
        ToolContent::Json(value)
    }

    /// A successful result whose only content is the text `text`.
    pub fn success_text(text: String) -> (r: Self)
        ensures
            !r.is_error,
            r.content.len() == 1,
            r.content[0] == ToolContent::Text(text),
    {
        let mut content = Vec::new();
        content.push(ToolContent::Text(text));
        CallToolResult { content, is_error: false }
    }
}

/// Only a parameter error is reported as invalid params; only an invalid
/// request as an invalid request and only a missing resource as not found.
/// Tool errors (the API's own failures), rate limits, timeouts and internal
/// errors are all reported as internal errors.
pub proof fn lemma_only_parameter_errors_are_invalid_params(e: McpError)
    ensures
        mcp_error_kind(e) == RpcErrorKind::InvalidParams <==> e is InvalidParameter,
        mcp_error_kind(e) == RpcErrorKind::InvalidRequest <==> e is InvalidRequest,
        mcp_error_kind(e) == RpcErrorKind::ResourceNotFound <==> e is ResourceNotFound,
        mcp_error_kind(e) == RpcErrorKind::InternalError <==> (e is InternalError || e is ToolError
            || e is RateLimit || e is Timeout),
{
}

} // verus!
