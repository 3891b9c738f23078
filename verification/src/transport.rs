//! Transport configuration: STDIO for desktop clients, or streamable HTTP
//! (served at `/sse`) for web clients.

use vstd::prelude::*;
use crate::text::{decimal, decimal_string, joined3};

verus! {

/// Transport protocol modes.
#[derive(Debug, Clone)]
pub enum TransportMode {
    /// STDIO transport for desktop MCP clients.
    Stdio,
    /// HTTP transport for web clients.
    Sse {
        /// Host to bind to (e.g. "127.0.0.1", "0.0.0.0").
        host: String,
        /// Port to listen on (1-65535).
        port: u16,
    },
}

/// How a transport mode is shown: `stdio`, or `sse (HOST:PORT)`.
pub open spec fn mode_text(mode: TransportMode) -> Seq<char> {
    match mode {
        TransportMode::Stdio => "stdio"@,
        TransportMode::Sse { host, port } => "sse ("@ + host@ + ":"@ + decimal(port as nat)
            + ")"@,
    }
}

impl TransportMode {
    /// The mode as its `Display` shows it.
    pub fn to_string(&self) -> (s: String)
        ensures
            s@ == mode_text(*self),
    {
        match self {
            TransportMode::Stdio => String::from_str("stdio"),
            TransportMode::Sse { host, port } => {
                let p = decimal_string(*port as u64);
                let s = joined3("sse (", host.as_str(), ":");
                s.concat(p.as_str()).concat(")")
            },
        }
    }
}

/// Configuration for MCP transport.
#[derive(Debug, Clone)]
pub struct TransportConfig {
    /// Which transport mode to use.
    pub mode: TransportMode,
    /// Request/response timeout in seconds.
    pub timeout_secs: u64,
    /// Health check interval in seconds.
    pub health_check_interval_secs: u64,
    /// Graceful shutdown timeout in seconds.
    pub shutdown_timeout_secs: u64,
}

/// The default settings, with the given mode: a 30 s request timeout, a 30 s
/// health check interval and a 10 s shutdown timeout.
pub open spec fn config_with_mode(mode: TransportMode) -> TransportConfig {
    TransportConfig {
        mode,
        timeout_secs: 30,
        health_check_interval_secs: 30,
        shutdown_timeout_secs: 10,
    }
}

/// The first problem found in a transport configuration, in the order the
/// checks are made: the HTTP port, the HTTP host, the request timeout
/// (1-300 s), the shutdown timeout (1-60 s). `None` when there is none.
pub open spec fn transport_problem(c: TransportConfig) -> Option<Seq<char>> {
    if c.mode matches TransportMode::Sse { port, .. } && port == 0 {
        Some("Invalid port number: "@ + decimal(0) + " (must be 1-65535)"@)
    } else if c.mode matches TransportMode::Sse { host, .. } && host@.len() == 0 {
        Some("Host cannot be empty"@)
    } else if c.timeout_secs == 0 || c.timeout_secs > 300 {
        Some("Invalid timeout: "@ + decimal(c.timeout_secs as nat) + " seconds (must be 1-300)"@)
    } else if c.shutdown_timeout_secs == 0 || c.shutdown_timeout_secs > 60 {
        Some(
            "Invalid shutdown timeout: "@ + decimal(c.shutdown_timeout_secs as nat)
                + " seconds (must be 1-60)"@,
        )
    } else {
        None
    }
}

impl Default for TransportConfig {
    /// STDIO with the default settings.
    fn default() -> (c: Self)
        ensures
            c == config_with_mode(TransportMode::Stdio),
    {
        TransportConfig {
            mode: TransportMode::Stdio,
            timeout_secs: 30,
            health_check_interval_secs: 30,
            shutdown_timeout_secs: 10,
        }
    }
}

impl TransportConfig {
    /// Create HTTP transport config.
    pub fn sse(host: String, port: u16) -> (c: Self)
        ensures
            c == config_with_mode(TransportMode::Sse { host, port }),
    {
        TransportConfig {
            mode: TransportMode::Sse { host, port },
            timeout_secs: 30,
            health_check_interval_secs: 30,
            shutdown_timeout_secs: 10,
        }
    }

    /// Create STDIO transport config.
    pub fn stdio() -> (c: Self)
        ensures
            c == config_with_mode(TransportMode::Stdio),
    {
        TransportConfig {
            mode: TransportMode::Stdio,
            timeout_secs: 30,
            health_check_interval_secs: 30,
            shutdown_timeout_secs: 10,
        }
    }

    /// Validate configuration settings: a nonzero port and a nonempty host for
    /// HTTP, a request timeout of 1-300 s and a shutdown timeout of 1-60 s.
    pub fn validate(&self) -> (r: Result<(), String>)
        ensures
            r is Ok <==> transport_problem(*self) is None,
            r matches Err(m) ==> transport_problem(*self) == Some(m@),
    {
        match &self.mode {
            TransportMode::Sse { host, port } => {
                if *port == 0 {
                    let p = decimal_string(0);
                    return Err(joined3("Invalid port number: ", p.as_str(), " (must be 1-65535)"));
                }
                if host.as_str().is_empty() {
                    return Err(String::from_str("Host cannot be empty"));
                }
            },
            TransportMode::Stdio => {},
        }
        if self.timeout_secs == 0 || self.timeout_secs > 300 {
            let t = decimal_string(self.timeout_secs);
            return Err(joined3("Invalid timeout: ", t.as_str(), " seconds (must be 1-300)"));
        }
        if self.shutdown_timeout_secs == 0 || self.shutdown_timeout_secs > 60 {
            let t = decimal_string(self.shutdown_timeout_secs);
            return Err(
                joined3("Invalid shutdown timeout: ", t.as_str(), " seconds (must be 1-60)"),
            );
        }
        Ok(())
    }
}

/// The default STDIO configuration is valid.
pub proof fn lemma_stdio_config_valid()
    ensures
        transport_problem(config_with_mode(TransportMode::Stdio)) is None,
{
}

/// An HTTP configuration with default settings is valid exactly when its
/// port is nonzero and its host is nonempty.
pub proof fn lemma_sse_config_valid(host: String, port: u16)
    ensures
        transport_problem(config_with_mode(TransportMode::Sse { host, port })) is None <==> (
        port != 0 && host@.len() > 0),
{
}

} // verus!
