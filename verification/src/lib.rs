//! Open-Meteo MCP server library.
//!
//! The verified core of a Model Context Protocol server for weather, snow,
//! air quality and location data served by the Open-Meteo API: request and
//! configuration validation, date checking, retry scheduling, health
//! reporting, error mapping and prompt rendering.

pub mod client;
mod clock;
pub mod comfort;
pub mod config;
pub mod dates;
pub mod error;
pub mod health;
pub mod location;
pub mod prompts;
pub mod requests;
pub mod resources;
pub mod retry;
pub mod text;
pub mod tools;
pub mod transport;

use vstd::prelude::*;

verus! {

/// Version of the library.
pub const VERSION: &'static str = "1.2.0";

} // verus!
