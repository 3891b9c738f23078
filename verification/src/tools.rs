//! The `ping` tool's response.

use vstd::prelude::*;
use crate::VERSION;
use crate::clock::{rfc3339_at, rfc3339_text, unix_clock};

verus! {

/// Ping response for connectivity testing.
#[derive(Debug, Clone)]
pub struct PingResponse {
    pub message: String,
    pub timestamp: String,
    pub version: String,
}

/// The Unix epoch in RFC 3339 form, reported when the clock cannot be
/// rendered (it reads before the epoch, or beyond what `chrono` represents).
pub const EPOCH_RFC3339: &'static str = "1970-01-01T00:00:00+00:00";

/// The RFC 3339 text that `chrono` gives a clock reading, when there is a
/// reading whose seconds fit an `i64` and `chrono` can represent the instant.
pub open spec fn reading_rfc3339(reading: Option<(u64, u32)>) -> Option<Seq<char>> {
    match reading {
        Some((secs, nanos)) => if secs <= i64::MAX {
            rfc3339_text(secs as i64, nanos)
        } else {
            None
        },
        None => None,
    }
}

/// The timestamp text for a clock reading: its RFC 3339 text when the
/// reading exists and `chrono` can render it, the epoch otherwise.
pub open spec fn timestamp_text(reading: Option<(u64, u32)>) -> Seq<char> {
    match reading_rfc3339(reading) {
        Some(text) => text,
        None => EPOCH_RFC3339@,
    }
}

/// The timestamp for a clock reading. It is never empty.
pub fn timestamp_for_reading(reading: Option<(u64, u32)>) -> (t: String)
    ensures
        t@ == timestamp_text(reading),
        t@.len() > 0,
{
    proof {
        reveal_strlit("1970-01-01T00:00:00+00:00");
    }
    match reading {
        Some((secs, nanos)) => {
            if secs <= i64::MAX as u64 {
                match rfc3339_at(secs as i64, nanos) {
                    Some(text) => text,
                    None => String::from_str(EPOCH_RFC3339),
                }
            } else {
                String::from_str(EPOCH_RFC3339)
            }
        },
        None => String::from_str(EPOCH_RFC3339),
    }
}

impl PingResponse {
    /// The answer to a ping made at `timestamp`: `pong`, with the server's
    /// version.
    pub fn new(timestamp: String) -> (r: Self)
        ensures
            r.message@ == "pong"@,
            r.timestamp == timestamp,
            r.version@ == VERSION@,
    {
        PingResponse {
            message: String::from_str("pong"),
            timestamp,
            version: String::from_str(VERSION),
        }
    }

    /// The answer to a ping made now: its timestamp is the text of a clock
    /// reading (whose nanoseconds are below a second), never empty.
    pub fn now() -> (r: Self)
        ensures
            r.message@ == "pong"@,
            r.version@ == VERSION@,
            r.timestamp@.len() > 0,
            exists|reading: Option<(u64, u32)>|
                (reading matches Some(x) ==> x.1 < 1_000_000_000) && #[trigger] timestamp_text(
                    reading,
                ) == r.timestamp@,
    {
        let reading = unix_clock();
        let t = timestamp_for_reading(reading);
        assert(timestamp_text(reading) == t@);
        PingResponse::new(t)
    }
}

} // verus!
