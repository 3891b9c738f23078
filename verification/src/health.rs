//! Health checks: liveness (the process runs) and readiness (the API can be
//! reached), as served to container probes and HTTP health endpoints.

use vstd::prelude::*;
use crate::VERSION;
use crate::clock::unix_clock;

verus! {

/// Health status enumeration.
#[derive(Debug, Clone, Copy, PartialEq, Eq, Structural)]
pub enum HealthStatus {
    /// Service is healthy and ready.
    Healthy,
    /// Service is running but degraded.
    Degraded,
    /// Service is unhealthy.
    Unhealthy,
}

/// How a status is shown: `healthy`, `degraded` or `unhealthy`.
pub open spec fn status_text(s: HealthStatus) -> Seq<char> {
    match s {
        HealthStatus::Healthy => "healthy"@,
        HealthStatus::Degraded => "degraded"@,
        HealthStatus::Unhealthy => "unhealthy"@,
    }
}

/// The message served with a readiness status.
pub open spec fn readiness_text(s: HealthStatus) -> Seq<char> {
    match s {
        HealthStatus::Healthy => "Service is ready to handle requests"@,
        HealthStatus::Degraded => "Service is running but not ready (API unreachable)"@,
        HealthStatus::Unhealthy => "Service is unhealthy"@,
    }
}

/// The readiness status for the outcome of a connectivity check.
pub open spec fn status_for_readiness(ready: bool) -> HealthStatus {
    if ready {
        HealthStatus::Healthy
    } else {
        HealthStatus::Degraded
    }
}

impl HealthStatus {
    /// The status as its `Display` shows it.
    pub fn to_string(&self) -> (s: String)
        ensures
            s@ == status_text(*self),
    {
        match self {
            HealthStatus::Healthy => String::from_str("healthy"),
            HealthStatus::Degraded => String::from_str("degraded"),
            HealthStatus::Unhealthy => String::from_str("unhealthy"),
        }
    }

    /// Healthy when the service is ready, degraded when it is not.
    pub fn from_readiness(ready: bool) -> (s: HealthStatus)
        ensures
            s == status_for_readiness(ready),
    {
        if ready {
            HealthStatus::Healthy
        } else {
            HealthStatus::Degraded
        }
    }

    /// The message served with this status by the readiness probe.
    pub fn readiness_message(&self) -> (m: String)
        ensures
            m@ == readiness_text(*self),
    {
        match self {
            HealthStatus::Healthy => String::from_str("Service is ready to handle requests"),
            HealthStatus::Degraded => String::from_str(
                "Service is running but not ready (API unreachable)",
            ),
            HealthStatus::Unhealthy => String::from_str("Service is unhealthy"),
        }
    }
}

/// Liveness check: a running process is alive.
pub fn check_liveness() -> (s: HealthStatus)
    ensures
        s == HealthStatus::Healthy,
{
    HealthStatus::Healthy
}

/// Readiness from the cache: the cached outcome is served while the last
/// check is younger than `ttl_secs` seconds; `None` means a new check is due.
/// `elapsed_secs` is the age of the last check in whole seconds, `None` when
/// the clock reads earlier than the last check.
pub fn cached_readiness(elapsed_secs: Option<u64>, ttl_secs: u64, cached_ready: bool) -> (r: Option<
    HealthStatus,
>)
    ensures
        r == (if elapsed_secs matches Some(e) && e < ttl_secs {
            Some(status_for_readiness(cached_ready))
        } else {
            None::<HealthStatus>
        }),
{
    match elapsed_secs {
        Some(e) => {
            if e < ttl_secs {
                Some(HealthStatus::from_readiness(cached_ready))
            } else {
                None
            }
        },
        None => None,
    }
}

/// What a readiness check does next: serve the cached status, or ping the
/// API now.
#[derive(Debug, Clone, Copy, PartialEq, Eq, Structural)]
pub enum ReadinessStep {
    Cached(HealthStatus),
    CheckNow,
}

/// The readiness cache of a health checker: how long a check stays fresh,
/// when the last ping was made (nanoseconds since the Unix epoch, negative
/// before it) and whether it succeeded.
#[derive(Debug, Clone, Copy, PartialEq, Eq, Structural)]
pub struct ReadinessCache {
    pub ttl_secs: u64,
    pub last_check_nanos: i128,
    pub is_ready: bool,
}

/// The age in whole seconds, at `now`, of a check made at `last` (both in
/// nanoseconds since the epoch); `None` when `now` is earlier than `last`.
pub open spec fn check_age_secs(last: i128, now: i128) -> Option<int> {
    if now < last {
        None
    } else {
        Some((now - last) / 1_000_000_000)
    }
}

/// The cache is fresh at `now`: its last check is younger than its TTL.
pub open spec fn is_fresh(c: ReadinessCache, now: i128) -> bool {
    check_age_secs(c.last_check_nanos, now) matches Some(age) && age < c.ttl_secs
}

/// What a readiness check at `now` does: the cached outcome while the cache
/// is fresh, a new ping otherwise.
pub open spec fn readiness_step(c: ReadinessCache, now: i128) -> ReadinessStep {
    if is_fresh(c, now) {
        ReadinessStep::Cached(status_for_readiness(c.is_ready))
    } else {
        ReadinessStep::CheckNow
    }
}

/// The cache after a ping made at `now` with outcome `ping_ok`.
pub open spec fn after_ping(c: ReadinessCache, now: i128, ping_ok: bool) -> ReadinessCache {
    ReadinessCache { ttl_secs: c.ttl_secs, last_check_nanos: now, is_ready: ping_ok }
}

impl ReadinessCache {
    /// A cache that has never pinged: its last check is the epoch and it is
    /// not ready.
    pub fn new(ttl_secs: u64) -> (c: Self)
        ensures
            c == (ReadinessCache { ttl_secs, last_check_nanos: 0, is_ready: false }),
    {
        ReadinessCache { ttl_secs, last_check_nanos: 0, is_ready: false }
    }

    /// What a readiness check at `now_nanos` does.
    pub fn step(&self, now_nanos: i128) -> (s: ReadinessStep)
        ensures
            s == readiness_step(*self, now_nanos),
    {
        let age: Option<u64> = if now_nanos < self.last_check_nanos {
            None
        } else {
            match now_nanos.checked_sub(self.last_check_nanos) {
                Some(d) => {
                    let secs: u128 = (d as u128) / 1_000_000_000;
                    if secs > u64::MAX as u128 {
                        Some(u64::MAX)
                    } else {
                        Some(secs as u64)
                    }
                },
                None => Some(u64::MAX),
            }
        };
        match cached_readiness(age, self.ttl_secs, self.is_ready) {
            Some(status) => ReadinessStep::Cached(status),
            None => ReadinessStep::CheckNow,
        }
    }

    /// Records a ping made at `now_nanos` and returns the status it gives.
    pub fn record(&mut self, now_nanos: i128, ping_ok: bool) -> (s: HealthStatus)
        ensures
            *final(self) == after_ping(*old(self), now_nanos, ping_ok),
            s == status_for_readiness(ping_ok),
    {
        self.last_check_nanos = now_nanos;
        self.is_ready = ping_ok;
        HealthStatus::from_readiness(ping_ok)
    }
}

/// A readiness check serves the last ping's outcome while that ping is
/// younger than the TTL and pings again otherwise; after a ping at `now`
/// with outcome `ping_ok`, a check at `later` serves that outcome exactly
/// when `later` is no earlier than `now` and less than the TTL after it, and
/// a check at the same instant serves it whenever the TTL is not zero.
pub proof fn lemma_readiness_cycle(c: ReadinessCache, now: i128, ping_ok: bool, later: i128)
    ensures
        is_fresh(c, now) ==> readiness_step(c, now) == ReadinessStep::Cached(
            status_for_readiness(c.is_ready),
        ),
        !is_fresh(c, now) ==> readiness_step(c, now) == ReadinessStep::CheckNow,
        readiness_step(after_ping(c, now, ping_ok), later) == (if now <= later && (later - now)
            / 1_000_000_000 < c.ttl_secs {
            ReadinessStep::Cached(status_for_readiness(ping_ok))
        } else {
            ReadinessStep::CheckNow
        }),
        c.ttl_secs > 0 ==> readiness_step(after_ping(c, now, ping_ok), now)
            == ReadinessStep::Cached(status_for_readiness(ping_ok)),
{
}

/// Health check response.
#[derive(Debug, Clone)]
pub struct HealthCheckResponse {
    /// Overall health status.
    pub status: String,
    /// Human-readable message.
    pub message: String,
    /// Unix timestamp of check.
    pub timestamp: u64,
    /// Service version.
    pub version: String,
    /// Uptime in seconds.
    pub uptime_secs: u64,
}

impl HealthCheckResponse {
    /// The liveness response: healthy, with the server's version.
    pub fn liveness(timestamp: u64, uptime_secs: u64) -> (r: Self)
        ensures
            r.status@ == "healthy"@,
            r.message@ == "MCP server is running"@,
            r.timestamp == timestamp,
            r.version@ == VERSION@,
            r.uptime_secs == uptime_secs,
    {
        HealthCheckResponse {
            status: String::from_str("healthy"),
            message: String::from_str("MCP server is running"),
            timestamp,
            version: String::from_str(VERSION),
            uptime_secs,
        }
    }

    /// The readiness response for `status`.
    pub fn readiness(status: HealthStatus, timestamp: u64, uptime_secs: u64) -> (r: Self)
        ensures
            r.status@ == status_text(status),
            r.message@ == readiness_text(status),
            r.timestamp == timestamp,
            r.version@ == VERSION@,
            r.uptime_secs == uptime_secs,
    {
        HealthCheckResponse {
            status: status.to_string(),
            message: status.readiness_message(),
            timestamp,
            version: String::from_str(VERSION),
            uptime_secs,
        }
    }

    /// The response reports a healthy service (the readiness endpoint then
    /// answers 200, otherwise 503).
    pub fn is_healthy(&self) -> (b: bool)
        ensures
            b == (self.status@ == "healthy"@),
    {
        crate::text::str_equal(self.status.as_str(), "healthy")
    }
}

/// Readiness is never reported as unhealthy: whether served from the cache
/// or freshly checked, it is healthy or degraded.
pub proof fn lemma_readiness_never_unhealthy(ready: bool)
    ensures
        status_for_readiness(ready) != HealthStatus::Unhealthy,
        status_for_readiness(ready) == HealthStatus::Healthy <==> ready,
{
}

/// The whole seconds of a clock reading, 0 when there is no reading (the
/// clock reads before 1970).
pub fn seconds_of_reading(reading: Option<(u64, u32)>) -> (t: u64)
    ensures
        t == (match reading {
            Some((secs, _)) => secs,
            None => 0u64,
        }),
{
    match reading {
        Some((secs, _)) => secs,
        None => 0,
    }
}

/// Current Unix timestamp in seconds: the seconds of the clock's reading,
/// 0 when the clock reads before 1970.
pub fn current_unix_timestamp() -> (t: u64) {
    seconds_of_reading(unix_clock())
}

} // verus!
