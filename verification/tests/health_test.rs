use open_meteo_mcp::health::{
    cached_readiness, check_liveness, current_unix_timestamp, HealthCheckResponse, HealthStatus,
    seconds_of_reading, ReadinessCache, ReadinessStep,
};
use open_meteo_mcp::tools::{timestamp_for_reading, PingResponse, EPOCH_RFC3339};
use open_meteo_mcp::VERSION;

#[test]
fn test_health_status_display() {
    assert_eq!(HealthStatus::Healthy.to_string(), "healthy");
    assert_eq!(HealthStatus::Degraded.to_string(), "degraded");
    assert_eq!(HealthStatus::Unhealthy.to_string(), "unhealthy");
}

#[test]
fn test_health_checker_creation() {
    let cache = ReadinessCache::new(30);
    assert_eq!(cache.ttl_secs, 30);
    assert!(!cache.is_ready);
    assert_eq!(check_liveness(), HealthStatus::Healthy);
}

#[test]
fn test_liveness_response() {
    let response = HealthCheckResponse::liveness(current_unix_timestamp(), 0);
    assert_eq!(response.status, "healthy");
    assert!(response.timestamp > 0);
    assert_eq!(response.message, "MCP server is running");
    assert_eq!(response.version, VERSION);
    assert!(response.is_healthy());
}

#[test]
fn readiness_responses() {
    let ready = HealthCheckResponse::readiness(HealthStatus::Healthy, 5, 7);
    assert_eq!(ready.status, "healthy");
    assert_eq!(ready.message, "Service is ready to handle requests");
    assert_eq!(ready.uptime_secs, 7);
    assert!(ready.is_healthy());
    let degraded = HealthCheckResponse::readiness(HealthStatus::Degraded, 5, 7);
    assert_eq!(degraded.status, "degraded");
    assert_eq!(degraded.message, "Service is running but not ready (API unreachable)");
    assert!(!degraded.is_healthy());
    assert_eq!(HealthStatus::Unhealthy.readiness_message(), "Service is unhealthy");
}

#[test]
fn readiness_cache_respects_ttl() {
    assert_eq!(cached_readiness(Some(10), 30, true), Some(HealthStatus::Healthy));
    assert_eq!(cached_readiness(Some(29), 30, false), Some(HealthStatus::Degraded));
    assert_eq!(cached_readiness(Some(30), 30, true), None);
    assert_eq!(cached_readiness(None, 30, true), None);
    assert_eq!(cached_readiness(Some(0), 0, true), None);
    assert_eq!(HealthStatus::from_readiness(true), HealthStatus::Healthy);
    assert_eq!(HealthStatus::from_readiness(false), HealthStatus::Degraded);
}

#[test]
fn ping_answers_pong() {
    let response = PingResponse::now();
    assert_eq!(response.message, "pong");
    assert!(!response.timestamp.is_empty());
    assert_eq!(response.version, VERSION);
    let fixed = PingResponse::new("2026-02-04T12:00:00+00:00".to_string());
    assert_eq!(fixed.timestamp, "2026-02-04T12:00:00+00:00");
}

#[test]
fn timestamp_renders_clock_reading() {
    assert_eq!(timestamp_for_reading(Some((0, 0))), "1970-01-01T00:00:00+00:00");
    assert_eq!(
        timestamp_for_reading(Some((1_770_206_400, 0))),
        "2026-02-04T12:00:00+00:00"
    );
    assert_eq!(
        timestamp_for_reading(Some((1_770_206_400, 500_000_000))),
        "2026-02-04T12:00:00.500+00:00"
    );
}

#[test]
fn timestamp_falls_back_to_epoch() {
    assert_eq!(timestamp_for_reading(None), EPOCH_RFC3339);
    assert_eq!(timestamp_for_reading(Some((u64::MAX, 0))), EPOCH_RFC3339);
    assert_eq!(timestamp_for_reading(Some((i64::MAX as u64, 0))), EPOCH_RFC3339);
}

const SECOND: i128 = 1_000_000_000;

#[test]
fn readiness_cache_pings_once_per_ttl() {
    let mut cache = ReadinessCache::new(30);
    // A clock far past the epoch finds the new cache stale.
    let now = 1_770_206_400 * SECOND;
    assert_eq!(cache.step(now), ReadinessStep::CheckNow);
    assert_eq!(cache.record(now, true), HealthStatus::Healthy);
    assert_eq!(cache.last_check_nanos, now);
    assert_eq!(cache.step(now), ReadinessStep::Cached(HealthStatus::Healthy));
    assert_eq!(cache.step(now + 30 * SECOND - 1), ReadinessStep::Cached(HealthStatus::Healthy));
    assert_eq!(cache.step(now + 30 * SECOND), ReadinessStep::CheckNow);
    // A clock that went back finds the cache stale.
    assert_eq!(cache.step(now - 1), ReadinessStep::CheckNow);
    assert_eq!(cache.record(now + 30 * SECOND, false), HealthStatus::Degraded);
    assert_eq!(cache.step(now + 31 * SECOND), ReadinessStep::Cached(HealthStatus::Degraded));
}

#[test]
fn new_cache_serves_not_ready_near_the_epoch() {
    let cache = ReadinessCache::new(30);
    assert_eq!(cache.step(5 * SECOND), ReadinessStep::Cached(HealthStatus::Degraded));
    assert_eq!(ReadinessCache::new(0).step(0), ReadinessStep::CheckNow);
}

#[test]
fn readiness_cache_handles_extreme_instants() {
    let mut cache = ReadinessCache::new(u64::MAX);
    assert_eq!(cache.record(i128::MIN, true), HealthStatus::Healthy);
    assert_eq!(cache.step(i128::MAX), ReadinessStep::CheckNow);
    assert_eq!(cache.step(i128::MIN), ReadinessStep::Cached(HealthStatus::Healthy));
}

#[test]
fn seconds_of_reading_keeps_whole_seconds() {
    assert_eq!(seconds_of_reading(Some((1_770_206_400, 999_999_999))), 1_770_206_400);
    assert_eq!(seconds_of_reading(Some((0, 5))), 0);
    assert_eq!(seconds_of_reading(None), 0);
}
