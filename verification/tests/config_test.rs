use open_meteo_mcp::config::{
    default_api_base, default_host, default_log_level, default_port, default_timeout,
    default_transport, Config,
};
use open_meteo_mcp::retry::{RetryAction, RetryConfig, RetryState};

#[test]
fn test_config_defaults() {
    let cfg = Config::default();
    assert_eq!(cfg.host, "0.0.0.0");
    assert_eq!(cfg.port, 8888);
    assert_eq!(cfg.api_base, "https://api.open-meteo.com");
    assert_eq!(cfg.timeout_secs, 30);
    assert_eq!(cfg.transport, "stdio");
}

#[test]
fn config_default_helpers_and_log_level() {
    assert_eq!(default_host(), "0.0.0.0");
    assert_eq!(default_port(), 8888);
    assert_eq!(default_api_base(), "https://api.open-meteo.com");
    assert_eq!(default_timeout(), 30);
    assert_eq!(default_transport(), "stdio");
    assert_eq!(Config::default().log_level, Some("info".to_string()));
    assert_eq!(default_log_level(), Some("info".to_string()));
}

#[test]
fn config_from_env_or_default_prefers_what_was_loaded() {
    let mut loaded = Config::default();
    loaded.port = 9000;
    loaded.transport = "sse".to_string();
    let cfg = Config::from_env_or_default(Some(loaded));
    assert_eq!(cfg.port, 9000);
    assert_eq!(cfg.transport, "sse");
    let fallback = Config::from_env_or_default(None);
    assert_eq!(fallback.port, 8888);
    assert_eq!(fallback.transport, "stdio");
}

#[test]
fn test_retry_config_default() {
    let config = RetryConfig::default();
    assert_eq!(config.max_retries, 3);
    assert_eq!(config.initial_backoff_ms, 100);
}

#[test]
fn retry_schedule_doubles_up_to_the_cap() {
    let config = RetryConfig { max_retries: 5, initial_backoff_ms: 1000, max_backoff_ms: 5000 };
    let mut state = RetryState::new(config);
    let mut waits = Vec::new();
    loop {
        match state.after_attempt(false) {
            RetryAction::Wait { backoff_ms } => waits.push(backoff_ms),
            RetryAction::Finish => break,
        }
    }
    assert_eq!(waits, vec![1000, 2000, 4000, 5000, 5000]);
    assert_eq!(state.retries, 5);
}

#[test]
fn retry_default_allows_four_attempts() {
    let mut state = RetryState::new(RetryConfig::default());
    let mut attempts = 1;
    while let RetryAction::Wait { .. } = state.after_attempt(false) {
        attempts += 1;
    }
    assert_eq!(attempts, 4);
    assert_eq!(state.backoff_ms, 800);
}

#[test]
fn retry_success_finishes_at_once() {
    let mut state = RetryState::new(RetryConfig::default());
    assert_eq!(state.after_attempt(false), RetryAction::Wait { backoff_ms: 100 });
    assert_eq!(state.after_attempt(true), RetryAction::Finish);
    assert_eq!(state.retries, 1);
    assert_eq!(state.backoff_ms, 200);
}

#[test]
fn retry_without_retries_finishes_on_failure() {
    let config = RetryConfig { max_retries: 0, initial_backoff_ms: 100, max_backoff_ms: 5000 };
    let mut state = RetryState::new(config);
    assert_eq!(state.after_attempt(false), RetryAction::Finish);
}
