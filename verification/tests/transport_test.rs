use open_meteo_mcp::transport::{TransportConfig, TransportMode};

#[test]
fn test_transport_mode_display() {
    assert_eq!(TransportMode::Stdio.to_string(), "stdio");
    assert_eq!(
        TransportMode::Sse {
            host: "127.0.0.1".to_string(),
            port: 8888
        }
        .to_string(),
        "sse (127.0.0.1:8888)"
    );
}

#[test]
fn test_config_validation_valid() {
    let config = TransportConfig::sse("127.0.0.1".to_string(), 8888);
    assert!(config.validate().is_ok());

    let config = TransportConfig::stdio();
    assert!(config.validate().is_ok());
}

#[test]
fn test_config_validation_empty_host() {
    let config = TransportConfig {
        mode: TransportMode::Sse {
            host: String::new(),
            port: 8888,
        },
        timeout_secs: 30,
        health_check_interval_secs: 30,
        shutdown_timeout_secs: 10,
    };
    assert!(config.validate().is_err());
}

#[test]
fn test_config_validation_invalid_timeout() {
    let config = TransportConfig {
        mode: TransportMode::Stdio,
        timeout_secs: 400,
        health_check_interval_secs: 30,
        shutdown_timeout_secs: 10,
    };
    assert!(config.validate().is_err());
}

#[test]
fn transport_validation_messages() {
    assert_eq!(
        TransportConfig::sse("0.0.0.0".to_string(), 0).validate(),
        Err("Invalid port number: 0 (must be 1-65535)".to_string())
    );
    assert_eq!(
        TransportConfig::sse(String::new(), 8888).validate(),
        Err("Host cannot be empty".to_string())
    );
    let mut config = TransportConfig::stdio();
    config.timeout_secs = 400;
    assert_eq!(config.validate(), Err("Invalid timeout: 400 seconds (must be 1-300)".to_string()));
    config.timeout_secs = 0;
    assert_eq!(config.validate(), Err("Invalid timeout: 0 seconds (must be 1-300)".to_string()));
    config.timeout_secs = 300;
    assert!(config.validate().is_ok());
    config.shutdown_timeout_secs = 61;
    assert_eq!(
        config.validate(),
        Err("Invalid shutdown timeout: 61 seconds (must be 1-60)".to_string())
    );
    config.shutdown_timeout_secs = 60;
    assert!(config.validate().is_ok());
}

#[test]
fn transport_defaults() {
    let config = TransportConfig::default();
    assert!(matches!(config.mode, TransportMode::Stdio));
    assert_eq!(config.timeout_secs, 30);
    assert_eq!(config.health_check_interval_secs, 30);
    assert_eq!(config.shutdown_timeout_secs, 10);
    assert_eq!(
        TransportMode::Sse { host: "::1".to_string(), port: 65535 }.to_string(),
        "sse (::1:65535)"
    );
}
