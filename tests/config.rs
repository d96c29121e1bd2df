use state_exporter::config::{Config, ConfigError, DEFAULT_LISTEN_ADDRESS, DEFAULT_POLL_INTERVAL_SECS};

#[test]
fn zero_poll_interval_is_refused() {
    let r = Config::new(0, "h:1".to_string(), None, false, "127.0.0.1:3030".to_string());
    assert_eq!(r.unwrap_err(), ConfigError::ZeroPollInterval);
}

#[test]
fn settings_are_kept_as_given() {
    let c = Config::new(1, "h:1".to_string(), Some("t".to_string()), true, "0.0.0.0:9".to_string())
        .unwrap();
    assert_eq!(c.poll_interval_secs, 1);
    assert_eq!(c.endpoint, "h:1");
    assert_eq!(c.bearer_token.as_deref(), Some("t"));
    assert!(c.allow_insecure);
    assert_eq!(c.listen, "0.0.0.0:9");
}

#[test]
fn defaults() {
    assert_eq!(DEFAULT_POLL_INTERVAL_SECS, 5);
    assert_eq!(DEFAULT_LISTEN_ADDRESS, "127.0.0.1:3030");
}
