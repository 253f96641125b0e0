use aigw::anthropic::transport::{AuthMode, Transport, TransportConfig, TransportConfigError};

/// The error of a result whose success value has no `Debug` form.
fn err<T, E>(r: Result<T, E>) -> E {
    match r {
        Err(e) => e,
        Ok(_) => panic!("expected an error"),
    }
}

fn config() -> TransportConfig {
    TransportConfig {
        api_key: "sk-ant-test".to_owned(),
        ..Default::default()
    }
}

fn has_header(t: &Transport, name: &str) -> bool {
    t.headers().iter().any(|(k, _)| k == name)
}

fn header<'a>(t: &'a Transport, name: &str) -> Option<&'a str> {
    t.headers().iter().find(|(k, _)| k == name).map(|(_, v)| v.as_str())
}

#[test]
fn valid_config_builds_transport() {
    let t = Transport::new(config()).unwrap();
    assert_eq!(t.base_url(), "https://api.anthropic.com");
    assert!(has_header(&t, "x-api-key"));
    assert!(has_header(&t, "anthropic-version"));
    assert!(has_header(&t, "content-type"));
}

#[test]
fn normalizes_base_url() {
    let mut cfg = config();
    cfg.base_url = "  https://custom.api.com/  ".to_owned();
    let t = Transport::new(cfg).unwrap();
    assert_eq!(t.base_url(), "https://custom.api.com");
}

#[test]
fn rejects_empty_api_key() {
    let mut cfg = config();
    cfg.api_key = "  ".to_owned();
    assert_eq!(err(Transport::new(cfg)), TransportConfigError::MissingApiKey);
}

#[test]
fn rejects_empty_base_url() {
    let mut cfg = config();
    cfg.base_url = "  ".to_owned();
    assert_eq!(err(Transport::new(cfg)), TransportConfigError::MissingBaseUrl);
}

#[test]
fn rejects_non_http_base_url() {
    let mut cfg = config();
    cfg.base_url = "ftp://example.com".to_owned();
    assert_eq!(
        err(Transport::new(cfg)),
        TransportConfigError::InvalidBaseUrl("ftp://example.com".to_owned()),
    );
}

#[test]
fn rejects_zero_timeout() {
    let mut cfg = config();
    cfg.timeout_nanos = 0;
    assert_eq!(err(Transport::new(cfg)), TransportConfigError::InvalidTimeout);
}

#[test]
fn beta_header_included_when_set() {
    let mut cfg = config();
    cfg.beta = Some("code-20250219,fast-mode-2026-02-01".to_owned());
    let t = Transport::new(cfg).unwrap();
    assert!(has_header(&t, "anthropic-beta"));
}

#[test]
fn bearer_mode_sends_authorization_header() {
    let cfg = TransportConfig {
        api_key: "oauth-token-123".to_owned(),
        auth_mode: AuthMode::Bearer,
        ..Default::default()
    };
    let t = Transport::new(cfg).unwrap();
    assert!(!has_header(&t, "x-api-key"));
    assert_eq!(header(&t, "authorization"), Some("Bearer oauth-token-123"));
}

#[test]
fn url_concatenation() {
    let t = Transport::new(config()).unwrap();
    assert_eq!(t.url("/v1/messages"), "https://api.anthropic.com/v1/messages");
    assert_eq!(t.url("v1/messages"), "https://api.anthropic.com/v1/messages");
    assert_eq!(t.url(""), "https://api.anthropic.com");
    assert_eq!(t.url("  "), "https://api.anthropic.com");
}

#[test]
fn api_key_is_trimmed_and_version_sent() {
    let mut cfg = config();
    cfg.api_key = "  sk-ant-test \n".to_owned();
    let t = Transport::new(cfg).unwrap();
    assert_eq!(header(&t, "x-api-key"), Some("sk-ant-test"));
    assert_eq!(header(&t, "anthropic-version"), Some("2023-06-01"));
    assert_eq!(header(&t, "content-type"), Some("application/json"));
    assert_eq!(t.timeout_nanos(), 600_000_000_000);
}

#[test]
fn rejects_header_values_that_cannot_be_sent() {
    let mut cfg = config();
    cfg.api_key = "sk\u{7f}bad".to_owned();
    assert_eq!(err(Transport::new(cfg)), TransportConfigError::InvalidApiKey);

    let mut cfg = config();
    cfg.version = "2023\n06".to_owned();
    assert_eq!(
        err(Transport::new(cfg)),
        TransportConfigError::InvalidVersion("2023\n06".to_owned()),
    );

    let mut cfg = config();
    cfg.beta = Some("a\u{0}b".to_owned());
    assert_eq!(
        err(Transport::new(cfg)),
        TransportConfigError::InvalidBeta("a\u{0}b".to_owned()),
    );
}

#[test]
fn extra_headers_are_sent() {
    let mut cfg = config();
    cfg.extra_headers = vec![("x-app".to_owned(), "cli".to_owned())];
    let t = Transport::new(cfg).unwrap();
    assert_eq!(header(&t, "x-app"), Some("cli"));
}

#[test]
fn anthropic_transport_debug_redacts_api_key() {
    let t = Transport::new(config()).unwrap();
    let debug = t.redacted_debug();
    assert!(!debug.contains("sk-ant-test"));
    assert_eq!(debug, "Transport { base_url: \"https://api.anthropic.com\", timeout_nanos: 600000000000, .. }");

    let debug = config().redacted_debug();
    assert!(!debug.contains("sk-ant-test"));
    assert!(debug.starts_with("TransportConfig { api_key: \"[REDACTED]\", auth_mode: ApiKey, "));
}
