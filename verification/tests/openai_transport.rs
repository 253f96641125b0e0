use aigw::openai::transport::{
    default_openai_base_url, default_timeout_seconds, join_url, normalize_optional_field, HttpTransportConfig,
    OpenAIAuthConfig, OpenAITransport, OpenAITransportConfig, OpenAITransportConfigError,
};
use aigw::string_map::StringMap;

/// The error of a result whose success value has no `Debug` form.
fn err<T, E>(r: Result<T, E>) -> E {
    match r {
        Err(e) => e,
        Ok(_) => panic!("expected an error"),
    }
}

fn map(pairs: &[(&str, &str)]) -> StringMap {
    let mut m = StringMap::new();
    for (k, v) in pairs {
        m.insert(k.to_string(), v.to_string());
    }
    m
}

fn config() -> OpenAITransportConfig {
    OpenAITransportConfig {
        http: HttpTransportConfig {
            base_url: " https://api.openai.com/v1/ ".to_owned(),
            timeout_seconds: 30,
            default_headers: map(&[("X-Default", "default")]),
        },
        auth: OpenAIAuthConfig {
            api_key: " test-key ".to_owned(),
            organization: Some(" org_123 ".to_owned()),
            project: Some(" proj_456 ".to_owned()),
        },
    }
}

fn get<'a>(m: &'a StringMap, k: &str) -> Option<&'a str> {
    m.get(k).map(|s| s.as_str())
}

#[test]
fn minimal_config_uses_default_base_url() {
    // The configuration a document holding only an API key stands for.
    let config = OpenAITransportConfig {
        http: HttpTransportConfig {
            base_url: default_openai_base_url(),
            timeout_seconds: default_timeout_seconds(),
            default_headers: StringMap::new(),
        },
        auth: OpenAIAuthConfig { api_key: "sk-test".to_owned(), organization: None, project: None },
    };
    let transport = OpenAITransport::new(config).unwrap();
    assert_eq!(transport.base_url(), "https://api.openai.com/v1");
    assert_eq!(transport.timeout_seconds(), 600);
}

#[test]
fn prepare_json_request_normalizes_and_merges_headers() {
    let transport = OpenAITransport::new(config()).unwrap();
    let request = transport.prepare_json_request("/chat/completions", &map(&[("X-Request", "request")]));

    assert_eq!(request.url, "https://api.openai.com/v1/chat/completions");
    assert_eq!(get(&request.headers, "Authorization"), Some("Bearer test-key"));
    assert_eq!(get(&request.headers, "OpenAI-Organization"), Some("org_123"));
    assert_eq!(get(&request.headers, "OpenAI-Project"), Some("proj_456"));
    assert_eq!(get(&request.headers, "X-Default"), Some("default"));
    assert_eq!(get(&request.headers, "X-Request"), Some("request"));
    assert_eq!(get(&request.headers, "Accept"), Some("application/json"));
    assert_eq!(get(&request.headers, "Content-Type"), Some("application/json"));
}

#[test]
fn prepare_request_does_not_allow_overriding_auth_headers() {
    let mut config = config();
    config.http.default_headers.insert("Authorization".to_owned(), "Bearer default-override".to_owned());

    let transport = OpenAITransport::new(config).unwrap();
    let request = transport.prepare_request(
        "/models",
        &map(&[
            ("Authorization", "Bearer request-override"),
            ("OpenAI-Organization", "org_override"),
            ("OpenAI-Project", "proj_override"),
        ]),
    );

    assert_eq!(get(&request.headers, "Authorization"), Some("Bearer test-key"));
    assert_eq!(get(&request.headers, "OpenAI-Organization"), Some("org_123"));
    assert_eq!(get(&request.headers, "OpenAI-Project"), Some("proj_456"));
}

#[test]
fn transport_new_rejects_zero_timeout() {
    let mut config = config();
    config.http.timeout_seconds = 0;
    let err = err(OpenAITransport::new(config));
    assert_eq!(err, OpenAITransportConfigError::InvalidTimeoutSeconds(0));
}

#[test]
fn transport_new_rejects_missing_or_bad_fields() {
    let mut c = config();
    c.http.base_url = " / ".to_owned();
    assert_eq!(err(OpenAITransport::new(c)), OpenAITransportConfigError::MissingBaseUrl);

    let mut c = config();
    c.http.base_url = "ws://host/".to_owned();
    assert_eq!(
        err(OpenAITransport::new(c)),
        OpenAITransportConfigError::InvalidBaseUrl("ws://host".to_owned())
    );

    let mut c = config();
    c.auth.api_key = "   ".to_owned();
    assert_eq!(err(OpenAITransport::new(c)), OpenAITransportConfigError::MissingApiKey);
}

#[test]
fn blank_organization_is_dropped() {
    let mut c = config();
    c.auth.organization = Some("   ".to_owned());
    let transport = OpenAITransport::new(c).unwrap();
    assert_eq!(transport.organization(), None);
    assert_eq!(transport.project(), Some("proj_456"));
    let request = transport.prepare_request("/models", &StringMap::new());
    assert_eq!(get(&request.headers, "OpenAI-Organization"), None);
    assert_eq!(get(&request.headers, "Accept"), None);
}

#[test]
fn helpers_join_and_normalize() {
    assert_eq!(join_url("https://a/v1", "/models"), "https://a/v1/models");
    assert_eq!(join_url("https://a/v1", "models"), "https://a/v1/models");
    assert_eq!(normalize_optional_field("  x ".to_owned()), Some("x".to_owned()));
    assert_eq!(normalize_optional_field(" ".to_owned()), None);
}

#[test]
fn transport_debug_redacts_api_key() {
    let transport = OpenAITransport::new(config()).unwrap();
    let debug = transport.redacted_debug();
    assert!(!debug.contains("test-key"), "api_key leaked in Debug output");

    let config = config();
    let debug = config.redacted_debug();
    assert!(!debug.contains("test-key"), "api_key leaked in Debug output");
}

#[test]
fn listings_show_the_other_fields() {
    let transport = OpenAITransport::new(config()).unwrap();
    assert_eq!(
        transport.redacted_debug(),
        "OpenAITransport { config: OpenAITransportConfig { base_url: \"https://api.openai.com/v1\", \
         timeout_seconds: 30, api_key: \"[REDACTED]\", organization: Some(\"org_123\"), \
         project: Some(\"proj_456\"), default_headers: {\"X-Default\": \"default\"} } }"
    );
    let auth = OpenAIAuthConfig { api_key: "k".to_owned(), organization: None, project: Some("p".to_owned()) };
    assert_eq!(
        auth.redacted_debug(),
        "OpenAIAuthConfig { api_key: \"[REDACTED]\", organization: None, project: Some(\"p\") }"
    );
}
