use aigw::anthropic::rate_limit::RateLimitInfo;
use aigw::http_headers::HeaderList;

fn headers(pairs: &[(&str, &str)]) -> HeaderList {
    HeaderList {
        entries: pairs
            .iter()
            .map(|(k, v)| (k.to_string(), Some(v.to_string())))
            .collect(),
    }
}

#[test]
fn parse_all_headers() {
    let h = headers(&[
        ("anthropic-ratelimit-requests-limit", "1000"),
        ("anthropic-ratelimit-requests-remaining", "999"),
        ("anthropic-ratelimit-requests-reset", "2026-04-05T12:00:00Z"),
        ("anthropic-ratelimit-tokens-limit", "100000"),
        ("anthropic-ratelimit-tokens-remaining", "90000"),
        ("anthropic-ratelimit-tokens-reset", "2026-04-05T12:00:00Z"),
        ("anthropic-ratelimit-input-tokens-limit", "80000"),
        ("anthropic-ratelimit-input-tokens-remaining", "70000"),
        ("anthropic-ratelimit-input-tokens-reset", "2026-04-05T12:00:00Z"),
        ("anthropic-ratelimit-output-tokens-limit", "20000"),
        ("anthropic-ratelimit-output-tokens-remaining", "18000"),
        ("anthropic-ratelimit-output-tokens-reset", "2026-04-05T12:00:00Z"),
        ("retry-after", "30"),
    ]);

    let info = RateLimitInfo::from_headers(&h);

    assert_eq!(info.requests_limit, Some(1000));
    assert_eq!(info.requests_remaining, Some(999));
    assert_eq!(info.requests_reset.as_deref(), Some("2026-04-05T12:00:00Z"));
    assert_eq!(info.tokens_limit, Some(100_000));
    assert_eq!(info.tokens_remaining, Some(90_000));
    assert_eq!(info.input_tokens_limit, Some(80_000));
    assert_eq!(info.input_tokens_remaining, Some(70_000));
    assert_eq!(info.output_tokens_limit, Some(20_000));
    assert_eq!(info.output_tokens_remaining, Some(18_000));
    assert_eq!(info.retry_after, Some(30));
    assert!(!info.is_empty());
}

#[test]
fn empty_headers() {
    let info = RateLimitInfo::from_headers(&HeaderList::new());
    assert!(info.is_empty());
    assert_eq!(info.requests_limit, None);
    assert_eq!(info.retry_after, None);
}

#[test]
fn malformed_values_ignored() {
    let h = headers(&[
        ("anthropic-ratelimit-requests-limit", "not-a-number"),
        ("anthropic-ratelimit-tokens-remaining", "50000"),
    ]);

    let info = RateLimitInfo::from_headers(&h);
    assert_eq!(info.requests_limit, None);
    assert_eq!(info.tokens_remaining, Some(50_000));
}

#[test]
fn values_are_trimmed_and_non_text_values_skipped() {
    let h = HeaderList {
        entries: vec![
            ("retry-after".to_string(), Some("  12 ".to_string())),
            ("anthropic-ratelimit-tokens-reset".to_string(), None),
            ("anthropic-ratelimit-requests-reset".to_string(), Some(" soon ".to_string())),
        ],
    };
    let info = RateLimitInfo::from_headers(&h);
    assert_eq!(info.retry_after, Some(12));
    assert_eq!(info.tokens_reset, None);
    assert_eq!(info.requests_reset.as_deref(), Some("soon"));
    // A reset time or `retry-after` alone is rate-limit information.
    assert!(!info.is_empty());
}

#[test]
fn reset_or_retry_after_alone_is_not_empty() {
    let mut info = RateLimitInfo::default();
    assert!(info.is_empty());
    info.requests_reset = Some("2026-04-05T12:00:00Z".to_string());
    assert!(!info.is_empty());

    let mut info = RateLimitInfo::default();
    info.retry_after = Some(30);
    assert!(!info.is_empty());
}
