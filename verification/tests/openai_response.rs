use aigw::canonical::error::{map_error_status, ProviderError};
use aigw::http_headers::HeaderList;
use aigw::json::JsonObject;
use aigw::openai::response::OpenAIResponseTranslator;
use aigw::openai::wire_chat::{ApiErrorBody, ApiErrorResponse};

fn api_error(message: &str, kind: &str) -> ApiErrorResponse {
    ApiErrorResponse {
        error: ApiErrorBody {
            message: message.to_owned(),
            kind: Some(kind.to_owned()),
            param: None,
            code: None,
            extra: JsonObject::new(),
        },
    }
}

#[test]
fn translate_error_429_with_retry_after() {
    let body = r#"{"error":{"message":"Rate limit exceeded","type":"rate_limit_error"}}"#;
    let headers = HeaderList { entries: vec![("retry-after".to_owned(), Some("30".to_owned()))] };

    let translator = OpenAIResponseTranslator;
    let err = translator.translate_error(
        429,
        &headers,
        body.as_bytes(),
        Some(api_error("Rate limit exceeded", "rate_limit_error")),
    );

    match err {
        ProviderError::RateLimited { retry_after_secs, message } => {
            assert_eq!(retry_after_secs, Some(30));
            assert!(message.contains("Rate limit"));
        }
        other => panic!("expected RateLimited, got {other:?}"),
    }
}

#[test]
fn translate_error_401() {
    let body = r#"{"error":{"message":"Invalid API key","type":"authentication_error"}}"#;
    let translator = OpenAIResponseTranslator;
    let err = translator.translate_error(
        401,
        &HeaderList::new(),
        body.as_bytes(),
        Some(api_error("Invalid API key", "authentication_error")),
    );
    assert!(matches!(err, ProviderError::AuthenticationFailed { .. }));
}

#[test]
fn undecodable_error_body_is_the_message() {
    let translator = OpenAIResponseTranslator;
    let err = translator.translate_error(500, &HeaderList::new(), b"upstream down", None);
    assert_eq!(err, ProviderError::ServerError { status: 500, message: "upstream down".to_owned() });

    // Bytes that are not UTF-8 are replaced, not dropped.
    let err = translator.translate_error(400, &HeaderList::new(), b"bad \xff body", None);
    assert_eq!(err, ProviderError::InvalidRequest { message: "bad \u{FFFD} body".to_owned() });
}

#[test]
fn status_codes_map_to_provider_errors() {
    let h = HeaderList::new();
    assert_eq!(
        map_error_status(403, &h, "no".to_owned()),
        ProviderError::PermissionDenied { message: "no".to_owned() }
    );
    assert_eq!(
        map_error_status(404, &h, "gpt-x".to_owned()),
        ProviderError::ModelNotFound { model: "gpt-x".to_owned() }
    );
    assert_eq!(
        map_error_status(429, &h, "slow".to_owned()),
        ProviderError::RateLimited { retry_after_secs: None, message: "slow".to_owned() }
    );
    assert_eq!(
        map_error_status(418, &h, "teapot".to_owned()),
        ProviderError::Unknown { status: 418, body: "teapot".to_owned() }
    );
    let bad = HeaderList { entries: vec![("retry-after".to_owned(), Some("soon".to_owned()))] };
    assert_eq!(
        map_error_status(429, &bad, "slow".to_owned()),
        ProviderError::RateLimited { retry_after_secs: None, message: "slow".to_owned() }
    );
}

#[test]
fn stream_parser_starts_fresh() {
    let translator = OpenAIResponseTranslator;
    let mut p = translator.stream_parser();
    assert!(p.finish().unwrap().is_empty());
}
