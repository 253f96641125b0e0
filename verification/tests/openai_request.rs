use aigw::canonical::error::TranslateError;
use aigw::canonical::model::{ChatRequest, Message, MessageContent, Role};
use aigw::json::{JsonObject, JsonValue};
use aigw::openai::request::{check_request_headers, OpenAIRequestTranslator};
use aigw::openai::responses_request::ResponsesRequestTranslator;
use aigw::openai::transport::{HttpTransportConfig, OpenAIAuthConfig, OpenAITransport, OpenAITransportConfig};
use aigw::string_map::StringMap;

fn transport(default_headers: StringMap) -> OpenAITransport {
    OpenAITransport::new(OpenAITransportConfig {
        http: HttpTransportConfig { base_url: "https://api.openai.com/v1".to_owned(), timeout_seconds: 30, default_headers },
        auth: OpenAIAuthConfig { api_key: "sk-test".to_owned(), organization: None, project: None },
    })
    .unwrap()
}

fn request() -> ChatRequest {
    ChatRequest {
        model: "gpt-4.1".into(),
        messages: vec![Message {
            role: Role::User,
            content: Some(MessageContent::Text("Hello".into())),
            name: None,
            tool_call_id: None,
            tool_calls: None,
            extra: JsonObject::new(),
        }],
        temperature: None,
        max_tokens: None,
        top_p: None,
        stop: None,
        stream: None,
        tools: None,
        tool_choice: None,
        response_format: None,
        frequency_penalty: None,
        presence_penalty: None,
        n: None,
        seed: None,
        user: None,
        thinking: None,
        extra: JsonObject::new(),
    }
}

fn map(pairs: &[(&str, &str)]) -> StringMap {
    let mut m = StringMap::new();
    for (k, v) in pairs {
        m.insert(k.to_string(), v.to_string());
    }
    m
}

#[test]
fn chat_request_keeps_body_and_targets_endpoint() {
    let t = OpenAIRequestTranslator::new(transport(StringMap::new()));
    let (body, parts) = t.translate_request(request()).unwrap();
    assert_eq!(body, request());
    assert_eq!(parts.url, "https://api.openai.com/v1/chat/completions");
    assert_eq!(parts.headers.get("Accept").map(|s| s.as_str()), Some("application/json"));
}

#[test]
fn chat_stream_request_sets_stream_fields() {
    let t = OpenAIRequestTranslator::new(transport(StringMap::new()));
    let mut req = request();
    req.extra.insert("stream_options".into(), JsonValue::Bool(false));
    req.extra.insert("logprobs".into(), JsonValue::Bool(true));
    let (body, parts) = t.translate_stream_request(req).unwrap();
    assert_eq!(body.stream, Some(true));
    let opts = body.extra.get("stream_options").unwrap().as_object().unwrap();
    assert_eq!(opts.get("include_usage"), Some(&JsonValue::Bool(true)));
    assert_eq!(body.extra.get("logprobs"), Some(&JsonValue::Bool(true)));
    assert_eq!(parts.headers.get("Accept").map(|s| s.as_str()), Some("text/event-stream"));
}

#[test]
fn unsendable_header_name_is_refused() {
    let t = OpenAIRequestTranslator::new(transport(map(&[("bad header", "x")])));
    let err = t.translate_request(request()).unwrap_err();
    assert_eq!(err, TranslateError::Other("invalid header name 'bad header': invalid HTTP header name".to_owned()));
}

#[test]
fn unsendable_header_value_is_refused() {
    let t = ResponsesRequestTranslator::new(transport(map(&[("X-Trace", "a\nb")])));
    let err = t.translate_request(&request()).unwrap_err();
    assert_eq!(err, TranslateError::Other("invalid header value: failed to parse header value".to_owned()));
}

#[test]
fn header_check_accepts_tokens_and_uses_the_effective_value() {
    assert!(check_request_headers(&map(&[("X-Request-Id", "abc"), ("content-type", "application/json")])).is_ok());
    // A later binding hides an earlier, unsendable value.
    assert!(check_request_headers(&map(&[("X-Trace", "a\nb"), ("X-Trace", "ok")])).is_ok());
    assert!(check_request_headers(&map(&[("", "x")])).is_err());
}

#[test]
fn responses_stream_request_asks_for_a_stream() {
    let t = ResponsesRequestTranslator::new(transport(StringMap::new()));
    let (body, parts) = t.translate_stream_request(&request()).unwrap();
    assert_eq!(body.stream, Some(true));
    assert_eq!(parts.url, "https://api.openai.com/v1/responses");
    assert_eq!(parts.headers.get("Accept").map(|s| s.as_str()), Some("text/event-stream"));
}
