use aigw::canonical::error::TranslateError;
use aigw::canonical::generic::ForwardCompatible;
use aigw::canonical::model::{
    ChatRequest, ImageUrl, Message, MessageContent, Role, ToolChoice, ToolChoiceMode, TypedContentPart,
};
use aigw::compat::provider::{OpenAICompatConfig, OpenAICompatConfigError, OpenAICompatProvider, Quirks};
use aigw::compat::translate::{request_has_image, OpenAICompatRequestTranslator};
use aigw::json::{JsonObject, JsonValue};
use aigw::openai::transport::{HttpTransportConfig, OpenAIAuthConfig};
use aigw::string_map::StringMap;

/// The error of a result whose success value has no `Debug` form.
fn err<T, E>(r: Result<T, E>) -> E {
    match r {
        Err(e) => e,
        Ok(_) => panic!("expected an error"),
    }
}

fn config() -> OpenAICompatConfig {
    OpenAICompatConfig {
        name: "groq".to_owned(),
        http: HttpTransportConfig {
            base_url: "https://api.groq.com/openai/v1/".to_owned(),
            timeout_seconds: 30,
            default_headers: StringMap::new(),
        },
        auth: OpenAIAuthConfig { api_key: "test-key".to_owned(), organization: None, project: None },
        quirks: Quirks { supports_vision: false, ..Quirks::default() },
    }
}

fn request(content: MessageContent) -> ChatRequest {
    ChatRequest {
        model: "llama-3".into(),
        messages: vec![Message {
            role: Role::User,
            content: Some(content),
            name: None,
            tool_call_id: None,
            tool_calls: None,
            extra: JsonObject::new(),
        }],
        temperature: None,
        max_tokens: None,
        top_p: None,
        stop: None,
        stream: None,
        tools: None,
        tool_choice: None,
        response_format: None,
        frequency_penalty: None,
        presence_penalty: None,
        n: None,
        seed: None,
        user: None,
        thinking: None,
        extra: JsonObject::new(),
    }
}

fn make_request_with_tool_choice() -> ChatRequest {
    let mut r = request(MessageContent::Text("hi".into()));
    r.tool_choice = Some(ToolChoice::Mode(ToolChoiceMode::Required));
    r
}

fn make_request_with_image() -> ChatRequest {
    request(MessageContent::Parts(vec![ForwardCompatible::Known(TypedContentPart::ImageUrl {
        image_url: ImageUrl { url: "https://example.com/img.png".into(), detail: None, extra: JsonObject::new() },
        extra: JsonObject::new(),
    })]))
}

fn translator(quirks: Quirks) -> OpenAICompatRequestTranslator {
    let mut cfg = config();
    cfg.quirks = quirks;
    let provider = OpenAICompatProvider::new(cfg).unwrap();
    OpenAICompatRequestTranslator::new(&provider).unwrap()
}

#[test]
fn new_normalizes_trailing_slash() {
    let provider = OpenAICompatProvider::new(config()).expect("provider should be valid");
    assert_eq!(provider.base_url(), "https://api.groq.com/openai/v1");
    assert!(!provider.quirks().supports_vision);
}

#[test]
fn new_rejects_invalid_base_url() {
    let mut config = config();
    config.http.base_url = "api.groq.com/openai/v1".to_owned();
    let err = err(OpenAICompatProvider::new(config));
    assert_eq!(err, OpenAICompatConfigError::InvalidBaseUrl("api.groq.com/openai/v1".to_owned()));
}

#[test]
fn lib_new_rejects_zero_timeout() {
    let mut config = config();
    config.http.timeout_seconds = 0;
    let err = err(OpenAICompatProvider::new(config));
    assert_eq!(err, OpenAICompatConfigError::InvalidTimeoutSeconds(0));
}

#[test]
fn new_rejects_blank_name_and_key() {
    let mut cfg = config();
    cfg.name = "   ".to_owned();
    assert_eq!(err(OpenAICompatProvider::new(cfg)), OpenAICompatConfigError::MissingName);

    let mut cfg = config();
    cfg.auth.api_key = " ".to_owned();
    assert_eq!(err(OpenAICompatProvider::new(cfg)), OpenAICompatConfigError::MissingApiKey);

    let mut cfg = config();
    cfg.http.base_url = "  ".to_owned();
    assert_eq!(err(OpenAICompatProvider::new(cfg)), OpenAICompatConfigError::MissingBaseUrl);
}

#[test]
fn default_quirks_enable_chat_but_not_responses() {
    let q = Quirks::default();
    assert!(q.supports_chat_completions);
    assert!(!q.supports_responses_api);
    assert!(q.supports_streaming);
    assert!(q.supports_tool_choice);
    assert!(q.supports_parallel_tool_calls);
    assert!(q.supports_vision);
    assert!(q.supports_embeddings);
}

#[test]
fn quirks_strips_tool_choice() {
    let t = translator(Quirks { supports_tool_choice: false, ..Quirks::default() });
    let filtered = t.filter_request(make_request_with_tool_choice()).unwrap();
    assert!(filtered.tool_choice.is_none());
}

#[test]
fn quirks_keeps_tool_choice_when_supported() {
    let t = translator(Quirks::default());
    let filtered = t.filter_request(make_request_with_tool_choice()).unwrap();
    assert_eq!(filtered.tool_choice, Some(ToolChoice::Mode(ToolChoiceMode::Required)));
}

#[test]
fn quirks_rejects_vision() {
    let req = make_request_with_image();
    assert!(request_has_image(&req));
    let t = translator(Quirks { supports_vision: false, ..Quirks::default() });
    let err = t.filter_request(make_request_with_image()).unwrap_err();
    assert_eq!(
        err,
        TranslateError::UnsupportedFeature {
            provider: "openai_compat".to_owned(),
            feature: "groq: vision/image content".to_owned(),
        }
    );
}

#[test]
fn quirks_allows_vision_when_supported() {
    let req = make_request_with_image();
    let quirks = Quirks::default();
    assert!(quirks.supports_vision);
    assert!(request_has_image(&req));
    let t = translator(quirks);
    assert!(t.filter_request(req).is_ok());
    assert!(!request_has_image(&make_request_with_tool_choice()));
}

#[test]
fn quirks_strips_parallel_tool_calls() {
    let mut req = make_request_with_tool_choice();
    req.extra.insert("parallel_tool_calls".into(), JsonValue::Bool(true));
    req.extra.insert("seed_note".into(), JsonValue::Bool(false));
    let t = translator(Quirks { supports_parallel_tool_calls: false, ..Quirks::default() });
    let filtered = t.filter_request(req).unwrap();
    assert!(!filtered.extra.contains_key("parallel_tool_calls"));
    assert!(filtered.extra.contains_key("seed_note"));
}

#[test]
fn streaming_refused_without_streaming_quirk() {
    let t = translator(Quirks { supports_streaming: false, ..Quirks::default() });
    let err = t.translate_stream_request(make_request_with_tool_choice()).unwrap_err();
    assert_eq!(
        err,
        TranslateError::UnsupportedFeature { provider: "openai_compat".to_owned(), feature: "groq: streaming".to_owned() }
    );
}

#[test]
fn translate_request_targets_chat_completions() {
    let t = translator(Quirks::default());
    let (_, parts) = t.translate_request(make_request_with_tool_choice()).unwrap();
    assert_eq!(parts.url, "https://api.groq.com/openai/v1/chat/completions");
    assert_eq!(parts.headers.get("Authorization").map(|s| s.as_str()), Some("Bearer test-key"));
}

#[test]
fn lib_debug_redacts_api_key() {
    let provider = OpenAICompatProvider::new(config()).expect("provider should be valid");
    let debug = provider.redacted_debug();
    assert!(!debug.contains("test-key"), "api_key leaked in Debug output");

    let config = config();
    let debug = config.redacted_debug();
    assert!(!debug.contains("test-key"), "api_key leaked in Debug output");
}

#[test]
fn provider_listing_shows_name_and_base_url() {
    let provider = OpenAICompatProvider::new(config()).expect("provider should be valid");
    assert_eq!(
        provider.redacted_debug(),
        "OpenAICompatProvider { name: \"groq\", base_url: \"https://api.groq.com/openai/v1\" }"
    );
    let listing = config().redacted_debug();
    assert!(listing.contains("api_key: \"[REDACTED]\""));
    assert!(listing.ends_with("supports_parallel_tool_calls: true, supports_vision: false } }"));
}
