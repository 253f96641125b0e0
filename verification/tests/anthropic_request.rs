use aigw::anthropic::request::{
    extract_system, translate_assistant_message, translate_image_source, translate_messages,
    translate_tool_result, translate_user_message,
};
use aigw::anthropic::tools::{tool_use_to_canonical, translate_tool_choice, translate_tools};
use aigw::anthropic::types::{
    ContentBlock, ImageSource, MessageContent as AnthropicContent, Role as AnthropicRole, SystemPrompt,
    ToolChoice as AnthropicToolChoice, TypedContentBlock,
};
use aigw::canonical::error::TranslateError;
use aigw::canonical::generic::ForwardCompatible;
use aigw::canonical::model::{
    FunctionCall, FunctionDefinition, ImageUrl, Message, MessageContent, NamedToolChoice,
    NamedToolChoiceFunction, Role, Tool, ToolCall, ToolChoice, ToolChoiceMode, TypedContentPart,
};
use aigw::json::{JsonNumber, JsonObject, JsonValue};

fn jv(v: serde_json::Value) -> JsonValue {
    match v {
        serde_json::Value::Null => JsonValue::Null,
        serde_json::Value::Bool(b) => JsonValue::Bool(b),
        serde_json::Value::Number(n) => JsonValue::Number(match (n.as_u64(), n.as_i64()) {
            (Some(u), _) => JsonNumber::PosInt(u),
            (None, Some(i)) => JsonNumber::NegInt(i),
            _ => JsonNumber::Float(n.to_string()),
        }),
        serde_json::Value::String(s) => JsonValue::Str(s),
        serde_json::Value::Array(a) => JsonValue::Array(a.into_iter().map(jv).collect()),
        serde_json::Value::Object(o) => {
            JsonValue::Object(JsonObject { entries: o.into_iter().map(|(k, v)| (k, jv(v))).collect() })
        }
    }
}

fn user_msg(text: &str) -> Message {
    Message {
        role: Role::User,
        content: Some(MessageContent::Text(text.into())),
        name: None,
        tool_call_id: None,
        tool_calls: None,
        extra: Default::default(),
    }
}

fn system_msg(text: &str) -> Message {
    Message {
        role: Role::System,
        content: Some(MessageContent::Text(text.into())),
        name: None,
        tool_call_id: None,
        tool_calls: None,
        extra: Default::default(),
    }
}

fn tool_msg(tool_call_id: &str, content: &str) -> Message {
    Message {
        role: Role::Tool,
        content: Some(MessageContent::Text(content.into())),
        name: None,
        tool_call_id: Some(tool_call_id.into()),
        tool_calls: None,
        extra: Default::default(),
    }
}

#[test]
fn extract_no_system() {
    let msgs = vec![user_msg("hi")];
    assert!(extract_system(&msgs).is_none());
}

#[test]
fn extract_single_system() {
    let msgs = vec![system_msg("You are helpful"), user_msg("hi")];
    match extract_system(&msgs) {
        Some(SystemPrompt::Text(s)) => assert_eq!(s, "You are helpful"),
        other => panic!("expected Text, got {other:?}"),
    }
}

#[test]
fn extract_multiple_system_messages() {
    let msgs = vec![system_msg("You are helpful"), system_msg("Be concise"), user_msg("hi")];
    match extract_system(&msgs) {
        Some(SystemPrompt::Text(s)) => assert_eq!(s, "You are helpful\n\nBe concise"),
        other => panic!("expected Text, got {other:?}"),
    }
}

#[test]
fn translate_messages_filters_system() {
    let msgs = vec![system_msg("system"), user_msg("hello")];
    let result = translate_messages(&msgs).unwrap();
    assert_eq!(result.len(), 1);
    assert_eq!(result[0].role, AnthropicRole::User);
}

#[test]
fn consecutive_tool_messages_merged() {
    let msgs = vec![user_msg("check weather"), tool_msg("call_1", "72F sunny"), tool_msg("call_2", "65F cloudy")];
    let result = translate_messages(&msgs).unwrap();
    assert_eq!(result.len(), 2);
    assert_eq!(result[1].role, AnthropicRole::User);
    match &result[1].content {
        AnthropicContent::Blocks(blocks) => {
            assert_eq!(blocks.len(), 2);
            for block in blocks {
                assert!(matches!(block, ContentBlock::Typed(TypedContentBlock::ToolResult { .. })));
            }
        }
        _ => panic!("expected Blocks"),
    }
}

#[test]
fn request_assistant_message_with_tool_calls() {
    let msg = Message {
        role: Role::Assistant,
        content: Some(MessageContent::Text("Let me check.".into())),
        name: None,
        tool_call_id: None,
        tool_calls: Some(vec![ToolCall {
            id: "call_1".into(),
            kind: "function".into(),
            function: FunctionCall {
                name: "get_weather".into(),
                arguments: r#"{"location":"SF"}"#.into(),
                extra: Default::default(),
            },
            extra: Default::default(),
        }]),
        extra: Default::default(),
    };
    let result = translate_assistant_message(&msg).unwrap();
    assert_eq!(result.role, AnthropicRole::Assistant);
    match &result.content {
        AnthropicContent::Blocks(blocks) => {
            assert_eq!(blocks.len(), 2);
            assert!(matches!(
                &blocks[0],
                ContentBlock::Typed(TypedContentBlock::Text { text, .. }) if text == "Let me check."
            ));
            assert!(matches!(
                &blocks[1],
                ContentBlock::Typed(TypedContentBlock::ToolUse { name, .. }) if name == "get_weather"
            ));
        }
        _ => panic!("expected Blocks"),
    }
}

#[test]
fn image_url_translation() {
    let source = translate_image_source("https://example.com/img.png").unwrap();
    assert!(matches!(source, ImageSource::Url { url } if url == "https://example.com/img.png"));
}

#[test]
fn image_data_uri_translation() {
    let source = translate_image_source("data:image/png;base64,iVBOR...").unwrap();
    match source {
        ImageSource::Base64 { media_type, data } => {
            assert_eq!(media_type, "image/png");
            assert_eq!(data, "iVBOR...");
        }
        _ => panic!("expected Base64"),
    }
}

#[test]
fn malformed_and_non_base64_data_uris_are_refused() {
    match translate_image_source("data:image/png;base64") {
        Err(TranslateError::IncompatibleContent { reason }) => assert_eq!(reason, "malformed data: URI"),
        other => panic!("expected IncompatibleContent, got {other:?}"),
    }
    match translate_image_source("data:text/plain,hello") {
        Err(TranslateError::IncompatibleContent { reason }) => assert_eq!(reason, "data: URI must be base64-encoded"),
        other => panic!("expected IncompatibleContent, got {other:?}"),
    }
}

#[test]
fn image_content_in_user_message() {
    let msg = Message {
        role: Role::User,
        content: Some(MessageContent::Parts(vec![
            ForwardCompatible::Known(TypedContentPart::Text { text: "What's in this image?".into(), extra: Default::default() }),
            ForwardCompatible::Known(TypedContentPart::ImageUrl {
                image_url: ImageUrl { url: "https://example.com/cat.jpg".into(), detail: None, extra: Default::default() },
                extra: Default::default(),
            }),
        ])),
        name: None,
        tool_call_id: None,
        tool_calls: None,
        extra: Default::default(),
    };
    let result = translate_user_message(&msg).unwrap();
    match &result.content {
        AnthropicContent::Blocks(blocks) => {
            assert_eq!(blocks.len(), 2);
            assert!(matches!(&blocks[0], ContentBlock::Typed(TypedContentBlock::Text { .. })));
            assert!(matches!(&blocks[1], ContentBlock::Typed(TypedContentBlock::Image { .. })));
        }
        _ => panic!("expected Blocks"),
    }
}

#[test]
fn tool_result_missing_tool_call_id() {
    let msg = Message {
        role: Role::Tool,
        content: Some(MessageContent::Text("result".into())),
        name: None,
        tool_call_id: None,
        tool_calls: None,
        extra: Default::default(),
    };
    let err = translate_tool_result(&msg).unwrap_err();
    assert!(matches!(err, TranslateError::MissingField { ref field } if field == "tool_call_id"));
}

#[test]
fn translate_tool_definition() {
    let canonical = Tool {
        kind: "function".into(),
        function: FunctionDefinition {
            name: "get_weather".into(),
            description: Some("Get weather info".into()),
            parameters: Some(jv(serde_json::from_str(
                r#"{"type": "object", "properties": { "location": { "type": "string" } }}"#,
            )
            .unwrap())),
            strict: None,
            extra: Default::default(),
        },
        extra: Default::default(),
    };
    let anthropic = translate_tools(&[canonical]);
    assert_eq!(anthropic.len(), 1);
    assert_eq!(anthropic[0].name, "get_weather");
    assert_eq!(anthropic[0].description.as_deref(), Some("Get weather info"));
    assert!(anthropic[0].input_schema.as_object().unwrap().get("properties").is_some());
}

#[test]
fn translate_tool_choice_variants() {
    let auto = translate_tool_choice(&ToolChoice::Mode(ToolChoiceMode::Auto));
    assert!(matches!(auto, AnthropicToolChoice::Auto { .. }));

    let none = translate_tool_choice(&ToolChoice::Mode(ToolChoiceMode::Disabled));
    assert!(matches!(none, AnthropicToolChoice::Disabled { .. }));

    let any = translate_tool_choice(&ToolChoice::Mode(ToolChoiceMode::Required));
    assert!(matches!(any, AnthropicToolChoice::Any { .. }));

    let named = translate_tool_choice(&ToolChoice::Named(NamedToolChoice {
        kind: "function".into(),
        function: NamedToolChoiceFunction { name: "get_weather".into(), extra: Default::default() },
        extra: Default::default(),
    }));
    match named {
        AnthropicToolChoice::Tool { name, .. } => assert_eq!(name, "get_weather"),
        other => panic!("expected Tool, got {other:?}"),
    }
}

#[test]
fn tool_use_roundtrip() {
    let input = jv(serde_json::from_str(r#"{"location": "San Francisco"}"#).unwrap());
    let canonical = tool_use_to_canonical("toolu_01", "get_weather", &input);
    assert_eq!(canonical.id, "toolu_01");
    assert_eq!(canonical.kind, "function");
    assert_eq!(canonical.function.name, "get_weather");
    assert_eq!(canonical.function.arguments, r#"{"location":"San Francisco"}"#);
}
