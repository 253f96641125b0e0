use aigw::anthropic::native_bridge::messages_request_to_canonical;
use aigw::anthropic::native_response::chat_response_to_messages;
use aigw::anthropic::native_sse::{stream_event_to_anthropic_sse, AnthropicSseFrame, SseContext};
use aigw::anthropic::types::{
    ContentBlock, ImageSource, Message as AnthropicMessage, MessageContent as AnthropicContent, MessagesRequest,
    Role as AnthropicRole, StopReason, SystemPrompt, TextBlock, ThinkingConfig, Tool as AnthropicTool,
    ToolChoice as AnthropicToolChoice, ToolResultContent, TypedContentBlock,
};
use aigw::canonical::generic::ForwardCompatible;
use aigw::canonical::model::{
    ChatResponse, Choice, FinishReason, FunctionCall, Message, MessageContent, Role, StreamEvent, ThinkingRequest,
    ToolCall, ToolChoice, TypedContentPart, Usage,
};
use aigw::json::{JsonNumber, JsonObject, JsonValue};
use serde_json::Value;

fn jv(v: Value) -> JsonValue {
    match v {
        Value::Null => JsonValue::Null,
        Value::Bool(b) => JsonValue::Bool(b),
        Value::Number(n) => JsonValue::Number(match (n.as_u64(), n.as_i64()) {
            (Some(u), _) => JsonNumber::PosInt(u),
            (None, Some(i)) => JsonNumber::NegInt(i),
            _ => JsonNumber::Float(n.to_string()),
        }),
        Value::String(s) => JsonValue::Str(s),
        Value::Array(a) => JsonValue::Array(a.into_iter().map(jv).collect()),
        Value::Object(o) => JsonValue::Object(JsonObject { entries: o.into_iter().map(|(k, v)| (k, jv(v))).collect() }),
    }
}

fn json(text: &str) -> Value {
    serde_json::from_str(text).unwrap()
}

fn request(model: &str, max_tokens: u64, messages: Vec<AnthropicMessage>) -> MessagesRequest {
    MessagesRequest {
        model: model.to_owned(),
        messages,
        max_tokens,
        system: None,
        temperature: None,
        top_p: None,
        top_k: None,
        stop_sequences: None,
        stream: None,
        tools: None,
        tool_choice: None,
        metadata: None,
        thinking: None,
        extra: JsonObject::new(),
    }
}

fn user_text(text: &str) -> AnthropicMessage {
    AnthropicMessage { role: AnthropicRole::User, content: AnthropicContent::Text(text.to_owned()) }
}

fn text_block(text: &str) -> ContentBlock {
    ContentBlock::Typed(TypedContentBlock::Text { text: text.to_owned(), cache_control: None })
}

fn png_block() -> ContentBlock {
    ContentBlock::Typed(TypedContentBlock::Image {
        source: ImageSource::Base64 { media_type: "image/png".to_owned(), data: "aW1n".to_owned() },
        cache_control: None,
    })
}

fn text_of(m: &Message) -> Option<&str> {
    match &m.content {
        Some(MessageContent::Text(s)) => Some(s.as_str()),
        _ => None,
    }
}

// ── messages_request_to_canonical ────────────────────────────────────────

#[test]
fn request_user_text_round_trips() {
    let req = request("sonnet-4-20250514", 1024, vec![user_text("Hello")]);
    let canonical = messages_request_to_canonical(req).unwrap();
    assert_eq!(canonical.model, "sonnet-4-20250514");
    assert_eq!(canonical.max_tokens, Some(1024));
    assert_eq!(canonical.messages.len(), 1);
    assert_eq!(canonical.messages[0].role, Role::User);
    assert_eq!(text_of(&canonical.messages[0]), Some("Hello"));
}

#[test]
fn request_system_becomes_leading_system_message() {
    let mut req = request("sonnet-4-20250514", 64, vec![user_text("hi")]);
    req.system = Some(SystemPrompt::Text("You are helpful.".to_owned()));
    let canonical = messages_request_to_canonical(req).unwrap();
    assert_eq!(canonical.messages[0].role, Role::System);
    assert_eq!(text_of(&canonical.messages[0]), Some("You are helpful."));
}

#[test]
fn request_assistant_tool_use_becomes_tool_calls() {
    let req = request(
        "m",
        64,
        vec![AnthropicMessage {
            role: AnthropicRole::Assistant,
            content: AnthropicContent::Blocks(vec![
                text_block("Let me check."),
                ContentBlock::Typed(TypedContentBlock::ToolUse {
                    id: "toolu_1".to_owned(),
                    name: "get_weather".to_owned(),
                    input: jv(json(r#"{ "location": "SF" }"#)),
                    cache_control: None,
                }),
            ]),
        }],
    );
    let canonical = messages_request_to_canonical(req).unwrap();
    let msg = &canonical.messages[0];
    assert_eq!(msg.role, Role::Assistant);
    assert_eq!(text_of(msg), Some("Let me check."));
    let tcs = msg.tool_calls.as_ref().unwrap();
    assert_eq!(tcs[0].id, "toolu_1");
    assert_eq!(tcs[0].function.name, "get_weather");
    assert_eq!(tcs[0].function.arguments, r#"{"location":"SF"}"#);
}

#[test]
fn request_tool_result_becomes_tool_message() {
    let req = request(
        "m",
        64,
        vec![AnthropicMessage {
            role: AnthropicRole::User,
            content: AnthropicContent::Blocks(vec![
                ContentBlock::Typed(TypedContentBlock::ToolResult {
                    tool_use_id: "toolu_1".to_owned(),
                    content: Some(ToolResultContent::Text("72F sunny".to_owned())),
                    is_error: None,
                    cache_control: None,
                }),
                text_block("thanks"),
            ]),
        }],
    );
    let canonical = messages_request_to_canonical(req).unwrap();
    assert_eq!(canonical.messages.len(), 2);
    assert_eq!(canonical.messages[0].role, Role::Tool);
    assert_eq!(canonical.messages[0].tool_call_id.as_deref(), Some("toolu_1"));
    assert_eq!(text_of(&canonical.messages[0]), Some("72F sunny"));
    assert_eq!(canonical.messages[1].role, Role::User);
    assert_eq!(text_of(&canonical.messages[1]), Some("thanks"));
}

#[test]
fn tool_result_with_image_block_uses_placeholder() {
    let req = request(
        "m",
        64,
        vec![AnthropicMessage {
            role: AnthropicRole::User,
            content: AnthropicContent::Blocks(vec![ContentBlock::Typed(TypedContentBlock::ToolResult {
                tool_use_id: "toolu_1".to_owned(),
                content: Some(ToolResultContent::Blocks(vec![text_block("see image:"), png_block()])),
                is_error: None,
                cache_control: None,
            })]),
        }],
    );
    let canonical = messages_request_to_canonical(req).unwrap();
    assert_eq!(canonical.messages[0].role, Role::Tool);
    assert_eq!(text_of(&canonical.messages[0]), Some("see image:\n[image]"));
}

#[test]
fn request_image_becomes_image_url_part() {
    let req = request(
        "m",
        64,
        vec![AnthropicMessage {
            role: AnthropicRole::User,
            content: AnthropicContent::Blocks(vec![text_block("describe"), png_block()]),
        }],
    );
    let canonical = messages_request_to_canonical(req).unwrap();
    let parts = match canonical.messages[0].content.as_ref().unwrap() {
        MessageContent::Parts(p) => p,
        other => panic!("expected Parts, got {other:?}"),
    };
    assert!(matches!(
        &parts[1],
        ForwardCompatible::Known(TypedContentPart::ImageUrl { image_url, .. })
            if image_url.url == "data:image/png;base64,aW1n"
    ));
}

#[test]
fn request_tools_and_tool_choice_map() {
    let mut req = request("m", 64, vec![user_text("go")]);
    req.tools = Some(vec![AnthropicTool {
        name: "get_weather".to_owned(),
        description: Some("weather".to_owned()),
        input_schema: jv(json(r#"{ "type": "object" }"#)),
        cache_control: None,
    }]);
    req.tool_choice = Some(AnthropicToolChoice::Tool { name: "get_weather".to_owned(), disable_parallel_tool_use: None });
    let canonical = messages_request_to_canonical(req).unwrap();
    let tool = &canonical.tools.as_ref().unwrap()[0];
    assert_eq!(tool.kind, "function");
    assert_eq!(tool.function.name, "get_weather");
    assert!(matches!(
        canonical.tool_choice,
        Some(ToolChoice::Named(n)) if n.function.name == "get_weather"
    ));
}

#[test]
fn request_thinking_config_maps() {
    let mut req = request("m", 64, vec![user_text("go")]);
    req.thinking = Some(ThinkingConfig::Enabled { budget_tokens: 5000 });
    let canonical = messages_request_to_canonical(req).unwrap();
    assert_eq!(canonical.thinking, Some(ThinkingRequest::Budget { budget_tokens: 5000 }));
}

#[test]
fn request_deserializes_from_wire_json() {
    // The value that the body {"model": ..., "max_tokens": 1024,
    // "system": "be brief", "messages": [{"role": "user", "content": "hi"}]}
    // decodes to.
    let mut req = request("sonnet-4-20250514", 1024, vec![user_text("hi")]);
    req.system = Some(SystemPrompt::Text("be brief".to_owned()));
    let canonical = messages_request_to_canonical(req).unwrap();
    assert_eq!(canonical.messages[0].role, Role::System);
    assert_eq!(canonical.messages[1].role, Role::User);
}

#[test]
fn request_deserializes_inline_system_messages() {
    // The value of a body with a top-level system prompt, a text system turn,
    // a block system turn and a user turn.
    let mut req = request(
        "sonnet-4-20250514",
        1024,
        vec![
            AnthropicMessage { role: AnthropicRole::System, content: AnthropicContent::Text("inline instructions".to_owned()) },
            AnthropicMessage {
                role: AnthropicRole::System,
                content: AnthropicContent::Blocks(vec![text_block("block instructions")]),
            },
            user_text("hi"),
        ],
    );
    req.system = Some(SystemPrompt::Text("top-level instructions".to_owned()));
    let canonical = messages_request_to_canonical(req).unwrap();

    let roles: Vec<&Role> = canonical.messages.iter().map(|m| &m.role).collect();
    assert_eq!(roles, [&Role::System, &Role::System, &Role::System, &Role::User]);
    assert_eq!(text_of(&canonical.messages[1]), Some("inline instructions"));
    assert_eq!(text_of(&canonical.messages[2]), Some("block instructions"));
}

#[test]
fn request_system_blocks_are_joined() {
    let mut req = request("m", 8, vec![user_text("hi")]);
    req.system = Some(SystemPrompt::Blocks(vec![
        TextBlock { kind: "text".to_owned(), text: "one".to_owned(), cache_control: None },
        TextBlock { kind: "text".to_owned(), text: "two".to_owned(), cache_control: None },
    ]));
    let canonical = messages_request_to_canonical(req).unwrap();
    assert_eq!(canonical.messages[0].role, Role::System);
    assert_eq!(text_of(&canonical.messages[0]), Some("one\n\ntwo"));
}

// ── chat_response_to_messages ────────────────────────────────────────────

fn assistant_choice(msg: Message, finish: FinishReason) -> Choice {
    Choice { index: 0, message: msg, finish_reason: Some(finish), extra: JsonObject::new() }
}

fn assistant(content: Option<MessageContent>, tool_calls: Option<Vec<ToolCall>>) -> Message {
    Message { role: Role::Assistant, content, name: None, tool_call_id: None, tool_calls, extra: JsonObject::new() }
}

#[test]
fn response_text_becomes_message() {
    let resp = ChatResponse {
        id: "chatcmpl-x".to_owned(),
        object: "chat.completion".to_owned(),
        created: 0,
        model: "gpt-4.1".to_owned(),
        choices: vec![assistant_choice(
            assistant(Some(MessageContent::Text("Hi there!".to_owned())), None),
            FinishReason::Stop,
        )],
        usage: Some(Usage { prompt_tokens: Some(8), completion_tokens: Some(4), total_tokens: Some(12), extra: JsonObject::new() }),
        extra: JsonObject::new(),
    };
    let out = chat_response_to_messages(resp).unwrap();
    assert_eq!(out.id, "chatcmpl-x");
    assert_eq!(out.model, "gpt-4.1");
    assert_eq!(out.role, AnthropicRole::Assistant);
    assert_eq!(out.stop_reason, Some(StopReason::EndTurn));
    assert_eq!(out.usage.input_tokens, 8);
    assert_eq!(out.usage.output_tokens, 4);
    assert!(matches!(
        &out.content[0],
        ContentBlock::Typed(TypedContentBlock::Text { text, .. }) if text == "Hi there!"
    ));
}

#[test]
fn response_tool_calls_become_tool_use_blocks() {
    let resp = ChatResponse {
        id: "id".to_owned(),
        object: "chat.completion".to_owned(),
        created: 0,
        model: "m".to_owned(),
        choices: vec![assistant_choice(
            assistant(
                None,
                Some(vec![ToolCall {
                    id: "call_1".to_owned(),
                    kind: "function".to_owned(),
                    function: FunctionCall {
                        name: "get_weather".to_owned(),
                        arguments: r#"{"location":"SF"}"#.to_owned(),
                        extra: JsonObject::new(),
                    },
                    extra: JsonObject::new(),
                }]),
            ),
            FinishReason::ToolCalls,
        )],
        usage: None,
        extra: JsonObject::new(),
    };
    let out = chat_response_to_messages(resp).unwrap();
    assert_eq!(out.stop_reason, Some(StopReason::ToolUse));
    match &out.content[0] {
        ContentBlock::Typed(TypedContentBlock::ToolUse { id, name, input, .. }) => {
            assert_eq!(id, "call_1");
            assert_eq!(name, "get_weather");
            assert_eq!(input, &jv(json(r#"{"location":"SF"}"#)));
        }
        other => panic!("expected tool_use, got {other:?}"),
    }
}

// ── stream_event_to_anthropic_sse ────────────────────────────────────────

fn data(frame: &AnthropicSseFrame) -> Value {
    serde_json::from_str(&frame.data).unwrap()
}

fn feed(ctx: &mut SseContext, ev: StreamEvent) {
    let _ = stream_event_to_anthropic_sse(&ev, ctx);
}

fn meta(id: &str, model: &str) -> StreamEvent {
    StreamEvent::ResponseMeta { id: id.into(), model: model.into() }
}

#[test]
fn response_meta_emits_message_start() {
    let mut ctx = SseContext::default();
    let frames = stream_event_to_anthropic_sse(&meta("msg_1", "gpt-4.1"), &mut ctx);
    assert_eq!(frames.len(), 1);
    assert_eq!(frames[0].event, "message_start");
    let v = data(&frames[0]);
    assert_eq!(v["message"]["id"], "msg_1");
    assert_eq!(v["message"]["model"], "gpt-4.1");
}

#[test]
fn pinned_model_survives_response_meta() {
    let mut ctx = SseContext::with_pinned_model("sonnet-4-5");
    let frames = stream_event_to_anthropic_sse(&meta("resp_1", "gpt-4.1"), &mut ctx);
    assert_eq!(data(&frames[0])["message"]["model"], "sonnet-4-5");
    assert_eq!(data(&frames[0])["message"]["id"], "resp_1");
}

#[test]
fn content_delta_opens_text_block_then_delta() {
    let mut ctx = SseContext::with_model("m");
    feed(&mut ctx, meta("msg_1", ""));
    let frames = stream_event_to_anthropic_sse(&StreamEvent::ContentDelta("Hello".into()), &mut ctx);
    assert_eq!(frames.len(), 2);
    assert_eq!(frames[0].event, "content_block_start");
    assert_eq!(data(&frames[0])["content_block"]["type"], "text");
    assert_eq!(frames[1].event, "content_block_delta");
    assert_eq!(data(&frames[1])["delta"]["text"], "Hello");

    let frames = stream_event_to_anthropic_sse(&StreamEvent::ContentDelta(" world".into()), &mut ctx);
    assert_eq!(frames.len(), 1);
    assert_eq!(data(&frames[0])["delta"]["text"], " world");
}

#[test]
fn thinking_block_with_signature() {
    let mut ctx = SseContext::with_model("m");
    feed(&mut ctx, meta("msg_1", ""));
    let frames = stream_event_to_anthropic_sse(&StreamEvent::ReasoningStart { index: 0, source: None }, &mut ctx);
    assert_eq!(frames[0].event, "content_block_start");
    assert_eq!(data(&frames[0])["content_block"]["type"], "thinking");

    let frames = stream_event_to_anthropic_sse(&StreamEvent::ReasoningDelta("thinking...".into()), &mut ctx);
    assert_eq!(data(&frames[0])["delta"]["type"], "thinking_delta");
    assert_eq!(data(&frames[0])["delta"]["thinking"], "thinking...");

    let frames =
        stream_event_to_anthropic_sse(&StreamEvent::ReasoningEnd { index: 0, signature: "ErWjSig".into() }, &mut ctx);
    assert_eq!(frames.len(), 2);
    assert_eq!(data(&frames[0])["delta"]["type"], "signature_delta");
    assert_eq!(data(&frames[0])["delta"]["signature"], "ErWjSig");
    assert_eq!(frames[1].event, "content_block_stop");
}

#[test]
fn tool_call_streaming_full_lifecycle() {
    let mut ctx = SseContext::with_model("m");
    feed(&mut ctx, meta("msg_1", ""));
    feed(&mut ctx, StreamEvent::ContentDelta("ok".into()));

    let frames = stream_event_to_anthropic_sse(
        &StreamEvent::ToolCallStart { index: 0, id: "toolu_1".into(), name: "get_weather".into() },
        &mut ctx,
    );
    assert_eq!(frames[0].event, "content_block_stop");
    assert_eq!(data(&frames[0])["index"], 0);
    assert_eq!(frames[1].event, "content_block_start");
    assert_eq!(data(&frames[1])["index"], 1);
    assert_eq!(data(&frames[1])["content_block"]["type"], "tool_use");
    assert_eq!(data(&frames[1])["content_block"]["id"], "toolu_1");

    let frames = stream_event_to_anthropic_sse(
        &StreamEvent::ToolCallDelta { index: 0, arguments: r#"{"location":"SF"}"#.into() },
        &mut ctx,
    );
    assert_eq!(data(&frames[0])["delta"]["type"], "input_json_delta");
    assert_eq!(data(&frames[0])["index"], 1);
    assert_eq!(data(&frames[0])["delta"]["partial_json"], r#"{"location":"SF"}"#);

    let frames = stream_event_to_anthropic_sse(&StreamEvent::Finish(FinishReason::ToolCalls), &mut ctx);
    assert_eq!(frames[0].event, "content_block_stop");
    assert_eq!(data(&frames[0])["index"], 1);

    feed(
        &mut ctx,
        StreamEvent::Usage(Usage { prompt_tokens: Some(10), completion_tokens: Some(7), total_tokens: Some(17), extra: JsonObject::new() }),
    );
    let frames = stream_event_to_anthropic_sse(&StreamEvent::Done, &mut ctx);
    assert_eq!(frames[0].event, "message_delta");
    assert_eq!(data(&frames[0])["delta"]["stop_reason"], "tool_use");
    assert_eq!(data(&frames[0])["usage"]["output_tokens"], 7);
    assert_eq!(frames[1].event, "message_stop");
}

#[test]
fn full_text_stream_frame_sequence() {
    let mut ctx = SseContext::default();
    let mut events = Vec::new();
    for ev in [
        meta("msg_1", "gpt-4.1"),
        StreamEvent::ContentDelta("Hello".into()),
        StreamEvent::Finish(FinishReason::Stop),
        StreamEvent::Usage(Usage { prompt_tokens: Some(5), completion_tokens: Some(1), total_tokens: Some(6), extra: JsonObject::new() }),
        StreamEvent::Done,
    ] {
        events.extend(stream_event_to_anthropic_sse(&ev, &mut ctx));
    }
    let names: Vec<&str> = events.iter().map(|f| f.event.as_str()).collect();
    assert_eq!(
        names,
        ["message_start", "content_block_start", "content_block_delta", "content_block_stop", "message_delta", "message_stop"]
    );
}

#[test]
fn streaming_usage_carries_input_and_cache_tokens() {
    let mut ctx = SseContext::default();
    feed(&mut ctx, meta("m", "m"));
    feed(&mut ctx, StreamEvent::ContentDelta("hi".into()));
    feed(&mut ctx, StreamEvent::Finish(FinishReason::Stop));
    let mut usage = Usage { prompt_tokens: Some(120), completion_tokens: Some(8), total_tokens: Some(128), extra: JsonObject::new() };
    usage.extra.insert("prompt_tokens_details".into(), jv(json(r#"{ "cached_tokens": 100 }"#)));
    feed(&mut ctx, StreamEvent::Usage(usage));

    let frames = stream_event_to_anthropic_sse(&StreamEvent::Done, &mut ctx);
    let delta = frames.iter().find(|f| f.event == "message_delta").unwrap();
    let v = data(delta);
    assert_eq!(v["usage"]["input_tokens"], 120);
    assert_eq!(v["usage"]["output_tokens"], 8);
    assert_eq!(v["usage"]["cache_read_input_tokens"], 100);
}

#[test]
fn done_is_idempotent() {
    let mut ctx = SseContext::default();
    feed(&mut ctx, meta("msg_1", "m"));
    let first = stream_event_to_anthropic_sse(&StreamEvent::Done, &mut ctx);
    assert_eq!(first.last().unwrap().event, "message_stop");
    let second = stream_event_to_anthropic_sse(&StreamEvent::Done, &mut ctx);
    assert!(second.is_empty(), "second Done must not re-emit message_stop");
}

#[test]
fn message_start_is_emitted_once() {
    let mut ctx = SseContext::default();
    let a = stream_event_to_anthropic_sse(&meta("a", "m"), &mut ctx);
    let b = stream_event_to_anthropic_sse(&meta("b", "m"), &mut ctx);
    assert_eq!(a.len(), 1);
    assert!(b.is_empty());
}

#[test]
fn sse_bytes_render_event_and_data_lines() {
    let frame = AnthropicSseFrame { event: "message_stop".to_owned(), data: r#"{"type":"message_stop"}"#.to_owned() };
    let bytes = frame.to_sse_bytes();
    assert_eq!(String::from_utf8(bytes).unwrap(), "event: message_stop\ndata: {\"type\":\"message_stop\"}\n\n");
}

#[test]
fn event_sequence_keeps_block_discipline_and_one_message_start() {
    let mut ctx = SseContext::default();
    let events = vec![
        meta("msg_1", "m"),
        StreamEvent::ContentDelta("Hi".into()),
        StreamEvent::ReasoningDelta("hmm".into()),
        StreamEvent::ToolCallStart { index: 0, id: "toolu_1".into(), name: "a".into() },
        StreamEvent::ToolCallStart { index: 1, id: "toolu_2".into(), name: "b".into() },
        StreamEvent::ContentDelta("".into()),
        meta("msg_1", "m"),
        StreamEvent::Done,
    ];
    let mut all = Vec::new();
    for ev in events {
        all.extend(stream_event_to_anthropic_sse(&ev, &mut ctx));
    }
    assert_eq!(all.iter().filter(|f| f.event == "message_start").count(), 1);
    assert_eq!(all[0].event, "message_start");
    let mut open: Option<u64> = None;
    let mut next = 0u64;
    for f in &all {
        if f.event == "content_block_start" {
            assert!(open.is_none());
            assert_eq!(data(f)["index"], next);
            open = Some(next);
            next += 1;
        } else if f.event == "content_block_stop" {
            assert_eq!(Some(data(f)["index"].as_u64().unwrap()), open);
            open = None;
        }
    }
    assert!(open.is_none());
    assert_eq!(next, 4);
}
