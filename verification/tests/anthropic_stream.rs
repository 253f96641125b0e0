use aigw::anthropic::stream::AnthropicStreamParser;
use aigw::anthropic::types::{
    ApiError, ContentBlock, ContentDelta, MessageDeltaBody, MessageDeltaUsage, MessagesResponse, Role,
    StopReason, StreamEvent as AnthropicEvent, TypedContentBlock, Usage,
};
use aigw::canonical::error::TranslateError;
use aigw::canonical::model::{FinishReason, StreamEvent};
use aigw::json::{JsonObject, JsonValue};

fn parser() -> AnthropicStreamParser {
    AnthropicStreamParser::new()
}

fn message_start(id: &str, model: &str, input_tokens: u64) -> AnthropicEvent {
    AnthropicEvent::MessageStart {
        message: MessagesResponse {
            id: id.to_owned(),
            kind: "message".to_owned(),
            role: Role::Assistant,
            content: vec![],
            model: model.to_owned(),
            stop_reason: None,
            stop_sequence: None,
            usage: Usage {
                input_tokens,
                output_tokens: 0,
                cache_creation_input_tokens: None,
                cache_read_input_tokens: None,
            },
        },
    }
}

fn text_block_start(index: usize) -> AnthropicEvent {
    AnthropicEvent::ContentBlockStart {
        index,
        content_block: ContentBlock::Typed(TypedContentBlock::Text { text: String::new(), cache_control: None }),
    }
}

fn tool_block_start(index: usize, id: &str, name: &str) -> AnthropicEvent {
    AnthropicEvent::ContentBlockStart {
        index,
        content_block: ContentBlock::Typed(TypedContentBlock::ToolUse {
            id: id.to_owned(),
            name: name.to_owned(),
            input: JsonValue::Object(JsonObject { entries: vec![] }),
            cache_control: None,
        }),
    }
}

fn text_delta(index: usize, text: &str) -> AnthropicEvent {
    AnthropicEvent::ContentBlockDelta { index, delta: ContentDelta::TextDelta { text: text.to_owned() } }
}

fn message_delta(stop: StopReason, output_tokens: u64) -> AnthropicEvent {
    AnthropicEvent::MessageDelta {
        delta: MessageDeltaBody { stop_reason: Some(stop), stop_sequence: None },
        usage: MessageDeltaUsage { output_tokens },
    }
}

#[test]
fn message_start_emits_response_meta() {
    let mut p = parser();
    let events = p.parse_event(Ok(message_start("msg_01", "sonnet-4-20250514", 25))).unwrap();
    assert_eq!(events.len(), 1);
    assert!(matches!(
        &events[0],
        StreamEvent::ResponseMeta { id, model }
        if id == "msg_01" && model == "sonnet-4-20250514"
    ));
    assert_eq!(p.input_tokens(), Some(25));
}

#[test]
fn text_content_delta() {
    let mut p = parser();
    let events = p.parse_event(Ok(text_block_start(0))).unwrap();
    assert!(events.is_empty());

    let events = p.parse_event(Ok(text_delta(0, "Hello"))).unwrap();
    assert_eq!(events.len(), 1);
    assert!(matches!(&events[0], StreamEvent::ContentDelta(s) if s == "Hello"));
}

#[test]
fn tool_call_streaming() {
    let mut p = parser();
    let events = p.parse_event(Ok(tool_block_start(1, "toolu_01", "get_weather"))).unwrap();
    assert_eq!(events.len(), 1);
    assert!(matches!(
        &events[0],
        StreamEvent::ToolCallStart { index: 0, id, name }
        if id == "toolu_01" && name == "get_weather"
    ));

    let delta = AnthropicEvent::ContentBlockDelta {
        index: 1,
        delta: ContentDelta::InputJsonDelta { partial_json: "{\"loc".to_owned() },
    };
    let events = p.parse_event(Ok(delta)).unwrap();
    assert_eq!(events.len(), 1);
    assert!(matches!(
        &events[0],
        StreamEvent::ToolCallDelta { index: 0, arguments }
        if arguments == "{\"loc"
    ));
}

#[test]
fn multiple_tool_calls_increment_index() {
    let mut p = parser();
    let events = p.parse_event(Ok(tool_block_start(0, "t1", "fn1"))).unwrap();
    assert!(matches!(&events[0], StreamEvent::ToolCallStart { index: 0, .. }));
    let events = p.parse_event(Ok(tool_block_start(1, "t2", "fn2"))).unwrap();
    assert!(matches!(&events[0], StreamEvent::ToolCallStart { index: 1, .. }));
}

#[test]
fn message_delta_emits_finish_and_usage() {
    let mut p = parser();
    // The parser has seen 25 input tokens.
    p.parse_event(Ok(message_start("m", "m", 25))).unwrap();

    let events = p.parse_event(Ok(message_delta(StopReason::EndTurn, 15))).unwrap();
    assert_eq!(events.len(), 2);
    assert!(matches!(&events[0], StreamEvent::Finish(FinishReason::Stop)));
    match &events[1] {
        StreamEvent::Usage(u) => {
            assert_eq!(u.prompt_tokens, Some(25));
            assert_eq!(u.completion_tokens, Some(15));
            assert_eq!(u.total_tokens, Some(40));
        }
        other => panic!("expected Usage, got {other:?}"),
    }
}

#[test]
fn message_stop_emits_done() {
    let mut p = parser();
    let events = p.parse_event(Ok(AnthropicEvent::MessageStop)).unwrap();
    assert_eq!(events.len(), 1);
    assert!(matches!(&events[0], StreamEvent::Done));
    assert!(p.done());
}

#[test]
fn ping_is_ignored() {
    let mut p = parser();
    let events = p.parse_event(Ok(AnthropicEvent::Ping)).unwrap();
    assert!(events.is_empty());
}

#[test]
fn error_event_returns_err() {
    let mut p = parser();
    let event = AnthropicEvent::Error {
        error: ApiError { kind: "overloaded_error".to_owned(), message: "Overloaded".to_owned() },
    };
    let err = p.parse_event(Ok(event)).unwrap_err();
    assert!(matches!(err, TranslateError::StreamParse { .. }));
}

#[test]
fn finish_emits_done_if_not_already() {
    let mut p = parser();
    let events = p.finish().unwrap();
    assert_eq!(events.len(), 1);
    assert!(matches!(&events[0], StreamEvent::Done));

    // Second call: no duplicate.
    let events = p.finish().unwrap();
    assert!(events.is_empty());
}

#[test]
fn full_stream_replay() {
    let mut p = parser();
    let mut all_events = Vec::new();
    let sequence = vec![
        message_start("msg_01", "sonnet-4-20250514", 25),
        text_block_start(0),
        text_delta(0, "Hello"),
        text_delta(0, " world"),
        AnthropicEvent::ContentBlockStop { index: 0 },
        message_delta(StopReason::EndTurn, 5),
        AnthropicEvent::MessageStop,
    ];
    for event in sequence {
        all_events.extend(p.parse_event(Ok(event)).unwrap());
    }
    assert!(matches!(&all_events[0], StreamEvent::ResponseMeta { .. }));
    assert!(matches!(&all_events[1], StreamEvent::ContentDelta(s) if s == "Hello"));
    assert!(matches!(&all_events[2], StreamEvent::ContentDelta(s) if s == " world"));
    assert!(matches!(&all_events[3], StreamEvent::Finish(FinishReason::Stop)));
    assert!(matches!(&all_events[4], StreamEvent::Usage(_)));
    assert!(matches!(&all_events[5], StreamEvent::Done));
}

#[test]
fn undecodable_event_is_a_stream_parse_error() {
    let mut p = parser();
    let err = p.parse_event(Err("expected value at line 1 column 1".to_owned())).unwrap_err();
    match err {
        TranslateError::StreamParse { message } => {
            assert_eq!(message, "failed to parse Anthropic stream event: expected value at line 1 column 1")
        }
        other => panic!("expected StreamParse, got {other:?}"),
    }
}

#[test]
fn stop_reason_other_keeps_its_text() {
    let mut p = parser();
    let events = p.parse_event(Ok(message_delta(StopReason::Other("refusal".to_owned()), 1))).unwrap();
    assert!(matches!(&events[0], StreamEvent::Finish(FinishReason::Unknown(s)) if s == "refusal"));
    match &events[1] {
        StreamEvent::Usage(u) => assert_eq!(u.prompt_tokens, Some(0)),
        other => panic!("expected Usage, got {other:?}"),
    }
}
