use aigw::canonical::error::TranslateError;
use aigw::canonical::model::{FinishReason, StreamEvent};
use aigw::json::JsonObject;
use aigw::openai::stream::{map_finish_reason, OpenAIStreamParser};
use aigw::openai::wire_chat::{
    ChatCompletionChunk, ChatCompletionChunkChoice, ChatFunctionCallDelta, ChatMessageDelta, ChatMessageRole,
    ChatToolCallDelta, ChatUsage,
};

fn parser() -> OpenAIStreamParser {
    OpenAIStreamParser::new()
}

fn delta() -> ChatMessageDelta {
    ChatMessageDelta { role: None, content: None, refusal: None, tool_calls: None, extra: JsonObject::new() }
}

fn choice(delta: ChatMessageDelta, finish_reason: Option<&str>) -> ChatCompletionChunkChoice {
    ChatCompletionChunkChoice {
        index: 0,
        delta,
        finish_reason: finish_reason.map(|s| s.to_owned()),
        logprobs: None,
        extra: JsonObject::new(),
    }
}

fn chunk(id: &str, model: &str, choices: Vec<ChatCompletionChunkChoice>) -> ChatCompletionChunk {
    ChatCompletionChunk {
        id: id.to_owned(),
        object: "chat.completion.chunk".to_owned(),
        created: 0,
        model: model.to_owned(),
        choices,
        usage: None,
        system_fingerprint: None,
        extra: JsonObject::new(),
    }
}

fn role_chunk() -> ChatCompletionChunk {
    chunk("c", "m", vec![choice(ChatMessageDelta { role: Some(ChatMessageRole::Assistant), ..delta() }, None)])
}

fn tool_delta(id: Option<&str>, name: Option<&str>, arguments: &str) -> ChatToolCallDelta {
    ChatToolCallDelta {
        index: 0,
        id: id.map(|s| s.to_owned()),
        kind: id.map(|_| "function".to_owned()),
        function: Some(ChatFunctionCallDelta {
            name: name.map(|s| s.to_owned()),
            arguments: Some(arguments.to_owned()),
            extra: JsonObject::new(),
        }),
        extra: JsonObject::new(),
    }
}

#[test]
fn first_chunk_emits_response_meta() {
    let mut p = parser();
    let mut first = chunk(
        "chatcmpl-abc",
        "gpt-4.1",
        vec![choice(
            ChatMessageDelta { role: Some(ChatMessageRole::Assistant), content: Some(String::new()), ..delta() },
            None,
        )],
    );
    first.created = 1700000000;
    let events = p.parse_event("{...}", Ok(first)).unwrap();
    assert!(matches!(
        events[0],
        StreamEvent::ResponseMeta { ref id, ref model }
        if id == "chatcmpl-abc" && model == "gpt-4.1"
    ));
    assert_eq!(events.len(), 1);
}

#[test]
fn content_delta() {
    let mut p = parser();
    p.parse_event("{...}", Ok(role_chunk())).unwrap();

    let data = chunk("c", "m", vec![choice(ChatMessageDelta { content: Some("Hello".to_owned()), ..delta() }, None)]);
    let events = p.parse_event("{...}", Ok(data)).unwrap();
    assert!(matches!(events[0], StreamEvent::ContentDelta(ref s) if s == "Hello"));
}

#[test]
fn tool_call_start_and_delta() {
    let mut p = parser();
    p.parse_event("{...}", Ok(role_chunk())).unwrap();

    let start = chunk(
        "c",
        "m",
        vec![choice(
            ChatMessageDelta { tool_calls: Some(vec![tool_delta(Some("call_1"), Some("get_weather"), "")]), ..delta() },
            None,
        )],
    );
    let events = p.parse_event("{...}", Ok(start)).unwrap();
    assert!(matches!(
        events[0],
        StreamEvent::ToolCallStart { index: 0, ref id, ref name }
        if id == "call_1" && name == "get_weather"
    ));
    assert_eq!(events.len(), 1);

    let d = chunk(
        "c",
        "m",
        vec![choice(ChatMessageDelta { tool_calls: Some(vec![tool_delta(None, None, "{\"loc")]), ..delta() }, None)],
    );
    let events = p.parse_event("{...}", Ok(d)).unwrap();
    assert!(matches!(
        events[0],
        StreamEvent::ToolCallDelta { index: 0, ref arguments }
        if arguments == "{\"loc"
    ));
}

#[test]
fn finish_and_usage() {
    let mut p = parser();
    p.parse_event("{...}", Ok(role_chunk())).unwrap();

    let finish = chunk("c", "m", vec![choice(delta(), Some("stop"))]);
    let events = p.parse_event("{...}", Ok(finish)).unwrap();
    assert!(matches!(events[0], StreamEvent::Finish(FinishReason::Stop)));

    let mut usage = chunk("c", "m", vec![]);
    usage.usage = Some(ChatUsage {
        prompt_tokens: Some(10),
        completion_tokens: Some(5),
        total_tokens: Some(15),
        extra: JsonObject::new(),
    });
    let events = p.parse_event("{...}", Ok(usage)).unwrap();
    match &events[0] {
        StreamEvent::Usage(u) => {
            assert_eq!(u.prompt_tokens, Some(10));
            assert_eq!(u.completion_tokens, Some(5));
        }
        other => panic!("expected Usage, got {other:?}"),
    }
}

#[test]
fn done_event() {
    let mut p = parser();
    let events = p.parse_event("[DONE]", Err("not decoded".to_owned())).unwrap();
    assert!(matches!(events[0], StreamEvent::Done));
    assert_eq!(events.len(), 1);
    let events = p.parse_event("  [DONE] \n", Err("not decoded".to_owned())).unwrap();
    assert_eq!(events, vec![StreamEvent::Done]);
}

#[test]
fn finish_returns_empty() {
    let mut p = parser();
    let events = p.finish().unwrap();
    assert!(events.is_empty());
}

#[test]
fn undecodable_chunk_is_a_stream_parse_error() {
    let mut p = parser();
    let err = p.parse_event("{oops", Err("expected value".to_owned())).unwrap_err();
    assert_eq!(
        err,
        TranslateError::StreamParse { message: "failed to parse OpenAI chunk: expected value".to_owned() }
    );
    // The failed chunk did not count as the first one.
    let events = p.parse_event("{...}", Ok(role_chunk())).unwrap();
    assert!(matches!(events[0], StreamEvent::ResponseMeta { .. }));
}

#[test]
fn meta_is_emitted_only_once() {
    let mut p = OpenAIStreamParser::default();
    let a = p.parse_chunk(&role_chunk());
    let b = p.parse_chunk(&role_chunk());
    assert_eq!(a.len(), 1);
    assert!(b.is_empty());
}

#[test]
fn finish_reasons_map_to_canonical() {
    assert_eq!(map_finish_reason("stop"), FinishReason::Stop);
    assert_eq!(map_finish_reason("length"), FinishReason::Length);
    assert_eq!(map_finish_reason("tool_calls"), FinishReason::ToolCalls);
    assert_eq!(map_finish_reason("content_filter"), FinishReason::ContentFilter);
    assert_eq!(map_finish_reason("weird"), FinishReason::Unknown("weird".to_owned()));
}
