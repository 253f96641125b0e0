use aigw::canonical::error::ProviderError;
use aigw::canonical::model::FinishReason;
use aigw::http_headers::HeaderList;
use aigw::json::{JsonNumber, JsonObject, JsonValue};
use aigw::openai::responses_output::{
    ResponseContentPart, ResponseObject, ResponseOutputItem, ResponseReasoningSummaryPart, ResponseUsage,
};
use aigw::openai::responses_response::ResponsesResponseTranslator;

fn response(id: &str, model: &str, status: &str, output: Vec<ResponseOutputItem>) -> ResponseObject {
    ResponseObject {
        id: id.to_owned(),
        object: "response".to_owned(),
        background: None,
        conversation: None,
        created_at: None,
        error: None,
        incomplete_details: None,
        instructions: None,
        max_output_tokens: None,
        metadata: None,
        model: Some(model.to_owned()),
        output: Some(output),
        parallel_tool_calls: None,
        previous_response_id: None,
        prompt_cache_key: None,
        prompt_cache_retention: None,
        reasoning: None,
        safety_identifier: None,
        status: Some(status.to_owned()),
        store: None,
        temperature: None,
        text: None,
        tool_choice: None,
        tools: None,
        top_p: None,
        truncation: None,
        usage: None,
        user: None,
        extra: JsonObject::new(),
    }
}

fn message(text: &str, status: Option<&str>) -> ResponseOutputItem {
    ResponseOutputItem::Message {
        id: "msg_1".to_owned(),
        content: vec![ResponseContentPart::OutputText {
            annotations: None,
            logprobs: None,
            text: text.to_owned(),
            extra: JsonObject::new(),
        }],
        role: "assistant".to_owned(),
        status: status.map(|s| s.to_owned()),
        phase: None,
        extra: JsonObject::new(),
    }
}

fn usage(input: u64, output: u64, total: u64) -> ResponseUsage {
    ResponseUsage {
        input_tokens: Some(input),
        input_tokens_details: None,
        output_tokens: Some(output),
        output_tokens_details: None,
        total_tokens: Some(total),
        extra: JsonObject::new(),
    }
}

fn object(pairs: Vec<(&str, JsonValue)>) -> JsonValue {
    JsonValue::Object(JsonObject { entries: pairs.into_iter().map(|(k, v)| (k.to_owned(), v)).collect() })
}

#[test]
fn translate_message_output() {
    let mut r = response("resp_123", "gpt-4.1", "completed", vec![message("Hello!", Some("completed"))]);
    r.created_at = Some(1700000000);
    r.usage = Some(usage(10, 5, 15));

    let translator = ResponsesResponseTranslator;
    let resp = translator.translate_response(r).unwrap();

    assert_eq!(resp.id, "resp_123");
    assert_eq!(resp.model, "gpt-4.1");
    assert_eq!(resp.created, 1700000000);
    assert_eq!(resp.choices.len(), 1);
    assert_eq!(resp.choices[0].finish_reason, Some(FinishReason::Stop));
    let usage = resp.usage.as_ref().unwrap();
    assert_eq!(usage.prompt_tokens, Some(10));
    assert_eq!(usage.completion_tokens, Some(5));
}

#[test]
fn translate_function_call_output() {
    let mut r = response(
        "resp_456",
        "gpt-4.1",
        "completed",
        vec![ResponseOutputItem::FunctionCall {
            arguments: "{\"location\":\"SF\"}".to_owned(),
            call_id: "call_abc".to_owned(),
            name: "get_weather".to_owned(),
            id: Some("fc_1".to_owned()),
            namespace: None,
            status: Some("completed".to_owned()),
            extra: JsonObject::new(),
        }],
    );
    r.created_at = Some(1700000000);

    let translator = ResponsesResponseTranslator;
    let resp = translator.translate_response(r).unwrap();

    assert_eq!(resp.choices[0].finish_reason, Some(FinishReason::ToolCalls));
    let tc = resp.choices[0].message.tool_calls.as_ref().unwrap();
    assert_eq!(tc[0].function.name, "get_weather");
    assert_eq!(tc[0].id, "fc_1");
}

#[test]
fn translate_incomplete_status() {
    let r = response("resp_789", "gpt-4.1", "incomplete", vec![message("partial...", None)]);
    let translator = ResponsesResponseTranslator;
    let resp = translator.translate_response(r).unwrap();
    assert_eq!(resp.choices[0].finish_reason, Some(FinishReason::Length));
}

#[test]
fn translate_usage_details() {
    let mut r = response("resp_u", "o4-mini", "completed", vec![message("ok", None)]);
    let mut u = usage(100, 50, 150);
    u.input_tokens_details = Some(object(vec![("cached_tokens", JsonValue::Number(JsonNumber::PosInt(80)))]));
    u.output_tokens_details = Some(object(vec![("reasoning_tokens", JsonValue::Number(JsonNumber::PosInt(30)))]));
    r.usage = Some(u);

    let translator = ResponsesResponseTranslator;
    let resp = translator.translate_response(r).unwrap();

    let usage = resp.usage.unwrap();
    assert_eq!(usage.prompt_tokens, Some(100));
    assert_eq!(usage.completion_tokens, Some(50));
    let cached = usage.extra.get("prompt_tokens_details").unwrap().as_object().unwrap().get("cached_tokens");
    assert_eq!(cached, Some(&JsonValue::Number(JsonNumber::PosInt(80))));
    let reasoning =
        usage.extra.get("completion_tokens_details").unwrap().as_object().unwrap().get("reasoning_tokens");
    assert_eq!(reasoning, Some(&JsonValue::Number(JsonNumber::PosInt(30))));
}

#[test]
fn translate_reasoning_output() {
    let mut r = response(
        "resp_r",
        "o4-mini",
        "completed",
        vec![
            ResponseOutputItem::Reasoning {
                id: "rs_1".to_owned(),
                summary: vec![ResponseReasoningSummaryPart::SummaryText {
                    text: "Thinking about it...".to_owned(),
                    extra: JsonObject::new(),
                }],
                content: None,
                encrypted_content: None,
                status: None,
                extra: JsonObject::new(),
            },
            message("Done.", None),
        ],
    );
    r.created_at = Some(1700000000);
    r.usage = Some(usage(10, 20, 30));

    let translator = ResponsesResponseTranslator;
    let resp = translator.translate_response(r).unwrap();

    assert_eq!(
        resp.choices[0].message.extra.get("reasoning_content"),
        Some(&JsonValue::Str("Thinking about it...".to_owned()))
    );
}

#[test]
fn translate_text_parts_concatenate_and_missing_fields_default() {
    let mut r = response("resp_t", "m", "completed", vec![message("Hel", None), message("lo", None)]);
    r.model = None;
    let translator = ResponsesResponseTranslator;
    let resp = translator.translate_response(r).unwrap();
    assert_eq!(resp.model, "");
    assert_eq!(resp.created, 0);
    assert_eq!(resp.object, "chat.completion");
    assert!(resp.usage.is_none());
    match &resp.choices[0].message.content {
        Some(aigw::canonical::model::MessageContent::Text(t)) => assert_eq!(t, "Hello"),
        other => panic!("expected text, got {other:?}"),
    }
}

#[test]
fn responses_translate_error_uses_body_text() {
    let translator = ResponsesResponseTranslator;
    let err = translator.translate_error(503, &HeaderList::new(), b"busy", None);
    assert_eq!(err, ProviderError::ServerError { status: 503, message: "busy".to_owned() });
}
