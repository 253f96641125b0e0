use aigw::canonical::model::{
    ChatRequest, FunctionCall, FunctionDefinition, JsonSchema, Message, MessageContent, ResponseFormat, Role, Tool,
    ToolCall, ToolChoice, ToolChoiceMode,
};
use aigw::json::{JsonNumber, JsonObject, JsonValue};
use aigw::openai::responses::{ResponseTool, ResponseToolChoice};
use aigw::openai::responses_config::{ResponsesRequestConfig, SystemHandling};
use aigw::openai::responses_request::chat_request_to_responses;
use aigw::openai::wire_responses::ResponseToolChoiceMode;
use serde_json::Value;

fn sj(v: &JsonValue) -> Value {
    match v {
        JsonValue::Null => Value::Null,
        JsonValue::Bool(b) => Value::Bool(*b),
        JsonValue::Number(JsonNumber::PosInt(u)) => Value::from(*u),
        JsonValue::Number(JsonNumber::NegInt(i)) => Value::from(*i),
        JsonValue::Number(JsonNumber::Float(t)) => serde_json::from_str(t).unwrap(),
        JsonValue::Str(s) => Value::String(s.clone()),
        JsonValue::Array(a) => Value::Array(a.iter().map(sj).collect()),
        JsonValue::Object(o) => {
            let mut m = serde_json::Map::new();
            for (k, v) in &o.entries {
                m.insert(k.clone(), sj(v));
            }
            Value::Object(m)
        }
    }
}

fn jv(v: Value) -> JsonValue {
    match v {
        Value::Null => JsonValue::Null,
        Value::Bool(b) => JsonValue::Bool(b),
        Value::Number(n) => JsonValue::Number(match (n.as_u64(), n.as_i64()) {
            (Some(u), _) => JsonNumber::PosInt(u),
            (None, Some(i)) => JsonNumber::NegInt(i),
            _ => JsonNumber::Float(n.to_string()),
        }),
        Value::String(s) => JsonValue::Str(s),
        Value::Array(a) => JsonValue::Array(a.into_iter().map(jv).collect()),
        Value::Object(o) => JsonValue::Object(JsonObject { entries: o.into_iter().map(|(k, v)| (k, jv(v))).collect() }),
    }
}

fn float(t: &str) -> JsonNumber {
    JsonNumber::Float(t.to_owned())
}

fn default_config() -> ResponsesRequestConfig {
    ResponsesRequestConfig::default()
}

fn codex_config() -> ResponsesRequestConfig {
    ResponsesRequestConfig::codex()
}

fn message(role: Role, text: Option<&str>) -> Message {
    Message {
        role,
        content: text.map(|t| MessageContent::Text(t.into())),
        name: None,
        tool_call_id: None,
        tool_calls: None,
        extra: JsonObject::new(),
    }
}

fn minimal_request() -> ChatRequest {
    ChatRequest {
        model: "gpt-4.1".into(),
        messages: vec![message(Role::System, Some("You are helpful.")), message(Role::User, Some("Hello"))],
        temperature: Some(float("0.7")),
        max_tokens: Some(1024),
        top_p: None,
        stop: None,
        stream: None,
        tools: None,
        tool_choice: None,
        response_format: None,
        frequency_penalty: None,
        presence_penalty: None,
        n: None,
        seed: None,
        user: None,
        thinking: None,
        extra: JsonObject::new(),
    }
}

fn input_items(input: Option<JsonValue>) -> Vec<Value> {
    match sj(&input.unwrap()) {
        Value::Array(a) => a,
        other => panic!("expected an array, got {other:?}"),
    }
}

fn function_tool(name: &str, description: Option<&str>, parameters: Option<JsonValue>, strict: Option<bool>) -> Tool {
    Tool {
        kind: "function".into(),
        function: FunctionDefinition {
            name: name.into(),
            description: description.map(|d| d.into()),
            parameters,
            strict,
            extra: JsonObject::new(),
        },
        extra: JsonObject::new(),
    }
}

#[test]
fn system_message_becomes_instructions() {
    let resp = chat_request_to_responses(&minimal_request(), &default_config()).unwrap();
    assert_eq!(resp.instructions, Some(JsonValue::Str("You are helpful.".into())));
}

#[test]
fn user_message_becomes_input_item() {
    let resp = chat_request_to_responses(&minimal_request(), &default_config()).unwrap();
    let items = input_items(resp.input);
    assert_eq!(items.len(), 1);
    assert_eq!(items[0]["content"][0]["type"], "input_text");
}

#[test]
fn assistant_content_uses_output_text() {
    let mut req = minimal_request();
    req.messages.push(message(Role::Assistant, Some("Hi there")));
    let resp = chat_request_to_responses(&req, &default_config()).unwrap();
    let items = input_items(resp.input);
    let last = items.last().unwrap();
    assert_eq!(last["content"][0]["type"], "output_text");
}

#[test]
fn max_tokens_maps_to_max_output_tokens() {
    let resp = chat_request_to_responses(&minimal_request(), &default_config()).unwrap();
    assert_eq!(resp.max_output_tokens, Some(1024));
}

#[test]
fn codex_config_drops_max_tokens() {
    let resp = chat_request_to_responses(&minimal_request(), &codex_config()).unwrap();
    assert_eq!(resp.max_output_tokens, None);
}

#[test]
fn codex_config_sets_default_store() {
    let resp = chat_request_to_responses(&minimal_request(), &codex_config()).unwrap();
    assert_eq!(resp.store, Some(false));
}

#[test]
fn codex_config_sets_default_include() {
    let resp = chat_request_to_responses(&minimal_request(), &codex_config()).unwrap();
    assert_eq!(resp.include_items, Some(vec!["reasoning.encrypted_content".into()]));
}

#[test]
fn codex_config_forces_empty_instructions() {
    let mut req = minimal_request();
    req.messages.retain(|m| m.role != Role::System);
    let resp = chat_request_to_responses(&req, &codex_config()).unwrap();
    assert_eq!(resp.instructions, Some(JsonValue::Str("".into())));
}

#[test]
fn default_config_omits_instructions_when_no_system() {
    let mut req = minimal_request();
    req.messages.retain(|m| m.role != Role::System);
    let resp = chat_request_to_responses(&req, &default_config()).unwrap();
    assert_eq!(resp.instructions, None);
}

#[test]
fn codex_config_truncates_tool_names() {
    let mut req = minimal_request();
    req.tools = Some(vec![function_tool(&"a".repeat(100), None, None, None)]);
    let resp = chat_request_to_responses(&req, &codex_config()).unwrap();
    let tools = resp.tools.unwrap();
    match &tools[0] {
        ResponseTool::Function { name, .. } => assert_eq!(name.len(), 64),
        other => panic!("expected a function tool, got {other:?}"),
    }
}

#[test]
fn tool_calls_become_function_call_items() {
    let mut req = minimal_request();
    let mut call = message(Role::Assistant, None);
    call.tool_calls = Some(vec![ToolCall {
        id: "call_1".into(),
        kind: "function".into(),
        function: FunctionCall {
            name: "get_weather".into(),
            arguments: r#"{"location":"SF"}"#.into(),
            extra: JsonObject::new(),
        },
        extra: JsonObject::new(),
    }]);
    req.messages.push(call);
    let mut result = message(Role::Tool, Some("72F sunny"));
    result.tool_call_id = Some("call_1".into());
    req.messages.push(result);

    let resp = chat_request_to_responses(&req, &default_config()).unwrap();
    let items = input_items(resp.input);
    assert_eq!(items.len(), 3);
    assert_eq!(items[1]["type"], "function_call");
    assert_eq!(items[2]["type"], "function_call_output");
    assert_eq!(items[1]["call_id"], "call_1");
    assert_eq!(items[2]["output"], "72F sunny");
}

#[test]
fn tools_translated_to_responses_format() {
    let mut req = minimal_request();
    req.tools = Some(vec![function_tool(
        "search",
        Some("Search the web"),
        Some(jv(serde_json::from_str(r#"{"type": "object"}"#).unwrap())),
        Some(true),
    )]);
    req.tool_choice = Some(ToolChoice::Mode(ToolChoiceMode::Auto));

    let resp = chat_request_to_responses(&req, &default_config()).unwrap();
    let tools = resp.tools.unwrap();
    match &tools[0] {
        ResponseTool::Function { name, strict, description, .. } => {
            assert_eq!(name, "search");
            assert_eq!(*strict, Some(true));
            assert_eq!(description.as_deref(), Some("Search the web"));
        }
        other => panic!("expected a function tool, got {other:?}"),
    }
    assert_eq!(resp.tool_choice, Some(ResponseToolChoice::Mode(ResponseToolChoiceMode::Auto)));
}

#[test]
fn map_to_developer_keeps_system_in_input() {
    let config = ResponsesRequestConfig { system_handling: SystemHandling::MapToDeveloper, ..Default::default() };
    let resp = chat_request_to_responses(&minimal_request(), &config).unwrap();
    let instructions = resp.instructions;
    let items = input_items(resp.input);
    assert_eq!(items.len(), 2);
    assert_eq!(items[0]["type"], "message");
    assert_eq!(items[0]["role"], "developer");
    assert_eq!(items[0]["content"][0]["text"], "You are helpful.");
    assert_eq!(items[1]["role"], "user");
    assert_eq!(instructions, None);
}

#[test]
fn codex_config_routes_system_to_developer_and_forces_empty_instructions() {
    let resp = chat_request_to_responses(&minimal_request(), &codex_config()).unwrap();
    let instructions = resp.instructions;
    let items = input_items(resp.input);
    assert_eq!(items[0]["role"], "developer");
    assert_eq!(instructions, Some(JsonValue::Str("".into())));
}

#[test]
fn codex_config_drops_temperature_and_top_p() {
    let mut req = minimal_request();
    req.temperature = Some(float("0.5"));
    req.top_p = Some(float("0.9"));
    let resp = chat_request_to_responses(&req, &codex_config()).unwrap();
    assert_eq!(resp.temperature, None);
    assert_eq!(resp.top_p, None);
}

#[test]
fn default_config_forwards_temperature_and_top_p() {
    let mut req = minimal_request();
    req.temperature = Some(float("0.5"));
    req.top_p = Some(float("0.9"));
    let resp = chat_request_to_responses(&req, &default_config()).unwrap();
    assert_eq!(resp.temperature, Some(float("0.5")));
    assert_eq!(resp.top_p, Some(float("0.9")));
}

#[test]
fn reasoning_effort_shorthand_maps_to_reasoning_effort() {
    let mut req = minimal_request();
    req.extra.insert("reasoning_effort".into(), JsonValue::Str("high".into()));
    let resp = chat_request_to_responses(&req, &default_config()).unwrap();
    let reasoning = sj(&resp.reasoning.unwrap());
    assert_eq!(reasoning["effort"], "high");
}

#[test]
fn reasoning_object_passes_through() {
    let mut req = minimal_request();
    req.extra.insert(
        "reasoning".into(),
        jv(serde_json::from_str(r#"{"effort": "low", "summary": "concise"}"#).unwrap()),
    );
    let resp = chat_request_to_responses(&req, &default_config()).unwrap();
    let reasoning = sj(&resp.reasoning.unwrap());
    assert_eq!(reasoning["effort"], "low");
    assert_eq!(reasoning["summary"], "concise");
}

#[test]
fn codex_config_sets_default_reasoning_effort_and_summary() {
    let resp = chat_request_to_responses(&minimal_request(), &codex_config()).unwrap();
    let reasoning = sj(&resp.reasoning.unwrap());
    assert_eq!(reasoning["effort"], "medium");
    assert_eq!(reasoning["summary"], "auto");
}

#[test]
fn user_reasoning_effort_overrides_default() {
    let mut req = minimal_request();
    req.extra.insert("reasoning_effort".into(), JsonValue::Str("high".into()));
    let resp = chat_request_to_responses(&req, &codex_config()).unwrap();
    let reasoning = sj(&resp.reasoning.unwrap());
    assert_eq!(reasoning["effort"], "high");
    assert_eq!(reasoning["summary"], "auto");
}

#[test]
fn response_format_text_maps_to_text_format() {
    let mut req = minimal_request();
    req.response_format = Some(ResponseFormat::Text { extra: JsonObject::new() });
    let resp = chat_request_to_responses(&req, &default_config()).unwrap();
    let text = resp.text.unwrap();
    assert_eq!(sj(&text.format.unwrap())["type"], "text");
}

#[test]
fn response_format_json_object_maps() {
    let mut req = minimal_request();
    req.response_format = Some(ResponseFormat::JsonObject { extra: JsonObject::new() });
    let resp = chat_request_to_responses(&req, &default_config()).unwrap();
    assert_eq!(sj(&resp.text.unwrap().format.unwrap())["type"], "json_object");
}

#[test]
fn response_format_json_schema_flattens_fields() {
    let mut req = minimal_request();
    req.response_format = Some(ResponseFormat::JsonSchema {
        json_schema: JsonSchema {
            name: "person".into(),
            description: Some("A person".into()),
            schema: Some(jv(serde_json::from_str(r#"{"type": "object"}"#).unwrap())),
            strict: Some(true),
            extra: JsonObject::new(),
        },
        extra: JsonObject::new(),
    });
    let resp = chat_request_to_responses(&req, &default_config()).unwrap();
    let format = sj(&resp.text.unwrap().format.unwrap());
    assert_eq!(format["type"], "json_schema");
    assert_eq!(format["name"], "person");
    assert_eq!(format["description"], "A person");
    assert_eq!(format["strict"], true);
    assert_eq!(format["schema"]["type"], "object");
    assert!(format.get("json_schema").is_none());
}

#[test]
fn parallel_tool_calls_from_extra() {
    let mut req = minimal_request();
    req.extra.insert("parallel_tool_calls".into(), JsonValue::Bool(false));
    let resp = chat_request_to_responses(&req, &default_config()).unwrap();
    assert_eq!(resp.parallel_tool_calls, Some(false));
}

#[test]
fn codex_config_forces_parallel_tool_calls_true() {
    let resp = chat_request_to_responses(&minimal_request(), &codex_config()).unwrap();
    assert_eq!(resp.parallel_tool_calls, Some(true));
}

#[test]
fn user_parallel_tool_calls_overrides_default() {
    let mut req = minimal_request();
    req.extra.insert("parallel_tool_calls".into(), JsonValue::Bool(false));
    let resp = chat_request_to_responses(&req, &codex_config()).unwrap();
    assert_eq!(resp.parallel_tool_calls, Some(false));
}

#[test]
fn several_system_messages_join_with_blank_lines() {
    let mut req = minimal_request();
    req.messages.insert(1, message(Role::Developer, Some("Be brief.")));
    let resp = chat_request_to_responses(&req, &default_config()).unwrap();
    assert_eq!(resp.instructions, Some(JsonValue::Str("You are helpful.\n\nBe brief.".into())));
}
