use aigw::json::{JsonObject, JsonValue};
use aigw::openai::responses::{ResponseCompactRequest, ResponseCreateRequest, ResponseInputTokensRequest};
use aigw::openai::wire_responses::{ResponseCreateRequestError, ResponseRetrieveStreamQuery};

fn conversation() -> JsonValue {
    JsonValue::Object(JsonObject { entries: vec![("id".to_owned(), JsonValue::Str("conv_123".to_owned()))] })
}

#[test]
fn retrieve_stream_query_defaults_stream_true() {
    let query = ResponseRetrieveStreamQuery::default();
    assert!(query.stream);
    assert!(query.starting_after.is_none());
}

#[test]
fn validate_rejects_previous_response_and_conversation() {
    let mut request = ResponseCreateRequest::new("gpt-4.1".to_owned());
    request.input = Some(JsonValue::Str("hello".to_owned()));
    request.conversation = Some(conversation());
    request.previous_response_id = Some("resp_123".to_string());
    assert_eq!(
        request.validate(),
        Err(ResponseCreateRequestError::PreviousResponseIdAndConversationConflict)
    );
}

#[test]
fn validate_accepts_either_alone() {
    let mut request = ResponseCreateRequest::new("gpt-4.1".to_owned());
    request.conversation = Some(conversation());
    assert!(request.validate().is_ok());
    let mut request = ResponseCreateRequest::new("gpt-4.1".to_owned());
    request.previous_response_id = Some("resp_123".to_string());
    assert!(request.validate().is_ok());
}

#[test]
fn input_tokens_validate_rejects_previous_response_and_conversation() {
    let mut request = ResponseInputTokensRequest {
        conversation: None,
        input: None,
        instructions: None,
        model: Some("gpt-4.1".to_owned()),
        parallel_tool_calls: None,
        previous_response_id: None,
        reasoning: None,
        text: None,
        tool_choice: None,
        tools: None,
        extra: JsonObject::new(),
    };
    assert!(request.validate().is_ok());
    request.conversation = Some(conversation());
    request.previous_response_id = Some("resp_123".to_string());
    assert!(request.validate().is_err());
}

#[test]
fn response_create_request_builder_sets_model() {
    let request = ResponseCreateRequest::new("gpt-4.1".to_owned());
    assert_eq!(request.model, "gpt-4.1");
    assert!(request.input.is_none());
}

#[test]
fn response_compact_request_builder_sets_model() {
    let request = ResponseCompactRequest::new("gpt-5.1-codex-max".to_owned());
    assert_eq!(request.model, "gpt-5.1-codex-max");
    assert!(request.input.is_none());
}

use aigw::openai::wire_chat::{ChatMessageRole, ChatToolChoiceMode};

#[test]
fn deserialize_string_tool_choice_mode() {
    assert_eq!(ChatToolChoiceMode::parse("required"), ChatToolChoiceMode::Required);
}

#[test]
fn deserialize_unknown_role_round_trips() {
    let role = ChatMessageRole::parse("critic");
    assert_eq!(role, ChatMessageRole::Unknown("critic".to_owned()));
    assert_eq!(role.as_str(), "critic");
}

#[test]
fn deserialize_unknown_tool_choice_mode_round_trips() {
    let mode = ChatToolChoiceMode::parse("parallel_required");
    assert_eq!(mode, ChatToolChoiceMode::Unknown("parallel_required".to_owned()));
    assert_eq!(mode.as_str(), "parallel_required");
}

#[test]
fn chat_modes_and_roles_have_wire_names() {
    assert_eq!(ChatToolChoiceMode::Disabled.as_str(), "none");
    assert_eq!(ChatToolChoiceMode::parse("none"), ChatToolChoiceMode::Disabled);
    assert_eq!(ChatToolChoiceMode::parse("auto"), ChatToolChoiceMode::Auto);
    assert_eq!(ChatMessageRole::parse("developer"), ChatMessageRole::Developer);
    assert_eq!(ChatMessageRole::Assistant.as_str(), "assistant");
}

use aigw::openai::wire_responses::{ResponseAllowedToolsMode, ResponseToolChoiceMode};

#[test]
fn response_tool_choice_unknown_string_mode_round_trips() {
    let mode = ResponseToolChoiceMode::from_text("parallel_required".to_owned());
    assert_eq!(mode, ResponseToolChoiceMode::Unknown("parallel_required".to_owned()));
    assert_eq!(mode.as_str(), "parallel_required");
}

#[test]
fn response_modes_have_wire_names() {
    assert_eq!(ResponseToolChoiceMode::from_text("none".to_owned()), ResponseToolChoiceMode::Disabled);
    assert_eq!(ResponseToolChoiceMode::Required.as_str(), "required");
    assert_eq!(ResponseAllowedToolsMode::from_text("required".to_owned()), ResponseAllowedToolsMode::Required);
    assert_eq!(
        ResponseAllowedToolsMode::from_text("none".to_owned()),
        ResponseAllowedToolsMode::Unknown("none".to_owned())
    );
    assert_eq!(ResponseAllowedToolsMode::Auto.as_str(), "auto");
}
