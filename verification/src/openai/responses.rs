//! Responses API request model, and the translation of canonical (Chat
//! Completions shaped) requests into it: messages become input items,
//! system text becomes `instructions`, tools are flattened.

use crate::anthropic::request::{collect_part_texts, part_texts};
use crate::canonical::error::TranslateError;
use crate::canonical::generic::ForwardCompatible;
use crate::canonical::json_form::{part_json, part_to_json};
use crate::canonical::model::{
    role_text, ChatRequest, ContentPart, Message, MessageContent, ResponseFormat, Role, Tool,
    ToolCall, ToolChoice, ToolChoiceMode, TypedContentPart,
};
use crate::json::{json_object, json_str, json_string, model_lookup, Json, JsonNumber, JsonObject, JsonValue};
use crate::openai::responses_config::{ResponsesRequestConfig, SystemHandling};
use crate::openai::wire_responses::{
    response_mode_text, validate_previous_response_id_and_conversation, ResponseAllowedToolsMode,
    ResponseCreateRequestError, ResponseToolChoiceMode,
};
use crate::text::{concat_seqs, concat_strings, join_seqs, join_strings};
use vstd::prelude::*;

verus! {

// ─── Wire types ─────────────────────────────────────────────────────────────

/// A tool of a Responses request.
#[derive(Debug, PartialEq)]
pub enum ResponseTool {
    Function {
        name: String,
        parameters: Option<JsonValue>,
        strict: Option<bool>,
        defer_loading: Option<bool>,
        description: Option<String>,
        extra: JsonObject,
    },
    FileSearch {
        vector_store_ids: Option<Vec<String>>,
        filters: Option<JsonValue>,
        max_num_results: Option<u32>,
        ranking_options: Option<JsonValue>,
        extra: JsonObject,
    },
    Computer { extra: JsonObject },
    ComputerUsePreview { display_height: u32, display_width: u32, environment: String, extra: JsonObject },
    WebSearch {
        filters: Option<JsonValue>,
        search_context_size: Option<String>,
        user_location: Option<JsonValue>,
        extra: JsonObject,
    },
    WebSearch20250826 {
        filters: Option<JsonValue>,
        search_context_size: Option<String>,
        user_location: Option<JsonValue>,
        extra: JsonObject,
    },
    Mcp {
        server_label: String,
        allowed_tools: Option<JsonValue>,
        authorization: Option<String>,
        connector_id: Option<String>,
        defer_loading: Option<bool>,
        headers: Option<JsonObject>,
        require_approval: Option<JsonValue>,
        server_description: Option<String>,
        server_url: Option<String>,
        extra: JsonObject,
    },
    CodeInterpreter { container: Option<JsonValue>, extra: JsonObject },
    ImageGeneration {
        action: Option<String>,
        background: Option<String>,
        input_fidelity: Option<String>,
        input_image_mask: Option<JsonValue>,
        model: Option<JsonValue>,
        moderation: Option<String>,
        output_compression: Option<u8>,
        output_format: Option<String>,
        partial_images: Option<u8>,
        quality: Option<String>,
        size: Option<String>,
        extra: JsonObject,
    },
    LocalShell { extra: JsonObject },
    Custom {
        name: String,
        defer_loading: Option<bool>,
        description: Option<String>,
        format: Option<JsonValue>,
        extra: JsonObject,
    },
    Namespace { description: String, name: String, tools: Vec<ResponseNamespaceTool>, extra: JsonObject },
    ToolSearch {
        description: Option<String>,
        execution: Option<String>,
        parameters: Option<JsonValue>,
        extra: JsonObject,
    },
    WebSearchPreview {
        search_content_types: Option<Vec<String>>,
        search_context_size: Option<String>,
        user_location: Option<JsonValue>,
        extra: JsonObject,
    },
    WebSearchPreview20250311 {
        search_content_types: Option<Vec<String>>,
        search_context_size: Option<String>,
        user_location: Option<JsonValue>,
        extra: JsonObject,
    },
    ApplyPatch { extra: JsonObject },
    Shell { environment: Option<JsonValue>, extra: JsonObject },
    Raw(JsonObject),
}

/// A tool inside a namespace tool.
#[derive(Debug, PartialEq)]
pub enum ResponseNamespaceTool {
    Function {
        name: String,
        defer_loading: Option<bool>,
        description: Option<String>,
        parameters: Option<JsonValue>,
        strict: Option<bool>,
        extra: JsonObject,
    },
    Custom {
        name: String,
        defer_loading: Option<bool>,
        description: Option<String>,
        format: Option<JsonValue>,
        extra: JsonObject,
    },
    Raw(JsonObject),
}

/// Tool choice of a Responses request.
#[derive(Debug, PartialEq)]
pub enum ResponseToolChoice {
    Mode(ResponseToolChoiceMode),
    AllowedTools { mode: ResponseAllowedToolsMode, tools: Vec<ResponseTool>, extra: JsonObject },
    FileSearch { extra: JsonObject },
    WebSearchPreview { extra: JsonObject },
    WebSearchPreview20250311 { extra: JsonObject },
    Computer { extra: JsonObject },
    ComputerUsePreview { extra: JsonObject },
    ComputerUse { extra: JsonObject },
    CodeInterpreter { extra: JsonObject },
    ImageGeneration { extra: JsonObject },
    Function { name: String, extra: JsonObject },
    Mcp { server_label: String, name: Option<String>, extra: JsonObject },
    Custom { name: String, extra: JsonObject },
    ApplyPatch { extra: JsonObject },
    Shell { extra: JsonObject },
    Raw(JsonObject),
}

/// Text output configuration.
#[derive(Debug, PartialEq)]
pub struct ResponseTextConfig {
    pub format: Option<JsonValue>,
    pub verbosity: Option<String>,
    pub extra: JsonObject,
}

/// Streaming options.
#[derive(Debug, PartialEq)]
pub struct ResponseStreamOptions {
    pub include_obfuscation: Option<bool>,
    pub include_usage: Option<bool>,
    pub extra: JsonObject,
}

/// A Responses create request. Numbers that the wire carries as floats are
/// kept as JSON numbers.
#[derive(Debug, PartialEq)]
pub struct ResponseCreateRequest {
    pub background: Option<bool>,
    pub conversation: Option<JsonValue>,
    pub context_management: Option<JsonValue>,
    /// The `include` list.
    pub include_items: Option<Vec<String>>,
    pub input: Option<JsonValue>,
    pub instructions: Option<JsonValue>,
    pub max_output_tokens: Option<u64>,
    pub metadata: Option<JsonObject>,
    pub model: String,
    pub parallel_tool_calls: Option<bool>,
    pub previous_response_id: Option<String>,
    pub prompt_cache_key: Option<String>,
    pub prompt_cache_retention: Option<JsonValue>,
    pub reasoning: Option<JsonValue>,
    pub safety_identifier: Option<String>,
    pub service_tier: Option<String>,
    pub store: Option<bool>,
    pub stream: Option<bool>,
    pub stream_options: Option<ResponseStreamOptions>,
    pub temperature: Option<JsonNumber>,
    pub text: Option<ResponseTextConfig>,
    pub tool_choice: Option<ResponseToolChoice>,
    pub tools: Option<Vec<ResponseTool>>,
    pub top_p: Option<JsonNumber>,
    pub truncation: Option<String>,
    pub user: Option<String>,
    pub extra: JsonObject,
}

impl ResponseCreateRequest {
    /// A request continues a previous response or a conversation, not both.
    pub fn validate(&self) -> (r: Result<(), ResponseCreateRequestError>)
        ensures
            r is Err <==> (self.previous_response_id is Some && self.conversation is Some),
    {
        let prev = match &self.previous_response_id {
            Some(p) => Some(p.as_str()),
            None => None,
        };
        validate_previous_response_id_and_conversation(prev, self.conversation.as_ref())
    }

    /// A request for `model` with every optional field absent.
    pub fn new(model: String) -> (r: ResponseCreateRequest)
        ensures
            r.model == model,
            r.input is None && r.instructions is None && r.conversation is None,
            r.previous_response_id is None && r.tools is None && r.tool_choice is None,
            r.max_output_tokens is None && r.stream is None && r.store is None,
            r.extra.model().len() == 0,
    {
        ResponseCreateRequest {
            background: None,
            conversation: None,
            context_management: None,
            include_items: None,
            input: None,
            instructions: None,
            max_output_tokens: None,
            metadata: None,
            model,
            parallel_tool_calls: None,
            previous_response_id: None,
            prompt_cache_key: None,
            prompt_cache_retention: None,
            reasoning: None,
            safety_identifier: None,
            service_tier: None,
            store: None,
            stream: None,
            stream_options: None,
            temperature: None,
            text: None,
            tool_choice: None,
            tools: None,
            top_p: None,
            truncation: None,
            user: None,
            extra: JsonObject::new(),
        }
    }
}

/// A request to count the input tokens of a would-be response.
#[derive(Debug, PartialEq)]
pub struct ResponseInputTokensRequest {
    pub conversation: Option<JsonValue>,
    pub input: Option<JsonValue>,
    pub instructions: Option<JsonValue>,
    pub model: Option<String>,
    pub parallel_tool_calls: Option<bool>,
    pub previous_response_id: Option<String>,
    pub reasoning: Option<JsonValue>,
    pub text: Option<ResponseTextConfig>,
    pub tool_choice: Option<ResponseToolChoice>,
    pub tools: Option<Vec<ResponseTool>>,
    pub extra: JsonObject,
}

impl ResponseInputTokensRequest {
    /// A request continues a previous response or a conversation, not both.
    pub fn validate(&self) -> (r: Result<(), ResponseCreateRequestError>)
        ensures
            r is Err <==> (self.previous_response_id is Some && self.conversation is Some),
    {
        let prev = match &self.previous_response_id {
            Some(p) => Some(p.as_str()),
            None => None,
        };
        validate_previous_response_id_and_conversation(prev, self.conversation.as_ref())
    }
}

/// A request to compact a conversation.
#[derive(Debug, PartialEq)]
pub struct ResponseCompactRequest {
    pub input: Option<JsonValue>,
    pub instructions: Option<JsonValue>,
    pub model: String,
    pub previous_response_id: Option<String>,
    pub extra: JsonObject,
}

impl ResponseCompactRequest {
    /// A request for `model` with every optional field absent.
    pub fn new(model: String) -> (r: ResponseCompactRequest)
        ensures
            r.model == model,
            r.input is None && r.instructions is None && r.previous_response_id is None,
            r.extra.model().len() == 0,
    {
        ResponseCompactRequest { input: None, instructions: None, model, previous_response_id: None, extra: JsonObject::new() }
    }
}

} // verus!
