//! Responses API output model: the response object and its output items.
//! Numbers that the wire carries as floats are kept as JSON numbers.

use crate::json::{JsonNumber, JsonObject, JsonValue};
use crate::openai::responses::{ResponseTextConfig, ResponseTool, ResponseToolChoice};
use vstd::prelude::*;

verus! {

/// A content part of an output message.
#[derive(Debug, PartialEq)]
pub enum ResponseContentPart {
    OutputText {
        annotations: Option<Vec<ResponseOutputTextAnnotation>>,
        logprobs: Option<Vec<JsonValue>>,
        text: String,
        extra: JsonObject,
    },
    Refusal { refusal: String, extra: JsonObject },
    Raw(JsonObject),
}

/// An annotation of output text.
#[derive(Debug, PartialEq)]
pub enum ResponseOutputTextAnnotation {
    FileCitation { file_id: String, filename: String, index: i64, extra: JsonObject },
    UrlCitation { end_index: i64, start_index: i64, title: String, url: String, extra: JsonObject },
    ContainerFileCitation {
        container_id: String,
        end_index: i64,
        file_id: String,
        filename: String,
        start_index: i64,
        extra: JsonObject,
    },
    FilePath { file_id: String, index: i64, extra: JsonObject },
    Raw(JsonObject),
}

/// A part of a reasoning summary.
#[derive(Debug, PartialEq)]
pub enum ResponseReasoningSummaryPart {
    SummaryText { text: String, extra: JsonObject },
    Raw(JsonObject),
}

/// A part of reasoning content.
#[derive(Debug, PartialEq)]
pub enum ResponseReasoningContentPart {
    ReasoningText { text: String, extra: JsonObject },
    Raw(JsonObject),
}

/// A file search result.
#[derive(Debug, PartialEq)]
pub struct ResponseFileSearchResult {
    pub attributes: Option<JsonObject>,
    pub file_id: Option<String>,
    pub filename: Option<String>,
    pub score: Option<JsonNumber>,
    pub text: Option<String>,
    pub extra: JsonObject,
}

/// A pending or acknowledged safety check.
#[derive(Debug, PartialEq)]
pub struct ResponseSafetyCheck {
    pub id: String,
    pub code: Option<String>,
    pub message: Option<String>,
    pub extra: JsonObject,
}

/// An output of the code interpreter.
#[derive(Debug, PartialEq)]
pub enum ResponseCodeInterpreterOutput {
    Logs { logs: String, extra: JsonObject },
    Image { url: String, extra: JsonObject },
    Raw(JsonObject),
}

/// A shell action.
#[derive(Debug, PartialEq)]
pub struct ResponseShellAction {
    pub commands: Vec<String>,
    pub max_output_length: Option<i64>,
    pub timeout_ms: Option<i64>,
    pub extra: JsonObject,
}

/// How a shell call ended.
#[derive(Debug, PartialEq)]
pub enum ResponseShellCallOutcome {
    Timeout { extra: JsonObject },
    Exit { exit_code: i64, extra: JsonObject },
    Raw(JsonObject),
}

/// Output of a shell call.
#[derive(Debug, PartialEq)]
pub struct ResponseShellCallOutputContent {
    pub outcome: ResponseShellCallOutcome,
    pub stderr: String,
    pub stdout: String,
    pub extra: JsonObject,
}

/// An output item of a response.
#[derive(Debug, PartialEq)]
pub enum ResponseOutputItem {
    Message {
        id: String,
        content: Vec<ResponseContentPart>,
        role: String,
        status: Option<String>,
        phase: Option<String>,
        extra: JsonObject,
    },
    FileSearchCall {
        id: String,
        queries: Vec<String>,
        status: Option<String>,
        results: Option<Vec<ResponseFileSearchResult>>,
        extra: JsonObject,
    },
    ComputerCall {
        id: String,
        call_id: String,
        pending_safety_checks: Option<Vec<ResponseSafetyCheck>>,
        status: Option<String>,
        action: Option<JsonValue>,
        extra: JsonObject,
    },
    ComputerCallOutput {
        call_id: String,
        output: JsonValue,
        id: Option<String>,
        acknowledged_safety_checks: Option<Vec<ResponseSafetyCheck>>,
        status: Option<String>,
        extra: JsonObject,
    },
    WebSearchCall { id: String, action: Option<JsonValue>, status: Option<String>, extra: JsonObject },
    FunctionCall {
        arguments: String,
        call_id: String,
        name: String,
        id: Option<String>,
        namespace: Option<String>,
        status: Option<String>,
        extra: JsonObject,
    },
    FunctionCallOutput { call_id: String, output: JsonValue, id: Option<String>, status: Option<String>, extra: JsonObject },
    ToolSearchCall {
        arguments: Option<JsonValue>,
        id: Option<String>,
        call_id: Option<String>,
        execution: Option<String>,
        status: Option<String>,
        extra: JsonObject,
    },
    ToolSearchOutput {
        tools: Vec<JsonValue>,
        id: Option<String>,
        call_id: Option<String>,
        execution: Option<String>,
        status: Option<String>,
        extra: JsonObject,
    },
    Reasoning {
        id: String,
        summary: Vec<ResponseReasoningSummaryPart>,
        content: Option<Vec<ResponseReasoningContentPart>>,
        encrypted_content: Option<String>,
        status: Option<String>,
        extra: JsonObject,
    },
    Compaction { encrypted_content: String, id: Option<String>, extra: JsonObject },
    ImageGenerationCall { id: String, result: Option<String>, status: Option<String>, extra: JsonObject },
    CodeInterpreterCall {
        id: String,
        code: Option<String>,
        container_id: Option<String>,
        outputs: Option<Vec<ResponseCodeInterpreterOutput>>,
        status: Option<String>,
        extra: JsonObject,
    },
    LocalShellCall { id: String, action: Option<JsonValue>, call_id: String, status: Option<String>, extra: JsonObject },
    LocalShellCallOutput { id: String, output: String, status: Option<String>, extra: JsonObject },
    ShellCall {
        action: Option<ResponseShellAction>,
        call_id: String,
        id: Option<String>,
        environment: Option<JsonValue>,
        status: Option<String>,
        extra: JsonObject,
    },
    ShellCallOutput {
        call_id: String,
        output: Vec<ResponseShellCallOutputContent>,
        id: Option<String>,
        max_output_length: Option<i64>,
        status: Option<String>,
        extra: JsonObject,
    },
    McpApprovalRequest { id: String, arguments: String, name: String, server_label: String, extra: JsonObject },
    McpApprovalResponse {
        approval_request_id: String,
        approve: bool,
        id: Option<String>,
        reason: Option<String>,
        extra: JsonObject,
    },
    McpCall {
        id: String,
        arguments: String,
        name: String,
        server_label: String,
        approval_request_id: Option<String>,
        error: Option<String>,
        output: Option<String>,
        status: Option<String>,
        extra: JsonObject,
    },
    CustomToolCallOutput { call_id: String, output: JsonValue, id: Option<String>, extra: JsonObject },
    CustomToolCall {
        call_id: String,
        input: String,
        name: String,
        id: Option<String>,
        namespace: Option<String>,
        extra: JsonObject,
    },
    Raw(JsonObject),
}

/// Token usage of a response.
#[derive(Debug, PartialEq)]
pub struct ResponseUsage {
    pub input_tokens: Option<u64>,
    pub input_tokens_details: Option<JsonValue>,
    pub output_tokens: Option<u64>,
    pub output_tokens_details: Option<JsonValue>,
    pub total_tokens: Option<u64>,
    pub extra: JsonObject,
}

/// A response object.
#[derive(Debug, PartialEq)]
pub struct ResponseObject {
    pub id: String,
    pub object: String,
    pub background: Option<bool>,
    pub conversation: Option<JsonValue>,
    pub created_at: Option<u64>,
    pub error: Option<JsonValue>,
    pub incomplete_details: Option<JsonValue>,
    pub instructions: Option<JsonValue>,
    pub max_output_tokens: Option<u64>,
    pub metadata: Option<JsonObject>,
    pub model: Option<String>,
    pub output: Option<Vec<ResponseOutputItem>>,
    pub parallel_tool_calls: Option<bool>,
    pub previous_response_id: Option<String>,
    pub prompt_cache_key: Option<String>,
    pub prompt_cache_retention: Option<JsonValue>,
    pub reasoning: Option<JsonValue>,
    pub safety_identifier: Option<String>,
    pub status: Option<String>,
    pub store: Option<bool>,
    pub temperature: Option<JsonNumber>,
    pub text: Option<ResponseTextConfig>,
    pub tool_choice: Option<ResponseToolChoice>,
    pub tools: Option<Vec<ResponseTool>>,
    pub top_p: Option<JsonNumber>,
    pub truncation: Option<String>,
    pub usage: Option<ResponseUsage>,
    pub user: Option<String>,
    pub extra: JsonObject,
}

/// The answer to an input-token count request.
#[derive(Debug, PartialEq)]
pub struct ResponseInputTokensResponse {
    pub object: String,
    pub input_tokens: Option<u64>,
    pub extra: JsonObject,
}

/// The result of compacting a conversation.
#[derive(Debug, PartialEq)]
pub struct ResponseCompaction {
    pub id: String,
    pub object: String,
    pub created_at: Option<u64>,
    pub output: Option<Vec<ResponseOutputItem>>,
    pub usage: Option<ResponseUsage>,
    pub extra: JsonObject,
}

/// A page of a response's input items (each kept as it came).
#[derive(Debug, PartialEq)]
pub struct ResponseInputItemsPage {
    pub object: String,
    pub data: Vec<JsonValue>,
    pub first_id: Option<String>,
    pub last_id: Option<String>,
    pub has_more: Option<bool>,
    pub extra: JsonObject,
}

} // verus!
