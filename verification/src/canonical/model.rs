//! Canonical request, response and stream-event types.

use crate::canonical::generic::{ForwardCompatible, OneOrMany};
use crate::json::{JsonNumber, JsonObject, JsonValue};
use crate::text::str_eq;
use vstd::prelude::*;

verus! {

// ─── Request ────────────────────────────────────────────────────────────────

/// Canonical chat completion request (OpenAI Chat Completions field names).
/// Numbers that the wire carries as floats are kept as JSON numbers.
#[derive(Debug, PartialEq)]
pub struct ChatRequest {
    pub model: String,
    pub messages: Vec<Message>,
    pub temperature: Option<JsonNumber>,
    pub max_tokens: Option<u64>,
    pub top_p: Option<JsonNumber>,
    pub stop: Option<StopSequence>,
    pub stream: Option<bool>,
    pub tools: Option<Vec<Tool>>,
    pub tool_choice: Option<ToolChoice>,
    pub response_format: Option<ResponseFormat>,
    pub frequency_penalty: Option<JsonNumber>,
    pub presence_penalty: Option<JsonNumber>,
    pub n: Option<u32>,
    pub seed: Option<i64>,
    pub user: Option<String>,
    /// Provider-neutral extended-thinking request.
    pub thinking: Option<ThinkingRequest>,
    /// All other fields, passed through untouched.
    pub extra: JsonObject,
}

/// Stop sequences: a single string or an array.
pub type StopSequence = OneOrMany<String>;

/// A conversation message (OpenAI flat structure).
#[derive(Debug, PartialEq)]
pub struct Message {
    pub role: Role,
    pub content: Option<MessageContent>,
    pub name: Option<String>,
    pub tool_call_id: Option<String>,
    pub tool_calls: Option<Vec<ToolCall>>,
    pub extra: JsonObject,
}

/// Message role.
#[derive(Debug, PartialEq)]
pub enum Role {
    System,
    Developer,
    User,
    Assistant,
    Tool,
    Unknown(String),
}

/// Message content: a plain string or typed content parts.
#[derive(Debug, PartialEq)]
pub enum MessageContent {
    Text(String),
    Parts(Vec<ContentPart>),
}

/// A content part: known variants typed, unknown ones kept raw.
pub type ContentPart = ForwardCompatible<TypedContentPart>;

/// Where a thinking block came from, so that its signature round-trips.
#[derive(Debug, PartialEq)]
pub enum ThinkingSource {
    Anthropic,
    Other(String),
}

/// Strongly-typed content part variants.
#[derive(Debug, PartialEq)]
pub enum TypedContentPart {
    Text { text: String, extra: JsonObject },
    ImageUrl { image_url: ImageUrl, extra: JsonObject },
    InputAudio { input_audio: JsonValue, extra: JsonObject },
    File { file: JsonValue, extra: JsonObject },
    Thinking { thinking: String, signature: String, source: Option<ThinkingSource>, extra: JsonObject },
    RedactedThinking { data: String, source: Option<ThinkingSource>, extra: JsonObject },
}

/// Image URL reference (an `https://` URL or a `data:` URI).
#[derive(Debug, PartialEq)]
pub struct ImageUrl {
    pub url: String,
    pub detail: Option<String>,
    pub extra: JsonObject,
}

/// Tool definition (OpenAI function-calling format).
#[derive(Debug, PartialEq)]
pub struct Tool {
    pub kind: String,
    pub function: FunctionDefinition,
    pub extra: JsonObject,
}

/// Function definition within a [`Tool`].
#[derive(Debug, PartialEq)]
pub struct FunctionDefinition {
    pub name: String,
    pub description: Option<String>,
    pub parameters: Option<JsonValue>,
    pub strict: Option<bool>,
    pub extra: JsonObject,
}

/// A tool call emitted by the assistant.
#[derive(Debug, PartialEq)]
pub struct ToolCall {
    pub id: String,
    pub kind: String,
    pub function: FunctionCall,
    pub extra: JsonObject,
}

/// Function call details within a [`ToolCall`]; `arguments` is JSON text.
#[derive(Debug, PartialEq)]
pub struct FunctionCall {
    pub name: String,
    pub arguments: String,
    pub extra: JsonObject,
}

/// Tool selection strategy.
#[derive(Debug, PartialEq)]
pub enum ToolChoice {
    Mode(ToolChoiceMode),
    Named(NamedToolChoice),
    Raw(JsonObject),
}

/// String tool-choice modes.
#[derive(Debug, PartialEq)]
pub enum ToolChoiceMode {
    Disabled,
    Auto,
    Required,
    Unknown(String),
}

/// Force calling a specific function.
#[derive(Debug, PartialEq)]
pub struct NamedToolChoice {
    pub kind: String,
    pub function: NamedToolChoiceFunction,
    pub extra: JsonObject,
}

#[derive(Debug, PartialEq)]
pub struct NamedToolChoiceFunction {
    pub name: String,
    pub extra: JsonObject,
}

/// Structured output response format.
#[derive(Debug, PartialEq)]
pub enum ResponseFormat {
    Text { extra: JsonObject },
    JsonObject { extra: JsonObject },
    JsonSchema { json_schema: JsonSchema, extra: JsonObject },
}

/// JSON Schema definition for structured output.
#[derive(Debug, PartialEq)]
pub struct JsonSchema {
    pub name: String,
    pub description: Option<String>,
    pub schema: Option<JsonValue>,
    pub strict: Option<bool>,
    pub extra: JsonObject,
}

/// Provider-neutral extended-thinking request.
#[derive(Debug, PartialEq)]
pub enum ThinkingRequest {
    /// A fixed thinking-token budget.
    Budget { budget_tokens: u32 },
    /// Let the provider decide.
    Auto,
    /// No extended thinking.
    Disabled,
}

// ─── Response ───────────────────────────────────────────────────────────────

/// Canonical chat completion response.
#[derive(Debug, PartialEq)]
pub struct ChatResponse {
    pub id: String,
    pub object: String,
    pub created: u64,
    pub model: String,
    pub choices: Vec<Choice>,
    pub usage: Option<Usage>,
    pub extra: JsonObject,
}

/// A single choice in the response.
#[derive(Debug, PartialEq)]
pub struct Choice {
    pub index: u32,
    pub message: Message,
    pub finish_reason: Option<FinishReason>,
    pub extra: JsonObject,
}

/// Normalized finish reason across providers.
#[derive(Debug, PartialEq)]
pub enum FinishReason {
    Stop,
    Length,
    ToolCalls,
    ContentFilter,
    Unknown(String),
}

/// Token usage statistics; every count is optional.
#[derive(Debug, PartialEq)]
pub struct Usage {
    pub prompt_tokens: Option<u64>,
    pub completion_tokens: Option<u64>,
    pub total_tokens: Option<u64>,
    pub extra: JsonObject,
}

// ─── Stream ─────────────────────────────────────────────────────────────────

/// A canonical streaming event.
///
/// Typical order: `ResponseMeta → ContentDelta* → (ToolCallStart →
/// ToolCallDelta*)* → Finish → Usage → Done`.
#[derive(Debug, PartialEq)]
pub enum StreamEvent {
    /// Establishes the response identity.
    ResponseMeta { id: String, model: String },
    /// Incremental text content.
    ContentDelta(String),
    /// A reasoning (thinking) block begins.
    ReasoningStart { index: u32, source: Option<ThinkingSource> },
    /// Incremental reasoning text.
    ReasoningDelta(String),
    /// A reasoning block ends, with its signature.
    ReasoningEnd { index: u32, signature: String },
    /// A reasoning signature on its own (older parsers).
    ReasoningSignature(String),
    /// A new tool call begins at `index` of the tool-call array.
    ToolCallStart { index: u32, id: String, name: String },
    /// Incremental tool call arguments (partial JSON text).
    ToolCallDelta { index: u32, arguments: String },
    /// The model has finished generating.
    Finish(FinishReason),
    /// Token usage statistics.
    Usage(Usage),
    /// The stream is complete.
    Done,
}

// ─── Text forms of the string enums ─────────────────────────────────────────

pub open spec fn role_text(r: Role) -> Seq<char> {
    match r {
        Role::System => "system"@,
        Role::Developer => "developer"@,
        Role::User => "user"@,
        Role::Assistant => "assistant"@,
        Role::Tool => "tool"@,
        Role::Unknown(s) => s@,
    }
}

pub open spec fn is_known_role_text(s: Seq<char>) -> bool {
    s == "system"@ || s == "developer"@ || s == "user"@ || s == "assistant"@ || s == "tool"@
}

pub open spec fn finish_reason_text(r: FinishReason) -> Seq<char> {
    match r {
        FinishReason::Stop => "stop"@,
        FinishReason::Length => "length"@,
        FinishReason::ToolCalls => "tool_calls"@,
        FinishReason::ContentFilter => "content_filter"@,
        FinishReason::Unknown(s) => s@,
    }
}

pub open spec fn is_known_finish_text(s: Seq<char>) -> bool {
    s == "stop"@ || s == "length"@ || s == "tool_calls"@ || s == "content_filter"@
}

pub open spec fn tool_choice_mode_text(m: ToolChoiceMode) -> Seq<char> {
    match m {
        ToolChoiceMode::Disabled => "none"@,
        ToolChoiceMode::Auto => "auto"@,
        ToolChoiceMode::Required => "required"@,
        ToolChoiceMode::Unknown(s) => s@,
    }
}

pub open spec fn is_known_mode_text(s: Seq<char>) -> bool {
    s == "none"@ || s == "auto"@ || s == "required"@
}

impl Role {
    /// The wire text of the role (`Display`).
    pub fn as_str(&self) -> (r: &str)
        ensures
            r@ == role_text(*self),
    {
        match self {
            Role::System => "system",
            Role::Developer => "developer",
            Role::User => "user",
            Role::Assistant => "assistant",
            Role::Tool => "tool",
            Role::Unknown(s) => s.as_str(),
        }
    }

    /// Parses wire text; unknown text is kept in `Unknown` (`FromStr`).
    pub fn parse(s: &str) -> (r: Role)
        ensures
            role_text(r) == s@,
            r is Unknown ==> !is_known_role_text(s@),
    {
        if str_eq(s, "system") {
            Role::System
        } else if str_eq(s, "developer") {
            Role::Developer
        } else if str_eq(s, "user") {
            Role::User
        } else if str_eq(s, "assistant") {
            Role::Assistant
        } else if str_eq(s, "tool") {
            Role::Tool
        } else {
            Role::Unknown(s.to_string())
        }
    }

    /// Whether the role is system or developer.
    pub fn is_system_like(&self) -> (r: bool)
        ensures
            r == (*self is System || *self is Developer),
    {
        match self {
            Role::System | Role::Developer => true,
            _ => false,
        }
    }
}

impl FinishReason {
    /// The wire text of the finish reason (`Display`).
    pub fn as_str(&self) -> (r: &str)
        ensures
            r@ == finish_reason_text(*self),
    {
        match self {
            FinishReason::Stop => "stop",
            FinishReason::Length => "length",
            FinishReason::ToolCalls => "tool_calls",
            FinishReason::ContentFilter => "content_filter",
            FinishReason::Unknown(s) => s.as_str(),
        }
    }

    /// Parses wire text; unknown text is kept in `Unknown` (`FromStr`).
    pub fn parse(s: &str) -> (r: FinishReason)
        ensures
            finish_reason_text(r) == s@,
            r is Unknown ==> !is_known_finish_text(s@),
    {
        if str_eq(s, "stop") {
            FinishReason::Stop
        } else if str_eq(s, "length") {
            FinishReason::Length
        } else if str_eq(s, "tool_calls") {
            FinishReason::ToolCalls
        } else if str_eq(s, "content_filter") {
            FinishReason::ContentFilter
        } else {
            FinishReason::Unknown(s.to_string())
        }
    }
}

impl ToolChoiceMode {
    /// The wire text of the mode (`Display`).
    pub fn as_str(&self) -> (r: &str)
        ensures
            r@ == tool_choice_mode_text(*self),
    {
        match self {
            ToolChoiceMode::Disabled => "none",
            ToolChoiceMode::Auto => "auto",
            ToolChoiceMode::Required => "required",
            ToolChoiceMode::Unknown(s) => s.as_str(),
        }
    }

    /// Parses wire text; unknown text is kept in `Unknown` (`FromStr`).
    pub fn parse(s: &str) -> (r: ToolChoiceMode)
        ensures
            tool_choice_mode_text(r) == s@,
            r is Unknown ==> !is_known_mode_text(s@),
    {
        if str_eq(s, "none") {
            ToolChoiceMode::Disabled
        } else if str_eq(s, "auto") {
            ToolChoiceMode::Auto
        } else if str_eq(s, "required") {
            ToolChoiceMode::Required
        } else {
            ToolChoiceMode::Unknown(s.to_string())
        }
    }
}

/// A role written as text and read back is the same role: a known role
/// comes back as itself, an `Unknown` role (holding an unknown name) comes
/// back as `Unknown` with the same text. Stated of any role that
/// `Role::parse` may return for `role_text(r)`.
pub proof fn lemma_role_text_round_trip(r: Role, parsed: Role)
    requires
        !(r is Unknown && is_known_role_text(role_text(r))),
        role_text(parsed) == role_text(r),
        parsed is Unknown ==> !is_known_role_text(role_text(r)),
    ensures
        !(r is Unknown) ==> parsed == r,
        r is Unknown ==> parsed is Unknown && role_text(parsed) == role_text(r),
{
    reveal_strlit("system");
    reveal_strlit("developer");
    reveal_strlit("user");
    reveal_strlit("assistant");
    reveal_strlit("tool");
    if !(r is Unknown) {
        assert(!(parsed is Unknown));
        assert(role_text(r)[0] == role_text(parsed)[0]);
        assert("system"@[0] == 's' && "developer"@[0] == 'd' && "user"@[0] == 'u');
        assert("assistant"@[0] == 'a' && "tool"@[0] == 't');
    }
}

/// A finish reason written as text and read back is the same reason: a
/// known reason comes back as itself, an `Unknown` reason (holding an
/// unknown name) comes back as `Unknown` with the same text.
pub proof fn lemma_finish_reason_text_round_trip(r: FinishReason, parsed: FinishReason)
    requires
        !(r is Unknown && is_known_finish_text(finish_reason_text(r))),
        finish_reason_text(parsed) == finish_reason_text(r),
        parsed is Unknown ==> !is_known_finish_text(finish_reason_text(r)),
    ensures
        !(r is Unknown) ==> parsed == r,
        r is Unknown ==> parsed is Unknown && finish_reason_text(parsed) == finish_reason_text(r),
{
    reveal_strlit("stop");
    reveal_strlit("length");
    reveal_strlit("tool_calls");
    reveal_strlit("content_filter");
    if !(r is Unknown) {
        assert(finish_reason_text(r).len() > 0);
        assert(finish_reason_text(r)[0] == finish_reason_text(parsed)[0]);
        assert(finish_reason_text(r).len() == finish_reason_text(parsed).len());
    }
}

} // verus!
