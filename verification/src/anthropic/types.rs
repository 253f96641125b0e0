//! Anthropic Messages API wire types.

use crate::json::{JsonNumber, JsonObject, JsonValue};
use crate::text::str_eq;
use vstd::prelude::*;

verus! {

// ─── Request ────────────────────────────────────────────────────────────────

/// A Messages API request.
#[derive(Debug, PartialEq)]
pub struct MessagesRequest {
    pub model: String,
    pub messages: Vec<Message>,
    pub max_tokens: u64,
    pub system: Option<SystemPrompt>,
    pub temperature: Option<JsonNumber>,
    pub top_p: Option<JsonNumber>,
    pub top_k: Option<u32>,
    pub stop_sequences: Option<Vec<String>>,
    pub stream: Option<bool>,
    pub tools: Option<Vec<Tool>>,
    pub tool_choice: Option<ToolChoice>,
    pub metadata: Option<Metadata>,
    pub thinking: Option<ThinkingConfig>,
    pub extra: JsonObject,
}

/// System prompt: plain text or text blocks.
#[derive(Debug, PartialEq)]
pub enum SystemPrompt {
    Text(String),
    Blocks(Vec<TextBlock>),
}

/// A text block of a system prompt.
#[derive(Debug, PartialEq)]
pub struct TextBlock {
    pub kind: String,
    pub text: String,
    pub cache_control: Option<CacheControl>,
}

/// Prompt-caching marker.
#[derive(Debug, PartialEq)]
pub struct CacheControl {
    pub kind: String,
}

/// Request metadata.
#[derive(Debug, PartialEq)]
pub struct Metadata {
    pub user_id: Option<String>,
}

/// A conversation turn.
#[derive(Debug, PartialEq)]
pub struct Message {
    pub role: Role,
    pub content: MessageContent,
}

/// Turn role; `System` is accepted inbound only and folded into the
/// top-level system prompt before a request is sent.
#[derive(Debug, PartialEq)]
pub enum Role {
    User,
    Assistant,
    System,
}

/// Turn content: plain text or content blocks.
#[derive(Debug, PartialEq)]
pub enum MessageContent {
    Text(String),
    Blocks(Vec<ContentBlock>),
}

/// A content block: typed, or the raw object of an unknown shape.
#[derive(Debug, PartialEq)]
pub enum ContentBlock {
    Typed(TypedContentBlock),
    Raw(JsonObject),
}

/// The known content block types.
#[derive(Debug, PartialEq)]
pub enum TypedContentBlock {
    Text { text: String, cache_control: Option<CacheControl> },
    Image { source: ImageSource, cache_control: Option<CacheControl> },
    ToolUse { id: String, name: String, input: JsonValue, cache_control: Option<CacheControl> },
    ToolResult {
        tool_use_id: String,
        content: Option<ToolResultContent>,
        is_error: Option<bool>,
        cache_control: Option<CacheControl>,
    },
    Thinking { thinking: String, signature: String },
    RedactedThinking { data: String },
}

/// Content of a tool result.
#[derive(Debug, PartialEq)]
pub enum ToolResultContent {
    Text(String),
    Blocks(Vec<ContentBlock>),
}

/// Image source: inline base64 data or a URL.
#[derive(Debug, PartialEq)]
pub enum ImageSource {
    Base64 { media_type: String, data: String },
    Url { url: String },
}

/// Tool definition.
#[derive(Debug, PartialEq)]
pub struct Tool {
    pub name: String,
    pub description: Option<String>,
    pub input_schema: JsonValue,
    pub cache_control: Option<CacheControl>,
}

/// Tool choice (`none` is the `Disabled` variant).
#[derive(Debug, PartialEq)]
pub enum ToolChoice {
    Auto { disable_parallel_tool_use: Option<bool> },
    Any { disable_parallel_tool_use: Option<bool> },
    Tool { name: String, disable_parallel_tool_use: Option<bool> },
    Disabled { extra: JsonObject },
}

/// Extended thinking configuration.
#[derive(Debug, PartialEq)]
pub enum ThinkingConfig {
    Enabled { budget_tokens: u64 },
    Adaptive,
    Disabled,
}

// ─── Response ───────────────────────────────────────────────────────────────

/// A Messages API response.
#[derive(Debug, PartialEq)]
pub struct MessagesResponse {
    pub id: String,
    pub kind: String,
    pub role: Role,
    pub content: Vec<ContentBlock>,
    pub model: String,
    pub stop_reason: Option<StopReason>,
    pub stop_sequence: Option<String>,
    pub usage: Usage,
}

/// Why generation stopped.
#[derive(Debug, PartialEq)]
pub enum StopReason {
    EndTurn,
    MaxTokens,
    StopSequence,
    ToolUse,
    Other(String),
}

/// Token usage of a response.
#[derive(Debug, PartialEq)]
pub struct Usage {
    pub input_tokens: u64,
    pub output_tokens: u64,
    pub cache_creation_input_tokens: Option<u64>,
    pub cache_read_input_tokens: Option<u64>,
}

// ─── Streaming events ───────────────────────────────────────────────────────

/// A server-sent event of the streaming Messages API.
#[allow(inconsistent_fields)]
#[derive(Debug, PartialEq)]
pub enum StreamEvent {
    MessageStart { message: MessagesResponse },
    ContentBlockStart { index: usize, content_block: ContentBlock },
    ContentBlockDelta { index: usize, delta: ContentDelta },
    ContentBlockStop { index: usize },
    MessageDelta { delta: MessageDeltaBody, usage: MessageDeltaUsage },
    MessageStop,
    Ping,
    Error { error: ApiError },
    Unknown,
}

/// A content block delta.
#[derive(Debug, PartialEq)]
pub enum ContentDelta {
    TextDelta { text: String },
    InputJsonDelta { partial_json: String },
    ThinkingDelta { thinking: String },
    SignatureDelta { signature: String },
    Unknown,
}

/// Body of a `message_delta` event.
#[derive(Debug, PartialEq)]
pub struct MessageDeltaBody {
    pub stop_reason: Option<StopReason>,
    pub stop_sequence: Option<String>,
}

/// Usage of a `message_delta` event.
#[derive(Debug, PartialEq)]
pub struct MessageDeltaUsage {
    pub output_tokens: u64,
}

/// An API error.
#[derive(Debug, PartialEq)]
pub struct ApiError {
    pub kind: String,
    pub message: String,
}

/// An API error response envelope.
#[derive(Debug, PartialEq)]
pub struct ApiErrorResponse {
    pub kind: String,
    pub error: ApiError,
}

// ─── Other endpoints ────────────────────────────────────────────────────────

/// A token counting request.
#[derive(Debug, PartialEq)]
pub struct CountTokensRequest {
    pub model: String,
    pub messages: Vec<Message>,
    pub system: Option<SystemPrompt>,
    pub tools: Option<Vec<Tool>>,
    pub thinking: Option<ThinkingConfig>,
    pub extra: JsonObject,
}

/// A token counting response.
#[derive(Debug, PartialEq)]
pub struct CountTokensResponse {
    pub input_tokens: u64,
    pub extra: JsonObject,
}

/// A model listing page.
#[derive(Debug, PartialEq)]
pub struct ModelListResponse {
    pub data: Vec<Model>,
    pub has_more: bool,
    pub first_id: Option<String>,
    pub last_id: Option<String>,
}

/// A model entry.
#[derive(Debug, PartialEq)]
pub struct Model {
    pub id: String,
    pub extra: JsonObject,
}

/// A telemetry batch.
#[derive(Debug, PartialEq)]
pub struct EventLoggingRequest {
    pub events: Vec<JsonValue>,
    pub extra: JsonObject,
}

/// A telemetry batch response.
#[derive(Debug, PartialEq)]
pub struct EventLoggingResponse {
    pub extra: JsonObject,
}

/// An OAuth token exchange or refresh request.
#[derive(Debug, PartialEq)]
pub struct OAuthTokenRequest {
    pub grant_type: String,
    pub client_id: String,
    pub code: Option<String>,
    pub redirect_uri: Option<String>,
    pub code_verifier: Option<String>,
    pub refresh_token: Option<String>,
    pub scope: Option<String>,
    pub extra: JsonObject,
}

// ─── Text forms ─────────────────────────────────────────────────────────────

pub open spec fn stop_reason_text(r: StopReason) -> Seq<char> {
    match r {
        StopReason::EndTurn => "end_turn"@,
        StopReason::MaxTokens => "max_tokens"@,
        StopReason::StopSequence => "stop_sequence"@,
        StopReason::ToolUse => "tool_use"@,
        StopReason::Other(s) => s@,
    }
}

pub open spec fn is_known_stop_reason_text(s: Seq<char>) -> bool {
    s == "end_turn"@ || s == "max_tokens"@ || s == "stop_sequence"@ || s == "tool_use"@
}

impl StopReason {
    /// The wire text of the stop reason.
    pub fn as_str(&self) -> (r: &str)
        ensures
            r@ == stop_reason_text(*self),
    {
        match self {
            StopReason::EndTurn => "end_turn",
            StopReason::MaxTokens => "max_tokens",
            StopReason::StopSequence => "stop_sequence",
            StopReason::ToolUse => "tool_use",
            StopReason::Other(s) => s.as_str(),
        }
    }

    /// Parses wire text; unknown text is kept in `Other`.
    pub fn parse(s: &str) -> (r: StopReason)
        ensures
            stop_reason_text(r) == s@,
            r is Other ==> !is_known_stop_reason_text(s@),
    {
        if str_eq(s, "end_turn") {
            StopReason::EndTurn
        } else if str_eq(s, "max_tokens") {
            StopReason::MaxTokens
        } else if str_eq(s, "stop_sequence") {
            StopReason::StopSequence
        } else if str_eq(s, "tool_use") {
            StopReason::ToolUse
        } else {
            StopReason::Other(s.to_string())
        }
    }
}

} // verus!
