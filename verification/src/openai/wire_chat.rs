//! Chat Completions wire types. Numbers that the wire carries as floats are
//! kept as JSON numbers.

use crate::json::{JsonNumber, JsonObject, JsonValue};
use crate::text::str_eq;
use vstd::prelude::*;

verus! {

/// One value or an array of them.
#[derive(Debug, PartialEq)]
pub enum OneOrMany<T> {
    One(T),
    Many(Vec<T>),
}

/// A Chat Completions request.
#[derive(Debug, PartialEq)]
pub struct ChatCompletionRequest {
    pub model: String,
    pub messages: Vec<ChatMessage>,
    pub frequency_penalty: Option<JsonNumber>,
    pub logprobs: Option<bool>,
    pub max_completion_tokens: Option<u32>,
    pub max_tokens: Option<u32>,
    pub metadata: Option<JsonObject>,
    pub n: Option<u32>,
    pub parallel_tool_calls: Option<bool>,
    pub presence_penalty: Option<JsonNumber>,
    pub response_format: Option<ChatResponseFormat>,
    pub seed: Option<i64>,
    pub service_tier: Option<String>,
    pub stop: Option<OneOrMany<String>>,
    pub store: Option<bool>,
    pub stream: Option<bool>,
    pub stream_options: Option<ChatStreamOptions>,
    pub temperature: Option<JsonNumber>,
    pub tool_choice: Option<ChatToolChoice>,
    pub tools: Option<Vec<ChatTool>>,
    pub top_logprobs: Option<u32>,
    pub top_p: Option<JsonNumber>,
    pub user: Option<String>,
    pub extra: JsonObject,
}

/// A chat message.
#[derive(Debug, PartialEq)]
pub struct ChatMessage {
    pub role: ChatMessageRole,
    pub content: Option<ChatMessageContent>,
    pub name: Option<String>,
    pub refusal: Option<String>,
    pub tool_call_id: Option<String>,
    pub tool_calls: Option<Vec<ChatToolCall>>,
    pub extra: JsonObject,
}

/// Message role; unknown roles keep their text.
#[derive(Debug, PartialEq)]
pub enum ChatMessageRole {
    Developer,
    System,
    User,
    Assistant,
    Tool,
    Unknown(String),
}

/// Message content: text or parts.
#[derive(Debug, PartialEq)]
pub enum ChatMessageContent {
    Text(String),
    Parts(Vec<ChatContentPart>),
}

/// A content part: typed, or the raw object of an unknown shape.
#[derive(Debug, PartialEq)]
pub enum ChatContentPart {
    Typed(TypedChatContentPart),
    Raw(JsonObject),
}

/// The known content parts.
#[derive(Debug, PartialEq)]
pub enum TypedChatContentPart {
    Text { text: String, extra: JsonObject },
    ImageUrl { image_url: ChatImageUrl, extra: JsonObject },
    InputAudio { input_audio: JsonValue, extra: JsonObject },
    File { file: JsonValue, extra: JsonObject },
    Refusal { refusal: String, extra: JsonObject },
}

/// An image reference.
#[derive(Debug, PartialEq)]
pub struct ChatImageUrl {
    pub url: String,
    pub detail: Option<String>,
    pub extra: JsonObject,
}

/// Tool choice: a mode, a named function, or a raw object.
#[derive(Debug, PartialEq)]
pub enum ChatToolChoice {
    Mode(ChatToolChoiceMode),
    Named(ChatNamedToolChoice),
    Raw(JsonObject),
}

/// Tool choice mode (`none` is the `Disabled` variant).
#[derive(Debug, PartialEq)]
pub enum ChatToolChoiceMode {
    Disabled,
    Auto,
    Required,
    Unknown(String),
}

/// A named tool choice.
#[derive(Debug, PartialEq)]
pub struct ChatNamedToolChoice {
    pub kind: String,
    pub function: ChatNamedToolChoiceFunction,
    pub extra: JsonObject,
}

#[derive(Debug, PartialEq)]
pub struct ChatNamedToolChoiceFunction {
    pub name: String,
    pub extra: JsonObject,
}

/// A tool definition.
#[derive(Debug, PartialEq)]
pub struct ChatTool {
    pub kind: String,
    pub function: ChatFunctionDefinition,
    pub extra: JsonObject,
}

#[derive(Debug, PartialEq)]
pub struct ChatFunctionDefinition {
    pub name: String,
    pub description: Option<String>,
    pub parameters: Option<JsonValue>,
    pub strict: Option<bool>,
    pub extra: JsonObject,
}

/// A Chat Completions response.
#[derive(Debug, PartialEq)]
pub struct ChatCompletionResponse {
    pub id: String,
    pub object: String,
    pub created: u64,
    pub model: String,
    pub choices: Vec<ChatCompletionResponseChoice>,
    pub usage: Option<ChatUsage>,
    pub service_tier: Option<String>,
    pub system_fingerprint: Option<String>,
    pub extra: JsonObject,
}

#[derive(Debug, PartialEq)]
pub struct ChatCompletionResponseChoice {
    pub index: u32,
    pub message: ChatMessage,
    pub finish_reason: Option<String>,
    pub logprobs: Option<JsonValue>,
    pub extra: JsonObject,
}

/// A streamed chunk.
#[derive(Debug, PartialEq)]
pub struct ChatCompletionChunk {
    pub id: String,
    pub object: String,
    pub created: u64,
    pub model: String,
    pub choices: Vec<ChatCompletionChunkChoice>,
    pub usage: Option<ChatUsage>,
    pub system_fingerprint: Option<String>,
    pub extra: JsonObject,
}

#[derive(Debug, PartialEq)]
pub struct ChatCompletionChunkChoice {
    pub index: u32,
    pub delta: ChatMessageDelta,
    pub finish_reason: Option<String>,
    pub logprobs: Option<JsonValue>,
    pub extra: JsonObject,
}

/// The incremental part of a streamed message.
#[derive(Debug, PartialEq)]
pub struct ChatMessageDelta {
    pub role: Option<ChatMessageRole>,
    pub content: Option<String>,
    pub refusal: Option<String>,
    pub tool_calls: Option<Vec<ChatToolCallDelta>>,
    pub extra: JsonObject,
}

#[derive(Debug, PartialEq)]
pub struct ChatToolCall {
    pub id: String,
    pub kind: String,
    pub function: ChatFunctionCall,
    pub extra: JsonObject,
}

#[derive(Debug, PartialEq)]
pub struct ChatFunctionCall {
    pub name: String,
    pub arguments: String,
    pub extra: JsonObject,
}

/// The incremental part of a streamed tool call.
#[derive(Debug, PartialEq)]
pub struct ChatToolCallDelta {
    pub index: u32,
    pub id: Option<String>,
    pub kind: Option<String>,
    pub function: Option<ChatFunctionCallDelta>,
    pub extra: JsonObject,
}

#[derive(Debug, PartialEq)]
pub struct ChatFunctionCallDelta {
    pub name: Option<String>,
    pub arguments: Option<String>,
    pub extra: JsonObject,
}

/// Structured-output format: a known form or a raw object.
#[derive(Debug, PartialEq)]
pub enum ChatResponseFormat {
    Text { extra: JsonObject },
    JsonObject { extra: JsonObject },
    JsonSchema { json_schema: ChatJsonSchema, extra: JsonObject },
    Raw(JsonObject),
}

#[derive(Debug, PartialEq)]
pub struct ChatJsonSchema {
    pub name: String,
    pub description: Option<String>,
    pub schema: Option<JsonValue>,
    pub strict: Option<bool>,
    pub extra: JsonObject,
}

#[derive(Debug, PartialEq)]
pub struct ChatStreamOptions {
    pub include_usage: Option<bool>,
    pub extra: JsonObject,
}

/// Token usage; every count is optional.
#[derive(Debug, PartialEq)]
pub struct ChatUsage {
    pub prompt_tokens: Option<u64>,
    pub completion_tokens: Option<u64>,
    pub total_tokens: Option<u64>,
    pub extra: JsonObject,
}

/// An API error envelope.
#[derive(Debug, PartialEq)]
pub struct ApiErrorResponse {
    pub error: ApiErrorBody,
}

#[derive(Debug, PartialEq)]
pub struct ApiErrorBody {
    pub message: String,
    pub kind: Option<String>,
    pub param: Option<JsonValue>,
    pub code: Option<JsonValue>,
    pub extra: JsonObject,
}

// ─── Embeddings and models ──────────────────────────────────────────────────

/// An embeddings request.
#[derive(Debug, PartialEq)]
pub struct EmbeddingRequest {
    pub model: String,
    pub input: EmbeddingInput,
    pub dimensions: Option<u32>,
    pub encoding_format: Option<String>,
    pub user: Option<String>,
    pub extra: JsonObject,
}

/// Embedding input: text, texts, tokens, or token arrays.
#[derive(Debug, PartialEq)]
pub enum EmbeddingInput {
    String(String),
    Strings(Vec<String>),
    Tokens(Vec<i64>),
    TokenArrays(Vec<Vec<i64>>),
}

/// An embeddings response.
#[derive(Debug, PartialEq)]
pub struct EmbeddingResponse {
    pub object: String,
    pub data: Vec<Embedding>,
    pub model: String,
    pub usage: EmbeddingUsage,
    pub extra: JsonObject,
}

/// One embedding (floats or base64 text, kept as JSON).
#[derive(Debug, PartialEq)]
pub struct Embedding {
    pub object: String,
    pub embedding: JsonValue,
    pub index: u32,
    pub extra: JsonObject,
}

#[derive(Debug, PartialEq)]
pub struct EmbeddingUsage {
    pub prompt_tokens: Option<u64>,
    pub total_tokens: Option<u64>,
    pub extra: JsonObject,
}

/// A model listing.
#[derive(Debug, PartialEq)]
pub struct ModelListResponse {
    pub object: String,
    pub data: Vec<Model>,
    pub extra: JsonObject,
}

/// A model entry.
#[derive(Debug, PartialEq)]
pub struct Model {
    pub id: String,
    pub object: String,
    pub created: Option<u64>,
    pub owned_by: Option<String>,
    pub extra: JsonObject,
}

// ─── Image detection ────────────────────────────────────────────────────────

pub open spec fn is_image_part(p: ChatContentPart) -> bool {
    p matches ChatContentPart::Typed(TypedChatContentPart::ImageUrl { .. })
}

pub open spec fn content_has_image(c: ChatMessageContent) -> bool {
    match c {
        ChatMessageContent::Text(_) => false,
        ChatMessageContent::Parts(ps) => exists|i: int| 0 <= i < ps@.len() && #[trigger] is_image_part(ps@[i]),
    }
}

pub open spec fn message_has_image(m: ChatMessage) -> bool {
    match m.content {
        Some(c) => content_has_image(c),
        None => false,
    }
}

impl ChatContentPart {
    /// Whether the part is an image.
    pub fn is_image_content(&self) -> (r: bool)
        ensures
            r == is_image_part(*self),
    {
        match self {
            ChatContentPart::Typed(TypedChatContentPart::ImageUrl { .. }) => true,
            _ => false,
        }
    }
}

impl ChatMessageContent {
    /// Whether any part is an image.
    #[verifier::loop_isolation(false)]
    pub fn has_image_content(&self) -> (r: bool)
        ensures
            r == content_has_image(*self),
    {
        match self {
            ChatMessageContent::Text(_) => false,
            ChatMessageContent::Parts(parts) => {
                let mut i: usize = 0;
                while i < parts.len()
                    invariant
                        i <= parts@.len(),
                        forall|k: int| 0 <= k < i ==> !#[trigger] is_image_part(parts@[k]),
                    decreases parts.len() - i,
                {
                    if parts[i].is_image_content() {
                        assert(is_image_part(parts@[i as int]));
                        return true;
                    }
                    i = i + 1;
                }
                false
            },
        }
    }
}

impl ChatMessage {
    /// Whether the message carries an image.
    pub fn has_image_content(&self) -> (r: bool)
        ensures
            r == message_has_image(*self),
    {
        match &self.content {
            Some(c) => c.has_image_content(),
            None => false,
        }
    }
}

// ─── Text forms ─────────────────────────────────────────────────────────────

pub open spec fn chat_role_text(r: ChatMessageRole) -> Seq<char> {
    match r {
        ChatMessageRole::Developer => "developer"@,
        ChatMessageRole::System => "system"@,
        ChatMessageRole::User => "user"@,
        ChatMessageRole::Assistant => "assistant"@,
        ChatMessageRole::Tool => "tool"@,
        ChatMessageRole::Unknown(s) => s@,
    }
}

pub open spec fn is_known_chat_role(s: Seq<char>) -> bool {
    s == "developer"@ || s == "system"@ || s == "user"@ || s == "assistant"@ || s == "tool"@
}

pub open spec fn chat_mode_text(m: ChatToolChoiceMode) -> Seq<char> {
    match m {
        ChatToolChoiceMode::Disabled => "none"@,
        ChatToolChoiceMode::Auto => "auto"@,
        ChatToolChoiceMode::Required => "required"@,
        ChatToolChoiceMode::Unknown(s) => s@,
    }
}

pub open spec fn is_known_chat_mode(s: Seq<char>) -> bool {
    s == "none"@ || s == "auto"@ || s == "required"@
}

impl ChatMessageRole {
    /// The role's wire text (`Display`, `AsRef<str>`).
    pub fn as_str(&self) -> (r: &str)
        ensures
            r@ == chat_role_text(*self),
    {
        match self {
            ChatMessageRole::Developer => "developer",
            ChatMessageRole::System => "system",
            ChatMessageRole::User => "user",
            ChatMessageRole::Assistant => "assistant",
            ChatMessageRole::Tool => "tool",
            ChatMessageRole::Unknown(s) => s.as_str(),
        }
    }

    /// Parses wire text; unknown text is kept (`FromStr`).
    pub fn parse(s: &str) -> (r: ChatMessageRole)
        ensures
            chat_role_text(r) == s@,
            r is Unknown ==> !is_known_chat_role(s@),
    {
        if str_eq(s, "developer") {
            ChatMessageRole::Developer
        } else if str_eq(s, "system") {
            ChatMessageRole::System
        } else if str_eq(s, "user") {
            ChatMessageRole::User
        } else if str_eq(s, "assistant") {
            ChatMessageRole::Assistant
        } else if str_eq(s, "tool") {
            ChatMessageRole::Tool
        } else {
            ChatMessageRole::Unknown(s.to_string())
        }
    }
}

impl ChatToolChoiceMode {
    /// The mode's wire text (`Display`, `AsRef<str>`).
    pub fn as_str(&self) -> (r: &str)
        ensures
            r@ == chat_mode_text(*self),
    {
        match self {
            ChatToolChoiceMode::Disabled => "none",
            ChatToolChoiceMode::Auto => "auto",
            ChatToolChoiceMode::Required => "required",
            ChatToolChoiceMode::Unknown(s) => s.as_str(),
        }
    }

    /// Parses wire text; unknown text is kept (`FromStr`).
    pub fn parse(s: &str) -> (r: ChatToolChoiceMode)
        ensures
            chat_mode_text(r) == s@,
            r is Unknown ==> !is_known_chat_mode(s@),
    {
        if str_eq(s, "none") {
            ChatToolChoiceMode::Disabled
        } else if str_eq(s, "auto") {
            ChatToolChoiceMode::Auto
        } else if str_eq(s, "required") {
            ChatToolChoiceMode::Required
        } else {
            ChatToolChoiceMode::Unknown(s.to_string())
        }
    }
}

} // verus!
