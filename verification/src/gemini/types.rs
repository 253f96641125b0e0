//! Gemini `generateContent` wire types. Numbers that the wire carries as
//! floats are kept as JSON numbers; free-form JSON as JSON values.

use crate::json::{JsonNumber, JsonObject, JsonValue};
use vstd::prelude::*;

verus! {

// ─── Request ────────────────────────────────────────────────────────────────

/// A `generateContent` request; `model` goes in the URL, not the body.
#[derive(Debug, PartialEq)]
pub struct GenerateContentRequest {
    pub model: String,
    pub contents: Vec<Content>,
    pub tools: Option<Vec<Tool>>,
    pub tool_config: Option<ToolConfig>,
    pub safety_settings: Option<Vec<SafetySetting>>,
    pub system_instruction: Option<Content>,
    pub generation_config: Option<GenerationConfig>,
    pub cached_content: Option<String>,
    pub extra: JsonObject,
}

// ─── Content and parts ──────────────────────────────────────────────────────

/// A turn: an optional role and its parts.
#[derive(Debug, PartialEq)]
pub struct Content {
    pub role: Option<Role>,
    pub parts: Vec<Part>,
}

/// Turn role; unknown roles keep their text.
#[derive(Debug, PartialEq)]
pub enum Role {
    User,
    Model,
    Function,
    Other(String),
}

/// A content part: exactly one content field is expected to be set; the
/// thought fields may accompany it.
#[derive(Debug, PartialEq)]
pub struct Part {
    pub text: Option<String>,
    pub inline_data: Option<Blob>,
    pub file_data: Option<FileData>,
    pub function_call: Option<FunctionCall>,
    pub function_response: Option<FunctionResponse>,
    pub executable_code: Option<ExecutableCode>,
    pub code_execution_result: Option<CodeExecutionResult>,
    pub thought: Option<bool>,
    pub thought_signature: Option<String>,
    pub extra: JsonObject,
}

/// Inline binary data (base64).
#[derive(Debug, PartialEq)]
pub struct Blob {
    pub mime_type: String,
    pub data: String,
}

/// A reference to an uploaded file.
#[derive(Debug, PartialEq)]
pub struct FileData {
    pub mime_type: String,
    pub file_uri: String,
}

/// A function call made by the model.
#[derive(Debug, PartialEq)]
pub struct FunctionCall {
    pub name: String,
    pub args: JsonValue,
    pub id: Option<String>,
}

/// The result of a function call.
#[derive(Debug, PartialEq)]
pub struct FunctionResponse {
    pub name: String,
    pub response: JsonValue,
    pub id: Option<String>,
}

/// Code generated for the code-execution tool.
#[derive(Debug, PartialEq)]
pub struct ExecutableCode {
    pub language: Language,
    pub code: String,
}

/// Language of executable code.
#[derive(Debug, PartialEq)]
pub enum Language {
    Python,
    Other(String),
}

/// The result of executing code.
#[derive(Debug, PartialEq)]
pub struct CodeExecutionResult {
    pub outcome: CodeExecutionOutcome,
    pub output: Option<String>,
}

/// Outcome of code execution (`OUTCOME_OK` is the `Succeeded` variant).
#[derive(Debug, PartialEq)]
pub enum CodeExecutionOutcome {
    Succeeded,
    Failed,
    DeadlineExceeded,
    Unknown(String),
}

/// Part constructors: one content field set, the others empty.
impl Part {
    pub open spec fn is_bare(&self) -> bool {
        &&& self.inline_data is None
        &&& self.file_data is None
        &&& self.function_call is None
        &&& self.function_response is None
        &&& self.executable_code is None
        &&& self.code_execution_result is None
        &&& self.thought is None
        &&& self.thought_signature is None
        &&& self.extra.model().len() == 0
    }

    fn empty() -> (r: Part)
        ensures
            r.is_bare(),
            r.text is None,
    {
        Part {
            text: None,
            inline_data: None,
            file_data: None,
            function_call: None,
            function_response: None,
            executable_code: None,
            code_execution_result: None,
            thought: None,
            thought_signature: None,
            extra: JsonObject::new(),
        }
    }

    /// A text part.
    pub fn text(text: &str) -> (r: Part)
        ensures
            r.text matches Some(t) && t@ == text@,
            r.is_bare(),
    {
        Part { text: Some(text.to_string()), ..Part::empty() }
    }

    /// An inline-data part.
    pub fn inline_data(blob: Blob) -> (r: Part)
        ensures
            r.text is None,
            r.inline_data == Some(blob),
            r.file_data is None && r.function_call is None && r.function_response is None,
            r.executable_code is None && r.code_execution_result is None,
            r.thought is None && r.thought_signature is None && r.extra.model().len() == 0,
    {
        Part { inline_data: Some(blob), ..Part::empty() }
    }

    /// A file-data part.
    pub fn file_data(data: FileData) -> (r: Part)
        ensures
            r.text is None && r.inline_data is None,
            r.file_data == Some(data),
            r.function_call is None && r.function_response is None,
            r.executable_code is None && r.code_execution_result is None,
            r.thought is None && r.thought_signature is None && r.extra.model().len() == 0,
    {
        Part { file_data: Some(data), ..Part::empty() }
    }

    /// A function-call part.
    pub fn function_call(call: FunctionCall) -> (r: Part)
        ensures
            r.text is None && r.inline_data is None && r.file_data is None,
            r.function_call == Some(call),
            r.function_response is None,
            r.executable_code is None && r.code_execution_result is None,
            r.thought is None && r.thought_signature is None && r.extra.model().len() == 0,
    {
        Part { function_call: Some(call), ..Part::empty() }
    }

    /// A function-response part.
    pub fn function_response(response: FunctionResponse) -> (r: Part)
        ensures
            r.text is None && r.inline_data is None && r.file_data is None && r.function_call is None,
            r.function_response == Some(response),
            r.executable_code is None && r.code_execution_result is None,
            r.thought is None && r.thought_signature is None && r.extra.model().len() == 0,
    {
        Part { function_response: Some(response), ..Part::empty() }
    }
}

// ─── Tools ──────────────────────────────────────────────────────────────────

/// A tool: function declarations and/or built-in tools.
#[derive(Debug, PartialEq)]
pub struct Tool {
    pub function_declarations: Option<Vec<FunctionDeclaration>>,
    pub google_search: Option<JsonValue>,
    pub code_execution: Option<JsonValue>,
    pub url_context: Option<JsonValue>,
    pub extra: JsonObject,
}

/// A function the model may call.
#[derive(Debug, PartialEq)]
pub struct FunctionDeclaration {
    pub name: String,
    pub description: Option<String>,
    pub parameters: Option<JsonValue>,
}

/// Tool configuration.
#[derive(Debug, PartialEq)]
pub struct ToolConfig {
    pub function_calling_config: Option<FunctionCallingConfig>,
}

/// Function-calling configuration.
#[derive(Debug, PartialEq)]
pub struct FunctionCallingConfig {
    pub mode: Option<FunctionCallingMode>,
    pub allowed_function_names: Option<Vec<String>>,
}

/// Function-calling mode (`NONE` is the `Disabled` variant).
#[derive(Debug, PartialEq)]
pub enum FunctionCallingMode {
    Auto,
    Any,
    Disabled,
    Validated,
    Unknown(String),
}

// ─── Safety ─────────────────────────────────────────────────────────────────

/// A safety threshold for one harm category.
#[derive(Debug, PartialEq)]
pub struct SafetySetting {
    pub category: HarmCategory,
    pub threshold: HarmBlockThreshold,
}

/// Harm category.
#[derive(Debug, PartialEq)]
pub enum HarmCategory {
    HateSpeech,
    SexuallyExplicit,
    DangerousContent,
    Harassment,
    CivicIntegrity,
    Unknown(String),
}

/// Blocking threshold.
#[derive(Debug, PartialEq)]
pub enum HarmBlockThreshold {
    BlockLowAndAbove,
    BlockMediumAndAbove,
    BlockOnlyHigh,
    BlockNone,
    Off,
    Unknown(String),
}

// ─── Generation config ──────────────────────────────────────────────────────

/// Generation parameters.
#[derive(Debug, PartialEq)]
pub struct GenerationConfig {
    pub temperature: Option<JsonNumber>,
    pub top_p: Option<JsonNumber>,
    pub top_k: Option<u32>,
    pub candidate_count: Option<u32>,
    pub max_output_tokens: Option<u64>,
    pub stop_sequences: Option<Vec<String>>,
    pub presence_penalty: Option<JsonNumber>,
    pub frequency_penalty: Option<JsonNumber>,
    pub response_mime_type: Option<String>,
    pub response_schema: Option<JsonValue>,
    pub response_modalities: Option<Vec<String>>,
    pub seed: Option<i64>,
    pub response_logprobs: Option<bool>,
    pub logprobs: Option<u32>,
    pub thinking_config: Option<ThinkingConfig>,
    pub extra: JsonObject,
}

/// Thinking configuration.
#[derive(Debug, PartialEq)]
pub struct ThinkingConfig {
    pub thinking_budget: Option<i64>,
    pub thinking_level: Option<ThinkingLevel>,
    pub include_thoughts: Option<bool>,
}

/// Thinking level.
#[derive(Debug, PartialEq)]
pub enum ThinkingLevel {
    Minimal,
    Low,
    Medium,
    High,
    Other(String),
}

// ─── Response ───────────────────────────────────────────────────────────────

/// A `generateContent` response.
#[derive(Debug, PartialEq)]
pub struct GenerateContentResponse {
    pub candidates: Vec<Candidate>,
    pub prompt_feedback: Option<PromptFeedback>,
    pub usage_metadata: Option<UsageMetadata>,
    pub model_version: Option<String>,
    pub response_id: Option<String>,
    pub extra: JsonObject,
}

/// A response candidate.
#[derive(Debug, PartialEq)]
pub struct Candidate {
    pub content: Option<Content>,
    pub finish_reason: Option<FinishReason>,
    pub safety_ratings: Vec<SafetyRating>,
    pub citation_metadata: Option<CitationMetadata>,
    pub grounding_metadata: Option<GroundingMetadata>,
    pub index: Option<u32>,
    pub avg_logprobs: Option<JsonNumber>,
    pub extra: JsonObject,
}

/// Why a candidate stopped.
#[derive(Debug, PartialEq)]
pub enum FinishReason {
    Stop,
    MaxTokens,
    Safety,
    Recitation,
    Language,
    Other,
    Blocklist,
    ProhibitedContent,
    Spii,
    MalformedFunctionCall,
    ImageSafety,
    NoImage,
    Unknown(String),
}

/// Token usage.
#[derive(Debug, PartialEq)]
pub struct UsageMetadata {
    pub prompt_token_count: Option<u64>,
    pub candidates_token_count: Option<u64>,
    pub total_token_count: Option<u64>,
    pub cached_content_token_count: Option<u64>,
    pub thoughts_token_count: Option<u64>,
}

/// A safety rating.
#[derive(Debug, PartialEq)]
pub struct SafetyRating {
    pub category: HarmCategory,
    pub probability: HarmProbability,
    pub blocked: bool,
}

/// Harm probability.
#[derive(Debug, PartialEq)]
pub enum HarmProbability {
    Negligible,
    Low,
    Medium,
    High,
    Unknown(String),
}

/// Feedback on the prompt.
#[derive(Debug, PartialEq)]
pub struct PromptFeedback {
    pub block_reason: Option<BlockReason>,
    pub safety_ratings: Vec<SafetyRating>,
}

/// Why a prompt was blocked.
#[derive(Debug, PartialEq)]
pub enum BlockReason {
    Safety,
    Other,
    Blocklist,
    ProhibitedContent,
    ImageSafety,
    Unknown(String),
}

/// Citation sources of a candidate.
#[derive(Debug, PartialEq)]
pub struct CitationMetadata {
    pub citation_sources: Vec<Citation>,
}

/// A citation.
#[derive(Debug, PartialEq)]
pub struct Citation {
    pub start_index: Option<u64>,
    pub end_index: Option<u64>,
    pub uri: Option<String>,
    pub title: Option<String>,
    pub license: Option<String>,
}

/// Grounding metadata of a candidate.
#[derive(Debug, PartialEq)]
pub struct GroundingMetadata {
    pub web_search_queries: Vec<String>,
    pub search_entry_point: Option<SearchEntryPoint>,
    pub grounding_chunks: Vec<GroundingChunk>,
    pub grounding_supports: Vec<GroundingSupport>,
    pub extra: JsonObject,
}

/// Search entry point.
#[derive(Debug, PartialEq)]
pub struct SearchEntryPoint {
    pub rendered_content: Option<String>,
}

/// A grounding chunk.
#[derive(Debug, PartialEq)]
pub struct GroundingChunk {
    pub web: Option<GroundingChunkWeb>,
}

/// A web grounding chunk.
#[derive(Debug, PartialEq)]
pub struct GroundingChunkWeb {
    pub uri: Option<String>,
    pub title: Option<String>,
}

/// A grounding support.
#[derive(Debug, PartialEq)]
pub struct GroundingSupport {
    pub segment: Option<TextSegment>,
    pub grounding_chunk_indices: Vec<u32>,
}

/// A text segment.
#[derive(Debug, PartialEq)]
pub struct TextSegment {
    pub start_index: Option<u64>,
    pub end_index: Option<u64>,
    pub text: Option<String>,
}

// ─── Errors ─────────────────────────────────────────────────────────────────

/// A Google API error.
#[derive(Debug, PartialEq)]
pub struct GoogleApiError {
    pub code: u16,
    pub message: String,
    pub status: String,
    pub details: Vec<JsonValue>,
}

/// A Google API error envelope.
#[derive(Debug, PartialEq)]
pub struct GoogleErrorResponse {
    pub error: GoogleApiError,
}

} // verus!
