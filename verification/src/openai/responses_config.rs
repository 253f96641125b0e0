//! Configuration of the Chat Completions → Responses request translation:
//! what differs between the public Responses endpoint and private backends.

use vstd::prelude::*;

verus! {

/// Where system and developer messages go.
#[derive(Clone, Copy, Debug, PartialEq)]
pub enum SystemHandling {
    /// Joined into the top-level `instructions` string.
    ExtractToInstructions,
    /// Kept as `developer` input messages.
    MapToDeveloper,
}

/// Behaviour of the Responses request translation.
#[derive(Debug, PartialEq)]
pub struct ResponsesRequestConfig {
    pub system_handling: SystemHandling,
    pub drop_max_tokens: bool,
    pub drop_temperature: bool,
    pub drop_top_p: bool,
    pub default_store: Option<bool>,
    pub default_include: Option<Vec<String>>,
    pub default_parallel_tool_calls: Option<bool>,
    pub default_reasoning_summary: Option<String>,
    pub default_reasoning_effort: Option<String>,
    pub force_instructions: bool,
    pub max_tool_name_len: Option<usize>,
}

impl Default for ResponsesRequestConfig {
    /// The public endpoint: system text to instructions, nothing dropped or
    /// defaulted.
    fn default() -> (r: ResponsesRequestConfig)
        ensures
            r.system_handling is ExtractToInstructions,
            !r.drop_max_tokens && !r.drop_temperature && !r.drop_top_p,
            r.default_store is None && r.default_include is None && r.default_parallel_tool_calls is None,
            r.default_reasoning_summary is None && r.default_reasoning_effort is None,
            !r.force_instructions,
            r.max_tool_name_len is None,
    {
        ResponsesRequestConfig {
            system_handling: SystemHandling::ExtractToInstructions,
            drop_max_tokens: false,
            drop_temperature: false,
            drop_top_p: false,
            default_store: None,
            default_include: None,
            default_parallel_tool_calls: None,
            default_reasoning_summary: None,
            default_reasoning_effort: None,
            force_instructions: false,
            max_tool_name_len: None,
        }
    }
}

impl ResponsesRequestConfig {
    /// The Codex backend: developer messages, no sampling limits, not
    /// stored, encrypted reasoning included, parallel tool calls, reasoning
    /// summary `auto` at effort `medium`, instructions always present, tool
    /// names at most 64 characters.
    pub fn codex() -> (r: ResponsesRequestConfig)
        ensures
            r.system_handling is MapToDeveloper,
            r.drop_max_tokens && r.drop_temperature && r.drop_top_p,
            r.default_store == Some(false),
            r.default_include matches Some(v) && v@.len() == 1 && v@[0]@ == "reasoning.encrypted_content"@,
            r.default_parallel_tool_calls == Some(true),
            r.default_reasoning_summary matches Some(s) && s@ == "auto"@,
            r.default_reasoning_effort matches Some(e) && e@ == "medium"@,
            r.force_instructions,
            r.max_tool_name_len == Some(64usize),
    {
        let mut included: Vec<String> = Vec::new();
        included.push("reasoning.encrypted_content".to_string());
        ResponsesRequestConfig {
            system_handling: SystemHandling::MapToDeveloper,
            drop_max_tokens: true,
            drop_temperature: true,
            drop_top_p: true,
            default_store: Some(false),
            default_include: Some(included),
            default_parallel_tool_calls: Some(true),
            default_reasoning_summary: Some("auto".to_string()),
            default_reasoning_effort: Some("medium".to_string()),
            force_instructions: true,
            max_tool_name_len: Some(64),
        }
    }
}

} // verus!
