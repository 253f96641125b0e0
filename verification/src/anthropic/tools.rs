//! Tool translation shared by the request and response directions.

use crate::anthropic::types::{Tool as AnthropicTool, ToolChoice as AnthropicToolChoice};
use crate::canonical::model::{FunctionCall, Tool as CanonicalTool, ToolCall, ToolChoice, ToolChoiceMode};
use crate::json::{json_object, json_render, json_str, render_json_text, Json, JsonObject, JsonValue};
use vstd::prelude::*;

verus! {

/// The model of the default input schema `{"type": "object"}`.
pub open spec fn default_input_schema() -> Json {
    Json::Object(seq![("type"@, Json::Str("object"@))])
}

/// The Anthropic tool that a canonical tool becomes: the function's name and
/// description, and its parameters (or `{"type":"object"}`) as input schema.
pub open spec fn tool_translated(t: CanonicalTool, a: AnthropicTool) -> bool {
    &&& a.name@ == t.function.name@
    &&& a.description == t.function.description
    &&& a.input_schema.model() == match t.function.parameters {
        Some(p) => p.model(),
        None => default_input_schema(),
    }
    &&& a.cache_control is None
}

/// `{"type": "object"}`.
fn default_schema_value() -> (r: JsonValue)
    ensures
        r.model() == default_input_schema(),
{
    let mut o = JsonObject::new();
    o.insert("type".to_string(), json_str("object"));
    let r = json_object(o);
    assert(r.model()->Object_0 =~= seq![("type"@, Json::Str("object"@))]);
    r
}

/// Translates canonical tool definitions to Anthropic's flat
/// `{ name, description, input_schema }` form.
pub fn translate_tools(tools: &[CanonicalTool]) -> (r: Vec<AnthropicTool>)
    ensures
        r@.len() == tools@.len(),
        forall|i: int| 0 <= i < tools@.len() ==> #[trigger] tool_translated(tools@[i], r@[i]),
{
    let mut out: Vec<AnthropicTool> = Vec::new();
    let mut i: usize = 0;
    while i < tools.len()
        invariant
            i <= tools@.len(),
            out@.len() == i,
            forall|k: int| 0 <= k < i ==> #[trigger] tool_translated(tools@[k], out@[k]),
        decreases tools.len() - i,
    {
        let t = &tools[i];
        let input_schema = match &t.function.parameters {
            Some(p) => p.duplicate(),
            None => default_schema_value(),
        };
        out.push(
            AnthropicTool {
                name: t.function.name.clone(),
                description: t.function.description.clone(),
                input_schema,
                cache_control: None,
            },
        );
        i = i + 1;
    }
    out
}

/// The Anthropic tool choice that a canonical one becomes: `auto` (and any
/// unknown or raw choice) → `auto`, `none` → `none`, `required` → `any`, a
/// named function → `tool` with that name.
pub open spec fn tool_choice_translated(tc: ToolChoice, a: AnthropicToolChoice) -> bool {
    match tc {
        ToolChoice::Mode(ToolChoiceMode::Disabled) => a matches AnthropicToolChoice::Disabled { extra }
            && extra.model().len() == 0,
        ToolChoice::Mode(ToolChoiceMode::Required) => a == AnthropicToolChoice::Any {
            disable_parallel_tool_use: None,
        },
        ToolChoice::Named(n) => a matches AnthropicToolChoice::Tool { name, disable_parallel_tool_use }
            && name@ == n.function.name@ && disable_parallel_tool_use is None,
        _ => a == AnthropicToolChoice::Auto { disable_parallel_tool_use: None },
    }
}

/// Translates a canonical tool choice to Anthropic's form.
pub fn translate_tool_choice(tc: &ToolChoice) -> (r: AnthropicToolChoice)
    ensures
        tool_choice_translated(*tc, r),
{
    match tc {
        ToolChoice::Mode(mode) => match mode {
            ToolChoiceMode::Auto | ToolChoiceMode::Unknown(_) => AnthropicToolChoice::Auto {
                disable_parallel_tool_use: None,
            },
            ToolChoiceMode::Disabled => AnthropicToolChoice::Disabled { extra: JsonObject::new() },
            ToolChoiceMode::Required => AnthropicToolChoice::Any { disable_parallel_tool_use: None },
        },
        ToolChoice::Named(named) => AnthropicToolChoice::Tool {
            name: named.function.name.clone(),
            disable_parallel_tool_use: None,
        },
        ToolChoice::Raw(_) => AnthropicToolChoice::Auto { disable_parallel_tool_use: None },
    }
}

/// Converts an Anthropic `tool_use` block into a canonical tool call whose
/// arguments are the rendered JSON text of `input`.
pub fn tool_use_to_canonical(id: &str, name: &str, input: &JsonValue) -> (r: ToolCall)
    ensures
        r.id@ == id@,
        r.kind@ == "function"@,
        r.function.name@ == name@,
        r.function.arguments@ == json_render(input.model()),
        r.function.extra.model().len() == 0,
        r.extra.model().len() == 0,
{
    ToolCall {
        id: id.to_string(),
        kind: "function".to_string(),
        function: FunctionCall {
            name: name.to_string(),
            arguments: render_json_text(input),
            extra: JsonObject::new(),
        },
        extra: JsonObject::new(),
    }
}

} // verus!
