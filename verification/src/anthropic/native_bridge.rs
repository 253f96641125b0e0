//! Native-protocol bridge: serve Anthropic Messages clients from any
//! canonical backend. Anthropic request → canonical request, canonical
//! response → Anthropic response, and canonical stream events → Anthropic
//! SSE frames.

use crate::anthropic::types::{
    ContentBlock, ImageSource, Message as AnthropicMessage, MessageContent as AnthropicContent,
    MessagesRequest, Metadata, Role as AnthropicRole, SystemPrompt, TextBlock, ThinkingConfig,
    Tool as AnthropicTool, ToolChoice as AnthropicToolChoice, ToolResultContent,
    TypedContentBlock,
};
use crate::anthropic::tools::tool_use_to_canonical;
use crate::anthropic::wire_json::{block_json, block_to_json};
use crate::canonical::error::TranslateError;
use crate::canonical::generic::{ForwardCompatible, OneOrMany};
use crate::canonical::model::{
    ChatRequest, ContentPart, FunctionDefinition, ImageUrl, Message, MessageContent,
    NamedToolChoice, NamedToolChoiceFunction, Role, StopSequence, ThinkingRequest, ThinkingSource,
    Tool as CanonicalTool, ToolCall, ToolChoice, ToolChoiceMode, TypedContentPart,
};
use crate::json::{json_render, model_lookup, render_json_text, Json, JsonNumber, JsonObject, JsonValue, NumberModel};
use crate::text::{concat_seqs, concat_strings, join_seqs, join_strings};
use vstd::prelude::*;

verus! {

// ─── Specifications: Anthropic → canonical request ─────────────────────────

pub open spec fn canonical_role_of(r: AnthropicRole) -> Role {
    match r {
        AnthropicRole::User => Role::User,
        AnthropicRole::Assistant => Role::Assistant,
        AnthropicRole::System => Role::System,
    }
}

/// The text of a system prompt: plain text, or the blocks' texts joined by
/// blank lines.
pub open spec fn system_prompt_text(sp: SystemPrompt) -> Seq<char> {
    match sp {
        SystemPrompt::Text(s) => s@,
        SystemPrompt::Blocks(bs) => join_seqs(bs@.map_values(|b: TextBlock| b.text@), "\n\n"@),
    }
}

/// The URL form of an image source: a `data:` URI for inline data.
pub open spec fn image_source_url(s: ImageSource) -> Seq<char> {
    match s {
        ImageSource::Base64 { media_type, data } => "data:"@ + media_type@ + ";base64,"@ + data@,
        ImageSource::Url { url } => url@,
    }
}

pub open spec fn is_anthropic_source(s: Option<ThinkingSource>) -> bool {
    s matches Some(ThinkingSource::Anthropic)
}

/// The canonical part a block becomes on an assistant or user turn.
pub open spec fn part_of_block(b: ContentBlock, p: ContentPart) -> bool {
    match b {
        ContentBlock::Typed(TypedContentBlock::Text { text, .. }) => p matches ForwardCompatible::Known(TypedContentPart::Text { text: t, extra })
            && t@ == text@ && extra.model().len() == 0,
        ContentBlock::Typed(TypedContentBlock::Thinking { thinking, signature }) => p matches ForwardCompatible::Known(TypedContentPart::Thinking { thinking: t, signature: s, source, extra })
            && t@ == thinking@ && s@ == signature@ && is_anthropic_source(source) && extra.model().len() == 0,
        ContentBlock::Typed(TypedContentBlock::RedactedThinking { data }) => p matches ForwardCompatible::Known(TypedContentPart::RedactedThinking { data: d, source, extra })
            && d@ == data@ && is_anthropic_source(source) && extra.model().len() == 0,
        ContentBlock::Typed(TypedContentBlock::Image { source, .. }) => p matches ForwardCompatible::Known(TypedContentPart::ImageUrl { image_url, extra })
            && image_url.url@ == image_source_url(source) && image_url.detail is None && image_url.extra.model().len() == 0
            && extra.model().len() == 0,
        ContentBlock::Raw(o) => p matches ForwardCompatible::Raw(po) && po.model() == o.model(),
        _ => false,
    }
}

pub open spec fn is_text_block(b: ContentBlock) -> bool {
    b matches ContentBlock::Typed(TypedContentBlock::Text { .. })
}

/// Blocks that become content parts on an assistant turn.
pub open spec fn is_assistant_part_block(b: ContentBlock) -> bool {
    match b {
        ContentBlock::Typed(TypedContentBlock::ToolUse { .. }) => false,
        ContentBlock::Typed(TypedContentBlock::ToolResult { .. }) => false,
        _ => true,
    }
}

/// Blocks that become content parts on a user or system turn.
pub open spec fn is_user_part_block(b: ContentBlock) -> bool {
    match b {
        ContentBlock::Typed(TypedContentBlock::Text { .. }) => true,
        ContentBlock::Typed(TypedContentBlock::Image { .. }) => true,
        ContentBlock::Raw(_) => true,
        _ => false,
    }
}

pub open spec fn is_tool_use_block(b: ContentBlock) -> bool {
    b matches ContentBlock::Typed(TypedContentBlock::ToolUse { .. })
}

pub open spec fn is_tool_result_block(b: ContentBlock) -> bool {
    b matches ContentBlock::Typed(TypedContentBlock::ToolResult { .. })
}

/// The blocks of `bs` that become assistant content parts, in order.
pub open spec fn assistant_part_blocks(bs: Seq<ContentBlock>) -> Seq<ContentBlock>
    decreases bs.len(),
{
    if bs.len() == 0 {
        Seq::empty()
    } else {
        assistant_part_blocks(bs.drop_last()) + if is_assistant_part_block(bs.last()) { seq![bs.last()] } else { Seq::empty() }
    }
}

/// The blocks of `bs` that become user content parts, in order.
pub open spec fn user_part_blocks(bs: Seq<ContentBlock>) -> Seq<ContentBlock>
    decreases bs.len(),
{
    if bs.len() == 0 {
        Seq::empty()
    } else {
        user_part_blocks(bs.drop_last()) + if is_user_part_block(bs.last()) { seq![bs.last()] } else { Seq::empty() }
    }
}

/// The `tool_use` blocks of `bs`, in order.
pub open spec fn tool_use_blocks(bs: Seq<ContentBlock>) -> Seq<ContentBlock>
    decreases bs.len(),
{
    if bs.len() == 0 {
        Seq::empty()
    } else {
        tool_use_blocks(bs.drop_last()) + if is_tool_use_block(bs.last()) { seq![bs.last()] } else { Seq::empty() }
    }
}

/// The `tool_result` blocks of `bs`, in order.
pub open spec fn tool_result_blocks(bs: Seq<ContentBlock>) -> Seq<ContentBlock>
    decreases bs.len(),
{
    if bs.len() == 0 {
        Seq::empty()
    } else {
        tool_result_blocks(bs.drop_last()) + if is_tool_result_block(bs.last()) { seq![bs.last()] } else { Seq::empty() }
    }
}

/// The blocks of `bs` that are not `tool_result` blocks, in order.
pub open spec fn non_result_blocks(bs: Seq<ContentBlock>) -> Seq<ContentBlock>
    decreases bs.len(),
{
    if bs.len() == 0 {
        Seq::empty()
    } else {
        non_result_blocks(bs.drop_last()) + if !is_tool_result_block(bs.last()) { seq![bs.last()] } else { Seq::empty() }
    }
}

pub open spec fn block_text(b: ContentBlock) -> Seq<char> {
    match b {
        ContentBlock::Typed(TypedContentBlock::Text { text, .. }) => text@,
        _ => Seq::empty(),
    }
}

/// The content that a list of part blocks collapses to: nothing when there
/// are none, the concatenated text when all are text, else the parts.
pub open spec fn collapsed(part_blocks: Seq<ContentBlock>, c: Option<MessageContent>) -> bool {
    if part_blocks.len() == 0 {
        c is None
    } else if forall|i: int| 0 <= i < part_blocks.len() ==> #[trigger] is_text_block(part_blocks[i]) {
        c matches Some(MessageContent::Text(s)) && s@ == concat_seqs(part_blocks.map_values(|b: ContentBlock| block_text(b)))
    } else {
        c matches Some(MessageContent::Parts(ps)) && ps@.len() == part_blocks.len() && forall|i: int|
            0 <= i < ps@.len() ==> #[trigger] part_of_block(part_blocks[i], ps@[i])
    }
}

/// The tool call a `tool_use` block becomes.
pub open spec fn call_of_block(b: ContentBlock, tc: ToolCall) -> bool {
    b matches ContentBlock::Typed(TypedContentBlock::ToolUse { id, name, input, .. })
        && tc.id@ == id@ && tc.kind@ == "function"@ && tc.function.name@ == name@
        && tc.function.arguments@ == json_render(input.model())
        && tc.function.extra.model().len() == 0 && tc.extra.model().len() == 0
}

/// The text a tool result carries on the canonical side.
pub open spec fn result_block_text(b: ContentBlock) -> Seq<char> {
    match b {
        ContentBlock::Typed(TypedContentBlock::Text { text, .. }) => text@,
        ContentBlock::Typed(TypedContentBlock::Image { .. }) => "[image]"@,
        _ => json_render(block_json(b)),
    }
}

pub open spec fn tool_result_text_of(c: Option<ToolResultContent>) -> Seq<char> {
    match c {
        None => Seq::empty(),
        Some(ToolResultContent::Text(s)) => s@,
        Some(ToolResultContent::Blocks(bs)) => join_seqs(bs@.map_values(|b: ContentBlock| result_block_text(b)), "\n"@),
    }
}

pub open spec fn bare_message(m: Message, role: Role) -> bool {
    m.role == role && m.name is None && m.tool_call_id is None && m.extra.model().len() == 0
}

/// The canonical tool message a `tool_result` block becomes.
pub open spec fn tool_message_of_block(b: ContentBlock, m: Message) -> bool {
    &&& b matches ContentBlock::Typed(TypedContentBlock::ToolResult { tool_use_id, content, .. })
    &&& m.role == Role::Tool && m.name is None && m.tool_calls is None && m.extra.model().len() == 0
    &&& m.tool_call_id matches Some(id) && id@ == b->Typed_0->ToolResult_tool_use_id@
    &&& m.content matches Some(MessageContent::Text(t)) && t@ == tool_result_text_of(b->Typed_0->ToolResult_content)
}

pub open spec fn text_message_is(m: Message, role: Role, text: Seq<char>) -> bool {
    &&& bare_message(m, role)
    &&& m.tool_calls is None
    &&& m.content matches Some(MessageContent::Text(t)) && t@ == text
}

/// The canonical messages one Anthropic turn becomes.
pub open spec fn turn_messages(t: AnthropicMessage, out: Seq<Message>) -> bool {
    match t.content {
        AnthropicContent::Text(text) => out.len() == 1 && text_message_is(out[0], canonical_role_of(t.role), text@),
        AnthropicContent::Blocks(bs) => match t.role {
            AnthropicRole::Assistant => {
                let uses = tool_use_blocks(bs@);
                &&& out.len() == 1
                &&& bare_message(out[0], Role::Assistant)
                &&& collapsed(assistant_part_blocks(bs@), out[0].content)
                &&& if uses.len() == 0 {
                    out[0].tool_calls is None
                } else {
                    out[0].tool_calls matches Some(tcs) && tcs@.len() == uses.len() && forall|i: int|
                        0 <= i < uses.len() ==> #[trigger] call_of_block(uses[i], tcs@[i])
                }
            },
            AnthropicRole::User => {
                let results = tool_result_blocks(bs@);
                let parts = user_part_blocks(non_result_blocks(bs@));
                let extra = if parts.len() > 0 { 1int } else { 0int };
                &&& out.len() == results.len() + extra
                &&& forall|i: int| 0 <= i < results.len() ==> #[trigger] tool_message_of_block(results[i], out[i])
                &&& parts.len() > 0 ==> (bare_message(out[results.len() as int], Role::User)
                    && out[results.len() as int].tool_calls is None
                    && collapsed(parts, out[results.len() as int].content))
            },
            AnthropicRole::System => {
                let parts = user_part_blocks(bs@);
                &&& out.len() == if parts.len() > 0 { 1int } else { 0int }
                &&& parts.len() > 0 ==> (bare_message(out[0], Role::System) && out[0].tool_calls is None
                    && collapsed(parts, out[0].content))
            },
        },
    }
}

/// `out` is the concatenation of what each turn becomes.
pub open spec fn conversation_messages(ts: Seq<AnthropicMessage>, out: Seq<Message>) -> bool
    decreases ts.len(),
{
    if ts.len() == 0 {
        out.len() == 0
    } else {
        exists|k: int| 0 <= k <= out.len() && #[trigger] turn_messages(ts.last(), out.subrange(k, out.len() as int))
            && conversation_messages(ts.drop_last(), out.subrange(0, k))
    }
}

pub open spec fn tool_of_anthropic(t: AnthropicTool, c: CanonicalTool) -> bool {
    &&& c.kind@ == "function"@
    &&& c.function.name@ == t.name@
    &&& c.function.description == t.description
    &&& c.function.parameters matches Some(p) && p.model() == t.input_schema.model()
    &&& c.function.strict is None
    &&& c.function.extra.model().len() == 0
    &&& c.extra.model().len() == 0
}

pub open spec fn tool_choice_of_anthropic(a: AnthropicToolChoice, c: ToolChoice) -> bool {
    match a {
        AnthropicToolChoice::Auto { .. } => c == ToolChoice::Mode(ToolChoiceMode::Auto),
        AnthropicToolChoice::Any { .. } => c == ToolChoice::Mode(ToolChoiceMode::Required),
        AnthropicToolChoice::Disabled { .. } => c == ToolChoice::Mode(ToolChoiceMode::Disabled),
        AnthropicToolChoice::Tool { name, .. } => c matches ToolChoice::Named(n) && n.kind@ == "function"@
            && n.function.name@ == name@ && n.function.extra.model().len() == 0 && n.extra.model().len() == 0,
    }
}

pub open spec fn thinking_of_anthropic(t: ThinkingConfig) -> ThinkingRequest {
    match t {
        ThinkingConfig::Enabled { budget_tokens } => ThinkingRequest::Budget {
            budget_tokens: if budget_tokens <= u32::MAX { budget_tokens as u32 } else { u32::MAX },
        },
        ThinkingConfig::Adaptive => ThinkingRequest::Auto,
        ThinkingConfig::Disabled => ThinkingRequest::Disabled,
    }
}

pub open spec fn stop_of_anthropic(seqs: Seq<String>, s: Option<StopSequence>) -> bool {
    if seqs.len() == 0 {
        s is None
    } else if seqs.len() == 1 {
        s matches Some(OneOrMany::One(x)) && x@ == seqs[0]@
    } else {
        s matches Some(OneOrMany::Many(v)) && v@ == seqs
    }
}


// ─── Executable: Anthropic → canonical request ─────────────────────────────

/// The canonical role of an Anthropic role.
pub fn canonical_role(role: AnthropicRole) -> (r: Role)
    ensures
        r == canonical_role_of(role),
{
    match role {
        AnthropicRole::User => Role::User,
        AnthropicRole::Assistant => Role::Assistant,
        AnthropicRole::System => Role::System,
    }
}

/// The text of a system prompt (blocks joined by blank lines).
pub fn system_prompt_to_text(system: &SystemPrompt) -> (r: String)
    ensures
        r@ == system_prompt_text(*system),
{
    match system {
        SystemPrompt::Text(s) => s.clone(),
        SystemPrompt::Blocks(blocks) => {
            let mut texts: Vec<String> = Vec::new();
            let mut i: usize = 0;
            while i < blocks.len()
                invariant
                    i <= blocks@.len(),
                    texts@.len() == i,
                    forall|k: int| 0 <= k < i ==> #[trigger] texts@[k]@ == blocks@[k].text@,
                decreases blocks.len() - i,
            {
                texts.push(blocks[i].text.clone());
                i = i + 1;
            }
            assert(texts@.map_values(|t: String| t@) =~= blocks@.map_values(|b: TextBlock| b.text@));
            join_strings(&texts, "\n\n")
        },
    }
}

/// Stop sequences as the canonical request carries them: none, one, or many.
pub fn stop_sequences_to_canonical(seqs: Vec<String>) -> (r: Option<StopSequence>)
    ensures
        stop_of_anthropic(seqs@, r),
{
    if seqs.len() == 0 {
        None
    } else if seqs.len() == 1 {
        let mut seqs = seqs;
        let one = seqs.remove(0);
        Some(OneOrMany::One(one))
    } else {
        Some(OneOrMany::Many(seqs))
    }
}

/// The URL form of an image source (`data:<media type>;base64,<data>`).
pub fn image_source_to_url(source: &ImageSource) -> (r: String)
    ensures
        r@ == image_source_url(*source),
{
    match source {
        ImageSource::Base64 { media_type, data } => {
            let mut u = "data:".to_string();
            u.append(media_type.as_str());
            u.append(";base64,");
            u.append(data.as_str());
            u
        },
        ImageSource::Url { url } => url.clone(),
    }
}

fn empty_object() -> (r: JsonObject)
    ensures
        r.model().len() == 0,
{
    JsonObject::new()
}

/// The canonical part a part block becomes.
fn block_to_part(block: ContentBlock) -> (r: ContentPart)
    requires
        is_assistant_part_block(block),
    ensures
        part_of_block(block, r),
{
    match block {
        ContentBlock::Typed(TypedContentBlock::Text { text, .. }) => ForwardCompatible::Known(
            TypedContentPart::Text { text, extra: empty_object() },
        ),
        ContentBlock::Typed(TypedContentBlock::Thinking { thinking, signature }) => ForwardCompatible::Known(
            TypedContentPart::Thinking { thinking, signature, source: Some(ThinkingSource::Anthropic), extra: empty_object() },
        ),
        ContentBlock::Typed(TypedContentBlock::RedactedThinking { data }) => ForwardCompatible::Known(
            TypedContentPart::RedactedThinking { data, source: Some(ThinkingSource::Anthropic), extra: empty_object() },
        ),
        ContentBlock::Typed(TypedContentBlock::Image { source, .. }) => ForwardCompatible::Known(
            TypedContentPart::ImageUrl {
                image_url: ImageUrl { url: image_source_to_url(&source), detail: None, extra: empty_object() },
                extra: empty_object(),
            },
        ),
        ContentBlock::Raw(obj) => ForwardCompatible::Raw(obj),
        ContentBlock::Typed(_) => {
            assert(false);
            ForwardCompatible::Raw(empty_object())
        },
    }
}

/// Collapses parts: nothing when empty, the concatenated text when every
/// part is text, else the parts.
fn collapse_parts(parts: Vec<ContentPart>, only_text: bool, Ghost(blocks): Ghost<Seq<ContentBlock>>) -> (r: Option<MessageContent>)
    requires
        parts@.len() == blocks.len(),
        forall|i: int| 0 <= i < blocks.len() ==> #[trigger] part_of_block(blocks[i], parts@[i]),
        only_text == forall|i: int| 0 <= i < blocks.len() ==> #[trigger] is_text_block(blocks[i]),
    ensures
        collapsed(blocks, r),
{
    if parts.len() == 0 {
        None
    } else if only_text {
        let mut texts: Vec<String> = Vec::new();
        let mut i: usize = 0;
        while i < parts.len()
            invariant
                i <= parts@.len(),
                parts@.len() == blocks.len(),
                forall|k: int| 0 <= k < blocks.len() ==> #[trigger] part_of_block(blocks[k], parts@[k]),
                forall|k: int| 0 <= k < blocks.len() ==> #[trigger] is_text_block(blocks[k]),
                texts@.len() == i,
                forall|k: int| 0 <= k < i ==> #[trigger] texts@[k]@ == block_text(blocks[k]),
            decreases parts.len() - i,
        {
            assert(is_text_block(blocks[i as int]));
            assert(part_of_block(blocks[i as int], parts@[i as int]));
            match &parts[i] {
                ForwardCompatible::Known(TypedContentPart::Text { text, .. }) => texts.push(text.clone()),
                _ => {
                    assert(false);
                },
            }
            i = i + 1;
        }
        assert(texts@.map_values(|t: String| t@) =~= blocks.map_values(|b: ContentBlock| block_text(b)));
        Some(MessageContent::Text(concat_strings(&texts)))
    } else {
        Some(MessageContent::Parts(parts))
    }
}

/// Splits an assistant turn's blocks into its content and its tool calls,
/// keeping block order.
pub fn split_assistant_blocks(blocks: Vec<ContentBlock>) -> (r: (Option<MessageContent>, Option<Vec<ToolCall>>))
    ensures
        collapsed(assistant_part_blocks(blocks@), r.0),
        tool_use_blocks(blocks@).len() == 0 ==> r.1 is None,
        tool_use_blocks(blocks@).len() > 0 ==> (r.1 matches Some(tcs) && tcs@.len() == tool_use_blocks(blocks@).len()
            && forall|i: int| 0 <= i < tcs@.len() ==> #[trigger] call_of_block(tool_use_blocks(blocks@)[i], tcs@[i])),
{
    let ghost bs = blocks@;
    let mut rest = blocks;
    let mut parts: Vec<ContentPart> = Vec::new();
    let mut tool_calls: Vec<ToolCall> = Vec::new();
    let mut only_text = true;
    let mut i: usize = 0;
    let total = rest.len();
    assert(bs.take(0) =~= Seq::<ContentBlock>::empty());
    while rest.len() > 0
        invariant
            i + rest@.len() == bs.len(),
            bs.len() == total,
            rest@ == bs.subrange(i as int, bs.len() as int),
            parts@.len() == assistant_part_blocks(bs.take(i as int)).len(),
            forall|k: int| 0 <= k < parts@.len() ==> #[trigger] part_of_block(assistant_part_blocks(bs.take(i as int))[k], parts@[k]),
            only_text == forall|k: int| 0 <= k < parts@.len() ==> #[trigger] is_text_block(assistant_part_blocks(bs.take(i as int))[k]),
            tool_calls@.len() == tool_use_blocks(bs.take(i as int)).len(),
            forall|k: int| 0 <= k < tool_calls@.len() ==> #[trigger] call_of_block(tool_use_blocks(bs.take(i as int))[k], tool_calls@[k]),
        decreases rest.len(),
    {
        let block = rest.remove(0);
        let ghost pb = assistant_part_blocks(bs.take(i as int));
        let ghost ub = tool_use_blocks(bs.take(i as int));
        proof {
            assert(block == bs[i as int]);
            assert(bs.take(i + 1).drop_last() =~= bs.take(i as int));
            assert(bs.take(i + 1).last() == bs[i as int]);
        }
        match block {
            ContentBlock::Typed(TypedContentBlock::ToolUse { id, name, input, cache_control }) => {
                let ghost b = ContentBlock::Typed(TypedContentBlock::ToolUse { id, name, input, cache_control });
                let tc = tool_use_to_canonical(id.as_str(), name.as_str(), &input);
                tool_calls.push(tc);
                proof {
                    assert(assistant_part_blocks(bs.take(i + 1)) =~= pb);
                    assert(tool_use_blocks(bs.take(i + 1)) =~= ub.push(b));
                }
            },
            ContentBlock::Typed(TypedContentBlock::ToolResult { tool_use_id, content, is_error, cache_control }) => {
                proof {
                    assert(assistant_part_blocks(bs.take(i + 1)) =~= pb);
                    assert(tool_use_blocks(bs.take(i + 1)) =~= ub);
                }
            },
            other => {
                let ghost b = other;
                let is_text = match &other {
                    ContentBlock::Typed(TypedContentBlock::Text { .. }) => true,
                    _ => false,
                };
                let part = block_to_part(other);
                parts.push(part);
                only_text = only_text && is_text;
                proof {
                    assert(assistant_part_blocks(bs.take(i + 1)) =~= pb.push(b));
                    assert(tool_use_blocks(bs.take(i + 1)) =~= ub);
                    let npb = pb.push(b);
                    assert(only_text == forall|k: int| 0 <= k < parts@.len() ==> #[trigger] is_text_block(npb[k])) by {
                        if only_text {
                            assert forall|k: int| 0 <= k < parts@.len() implies #[trigger] is_text_block(npb[k]) by {
                                if k < pb.len() {
                                    assert(npb[k] == pb[k]);
                                }
                            }
                        } else {
                            if !is_text {
                                assert(!is_text_block(npb[pb.len() as int]));
                            } else {
                                let w = choose|k: int| 0 <= k < pb.len() && !is_text_block(pb[k]);
                                assert(!is_text_block(npb[w]));
                            }
                        }
                    }
                }
            },
        }
        i = i + 1;
        assert(rest@ =~= bs.subrange(i as int, bs.len() as int));
    }
    assert(bs.take(bs.len() as int) =~= bs);
    let content = collapse_parts(parts, only_text, Ghost(assistant_part_blocks(bs)));
    let calls = if tool_calls.len() == 0 {
        None
    } else {
        Some(tool_calls)
    };
    (content, calls)
}


/// The text a tool result carries: its text, or its blocks' texts joined by
/// newlines (an image becomes `[image]`, any other block its JSON).
pub fn tool_result_content_to_string(content: Option<ToolResultContent>) -> (r: String)
    ensures
        r@ == tool_result_text_of(content),
{
    match content {
        None => String::new(),
        Some(ToolResultContent::Text(s)) => s,
        Some(ToolResultContent::Blocks(blocks)) => {
            let mut texts: Vec<String> = Vec::new();
            let mut i: usize = 0;
            while i < blocks.len()
                invariant
                    i <= blocks@.len(),
                    texts@.len() == i,
                    forall|k: int| 0 <= k < i ==> #[trigger] texts@[k]@ == result_block_text(blocks@[k]),
                decreases blocks.len() - i,
            {
                let t = match &blocks[i] {
                    ContentBlock::Typed(TypedContentBlock::Text { text, .. }) => text.clone(),
                    ContentBlock::Typed(TypedContentBlock::Image { .. }) => "[image]".to_string(),
                    other => render_json_text(&block_to_json(other)),
                };
                texts.push(t);
                i = i + 1;
            }
            assert(texts@.map_values(|t: String| t@) =~= blocks@.map_values(|b: ContentBlock| result_block_text(b)));
            join_strings(&texts, "\n")
        },
    }
}

/// Splits a user turn's blocks into tool messages (one per `tool_result`
/// block) and the remaining blocks.
pub fn partition_tool_results(blocks: Vec<ContentBlock>) -> (r: (Vec<Message>, Vec<ContentBlock>))
    ensures
        r.0@.len() == tool_result_blocks(blocks@).len(),
        forall|i: int| 0 <= i < r.0@.len() ==> #[trigger] tool_message_of_block(tool_result_blocks(blocks@)[i], r.0@[i]),
        r.1@ == non_result_blocks(blocks@),
{
    let ghost bs = blocks@;
    let mut rest = blocks;
    let total = rest.len();
    let mut tool_results: Vec<Message> = Vec::new();
    let mut other: Vec<ContentBlock> = Vec::new();
    let mut i: usize = 0;
    assert(bs.take(0) =~= Seq::<ContentBlock>::empty());
    while rest.len() > 0
        invariant
            i + rest@.len() == bs.len(),
            bs.len() == total,
            rest@ == bs.subrange(i as int, bs.len() as int),
            tool_results@.len() == tool_result_blocks(bs.take(i as int)).len(),
            forall|k: int| 0 <= k < tool_results@.len() ==> #[trigger] tool_message_of_block(tool_result_blocks(bs.take(i as int))[k], tool_results@[k]),
            other@ == non_result_blocks(bs.take(i as int)),
        decreases rest.len(),
    {
        let block = rest.remove(0);
        let ghost rb = tool_result_blocks(bs.take(i as int));
        proof {
            assert(block == bs[i as int]);
            assert(bs.take(i + 1).drop_last() =~= bs.take(i as int));
            assert(bs.take(i + 1).last() == bs[i as int]);
        }
        match block {
            ContentBlock::Typed(TypedContentBlock::ToolResult { tool_use_id, content, is_error, cache_control }) => {
                let ghost b = ContentBlock::Typed(TypedContentBlock::ToolResult { tool_use_id, content, is_error, cache_control });
                let text = tool_result_content_to_string(content);
                tool_results.push(Message {
                    role: Role::Tool,
                    content: Some(MessageContent::Text(text)),
                    name: None,
                    tool_call_id: Some(tool_use_id),
                    tool_calls: None,
                    extra: empty_object(),
                });
                proof {
                    assert(tool_result_blocks(bs.take(i + 1)) =~= rb.push(b));
                    assert(non_result_blocks(bs.take(i + 1)) =~= non_result_blocks(bs.take(i as int)));
                }
            },
            b => {
                let ghost gb = b;
                other.push(b);
                proof {
                    assert(tool_result_blocks(bs.take(i + 1)) =~= rb);
                    assert(non_result_blocks(bs.take(i + 1)) =~= non_result_blocks(bs.take(i as int)).push(gb));
                }
            },
        }
        i = i + 1;
        assert(rest@ =~= bs.subrange(i as int, bs.len() as int));
    }
    assert(bs.take(bs.len() as int) =~= bs);
    (tool_results, other)
}

/// The content of a user (or system) turn's blocks: text, images and raw
/// blocks, collapsed; other blocks do not belong there and are dropped.
pub fn user_blocks_to_content(blocks: Vec<ContentBlock>) -> (r: Option<MessageContent>)
    ensures
        collapsed(user_part_blocks(blocks@), r),
{
    let ghost bs = blocks@;
    let mut rest = blocks;
    let total = rest.len();
    let mut parts: Vec<ContentPart> = Vec::new();
    let mut only_text = true;
    let mut i: usize = 0;
    assert(bs.take(0) =~= Seq::<ContentBlock>::empty());
    while rest.len() > 0
        invariant
            i + rest@.len() == bs.len(),
            bs.len() == total,
            rest@ == bs.subrange(i as int, bs.len() as int),
            parts@.len() == user_part_blocks(bs.take(i as int)).len(),
            forall|k: int| 0 <= k < parts@.len() ==> #[trigger] part_of_block(user_part_blocks(bs.take(i as int))[k], parts@[k]),
            only_text == forall|k: int| 0 <= k < parts@.len() ==> #[trigger] is_text_block(user_part_blocks(bs.take(i as int))[k]),
        decreases rest.len(),
    {
        let block = rest.remove(0);
        let ghost pb = user_part_blocks(bs.take(i as int));
        proof {
            assert(block == bs[i as int]);
            assert(bs.take(i + 1).drop_last() =~= bs.take(i as int));
            assert(bs.take(i + 1).last() == bs[i as int]);
        }
        let keep = match &block {
            ContentBlock::Typed(TypedContentBlock::Text { .. }) => true,
            ContentBlock::Typed(TypedContentBlock::Image { .. }) => true,
            ContentBlock::Raw(_) => true,
            _ => false,
        };
        if keep {
            let ghost b = block;
            let is_text = match &block {
                ContentBlock::Typed(TypedContentBlock::Text { .. }) => true,
                _ => false,
            };
            parts.push(block_to_part(block));
            only_text = only_text && is_text;
            proof {
                assert(user_part_blocks(bs.take(i + 1)) =~= pb.push(b));
                let npb = pb.push(b);
                assert(only_text == forall|k: int| 0 <= k < parts@.len() ==> #[trigger] is_text_block(npb[k])) by {
                    if only_text {
                        assert forall|k: int| 0 <= k < parts@.len() implies #[trigger] is_text_block(npb[k]) by {
                            if k < pb.len() {
                                assert(npb[k] == pb[k]);
                            }
                        }
                    } else {
                        if !is_text {
                            assert(!is_text_block(npb[pb.len() as int]));
                        } else {
                            let w = choose|k: int| 0 <= k < pb.len() && !is_text_block(pb[k]);
                            assert(!is_text_block(npb[w]));
                        }
                    }
                }
            }
        } else {
            proof {
                assert(user_part_blocks(bs.take(i + 1)) =~= pb);
            }
        }
        i = i + 1;
        assert(rest@ =~= bs.subrange(i as int, bs.len() as int));
    }
    assert(bs.take(bs.len() as int) =~= bs);
    collapse_parts(parts, only_text, Ghost(user_part_blocks(bs)))
}

/// The canonical tool an Anthropic tool becomes.
pub fn anthropic_tool_to_canonical(tool: AnthropicTool) -> (r: CanonicalTool)
    ensures
        tool_of_anthropic(tool, r),
{
    CanonicalTool {
        kind: "function".to_string(),
        function: FunctionDefinition {
            name: tool.name,
            description: tool.description,
            parameters: Some(tool.input_schema),
            strict: None,
            extra: empty_object(),
        },
        extra: empty_object(),
    }
}

/// The canonical tool choice of an Anthropic one: `auto`, `any` → required,
/// `none`, `tool` → named function.
pub fn anthropic_tool_choice_to_canonical(tc: AnthropicToolChoice) -> (r: ToolChoice)
    ensures
        tool_choice_of_anthropic(tc, r),
{
    match tc {
        AnthropicToolChoice::Auto { .. } => ToolChoice::Mode(ToolChoiceMode::Auto),
        AnthropicToolChoice::Any { .. } => ToolChoice::Mode(ToolChoiceMode::Required),
        AnthropicToolChoice::Disabled { .. } => ToolChoice::Mode(ToolChoiceMode::Disabled),
        AnthropicToolChoice::Tool { name, .. } => ToolChoice::Named(NamedToolChoice {
            kind: "function".to_string(),
            function: NamedToolChoiceFunction { name, extra: empty_object() },
            extra: empty_object(),
        }),
    }
}

/// The canonical thinking request of an Anthropic thinking configuration; a
/// budget above `u32::MAX` saturates.
pub fn anthropic_thinking_to_canonical(thinking: ThinkingConfig) -> (r: ThinkingRequest)
    ensures
        r == thinking_of_anthropic(thinking),
{
    match thinking {
        ThinkingConfig::Enabled { budget_tokens } => ThinkingRequest::Budget {
            budget_tokens: if budget_tokens <= 4294967295u64 { budget_tokens as u32 } else { u32::MAX },
        },
        ThinkingConfig::Adaptive => ThinkingRequest::Auto,
        ThinkingConfig::Disabled => ThinkingRequest::Disabled,
    }
}


// ─── The whole request ──────────────────────────────────────────────────────

/// The canonical messages of a request: a leading system message when the
/// system prompt has text, then what each turn becomes.
pub open spec fn request_messages(req: MessagesRequest, out: Seq<Message>) -> bool {
    match req.system {
        Some(sp) if system_prompt_text(sp).len() > 0 => {
            &&& out.len() >= 1
            &&& text_message_is(out[0], Role::System, system_prompt_text(sp))
            &&& conversation_messages(req.messages@, out.subrange(1, out.len() as int))
        },
        _ => conversation_messages(req.messages@, out),
    }
}

/// The canonical tools of Anthropic tools, one for one.
pub open spec fn tools_of_anthropic(ts: Option<Vec<AnthropicTool>>, cs: Option<Vec<CanonicalTool>>) -> bool {
    match ts {
        None => cs is None,
        Some(ts) => cs matches Some(cs) && cs@.len() == ts@.len()
            && forall|i: int| 0 <= i < ts@.len() ==> #[trigger] tool_of_anthropic(ts@[i], cs@[i]),
    }
}

/// The `extra` object of the canonical request: the request's own extra
/// fields, then `top_k` when it was given.
pub open spec fn extra_with_top_k(extra: Seq<(Seq<char>, Json)>, top_k: Option<u32>) -> Seq<(Seq<char>, Json)> {
    match top_k {
        Some(k) => extra.push(("top_k"@, Json::Number(NumberModel::PosInt(k as u64)))),
        None => extra,
    }
}

/// The canonical request an Anthropic Messages request becomes.
pub open spec fn chat_request_of(req: MessagesRequest, r: ChatRequest) -> bool {
    &&& r.model@ == req.model@
    &&& request_messages(req, r.messages@)
    &&& r.max_tokens == Some(req.max_tokens)
    &&& r.temperature == req.temperature
    &&& r.top_p == req.top_p
    &&& match req.stop_sequences {
        Some(v) => stop_of_anthropic(v@, r.stop),
        None => r.stop is None,
    }
    &&& r.stream == req.stream
    &&& tools_of_anthropic(req.tools, r.tools)
    &&& match req.tool_choice {
        Some(tc) => r.tool_choice matches Some(c) && tool_choice_of_anthropic(tc, c),
        None => r.tool_choice is None,
    }
    &&& r.thinking == match req.thinking {
        Some(t) => Some(thinking_of_anthropic(t)),
        None => None::<ThinkingRequest>,
    }
    &&& match req.metadata {
        Some(Metadata { user_id: Some(u) }) => r.user matches Some(v) && v@ == u@,
        _ => r.user is None,
    }
    &&& r.response_format is None
    &&& r.frequency_penalty is None
    &&& r.presence_penalty is None
    &&& r.n is None
    &&& r.seed is None
    &&& r.extra.model() == extra_with_top_k(req.extra.model(), req.top_k)
}

/// The canonical messages one Anthropic turn becomes.
pub fn turn_to_messages(msg: AnthropicMessage) -> (r: Vec<Message>)
    ensures
        turn_messages(msg, r@),
{
    let role = msg.role;
    match msg.content {
        AnthropicContent::Text(text) => {
            let mut out: Vec<Message> = Vec::new();
            out.push(Message {
                role: canonical_role(role),
                content: Some(MessageContent::Text(text)),
                name: None,
                tool_call_id: None,
                tool_calls: None,
                extra: empty_object(),
            });
            out
        },
        AnthropicContent::Blocks(blocks) => {
            let ghost bs = blocks@;
            match role {
                AnthropicRole::Assistant => {
                    let (content, tool_calls) = split_assistant_blocks(blocks);
                    let mut out: Vec<Message> = Vec::new();
                    out.push(Message {
                        role: Role::Assistant,
                        content,
                        name: None,
                        tool_call_id: None,
                        tool_calls,
                        extra: empty_object(),
                    });
                    out
                },
                AnthropicRole::User => {
                    let (tool_results, other) = partition_tool_results(blocks);
                    let mut out = tool_results;
                    let content = user_blocks_to_content(other);
                    match content {
                        Some(c) => {
                            out.push(Message {
                                role: Role::User,
                                content: Some(c),
                                name: None,
                                tool_call_id: None,
                                tool_calls: None,
                                extra: empty_object(),
                            });
                        },
                        None => {},
                    }
                    out
                },
                AnthropicRole::System => {
                    let content = user_blocks_to_content(blocks);
                    let mut out: Vec<Message> = Vec::new();
                    match content {
                        Some(c) => {
                            out.push(Message {
                                role: Role::System,
                                content: Some(c),
                                name: None,
                                tool_call_id: None,
                                tool_calls: None,
                                extra: empty_object(),
                            });
                        },
                        None => {},
                    }
                    out
                },
            }
        },
    }
}

/// The canonical messages of a conversation: what each turn becomes, in
/// order.
pub fn turns_to_messages(turns: Vec<AnthropicMessage>) -> (r: Vec<Message>)
    ensures
        conversation_messages(turns@, r@),
{
    let ghost ts = turns@;
    let mut rest = turns;
    let total = rest.len();
    let mut out: Vec<Message> = Vec::new();
    let mut i: usize = 0;
    assert(ts.take(0) =~= Seq::<AnthropicMessage>::empty());
    while rest.len() > 0
        invariant
            i + rest@.len() == ts.len(),
            ts.len() == total,
            rest@ == ts.subrange(i as int, ts.len() as int),
            conversation_messages(ts.take(i as int), out@),
        decreases rest.len(),
    {
        let turn = rest.remove(0);
        proof {
            assert(turn == ts[i as int]);
        }
        let seg = turn_to_messages(turn);
        let ghost before = out@;
        let mut seg = seg;
        out.append(&mut seg);
        proof {
            let t1 = ts.take(i + 1);
            assert(t1.drop_last() =~= ts.take(i as int));
            assert(t1.last() == ts[i as int]);
            let k = before.len() as int;
            assert(out@.subrange(0, k) =~= before);
            assert(out@.subrange(k, out@.len() as int) =~= out@.subrange(k, out@.len() as int));
            assert(turn_messages(t1.last(), out@.subrange(k, out@.len() as int)));
        }
        i = i + 1;
        assert(rest@ =~= ts.subrange(i as int, ts.len() as int));
    }
    assert(ts.take(ts.len() as int) =~= ts);
    out
}

/// Converts an Anthropic-native Messages request into the canonical request
/// (the inverse of the outbound request translation). The conversion is
/// total: every request is accepted.
pub fn messages_request_to_canonical(req: MessagesRequest) -> (r: Result<ChatRequest, TranslateError>)
    ensures
        r matches Ok(c) && chat_request_of(req, c),
{
    let ghost g = req;
    let MessagesRequest {
        model,
        messages,
        max_tokens,
        system,
        temperature,
        top_p,
        top_k,
        stop_sequences,
        stream,
        tools,
        tool_choice,
        metadata,
        thinking,
        extra,
    } = req;
    let mut out: Vec<Message> = Vec::new();
    match &system {
        Some(sp) => {
            let text = system_prompt_to_text(sp);
            if !text.as_str().is_empty() {
                out.push(Message {
                    role: Role::System,
                    content: Some(MessageContent::Text(text)),
                    name: None,
                    tool_call_id: None,
                    tool_calls: None,
                    extra: empty_object(),
                });
            }
        },
        None => {},
    }
    let ghost lead = out@;
    let mut conv = turns_to_messages(messages);
    let ghost conv_view = conv@;
    out.append(&mut conv);
    proof {
        assert(out@ == lead + conv_view);
        if lead.len() == 1 {
            assert(out@.subrange(1, out@.len() as int) =~= conv_view);
        } else {
            assert(out@ =~= conv_view);
        }
    }
    let canonical_tools = match tools {
        Some(ts) => {
            let mut cs: Vec<CanonicalTool> = Vec::new();
            let ghost tv = ts@;
            let mut rest = ts;
            let mut i: usize = 0;
            let total = rest.len();
            while rest.len() > 0
                invariant
                    i + rest@.len() == tv.len(),
                    tv.len() == total,
                    rest@ == tv.subrange(i as int, tv.len() as int),
                    cs@.len() == i,
                    forall|k: int| 0 <= k < i ==> #[trigger] tool_of_anthropic(tv[k], cs@[k]),
                decreases rest.len(),
            {
                let t = rest.remove(0);
                assert(t == tv[i as int]);
                cs.push(anthropic_tool_to_canonical(t));
                i = i + 1;
                assert(rest@ =~= tv.subrange(i as int, tv.len() as int));
            }
            Some(cs)
        },
        None => None,
    };
    let canonical_choice = match tool_choice {
        Some(tc) => Some(anthropic_tool_choice_to_canonical(tc)),
        None => None,
    };
    let stop = match stop_sequences {
        Some(v) => stop_sequences_to_canonical(v),
        None => None,
    };
    let canonical_thinking = match thinking {
        Some(t) => Some(anthropic_thinking_to_canonical(t)),
        None => None,
    };
    let user = match metadata {
        Some(m) => m.user_id,
        None => None,
    };
    let mut extra = extra;
    match top_k {
        Some(k) => {
            extra.insert("top_k".to_string(), crate::json::json_u64(k as u64));
        },
        None => {},
    }
    Ok(ChatRequest {
        model,
        messages: out,
        temperature,
        max_tokens: Some(max_tokens),
        top_p,
        stop,
        stream,
        tools: canonical_tools,
        tool_choice: canonical_choice,
        response_format: None,
        frequency_penalty: None,
        presence_penalty: None,
        n: None,
        seed: None,
        user,
        thinking: canonical_thinking,
        extra,
    })
}

} // verus!
