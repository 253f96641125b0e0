//! Request translation: canonical `ChatRequest` → Anthropic Messages request.
//!
//! System messages move to the top-level `system` field, consecutive tool
//! messages merge into one user turn of `tool_result` blocks, tool
//! definitions are unwrapped, and tool-call arguments are parsed into JSON.

use crate::anthropic::tools::{
    tool_choice_translated, tool_translated, translate_tool_choice, translate_tools,
};
use crate::anthropic::types::{
    ContentBlock, ImageSource, Message as AnthropicMessage, MessageContent as AnthropicContent,
    MessagesRequest, Metadata, Role as AnthropicRole, SystemPrompt, ThinkingConfig,
    ToolResultContent, TypedContentBlock,
};
use crate::canonical::error::TranslateError;
use crate::canonical::generic::ForwardCompatible;
use crate::canonical::json_form::{content_json, content_to_json};
use crate::canonical::model::{
    ChatRequest, ContentPart, Message, MessageContent, Role, ToolCall, TypedContentPart,
};
use crate::json::{
    json_parse, json_render, lookup_u64, model_lookup, parse_json_text, render_json_text, Json,
    JsonNumber, JsonObject, JsonValue, NumberModel,
};
use crate::text::{
    concat_seqs, concat_strings, first_index_of, has_prefix, has_suffix, join_seqs, join_strings,
    split_once_char, strip_prefix_str, strip_suffix_str,
};
use crate::anthropic::transport::{headers_model, url_of, Transport};
use vstd::prelude::*;

verus! {

/// Default `max_tokens` when neither the request nor the translator gives one.
pub const DEFAULT_MAX_TOKENS: u64 = 4096;

/// Translates canonical requests into Anthropic Messages API requests.
/// It carries the API key, so it has no `Debug` form.
#[derive(PartialEq)]
pub struct AnthropicRequestTranslator {
    /// Headers of every request, `(name, value)`.
    pub headers: Vec<(String, String)>,
    /// Endpoint URL of the Messages API.
    pub url: String,
    /// `max_tokens` used when the request does not set one.
    pub default_max_tokens: u64,
}

// ─── Specifications ─────────────────────────────────────────────────────────

/// The texts of the known text parts, in order.
pub open spec fn part_texts(ps: Seq<ContentPart>) -> Seq<Seq<char>>
    decreases ps.len(),
{
    if ps.len() == 0 {
        Seq::empty()
    } else {
        part_texts(ps.drop_last()) + match ps.last() {
            ForwardCompatible::Known(TypedContentPart::Text { text, .. }) => seq![text@],
            _ => Seq::empty(),
        }
    }
}

pub open spec fn is_system_like(r: Role) -> bool {
    r is System || r is Developer
}

/// The system text that a message contributes, if any.
pub open spec fn system_text_of(m: Message) -> Option<Seq<char>> {
    if !is_system_like(m.role) {
        None
    } else {
        match m.content {
            Some(MessageContent::Text(s)) => Some(s@),
            Some(MessageContent::Parts(ps)) => {
                let t = concat_seqs(part_texts(ps@));
                if t.len() > 0 { Some(t) } else { None }
            },
            None => None,
        }
    }
}

/// All system texts of a conversation, in order.
pub open spec fn system_texts(ms: Seq<Message>) -> Seq<Seq<char>>
    decreases ms.len(),
{
    if ms.len() == 0 {
        Seq::empty()
    } else {
        system_texts(ms.drop_last()) + match system_text_of(ms.last()) {
            Some(t) => seq![t],
            None => Seq::empty(),
        }
    }
}

/// What a `data:` or plain URL becomes as an image source.
pub enum ImageSourceSpec {
    Base64 { media_type: Seq<char>, data: Seq<char> },
    Url(Seq<char>),
    /// A `data:` URI without a comma.
    Malformed,
    /// A `data:` URI whose header does not end in `;base64`.
    NotBase64,
}

pub open spec fn image_source_spec(url: Seq<char>) -> ImageSourceSpec {
    if has_prefix(url, "data:"@) {
        let rest = url.subrange(5, url.len() as int);
        match first_index_of(rest, ',') {
            None => ImageSourceSpec::Malformed,
            Some(k) => {
                let header = rest.subrange(0, k);
                let data = rest.subrange(k + 1, rest.len() as int);
                if has_suffix(header, ";base64"@) {
                    ImageSourceSpec::Base64 {
                        media_type: header.subrange(0, header.len() - 7),
                        data,
                    }
                } else {
                    ImageSourceSpec::NotBase64
                }
            },
        }
    } else {
        ImageSourceSpec::Url(url)
    }
}

pub open spec fn source_is(s: ImageSource, sp: ImageSourceSpec) -> bool {
    match sp {
        ImageSourceSpec::Base64 { media_type, data } => s matches ImageSource::Base64 { media_type: m, data: d }
            && m@ == media_type && d@ == data,
        ImageSourceSpec::Url(u) => s matches ImageSource::Url { url } && url@ == u,
        _ => false,
    }
}

pub open spec fn is_incompatible(e: TranslateError, reason: Seq<char>) -> bool {
    e matches TranslateError::IncompatibleContent { reason: r } && r@ == reason
}

/// The error a content part gives in the request direction, if any.
pub open spec fn part_error(p: ContentPart) -> Option<Seq<char>> {
    match p {
        ForwardCompatible::Known(TypedContentPart::Text { .. }) => None,
        ForwardCompatible::Known(TypedContentPart::ImageUrl { image_url, .. }) => match image_source_spec(image_url.url@) {
            ImageSourceSpec::Malformed => Some("malformed data: URI"@),
            ImageSourceSpec::NotBase64 => Some("data: URI must be base64-encoded"@),
            _ => None,
        },
        ForwardCompatible::Raw(_) => None,
        _ => Some("unsupported content part type for Anthropic"@),
    }
}

/// The block a translatable content part becomes.
pub open spec fn part_block(p: ContentPart, b: ContentBlock) -> bool {
    match p {
        ForwardCompatible::Known(TypedContentPart::Text { text, .. }) => b matches ContentBlock::Typed(TypedContentBlock::Text { text: t, cache_control })
            && t@ == text@ && cache_control is None,
        ForwardCompatible::Known(TypedContentPart::ImageUrl { image_url, .. }) => b matches ContentBlock::Typed(TypedContentBlock::Image { source, cache_control })
            && source_is(source, image_source_spec(image_url.url@)) && cache_control is None,
        ForwardCompatible::Raw(o) => b matches ContentBlock::Raw(ob) && ob.model() == o.model(),
        _ => false,
    }
}

/// The first part error of a list of parts.
pub open spec fn parts_error(ps: Seq<ContentPart>) -> Option<Seq<char>>
    decreases ps.len(),
{
    if ps.len() == 0 {
        None
    } else {
        match part_error(ps[0]) {
            Some(e) => Some(e),
            None => parts_error(ps.drop_first()),
        }
    }
}

pub open spec fn blocks_of_parts(ps: Seq<ContentPart>, bs: Seq<ContentBlock>) -> bool {
    &&& bs.len() == ps.len()
    &&& forall|i: int| 0 <= i < ps.len() ==> #[trigger] part_block(ps[i], bs[i])
}

/// The JSON input of a tool call: its arguments parsed, or `{}` when they
/// are not JSON.
pub open spec fn tool_input_of(arguments: Seq<char>) -> Json {
    match json_parse(arguments) {
        Some(v) => v,
        None => Json::Object(Seq::empty()),
    }
}

pub open spec fn tool_use_block(tc: ToolCall, b: ContentBlock) -> bool {
    b matches ContentBlock::Typed(TypedContentBlock::ToolUse { id, name, input, cache_control })
        && id@ == tc.id@ && name@ == tc.function.name@ && input.model() == tool_input_of(
        tc.function.arguments@,
    ) && cache_control is None
}

/// The error a message gives in the request direction, if any.
pub open spec fn message_error(m: Message) -> Option<TranslateErrorSpec> {
    if m.role is Tool {
        if m.tool_call_id is None {
            Some(TranslateErrorSpec::MissingField("tool_call_id"@))
        } else {
            None
        }
    } else if m.role is Assistant {
        match m.content {
            Some(MessageContent::Parts(ps)) => match parts_error(ps@) {
                Some(e) => Some(TranslateErrorSpec::Incompatible(e)),
                None => None,
            },
            _ => None,
        }
    } else {
        match m.content {
            Some(MessageContent::Parts(ps)) => match parts_error(ps@) {
                Some(e) => Some(TranslateErrorSpec::Incompatible(e)),
                None => None,
            },
            _ => None,
        }
    }
}

/// The translation errors that can be described by their text.
pub enum TranslateErrorSpec {
    MissingField(Seq<char>),
    Incompatible(Seq<char>),
}

pub open spec fn error_is(e: TranslateError, s: TranslateErrorSpec) -> bool {
    match s {
        TranslateErrorSpec::MissingField(f) => e matches TranslateError::MissingField { field } && field@ == f,
        TranslateErrorSpec::Incompatible(r) => is_incompatible(e, r),
    }
}

/// The user turn a user (or unknown-role) message becomes.
pub open spec fn user_turn(m: Message, t: AnthropicMessage) -> bool {
    &&& t.role is User
    &&& match m.content {
        Some(MessageContent::Text(s)) => t.content matches AnthropicContent::Text(x) && x@ == s@,
        Some(MessageContent::Parts(ps)) => t.content matches AnthropicContent::Blocks(bs)
            && blocks_of_parts(ps@, bs@),
        None => t.content matches AnthropicContent::Text(x) && x@.len() == 0,
    }
}

/// The blocks of an assistant turn: its text (when non-empty) or its parts,
/// then one `tool_use` block per tool call.
pub open spec fn assistant_blocks(m: Message, bs: Seq<ContentBlock>) -> bool {
    let calls = match m.tool_calls {
        Some(tcs) => tcs@,
        None => Seq::empty(),
    };
    let lead = match m.content {
        Some(MessageContent::Text(s)) => if s@.len() > 0 { 1int } else { 0int },
        Some(MessageContent::Parts(ps)) => ps@.len() as int,
        None => 0int,
    };
    &&& bs.len() == lead + calls.len()
    &&& match m.content {
        Some(MessageContent::Text(s)) => s@.len() > 0 ==> (bs[0] matches ContentBlock::Typed(TypedContentBlock::Text { text, cache_control })
            && text@ == s@ && cache_control is None),
        Some(MessageContent::Parts(ps)) => forall|i: int| 0 <= i < ps@.len() ==> #[trigger] part_block(ps@[i], bs[i]),
        None => true,
    }
    &&& forall|j: int| 0 <= j < calls.len() ==> #[trigger] tool_use_block(calls[j], bs[lead + j])
}

/// The assistant turn an assistant message becomes.
pub open spec fn assistant_turn(m: Message, t: AnthropicMessage) -> bool {
    &&& t.role is Assistant
    &&& match t.content {
        AnthropicContent::Text(x) => x@.len() == 0 && assistant_blocks(m, Seq::empty()),
        AnthropicContent::Blocks(bs) => bs@.len() > 0 && assistant_blocks(m, bs@),
    }
}

/// The content of a tool result: text stays text, parts become their JSON
/// text.
pub open spec fn tool_result_text(c: MessageContent) -> Seq<char> {
    match c {
        MessageContent::Text(s) => s@,
        MessageContent::Parts(_) => json_render(content_json(c)),
    }
}

/// The `tool_result` block a tool message becomes.
pub open spec fn tool_result_block(m: Message, b: ContentBlock) -> bool {
    b matches ContentBlock::Typed(TypedContentBlock::ToolResult { tool_use_id, content, is_error, cache_control })
        && m.tool_call_id matches Some(id) && tool_use_id@ == id@ && is_error is None && cache_control is None
        && match m.content {
        Some(c) => content matches Some(ToolResultContent::Text(t)) && t@ == tool_result_text(c),
        None => content is None,
    }
}

/// The number of leading messages that are tool or system-like messages.
pub open spec fn tool_run_len(ms: Seq<Message>) -> nat
    decreases ms.len(),
{
    if ms.len() > 0 && (ms[0].role is Tool || is_system_like(ms[0].role)) {
        1 + tool_run_len(ms.drop_first())
    } else {
        0
    }
}

/// The tool messages of a run, in order.
pub open spec fn tool_messages(ms: Seq<Message>) -> Seq<Message>
    decreases ms.len(),
{
    if ms.len() == 0 {
        Seq::empty()
    } else {
        tool_messages(ms.drop_last()) + if ms.last().role is Tool { seq![ms.last()] } else { Seq::empty() }
    }
}

/// `turns` is the Anthropic conversation that `ms` (all translatable)
/// becomes: system-like messages are dropped, every run of tool messages
/// (system-like messages within it are skipped) becomes one user turn of
/// `tool_result` blocks, assistant messages become assistant turns and every
/// other message a user turn.
pub open spec fn turns_of(ms: Seq<Message>, turns: Seq<AnthropicMessage>) -> bool
    decreases ms.len(),
{
    if ms.len() == 0 {
        turns.len() == 0
    } else if is_system_like(ms[0].role) {
        turns_of(ms.drop_first(), turns)
    } else if ms[0].role is Tool {
        let k = tool_run_len(ms);
        let tools = tool_messages(ms.subrange(0, k as int));
        &&& 0 < k <= ms.len()
        &&& turns.len() > 0
        &&& turns[0].role is User
        &&& turns[0].content matches AnthropicContent::Blocks(bs) && bs@.len() == tools.len() && forall|i: int|
            0 <= i < tools.len() ==> #[trigger] tool_result_block(tools[i], bs@[i])
        &&& turns_of(ms.subrange(k as int, ms.len() as int), turns.drop_first())
    } else {
        &&& turns.len() > 0
        &&& if ms[0].role is Assistant {
            assistant_turn(ms[0], turns[0])
        } else {
            user_turn(ms[0], turns[0])
        }
        &&& turns_of(ms.drop_first(), turns.drop_first())
    }
}

/// The first error that translating `ms` gives (messages in order;
/// system-like messages never fail).
pub open spec fn messages_error(ms: Seq<Message>) -> Option<TranslateErrorSpec>
    decreases ms.len(),
{
    if ms.len() == 0 {
        None
    } else if is_system_like(ms[0].role) {
        messages_error(ms.drop_first())
    } else {
        match message_error(ms[0]) {
            Some(e) => Some(e),
            None => messages_error(ms.drop_first()),
        }
    }
}


// ─── Executable translation ─────────────────────────────────────────────────

fn incompatible(reason: &str) -> (e: TranslateError)
    ensures
        is_incompatible(e, reason@),
{
    TranslateError::IncompatibleContent { reason: reason.to_string() }
}

/// Translates an image URL: a `data:<media type>;base64,<data>` URI becomes
/// inline base64 data, any other URL stays a URL; a `data:` URI without a
/// comma, or whose header is not `;base64`, is incompatible content.
pub fn translate_image_source(url: &str) -> (r: Result<ImageSource, TranslateError>)
    ensures
        match image_source_spec(url@) {
            ImageSourceSpec::Malformed => r matches Err(e) && is_incompatible(e, "malformed data: URI"@),
            ImageSourceSpec::NotBase64 => r matches Err(e) && is_incompatible(
                e,
                "data: URI must be base64-encoded"@,
            ),
            sp => r matches Ok(s) && source_is(s, sp),
        },
{
    proof {
        reveal_strlit("data:");
        reveal_strlit(";base64");
    }
    match strip_prefix_str(url, "data:") {
        Some(rest) => {
            match split_once_char(rest.as_str(), ',') {
                None => Err(incompatible("malformed data: URI")),
                Some((header, data)) => {
                    match strip_suffix_str(header.as_str(), ";base64") {
                        Some(media_type) => Ok(ImageSource::Base64 { media_type, data }),
                        None => Err(incompatible("data: URI must be base64-encoded")),
                    }
                },
            }
        },
        None => Ok(ImageSource::Url { url: url.to_string() }),
    }
}

/// Translates one content part to an Anthropic block.
pub fn translate_content_part(part: &ContentPart) -> (r: Result<ContentBlock, TranslateError>)
    ensures
        match part_error(*part) {
            Some(reason) => r matches Err(e) && is_incompatible(e, reason),
            None => r matches Ok(b) && part_block(*part, b),
        },
{
    match part {
        ForwardCompatible::Known(TypedContentPart::Text { text, .. }) => Ok(
            ContentBlock::Typed(TypedContentBlock::Text { text: text.clone(), cache_control: None }),
        ),
        ForwardCompatible::Known(TypedContentPart::ImageUrl { image_url, .. }) => {
            let source = translate_image_source(image_url.url.as_str());
            match source {
                Ok(source) => Ok(
                    ContentBlock::Typed(TypedContentBlock::Image { source, cache_control: None }),
                ),
                Err(e) => Err(e),
            }
        },
        ForwardCompatible::Raw(obj) => Ok(ContentBlock::Raw(obj.duplicate())),
        _ => Err(incompatible("unsupported content part type for Anthropic")),
    }
}

proof fn lemma_parts_error_prefix(ps: Seq<ContentPart>, i: int)
    requires
        0 <= i <= ps.len(),
        forall|k: int| 0 <= k < i ==> part_error(#[trigger] ps[k]) is None,
    ensures
        parts_error(ps) == parts_error(ps.subrange(i, ps.len() as int)),
    decreases i,
{
    if i == 0 {
        assert(ps.subrange(0, ps.len() as int) =~= ps);
    } else {
        let t = ps.drop_first();
        assert forall|k: int| 0 <= k < i - 1 implies part_error(#[trigger] t[k]) is None by {
            assert(t[k] == ps[k + 1]);
        }
        lemma_parts_error_prefix(t, i - 1);
        assert(t.subrange(i - 1, t.len() as int) =~= ps.subrange(i, ps.len() as int));
        assert(part_error(ps[0]) is None);
    }
}

/// Translates every part, stopping at the first that cannot be translated.
fn translate_parts(ps: &Vec<ContentPart>) -> (r: Result<Vec<ContentBlock>, TranslateError>)
    ensures
        match parts_error(ps@) {
            Some(reason) => r matches Err(e) && is_incompatible(e, reason),
            None => r matches Ok(bs) && blocks_of_parts(ps@, bs@),
        },
{
    let mut out: Vec<ContentBlock> = Vec::new();
    let mut i: usize = 0;
    while i < ps.len()
        invariant
            i <= ps@.len(),
            out@.len() == i,
            forall|k: int| 0 <= k < i ==> part_error(#[trigger] ps@[k]) is None,
            forall|k: int| 0 <= k < i ==> #[trigger] part_block(ps@[k], out@[k]),
        decreases ps.len() - i,
    {
        match translate_content_part(&ps[i]) {
            Ok(b) => out.push(b),
            Err(e) => {
                proof {
                    lemma_parts_error_prefix(ps@, i as int);
                    assert(ps@.subrange(i as int, ps@.len() as int)[0] == ps@[i as int]);
                }
                return Err(e);
            },
        }
        i = i + 1;
    }
    proof {
        lemma_parts_error_prefix(ps@, i as int);
    }
    Ok(out)
}


/// Translates a user (or unknown-role) message to a user turn.
pub fn translate_user_message(msg: &Message) -> (r: Result<AnthropicMessage, TranslateError>)
    requires
        !(msg.role is Tool) && !(msg.role is Assistant),
    ensures
        match message_error(*msg) {
            Some(e) => r matches Err(err) && error_is(err, e),
            None => r matches Ok(t) && user_turn(*msg, t),
        },
{
    let content = match &msg.content {
        Some(MessageContent::Text(s)) => AnthropicContent::Text(s.clone()),
        Some(MessageContent::Parts(parts)) => match translate_parts(parts) {
            Ok(blocks) => AnthropicContent::Blocks(blocks),
            Err(e) => return Err(e),
        },
        None => AnthropicContent::Text(String::new()),
    };
    Ok(AnthropicMessage { role: AnthropicRole::User, content })
}

/// Parses tool-call arguments into JSON, or `{}` when they are not JSON.
fn parse_tool_input(arguments: &str) -> (r: JsonValue)
    ensures
        r.model() == tool_input_of(arguments@),
{
    match parse_json_text(arguments) {
        Some(v) => v,
        None => {
            let r = JsonValue::Object(JsonObject::new());
            assert(r.model()->Object_0 =~= Seq::<(Seq<char>, Json)>::empty());
            r
        },
    }
}

/// Translates an assistant message: its text or parts, then a `tool_use`
/// block per tool call; an assistant message with nothing becomes empty text.
pub fn translate_assistant_message(msg: &Message) -> (r: Result<AnthropicMessage, TranslateError>)
    requires
        msg.role is Assistant,
    ensures
        match message_error(*msg) {
            Some(e) => r matches Err(err) && error_is(err, e),
            None => r matches Ok(t) && assistant_turn(*msg, t),
        },
{
    let mut blocks: Vec<ContentBlock> = Vec::new();
    match &msg.content {
        Some(MessageContent::Text(s)) => {
            if s.as_str().unicode_len() > 0 {
                blocks.push(ContentBlock::Typed(TypedContentBlock::Text { text: s.clone(), cache_control: None }));
            }
        },
        Some(MessageContent::Parts(parts)) => {
            match translate_parts(parts) {
                Ok(bs) => blocks = bs,
                Err(e) => return Err(e),
            }
        },
        None => {},
    }
    let ghost lead = blocks@;
    let ghost calls = match &msg.tool_calls {
        Some(tcs) => tcs@,
        None => Seq::<ToolCall>::empty(),
    };
    match &msg.tool_calls {
        Some(tool_calls) => {
            let mut j: usize = 0;
            while j < tool_calls.len()
                invariant
                    j <= tool_calls@.len(),
                    calls == tool_calls@,
                    blocks@.len() == lead.len() + j,
                    forall|k: int| 0 <= k < lead.len() ==> blocks@[k] == lead[k],
                    forall|k: int| 0 <= k < j ==> #[trigger] tool_use_block(calls[k], blocks@[lead.len() + k]),
                decreases tool_calls.len() - j,
            {
                let tc = &tool_calls[j];
                let input = parse_tool_input(tc.function.arguments.as_str());
                blocks.push(ContentBlock::Typed(TypedContentBlock::ToolUse {
                    id: tc.id.clone(),
                    name: tc.function.name.clone(),
                    input,
                    cache_control: None,
                }));
                j = j + 1;
            }
        },
        None => {},
    }
    proof {
        let fb = blocks@;
        assert(fb.len() == lead.len() + calls.len());
        match &msg.content {
            Some(MessageContent::Text(s)) => {
                if s@.len() > 0 {
                    assert(fb[0] == lead[0]);
                }
            },
            Some(MessageContent::Parts(ps)) => {
                assert forall|i: int| 0 <= i < ps@.len() implies #[trigger] part_block(ps@[i], fb[i]) by {
                    assert(fb[i] == lead[i]);
                    assert(part_block(ps@[i], lead[i]));
                }
            },
            None => {},
        }
        assert(assistant_blocks(*msg, fb));
    }
    let content = if blocks.len() == 0 {
        AnthropicContent::Text(String::new())
    } else {
        AnthropicContent::Blocks(blocks)
    };
    Ok(AnthropicMessage { role: AnthropicRole::Assistant, content })
}

/// Translates a tool message into a `tool_result` block; it needs a
/// `tool_call_id`.
pub fn translate_tool_result(msg: &Message) -> (r: Result<ContentBlock, TranslateError>)
    requires
        msg.role is Tool,
    ensures
        match message_error(*msg) {
            Some(e) => r matches Err(err) && error_is(err, e),
            None => r matches Ok(b) && tool_result_block(*msg, b),
        },
{
    let tool_use_id = match &msg.tool_call_id {
        Some(id) => id.clone(),
        None => return Err(TranslateError::MissingField { field: "tool_call_id".to_string() }),
    };
    let content = match &msg.content {
        Some(MessageContent::Text(s)) => Some(ToolResultContent::Text(s.clone())),
        Some(c) => Some(ToolResultContent::Text(render_json_text(&content_to_json(c)))),
        None => None,
    };
    Ok(ContentBlock::Typed(TypedContentBlock::ToolResult { tool_use_id, content, is_error: None, cache_control: None }))
}


proof fn lemma_subrange_first<T>(ms: Seq<T>, i: int)
    requires
        0 <= i < ms.len(),
    ensures
        ms.subrange(i, ms.len() as int)[0] == ms[i],
        ms.subrange(i, ms.len() as int).drop_first() =~= ms.subrange(i + 1, ms.len() as int),
{
}

/// Translates the conversation: drops system-like messages and merges every
/// run of tool messages into one user turn of `tool_result` blocks.
pub fn translate_messages(messages: &Vec<Message>) -> (r: Result<Vec<AnthropicMessage>, TranslateError>)
    ensures
        match messages_error(messages@) {
            Some(e) => r matches Err(err) && error_is(err, e),
            None => r matches Ok(turns) && turns_of(messages@, turns@),
        },
{
    let ghost ms = messages@;
    let n = messages.len();
    let mut result: Vec<AnthropicMessage> = Vec::new();
    let mut i: usize = 0;
    assert(ms.subrange(0, n as int) =~= ms);
    while i < n
        invariant
            n == ms.len(),
            ms == messages@,
            i <= n,
            messages_error(ms) == messages_error(ms.subrange(i as int, n as int)),
            forall|t: Seq<AnthropicMessage>| turns_of(ms.subrange(i as int, n as int), t) ==> #[trigger] turns_of(ms, result@ + t),
        decreases n - i,
    {
        let msg = &messages[i];
        proof {
            lemma_subrange_first(ms, i as int);
        }
        let ghost rest = ms.subrange(i as int, n as int);
        if msg.role.is_system_like() {
            assert forall|t: Seq<AnthropicMessage>| turns_of(ms.subrange(i + 1, n as int), t) implies #[trigger] turns_of(ms, result@ + t) by {
                assert(turns_of(rest, t));
            }
            i = i + 1;
        } else if let Role::Tool = msg.role {
            let mut tool_blocks: Vec<ContentBlock> = Vec::new();
            let mut j: usize = i;
            assert(ms.subrange(i as int, i as int) =~= Seq::<Message>::empty());
            while j < n && (messages[j].role.is_system_like() || matches!(messages[j].role, Role::Tool))
                invariant
                    n == ms.len(),
                    ms == messages@,
                    i < j <= n || (i == j && j < n && ms[i as int].role is Tool),
                    rest == ms.subrange(i as int, n as int),
                    ms[i as int].role is Tool,
                    tool_run_len(rest) == (j - i) + tool_run_len(ms.subrange(j as int, n as int)),
                    messages_error(rest) == messages_error(ms.subrange(j as int, n as int)),
                    messages_error(ms) == messages_error(rest),
                    tool_messages(ms.subrange(i as int, j as int)).len() == tool_blocks@.len(),
                    forall|k: int| 0 <= k < tool_blocks@.len() ==> #[trigger] tool_result_block(
                        tool_messages(ms.subrange(i as int, j as int))[k],
                        tool_blocks@[k],
                    ),
                decreases n - j,
            {
                proof {
                    lemma_subrange_first(ms, j as int);
                    assert(ms.subrange(i as int, j + 1).drop_last() =~= ms.subrange(i as int, j as int));
                    assert(ms.subrange(i as int, j + 1).last() == ms[j as int]);
                }
                if let Role::Tool = messages[j].role {
                    match translate_tool_result(&messages[j]) {
                        Ok(b) => {
                            tool_blocks.push(b);
                        },
                        Err(e) => {
                            proof {
                                let sub = ms.subrange(j as int, n as int);
                                assert(sub[0] == ms[j as int]);
                                assert(!is_system_like(sub[0].role));
                                assert(messages_error(sub) == message_error(ms[j as int]));
                            }
                            return Err(e);
                        },
                    }
                }
                j = j + 1;
            }
            proof {
                if j < n {
                    lemma_subrange_first(ms, j as int);
                }
                assert(tool_run_len(ms.subrange(j as int, n as int)) == 0);
                let k = tool_run_len(rest);
                assert(k == j - i);
                assert(rest.subrange(0, k as int) =~= ms.subrange(i as int, j as int));
                assert(rest.subrange(k as int, rest.len() as int) =~= ms.subrange(j as int, n as int));
            }
            let ghost blocks_view = tool_blocks@;
            let turn = AnthropicMessage { role: AnthropicRole::User, content: AnthropicContent::Blocks(tool_blocks) };
            assert forall|t: Seq<AnthropicMessage>| turns_of(ms.subrange(j as int, n as int), t) implies #[trigger] turns_of(ms, result@.push(turn) + t) by {
                let tt = seq![turn] + t;
                assert(tt.drop_first() =~= t);
                assert(tt[0] == turn);
                assert(turns_of(rest, tt));
                assert(result@ + tt =~= result@.push(turn) + t);
            }
            result.push(turn);
            i = j;
        } else if let Role::Assistant = msg.role {
            match translate_assistant_message(msg) {
                Ok(turn) => {
                    assert forall|t: Seq<AnthropicMessage>| turns_of(ms.subrange(i + 1, n as int), t) implies #[trigger] turns_of(ms, result@.push(turn) + t) by {
                        let tt = seq![turn] + t;
                        assert(tt.drop_first() =~= t);
                        assert(tt[0] == turn);
                        assert(turns_of(rest, tt));
                        assert(result@ + tt =~= result@.push(turn) + t);
                    }
                    result.push(turn);
                },
                Err(e) => {
                    return Err(e);
                },
            }
            i = i + 1;
        } else {
            match translate_user_message(msg) {
                Ok(turn) => {
                    assert forall|t: Seq<AnthropicMessage>| turns_of(ms.subrange(i + 1, n as int), t) implies #[trigger] turns_of(ms, result@.push(turn) + t) by {
                        let tt = seq![turn] + t;
                        assert(tt.drop_first() =~= t);
                        assert(tt[0] == turn);
                        assert(turns_of(rest, tt));
                        assert(result@ + tt =~= result@.push(turn) + t);
                    }
                    result.push(turn);
                },
                Err(e) => {
                    return Err(e);
                },
            }
            i = i + 1;
        }
    }
    proof {
        assert(ms.subrange(n as int, n as int).len() == 0);
        assert(turns_of(ms.subrange(n as int, n as int), Seq::<AnthropicMessage>::empty()));
        assert(result@ + Seq::<AnthropicMessage>::empty() =~= result@);
    }
    Ok(result)
}


/// The texts of the known text parts.
pub(crate) fn collect_part_texts(ps: &Vec<ContentPart>) -> (r: Vec<String>)
    ensures
        r@.map_values(|t: String| t@) == part_texts(ps@),
{
    let mut out: Vec<String> = Vec::new();
    let mut i: usize = 0;
    while i < ps.len()
        invariant
            i <= ps@.len(),
            out@.map_values(|t: String| t@) == part_texts(ps@.take(i as int)),
        decreases ps.len() - i,
    {
        let ghost before = out@;
        assert(ps@.take(i + 1).drop_last() =~= ps@.take(i as int));
        assert(ps@.take(i + 1).last() == ps@[i as int]);
        match &ps[i] {
            ForwardCompatible::Known(TypedContentPart::Text { text, .. }) => {
                out.push(text.clone());
                assert(out@.map_values(|t: String| t@) =~= before.map_values(|t: String| t@) + seq![text@]);
            },
            _ => {
                assert(part_texts(ps@.take(i + 1)) =~= part_texts(ps@.take(i as int)));
            },
        }
        i = i + 1;
    }
    assert(ps@.take(ps@.len() as int) =~= ps@);
    out
}

/// Extracts all system/developer messages, joined with blank lines, as the
/// top-level system prompt; `None` when there is no system text.
pub fn extract_system(messages: &Vec<Message>) -> (r: Option<SystemPrompt>)
    ensures
        system_texts(messages@).len() == 0 ==> r is None,
        system_texts(messages@).len() > 0 ==> (r matches Some(SystemPrompt::Text(s)) && s@ == join_seqs(
            system_texts(messages@),
            "\n\n"@,
        )),
{
    let mut all: Vec<String> = Vec::new();
    let mut i: usize = 0;
    while i < messages.len()
        invariant
            i <= messages@.len(),
            all@.map_values(|t: String| t@) == system_texts(messages@.take(i as int)),
        decreases messages.len() - i,
    {
        let ghost before = all@;
        let msg = &messages[i];
        assert(messages@.take(i + 1).drop_last() =~= messages@.take(i as int));
        assert(messages@.take(i + 1).last() == messages@[i as int]);
        if msg.role.is_system_like() {
            match &msg.content {
                Some(MessageContent::Text(s)) => {
                    all.push(s.clone());
                    assert(all@.map_values(|t: String| t@) =~= before.map_values(|t: String| t@) + seq![s@]);
                },
                Some(MessageContent::Parts(parts)) => {
                    let texts = collect_part_texts(parts);
                    let text = concat_strings(&texts);
                    if text.as_str().unicode_len() > 0 {
                        all.push(text);
                        assert(all@.map_values(|t: String| t@) =~= before.map_values(|t: String| t@) + seq![text@]);
                    } else {
                        assert(system_texts(messages@.take(i + 1)) =~= system_texts(messages@.take(i as int)));
                    }
                },
                None => {
                    assert(system_texts(messages@.take(i + 1)) =~= system_texts(messages@.take(i as int)));
                },
            }
        } else {
            assert(system_texts(messages@.take(i + 1)) =~= system_texts(messages@.take(i as int)));
        }
        i = i + 1;
    }
    assert(messages@.take(messages@.len() as int) =~= messages@);
    if all.len() == 0 {
        None
    } else {
        Some(SystemPrompt::Text(join_strings(&all, "\n\n")))
    }
}

/// The thinking configuration that a JSON value decodes to (serde's
/// internally tagged form: `{"type": "enabled", "budget_tokens": n}`,
/// `{"type": "adaptive"}` or `{"type": "disabled"}`), if any.
pub open spec fn thinking_of_json(v: Json) -> Option<ThinkingConfig> {
    match v {
        Json::Object(es) => match model_lookup(es, "type"@) {
            Some(Json::Str(t)) => if t == "enabled"@ {
                match lookup_u64(es, "budget_tokens"@) {
                    Some(n) => Some(ThinkingConfig::Enabled { budget_tokens: n }),
                    None => None,
                }
            } else if t == "adaptive"@ {
                Some(ThinkingConfig::Adaptive)
            } else if t == "disabled"@ {
                Some(ThinkingConfig::Disabled)
            } else {
                None
            },
            _ => None,
        },
        _ => None,
    }
}

/// Decodes a thinking configuration from JSON.
pub fn thinking_from_json(v: &JsonValue) -> (r: Option<ThinkingConfig>)
    ensures
        r == thinking_of_json(v.model()),
{
    match v.as_object() {
        Some(o) => match o.get("type") {
            Some(JsonValue::Str(t)) => {
                if crate::text::str_eq(t.as_str(), "enabled") {
                    match o.get("budget_tokens") {
                        Some(b) => match b.as_u64() {
                            Some(n) => Some(ThinkingConfig::Enabled { budget_tokens: n }),
                            None => None,
                        },
                        None => None,
                    }
                } else if crate::text::str_eq(t.as_str(), "adaptive") {
                    Some(ThinkingConfig::Adaptive)
                } else if crate::text::str_eq(t.as_str(), "disabled") {
                    Some(ThinkingConfig::Disabled)
                } else {
                    None
                }
            },
            _ => None,
        },
        None => None,
    }
}

pub open spec fn same_number(a: Option<JsonNumber>, b: Option<JsonNumber>) -> bool {
    match (a, b) {
        (Some(x), Some(y)) => x.model() == y.model(),
        (None, None) => true,
        _ => false,
    }
}

pub(crate) fn dup_number(n: &Option<JsonNumber>) -> (r: Option<JsonNumber>)
    ensures
        same_number(r, *n),
{
    match n {
        Some(x) => Some(x.duplicate()),
        None => None,
    }
}

pub open spec fn same_strings(a: Seq<String>, b: Seq<String>) -> bool {
    &&& a.len() == b.len()
    &&& forall|i: int| 0 <= i < a.len() ==> #[trigger] a[i]@ == b[i]@
}

/// Every request field other than the conversation, as the translation
/// fills it.
pub open spec fn native_fields(req: ChatRequest, default_max_tokens: u64, native: MessagesRequest) -> bool {
    &&& native.model@ == req.model@
    &&& native.max_tokens == match req.max_tokens {
        Some(m) => m,
        None => default_max_tokens,
    }
    &&& system_texts(req.messages@).len() == 0 ==> native.system is None
    &&& system_texts(req.messages@).len() > 0 ==> (native.system matches Some(SystemPrompt::Text(s))
        && s@ == join_seqs(system_texts(req.messages@), "\n\n"@))
    &&& same_number(native.temperature, req.temperature)
    &&& same_number(native.top_p, req.top_p)
    &&& native.top_k is None
    &&& match req.stop {
        Some(stop) => native.stop_sequences matches Some(v) && same_strings(v@, stop.elements()),
        None => native.stop_sequences is None,
    }
    &&& native.stream == req.stream
    &&& match req.tools {
        Some(ts) => native.tools matches Some(a) && a@.len() == ts@.len() && forall|i: int|
            0 <= i < ts@.len() ==> #[trigger] tool_translated(ts@[i], a@[i]),
        None => native.tools is None,
    }
    &&& match req.tool_choice {
        Some(tc) => native.tool_choice matches Some(a) && tool_choice_translated(tc, a),
        None => native.tool_choice is None,
    }
    &&& match req.user {
        Some(u) => native.metadata matches Some(md) && md.user_id matches Some(x) && x@ == u@,
        None => native.metadata is None,
    }
    &&& native.thinking == match model_lookup(req.extra.model(), "thinking"@) {
        Some(v) => thinking_of_json(v),
        None => None,
    }
    &&& model_lookup(native.extra.model(), "thinking"@) is None
    &&& forall|k: Seq<char>| k != "thinking"@ ==> model_lookup(native.extra.model(), k) == model_lookup(req.extra.model(), k)
}

impl AnthropicRequestTranslator {
    /// A translator for a transport: its headers, its Messages endpoint, and
    /// `max_tokens` 4096 unless another default is given.
    pub fn new(transport: &Transport, default_max_tokens: Option<u64>) -> (r: AnthropicRequestTranslator)
        ensures
            headers_model(r.headers@) == transport.spec_headers(),
            r.url@ == url_of(transport.spec_base_url(), "/v1/messages"@),
            r.default_max_tokens == match default_max_tokens {
                Some(m) => m,
                None => DEFAULT_MAX_TOKENS,
            },
    {
        let source = transport.headers();
        let mut headers: Vec<(String, String)> = Vec::new();
        let mut i: usize = 0;
        while i < source.len()
            invariant
                i <= source@.len(),
                headers_model(headers@) == headers_model(source@).take(i as int),
            decreases source.len() - i,
        {
            let ghost before = headers@;
            let name = source[i].0.clone();
            let value = source[i].1.clone();
            headers.push((name, value));
            assert(headers_model(headers@) =~= headers_model(before).push((source@[i as int].0@, source@[i as int].1@)));
            assert(headers_model(source@).take(i + 1) =~= headers_model(source@).take(i as int).push(headers_model(source@)[i as int]));
            assert(headers_model(headers@) =~= headers_model(source@).take(i + 1));
            i = i + 1;
        }
        assert(headers_model(source@).take(source@.len() as int) =~= headers_model(source@));
        AnthropicRequestTranslator {
            headers,
            url: transport.url("/v1/messages"),
            default_max_tokens: match default_max_tokens {
                Some(m) => m,
                None => DEFAULT_MAX_TOKENS,
            },
        }
    }

    /// Translates a canonical request into an Anthropic Messages request.
    /// More than one completion (`n > 1`) is unsupported; the other errors
    /// are those of the conversation.
    pub fn translate_request(&self, req: &ChatRequest) -> (r: Result<MessagesRequest, TranslateError>)
        ensures
            (req.n matches Some(n) && n > 1) ==> (r matches Err(TranslateError::UnsupportedFeature { provider, feature })
                && provider@ == "anthropic"@ && feature@ == "n > 1"@),
            !(req.n matches Some(n) && n > 1) ==> match messages_error(req.messages@) {
                Some(e) => r matches Err(err) && error_is(err, e),
                None => r matches Ok(native) && turns_of(req.messages@, native.messages@) && native_fields(*req, self.default_max_tokens, native),
            },
    {
        if let Some(n) = req.n {
            if n > 1 {
                return Err(TranslateError::UnsupportedFeature { provider: "anthropic".to_string(), feature: "n > 1".to_string() });
            }
        }
        let system = extract_system(&req.messages);
        let messages = match translate_messages(&req.messages) {
            Ok(m) => m,
            Err(e) => return Err(e),
        };
        let mut extra = req.extra.duplicate();
        let thinking = match extra.remove("thinking") {
            Some(v) => thinking_from_json(&v),
            None => None,
        };
        let max_tokens = match req.max_tokens {
            Some(m) => m,
            None => self.default_max_tokens,
        };
        let stop_sequences = match &req.stop {
            Some(s) => Some(s.to_vec()),
            None => None,
        };
        let tools = match &req.tools {
            Some(t) => Some(translate_tools(t.as_slice())),
            None => None,
        };
        let tool_choice = match &req.tool_choice {
            Some(tc) => Some(translate_tool_choice(tc)),
            None => None,
        };
        let metadata = match &req.user {
            Some(u) => Some(Metadata { user_id: Some(u.clone()) }),
            None => None,
        };
        Ok(MessagesRequest {
            model: req.model.clone(),
            messages,
            max_tokens,
            system,
            temperature: dup_number(&req.temperature),
            top_p: dup_number(&req.top_p),
            top_k: None,
            stop_sequences,
            stream: req.stream,
            tools,
            tool_choice,
            metadata,
            thinking,
            extra,
        })
    }
}

} // verus!
