//! Canonical request → Responses API request.

use crate::anthropic::request::{collect_part_texts, part_texts};
use crate::canonical::error::TranslateError;
use crate::canonical::generic::ForwardCompatible;
use crate::canonical::json_form::{part_json, part_to_json};
use crate::canonical::model::{
    role_text, tool_choice_mode_text, ChatRequest, ContentPart, JsonSchema, Message, MessageContent,
    ResponseFormat, Role, Tool, ToolCall, ToolChoice, TypedContentPart,
};
use crate::json::{json_array, json_object, json_str, json_string, model_lookup, Json, JsonNumber, JsonObject, JsonValue, NumberModel};
use crate::openai::responses::{ResponseCreateRequest, ResponseTextConfig, ResponseTool, ResponseToolChoice};
use crate::openai::responses_config::{ResponsesRequestConfig, SystemHandling};
use crate::openai::transport::{json_headers, joined_url, request_headers, text_of, OpenAITransport, OpenAITransportRequest};
use crate::openai::request::{check_request_headers, headers_valid};
use crate::string_map::{PairsModel, StringMap};
use crate::openai::wire_responses::{response_mode_text, ResponseToolChoiceMode};
use crate::text::{concat_seqs, concat_strings, join_seqs, join_strings, str_eq};
use vstd::prelude::*;

verus! {

// ─── Specifications ─────────────────────────────────────────────────────────

pub open spec fn jstr(s: Seq<char>) -> Json {
    Json::Str(s)
}

/// The text of message content: the text, or the parts' texts joined with
/// nothing between; none when there is no text part.
pub open spec fn extracted_text(c: Option<MessageContent>) -> Option<Seq<char>> {
    match c {
        None => None,
        Some(MessageContent::Text(s)) => Some(s@),
        Some(MessageContent::Parts(ps)) => if part_texts(ps@).len() == 0 {
            None
        } else {
            Some(concat_seqs(part_texts(ps@)))
        },
    }
}

pub open spec fn text_or_empty(t: Option<Seq<char>>) -> Seq<char> {
    match t {
        Some(t) => t,
        None => Seq::empty(),
    }
}

pub open spec fn text_type(assistant: bool) -> Seq<char> {
    if assistant { "output_text"@ } else { "input_text"@ }
}

/// One content item: text as the role's text type, an image as
/// `input_image`, anything else as its canonical JSON.
pub open spec fn content_item_json(p: ContentPart, assistant: bool) -> Json {
    match p {
        ForwardCompatible::Known(TypedContentPart::Text { text, .. }) =>
            Json::Object(seq![("type"@, jstr(text_type(assistant))), ("text"@, jstr(text@))]),
        ForwardCompatible::Known(TypedContentPart::ImageUrl { image_url, .. }) =>
            Json::Object(seq![("type"@, jstr("input_image"@)), ("image_url"@, jstr(image_url.url@))]),
        _ => part_json(p),
    }
}

/// The content array of an input message.
pub open spec fn content_items_json(c: Option<MessageContent>, assistant: bool) -> Json {
    match c {
        None => Json::Array(Seq::empty()),
        Some(MessageContent::Text(s)) => Json::Array(seq![
            Json::Object(seq![("type"@, jstr(text_type(assistant))), ("text"@, jstr(s@))]),
        ]),
        Some(MessageContent::Parts(ps)) => Json::Array(ps@.map_values(|p: ContentPart| content_item_json(p, assistant))),
    }
}

pub open spec fn message_item(role: Seq<char>, content: Json) -> Json {
    Json::Object(seq![("type"@, jstr("message"@)), ("role"@, jstr(role)), ("content"@, content)])
}

pub open spec fn tool_call_item(tc: ToolCall) -> Json {
    Json::Object(seq![
        ("type"@, jstr("function_call"@)),
        ("call_id"@, jstr(tc.id@)),
        ("name"@, jstr(tc.function.name@)),
        ("arguments"@, jstr(tc.function.arguments@)),
    ])
}

pub open spec fn tool_output_item(m: Message) -> Json {
    Json::Object(seq![
        ("type"@, jstr("function_call_output"@)),
        ("call_id"@, jstr(match m.tool_call_id { Some(i) => i@, None => Seq::empty() })),
        ("output"@, jstr(text_or_empty(extracted_text(m.content)))),
    ])
}

pub open spec fn is_system_role(r: Role) -> bool {
    r is System || r is Developer
}

/// The instructions text a message contributes.
pub open spec fn message_instructions(m: Message, h: SystemHandling) -> Seq<Seq<char>> {
    if is_system_role(m.role) && h is ExtractToInstructions {
        match extracted_text(m.content) {
            Some(t) => seq![t],
            None => Seq::empty(),
        }
    } else {
        Seq::empty()
    }
}

pub open spec fn calls_of(m: Message) -> Seq<ToolCall> {
    match m.tool_calls {
        Some(tcs) => tcs@,
        None => Seq::empty(),
    }
}

/// The input items a message becomes.
pub open spec fn message_items(m: Message, h: SystemHandling) -> Seq<Json> {
    match m.role {
        Role::System | Role::Developer => match h {
            SystemHandling::ExtractToInstructions => Seq::empty(),
            SystemHandling::MapToDeveloper => seq![message_item("developer"@, content_items_json(m.content, false))],
        },
        Role::User => seq![message_item("user"@, content_items_json(m.content, false))],
        Role::Assistant => {
            let text: Seq<Json> = if m.content is Some && text_or_empty(extracted_text(m.content)).len() > 0 {
                seq![message_item("assistant"@, content_items_json(m.content, true))]
            } else {
                Seq::empty()
            };
            text + calls_of(m).map_values(|tc: ToolCall| tool_call_item(tc))
        },
        Role::Tool => seq![tool_output_item(m)],
        Role::Unknown(s) => seq![message_item(s@, content_items_json(m.content, false))],
    }
}

pub open spec fn all_instructions(ms: Seq<Message>, h: SystemHandling) -> Seq<Seq<char>>
    decreases ms.len(),
{
    if ms.len() == 0 {
        Seq::empty()
    } else {
        all_instructions(ms.drop_last(), h) + message_instructions(ms.last(), h)
    }
}

pub open spec fn all_items(ms: Seq<Message>, h: SystemHandling) -> Seq<Json>
    decreases ms.len(),
{
    if ms.len() == 0 {
        Seq::empty()
    } else {
        all_items(ms.drop_last(), h) + message_items(ms.last(), h)
    }
}

/// A boolean in the extra fields, else the configured default.
pub open spec fn extra_bool(extra: Seq<(Seq<char>, Json)>, key: Seq<char>, default: Option<bool>) -> Option<bool> {
    match model_lookup(extra, key) {
        Some(Json::Bool(b)) => Some(b),
        _ => default,
    }
}

/// The strings of a JSON array, skipping other items.
pub open spec fn string_items(a: Seq<Json>) -> Seq<Seq<char>>
    decreases a.len(),
{
    if a.len() == 0 {
        Seq::empty()
    } else {
        string_items(a.drop_last()) + match a.last() {
            Json::Str(s) => seq![s],
            _ => Seq::empty(),
        }
    }
}

pub open spec fn strings_model(v: Option<Vec<String>>) -> Option<Seq<Seq<char>>> {
    match v {
        Some(v) => Some(v@.map_values(|s: String| s@)),
        None => None,
    }
}

/// The `include` list: the extra field's strings when it is an array, else
/// the configured default.
pub open spec fn include_of(extra: Seq<(Seq<char>, Json)>, default: Option<Vec<String>>) -> Option<Seq<Seq<char>>> {
    match model_lookup(extra, "include"@) {
        Some(Json::Array(a)) => Some(string_items(a)),
        _ => strings_model(default),
    }
}

pub open spec fn has_key(o: Seq<(Seq<char>, Json)>, k: Seq<char>) -> bool {
    model_lookup(o, k) is Some
}

/// The reasoning object: `extra.reasoning`, with `effort` from
/// `extra.reasoning_effort` or the default and `summary` from the default
/// when missing; none when empty.
pub open spec fn reasoning_of(extra: Seq<(Seq<char>, Json)>, c: ResponsesRequestConfig) -> Option<Json> {
    let base = match model_lookup(extra, "reasoning"@) {
        Some(Json::Object(b)) => b,
        _ => Seq::empty(),
    };
    let b1 = if !has_key(base, "effort"@) && (model_lookup(extra, "reasoning_effort"@) matches Some(Json::Str(_))) {
        base.push(("effort"@, model_lookup(extra, "reasoning_effort"@)->0))
    } else {
        base
    };
    let b2 = if !has_key(b1, "effort"@) && c.default_reasoning_effort is Some {
        b1.push(("effort"@, jstr(c.default_reasoning_effort->0@)))
    } else {
        b1
    };
    let b3 = if !has_key(b2, "summary"@) && c.default_reasoning_summary is Some {
        b2.push(("summary"@, jstr(c.default_reasoning_summary->0@)))
    } else {
        b2
    };
    if b3.len() == 0 { None } else { Some(Json::Object(b3)) }
}

/// The `text.format` object of a response format.
pub open spec fn format_json(rf: ResponseFormat) -> Json {
    match rf {
        ResponseFormat::Text { .. } => Json::Object(seq![("type"@, jstr("text"@))]),
        ResponseFormat::JsonObject { .. } => Json::Object(seq![("type"@, jstr("json_object"@))]),
        ResponseFormat::JsonSchema { json_schema, .. } => Json::Object(
            seq![("type"@, jstr("json_schema"@)), ("name"@, jstr(json_schema.name@))]
                + match json_schema.description { Some(d) => seq![("description"@, jstr(d@))], None => Seq::empty() }
                + match json_schema.schema { Some(s) => seq![("schema"@, s.model())], None => Seq::empty() }
                + match json_schema.strict { Some(b) => seq![("strict"@, Json::Bool(b))], None => Seq::empty() },
        ),
    }
}

pub open spec fn text_config_of(rf: Option<ResponseFormat>, t: Option<ResponseTextConfig>) -> bool {
    match rf {
        None => t is None,
        Some(f) => t matches Some(tc) && tc.format matches Some(v) && v.model() == format_json(f)
            && tc.verbosity is None && tc.extra.model().len() == 0,
    }
}

/// The tool name after truncation to the configured maximum, in bytes.
pub open spec fn tool_name_ok(name: Seq<char>, max: Option<usize>) -> bool {
    &&& vstd::utf8::encode_utf8(name).len() <= usize::MAX
    &&& match max {
        Some(m) => vstd::utf8::encode_utf8(name).len() > m ==> vstd::utf8::is_char_boundary(vstd::utf8::encode_utf8(name), m as int),
        None => true,
    }
}

pub open spec fn number_model(n: Option<JsonNumber>) -> Option<NumberModel> {
    match n {
        Some(x) => Some(x.model()),
        None => None,
    }
}

pub open spec fn opt_json_same(a: Option<JsonValue>, b: Option<JsonValue>) -> bool {
    match (a, b) {
        (Some(x), Some(y)) => x.model() == y.model(),
        (None, None) => true,
        _ => false,
    }
}

pub open spec fn tool_of(t: Tool, max: Option<usize>, r: ResponseTool) -> bool {
    &&& r matches ResponseTool::Function { name, parameters, strict, defer_loading, description, extra }
    &&& match max {
        Some(m) if vstd::utf8::encode_utf8(t.function.name@).len() > m =>
            vstd::utf8::encode_utf8(r->Function_name@) == vstd::utf8::encode_utf8(t.function.name@).take(m as int),
        _ => r->Function_name@ == t.function.name@,
    }
    &&& opt_json_same(r->Function_parameters, t.function.parameters)
    &&& r->Function_strict == t.function.strict
    &&& r->Function_defer_loading is None
    &&& r->Function_description == t.function.description
    &&& r->Function_extra.model().len() == 0
}

pub open spec fn tool_choice_of(tc: ToolChoice, r: ResponseToolChoice) -> bool {
    match tc {
        ToolChoice::Mode(m) => r matches ResponseToolChoice::Mode(rm) && response_mode_text(rm) == tool_choice_mode_text(m)
            && (rm is Unknown ==> (tool_choice_mode_text(m) != "none"@ && tool_choice_mode_text(m) != "auto"@ && tool_choice_mode_text(m) != "required"@)),
        ToolChoice::Named(n) => r matches ResponseToolChoice::Function { name, extra } && name@ == n.function.name@ && extra.model().len() == 0,
        ToolChoice::Raw(o) => r matches ResponseToolChoice::Raw(ro) && ro.model() == o.model(),
    }
}

/// The Responses request a canonical request becomes.
pub open spec fn responses_request_of(req: ChatRequest, c: ResponsesRequestConfig, r: ResponseCreateRequest) -> bool {
    let instr = all_instructions(req.messages@, c.system_handling);
    let items = all_items(req.messages@, c.system_handling);
    &&& r.model@ == req.model@
    &&& match r.input {
        None => items.len() == 0,
        Some(v) => items.len() > 0 && v.model() == Json::Array(items),
    }
    &&& if instr.len() == 0 {
        if c.force_instructions {
            r.instructions matches Some(v) && v.model() == jstr(Seq::empty())
        } else {
            r.instructions is None
        }
    } else {
        r.instructions matches Some(v) && v.model() == jstr(join_seqs(instr, "\n\n"@))
    }
    &&& r.max_output_tokens == if c.drop_max_tokens { None } else { req.max_tokens }
    &&& number_model(r.temperature) == if c.drop_temperature { None } else { number_model(req.temperature) }
    &&& number_model(r.top_p) == if c.drop_top_p { None } else { number_model(req.top_p) }
    &&& match req.tools {
        None => r.tools is None,
        Some(ts) => r.tools matches Some(rs) && rs@.len() == ts@.len()
            && forall|i: int| 0 <= i < ts@.len() ==> #[trigger] tool_of(ts@[i], c.max_tool_name_len, rs@[i]),
    }
    &&& match req.tool_choice {
        None => r.tool_choice is None,
        Some(tc) => r.tool_choice matches Some(rc) && tool_choice_of(tc, rc),
    }
    &&& r.user == req.user
    &&& r.store == extra_bool(req.extra.model(), "store"@, c.default_store)
    &&& match reasoning_of(req.extra.model(), c) {
        None => r.reasoning is None,
        Some(j) => r.reasoning matches Some(v) && v.model() == j,
    }
    &&& strings_model(r.include_items) == include_of(req.extra.model(), c.default_include)
    &&& r.parallel_tool_calls == extra_bool(req.extra.model(), "parallel_tool_calls"@, c.default_parallel_tool_calls)
    &&& text_config_of(req.response_format, r.text)
    &&& r.stream == req.stream
    &&& r.background is None && r.conversation is None && r.context_management is None
    &&& r.metadata is None && r.previous_response_id is None && r.prompt_cache_key is None
    &&& r.prompt_cache_retention is None && r.safety_identifier is None && r.service_tier is None
    &&& r.stream_options is None && r.truncation is None
    &&& r.extra.model().len() == 0
}


// ─── Executable ─────────────────────────────────────────────────────────────

fn field(o: &mut JsonObject, k: &str, v: JsonValue)
    ensures
        final(o).model() == old(o).model().push((k@, v.model())),
{
    o.insert(k.to_string(), v);
}

fn copy_json(v: &Option<JsonValue>) -> (r: Option<JsonValue>)
    ensures
        opt_json_same(r, *v),
{
    match v {
        Some(x) => Some(x.duplicate()),
        None => None,
    }
}

fn copy_text(v: &Option<String>) -> (r: Option<String>)
    ensures
        r == *v,
{
    match v {
        Some(x) => Some(x.clone()),
        None => None,
    }
}

/// The text of message content: the text, or the text parts joined.
pub fn extract_text_content(content: &Option<MessageContent>) -> (r: Option<String>)
    ensures
        match extracted_text(*content) {
            Some(t) => r matches Some(s) && s@ == t,
            None => r is None,
        },
{
    match content {
        None => None,
        Some(MessageContent::Text(s)) => Some(s.clone()),
        Some(MessageContent::Parts(parts)) => {
            let texts = collect_part_texts(parts);
            if texts.len() == 0 {
                None
            } else {
                Some(concat_strings(&texts))
            }
        },
    }
}

fn content_item(p: &ContentPart, text_kind: &str, Ghost(assistant): Ghost<bool>) -> (r: JsonValue)
    requires
        text_kind@ == text_type(assistant),
    ensures
        r.model() == content_item_json(*p, assistant),
{
    match p {
        ForwardCompatible::Known(TypedContentPart::Text { text, .. }) => {
            let mut o = JsonObject::new();
            field(&mut o, "type", json_str(text_kind));
            field(&mut o, "text", json_str(text.as_str()));
            assert(o.model() =~= seq![("type"@, jstr(text_type(assistant))), ("text"@, jstr(text@))]);
            json_object(o)
        },
        ForwardCompatible::Known(TypedContentPart::ImageUrl { image_url, .. }) => {
            let mut o = JsonObject::new();
            field(&mut o, "type", json_str("input_image"));
            field(&mut o, "image_url", json_str(image_url.url.as_str()));
            assert(o.model() =~= seq![("type"@, jstr("input_image"@)), ("image_url"@, jstr(image_url.url@))]);
            json_object(o)
        },
        _ => part_to_json(p),
    }
}

/// The content array of an input message; the assistant's text is output
/// text, anyone else's input text.
pub fn translate_message_content(content: &Option<MessageContent>, role: &str) -> (r: JsonValue)
    ensures
        r.model() == content_items_json(*content, role@ == "assistant"@),
{
    let assistant = str_eq(role, "assistant");
    let text_kind = if assistant { "output_text" } else { "input_text" };
    match content {
        Some(MessageContent::Text(s)) => {
            let mut o = JsonObject::new();
            field(&mut o, "type", json_str(text_kind));
            field(&mut o, "text", json_str(s.as_str()));
            assert(o.model() =~= seq![("type"@, jstr(text_type(assistant))), ("text"@, jstr(s@))]);
            let mut items: Vec<JsonValue> = Vec::new();
            items.push(json_object(o));
            let r = json_array(items);
            assert(r.model()->Array_0 =~= content_items_json(*content, assistant)->Array_0);
            r
        },
        Some(MessageContent::Parts(parts)) => {
            let mut items: Vec<JsonValue> = Vec::new();
            let mut i: usize = 0;
            while i < parts.len()
                invariant
                    i <= parts@.len(),
                    text_kind@ == text_type(assistant),
                    items@.len() == i,
                    forall|k: int| 0 <= k < i ==> #[trigger] items@[k].model() == content_item_json(parts@[k], assistant),
                decreases parts.len() - i,
            {
                items.push(content_item(&parts[i], text_kind, Ghost(assistant)));
                i = i + 1;
            }
            let ghost view = items@;
            let r = json_array(items);
            assert(r.model()->Array_0 =~= parts@.map_values(|p: ContentPart| content_item_json(p, assistant)));
            r
        },
        None => {
            let r = json_array(Vec::new());
            assert(r.model()->Array_0 =~= Seq::<Json>::empty());
            r
        },
    }
}

/// The `function_call` input item of a tool call.
pub fn translate_tool_call(tc: &ToolCall) -> (r: JsonValue)
    ensures
        r.model() == tool_call_item(*tc),
{
    let mut o = JsonObject::new();
    field(&mut o, "type", json_str("function_call"));
    field(&mut o, "call_id", json_str(tc.id.as_str()));
    field(&mut o, "name", json_str(tc.function.name.as_str()));
    field(&mut o, "arguments", json_str(tc.function.arguments.as_str()));
    assert(o.model() =~= tool_call_item(*tc)->Object_0);
    json_object(o)
}

fn message_item_value(role: &str, content: JsonValue) -> (r: JsonValue)
    ensures
        r.model() == message_item(role@, content.model()),
{
    let ghost cm = content.model();
    let mut o = JsonObject::new();
    field(&mut o, "type", json_str("message"));
    field(&mut o, "role", json_str(role));
    field(&mut o, "content", content);
    assert(o.model() =~= message_item(role@, cm)->Object_0);
    json_object(o)
}

/// What one message contributes: instructions text and input items.
fn message_to_items(m: &Message, h: SystemHandling) -> (r: (Vec<String>, Vec<JsonValue>))
    ensures
        r.0@.map_values(|t: String| t@) == message_instructions(*m, h),
        r.1@.map_values(|x: JsonValue| x.model()) == message_items(*m, h),
{
    proof {
        reveal_strlit("user");
        reveal_strlit("assistant");
        assert("user"@.len() != "assistant"@.len());
    }
    let mut texts: Vec<String> = Vec::new();
    let mut items: Vec<JsonValue> = Vec::new();
    match &m.role {
        Role::System | Role::Developer => match h {
            SystemHandling::ExtractToInstructions => {
                match extract_text_content(&m.content) {
                    Some(t) => texts.push(t),
                    None => {},
                }
            },
            SystemHandling::MapToDeveloper => {
                let content = translate_message_content(&m.content, "user");
                items.push(message_item_value("developer", content));
            },
        },
        Role::User => {
            let content = translate_message_content(&m.content, "user");
            items.push(message_item_value("user", content));
        },
        Role::Assistant => {
            match &m.content {
                Some(_) => {
                    let text = match extract_text_content(&m.content) {
                        Some(t) => t,
                        None => String::new(),
                    };
                    if !text.as_str().is_empty() {
                        let content = translate_message_content(&m.content, "assistant");
                        items.push(message_item_value("assistant", content));
                    }
                },
                None => {},
            }
            let ghost head = items@;
            proof {
                let text_items: Seq<Json> = if m.content is Some && text_or_empty(extracted_text(m.content)).len() > 0 {
                    seq![message_item("assistant"@, content_items_json(m.content, true))]
                } else {
                    Seq::empty()
                };
                assert(head.map_values(|x: JsonValue| x.model()) =~= text_items);
            }
            match &m.tool_calls {
                Some(tcs) => {
                    let mut i: usize = 0;
                    while i < tcs.len()
                        invariant
                            i <= tcs@.len(),
                            items@.len() == head.len() + i,
                            items@.subrange(0, head.len() as int) == head,
                            forall|k: int| 0 <= k < i ==> #[trigger] items@[head.len() + k].model() == tool_call_item(tcs@[k]),
                        decreases tcs.len() - i,
                    {
                        let ghost before = items@;
                        items.push(translate_tool_call(&tcs[i]));
                        proof {
                            assert(items@.subrange(0, head.len() as int) =~= before.subrange(0, head.len() as int));
                            assert forall|k: int| 0 <= k < i + 1 implies #[trigger] items@[head.len() + k].model() == tool_call_item(tcs@[k]) by {
                                if k < i {
                                    assert(items@[head.len() + k] == before[head.len() + k]);
                                }
                            }
                        }
                        i = i + 1;
                    }
                    proof {
                        let want = message_items(*m, h);
                        let tm = head.map_values(|x: JsonValue| x.model());
                        let cm = tcs@.map_values(|tc: ToolCall| tool_call_item(tc));
                        let im = items@.map_values(|x: JsonValue| x.model());
                        assert(im =~= tm + cm) by {
                            assert forall|k: int| 0 <= k < items@.len() implies #[trigger] im[k] == (tm + cm)[k] by {
                                if k < head.len() {
                                    assert(items@[k] == head[k]);
                                } else {
                                    assert(items@[head.len() + (k - head.len())].model() == tool_call_item(tcs@[k - head.len()]));
                                }
                            }
                        }
                    }
                },
                None => {
                    assert(calls_of(*m).map_values(|tc: ToolCall| tool_call_item(tc)) =~= Seq::<Json>::empty());
                    assert(items@.map_values(|x: JsonValue| x.model()) =~= head.map_values(|x: JsonValue| x.model()) + Seq::<Json>::empty());
                },
            }
        },
        Role::Tool => {
            let output = match extract_text_content(&m.content) {
                Some(t) => t,
                None => String::new(),
            };
            let call_id = match &m.tool_call_id {
                Some(i) => i.clone(),
                None => String::new(),
            };
            let mut o = JsonObject::new();
            field(&mut o, "type", json_str("function_call_output"));
            field(&mut o, "call_id", json_string(call_id));
            field(&mut o, "output", json_string(output));
            assert(o.model() =~= tool_output_item(*m)->Object_0);
            items.push(json_object(o));
        },
        Role::Unknown(s) => {
            let content = translate_message_content(&m.content, "user");
            items.push(message_item_value(s.as_str(), content));
        },
    }
    assert(texts@.map_values(|t: String| t@) =~= message_instructions(*m, h));
    assert(items@.map_values(|x: JsonValue| x.model()) =~= message_items(*m, h));
    (texts, items)
}


/// The reasoning object of a request (see `reasoning_of`).
pub fn build_reasoning(req: &ChatRequest, config: &ResponsesRequestConfig) -> (r: Option<JsonValue>)
    ensures
        match reasoning_of(req.extra.model(), *config) {
            None => r is None,
            Some(j) => r matches Some(v) && v.model() == j,
        },
{
    let mut obj = match req.extra.get("reasoning") {
        Some(JsonValue::Object(base)) => base.duplicate(),
        _ => JsonObject::new(),
    };
    proof {
        let base = match model_lookup(req.extra.model(), "reasoning"@) {
            Some(Json::Object(b)) => b,
            _ => Seq::empty(),
        };
        assert(obj.model() == base);
    }
    if !obj.contains_key("effort") {
        match req.extra.get("reasoning_effort") {
            Some(JsonValue::Str(effort)) => obj.insert("effort".to_string(), json_str(effort.as_str())),
            _ => {},
        }
    }
    if !obj.contains_key("effort") {
        match &config.default_reasoning_effort {
            Some(d) => obj.insert("effort".to_string(), json_str(d.as_str())),
            None => {},
        }
    }
    if !obj.contains_key("summary") {
        match &config.default_reasoning_summary {
            Some(d) => obj.insert("summary".to_string(), json_str(d.as_str())),
            None => {},
        }
    }
    if obj.is_empty() {
        None
    } else {
        Some(json_object(obj))
    }
}

/// The text configuration of a response format.
pub fn translate_response_format(rf: Option<&ResponseFormat>) -> (r: Option<ResponseTextConfig>)
    ensures
        text_config_of(match rf { Some(f) => Some(*f), None => None }, r),
{
    let f = match rf {
        Some(f) => f,
        None => return None,
    };
    let mut o = JsonObject::new();
    match f {
        ResponseFormat::Text { .. } => {
            field(&mut o, "type", json_str("text"));
        },
        ResponseFormat::JsonObject { .. } => {
            field(&mut o, "type", json_str("json_object"));
        },
        ResponseFormat::JsonSchema { json_schema, .. } => {
            field(&mut o, "type", json_str("json_schema"));
            field(&mut o, "name", json_str(json_schema.name.as_str()));
            match &json_schema.description {
                Some(d) => field(&mut o, "description", json_str(d.as_str())),
                None => {},
            }
            match &json_schema.schema {
                Some(sc) => field(&mut o, "schema", sc.duplicate()),
                None => {},
            }
            match json_schema.strict {
                Some(b) => field(&mut o, "strict", JsonValue::Bool(b)),
                None => {},
            }
        },
    }
    assert(o.model() =~= format_json(*f)->Object_0);
    Some(ResponseTextConfig { format: Some(json_object(o)), verbosity: None, extra: JsonObject::new() })
}

/// The Responses function tool of a canonical tool; the name is cut to the
/// configured maximum length in bytes.
pub fn translate_tool(tool: &Tool, config: &ResponsesRequestConfig) -> (r: ResponseTool)
    requires
        tool_name_ok(tool.function.name@, config.max_tool_name_len),
    ensures
        tool_of(*tool, config.max_tool_name_len, r),
{
    let name = match config.max_tool_name_len {
        Some(max_len) => {
            if tool.function.name.as_str().len() > max_len {
                let (head, _) = tool.function.name.as_str().split_at(max_len);
                let cut = head.to_string();
                assert(cut@ == head@);
                assert(vstd::utf8::encode_utf8(cut@) == vstd::utf8::encode_utf8(tool.function.name@).take(max_len as int));
                cut
            } else {
                tool.function.name.clone()
            }
        },
        None => tool.function.name.clone(),
    };
    ResponseTool::Function {
        name,
        description: copy_text(&tool.function.description),
        parameters: copy_json(&tool.function.parameters),
        strict: tool.function.strict,
        defer_loading: None,
        extra: JsonObject::new(),
    }
}

/// The Responses tool choice of a canonical one: a mode by its text, a
/// named function by its name, a raw object as it is.
pub fn translate_tool_choice(tc: &ToolChoice) -> (r: ResponseToolChoice)
    ensures
        tool_choice_of(*tc, r),
{
    match tc {
        ToolChoice::Mode(mode) => ResponseToolChoice::Mode(ResponseToolChoiceMode::from_text(mode.as_str().to_string())),
        ToolChoice::Named(named) => ResponseToolChoice::Function { name: named.function.name.clone(), extra: JsonObject::new() },
        ToolChoice::Raw(obj) => ResponseToolChoice::Raw(obj.duplicate()),
    }
}

fn extra_bool_value(extra: &JsonObject, key: &str, default: Option<bool>) -> (r: Option<bool>)
    ensures
        r == extra_bool(extra.model(), key@, default),
{
    match extra.get(key) {
        Some(JsonValue::Bool(b)) => Some(*b),
        _ => default,
    }
}

fn include_list(extra: &JsonObject, default: &Option<Vec<String>>) -> (r: Option<Vec<String>>)
    ensures
        strings_model(r) == include_of(extra.model(), *default),
{
    match extra.get("include") {
        Some(JsonValue::Array(items)) => {
            let ghost a = JsonValue::Array(*items).model()->Array_0;
            let mut out: Vec<String> = Vec::new();
            let mut i: usize = 0;
            assert(a.take(0) =~= Seq::<Json>::empty());
            while i < items.len()
                invariant
                    i <= items@.len(),
                    a.len() == items@.len(),
                    forall|k: int| 0 <= k < items@.len() ==> #[trigger] a[k] == items@[k].model(),
                    out@.map_values(|s: String| s@) == string_items(a.take(i as int)),
                decreases items.len() - i,
            {
                let ghost before = out@;
                match &items[i] {
                    JsonValue::Str(s) => out.push(s.clone()),
                    _ => {},
                }
                proof {
                    let t1 = a.take(i + 1);
                    assert(t1.drop_last() =~= a.take(i as int));
                    assert(t1.last() == items@[i as int].model());
                    assert(out@.map_values(|s: String| s@) =~= string_items(a.take(i + 1)));
                }
                i = i + 1;
            }
            assert(a.take(items@.len() as int) =~= a);
            Some(out)
        },
        _ => match default {
            Some(v) => {
                let mut out: Vec<String> = Vec::new();
                let mut i: usize = 0;
                while i < v.len()
                    invariant
                        i <= v@.len(),
                        out@.map_values(|s: String| s@) == v@.map_values(|s: String| s@).take(i as int),
                    decreases v.len() - i,
                {
                    let ghost before = out@;
                    out.push(v[i].clone());
                    assert(out@ == before.push(v@[i as int]));
                    assert(out@.map_values(|s: String| s@) =~= before.map_values(|s: String| s@).push(v@[i as int]@));
                    assert(v@.map_values(|s: String| s@).take(i + 1) =~= v@.map_values(|s: String| s@).take(i as int).push(v@[i as int]@));
                    i = i + 1;
                }
                assert(v@.map_values(|s: String| s@).take(v@.len() as int) =~= v@.map_values(|s: String| s@));
                Some(out)
            },
            None => None,
        },
    }
}

/// Converts a canonical request into a Responses request: system and
/// developer messages become `instructions` (or developer input messages,
/// as configured), the others input items; tools are flattened; extra
/// fields and configured defaults give `store`, `reasoning`, `include` and
/// `parallel_tool_calls`. The conversion is total.
pub fn chat_request_to_responses(req: &ChatRequest, config: &ResponsesRequestConfig) -> (r: Result<ResponseCreateRequest, TranslateError>)
    requires
        match req.tools {
            Some(ts) => forall|i: int| 0 <= i < ts@.len() ==> #[trigger] tool_name_ok(ts@[i].function.name@, config.max_tool_name_len),
            None => true,
        },
    ensures
        r matches Ok(out) && responses_request_of(*req, *config, out),
{
    let h = config.system_handling;
    let mut instructions_parts: Vec<String> = Vec::new();
    let mut input_items: Vec<JsonValue> = Vec::new();
    let mut i: usize = 0;
    assert(req.messages@.take(0) =~= Seq::<Message>::empty());
    while i < req.messages.len()
        invariant
            i <= req.messages@.len(),
            h == config.system_handling,
            instructions_parts@.map_values(|t: String| t@) == all_instructions(req.messages@.take(i as int), h),
            input_items@.map_values(|x: JsonValue| x.model()) == all_items(req.messages@.take(i as int), h),
        decreases req.messages.len() - i,
    {
        let (mut texts, mut items) = message_to_items(&req.messages[i], h);
        let ghost ti = instructions_parts@;
        let ghost ii = input_items@;
        let ghost tv = texts@;
        let ghost iv = items@;
        instructions_parts.append(&mut texts);
        input_items.append(&mut items);
        proof {
            let t1 = req.messages@.take(i + 1);
            assert(t1.drop_last() =~= req.messages@.take(i as int));
            assert(t1.last() == req.messages@[i as int]);
            assert((ti + tv).map_values(|t: String| t@) =~= ti.map_values(|t: String| t@) + tv.map_values(|t: String| t@));
            assert((ii + iv).map_values(|x: JsonValue| x.model()) =~= ii.map_values(|x: JsonValue| x.model()) + iv.map_values(|x: JsonValue| x.model()));
        }
        i = i + 1;
    }
    assert(req.messages@.take(req.messages@.len() as int) =~= req.messages@);
    let instructions = if instructions_parts.len() == 0 {
        if config.force_instructions {
            proof {
                reveal_strlit("");
                assert(""@ =~= Seq::<char>::empty());
            }
            Some(json_str(""))
        } else {
            None
        }
    } else {
        Some(json_string(join_strings(&instructions_parts, "\n\n")))
    };
    assert(instructions_parts@.len() == all_instructions(req.messages@, config.system_handling).len());
    let input = if input_items.len() == 0 {
        None
    } else {
        Some(json_array(input_items))
    };
    let tools = match &req.tools {
        Some(ts) => {
            let mut out: Vec<ResponseTool> = Vec::new();
            let mut k: usize = 0;
            while k < ts.len()
                invariant
                    k <= ts@.len(),
                    forall|j: int| 0 <= j < ts@.len() ==> #[trigger] tool_name_ok(ts@[j].function.name@, config.max_tool_name_len),
                    out@.len() == k,
                    forall|j: int| 0 <= j < k ==> #[trigger] tool_of(ts@[j], config.max_tool_name_len, out@[j]),
                decreases ts.len() - k,
            {
                assert(tool_name_ok(ts@[k as int].function.name@, config.max_tool_name_len));
                out.push(translate_tool(&ts[k], config));
                k = k + 1;
            }
            Some(out)
        },
        None => None,
    };
    let tool_choice = match &req.tool_choice {
        Some(tc) => Some(translate_tool_choice(tc)),
        None => None,
    };
    let store = extra_bool_value(&req.extra, "store", config.default_store);
    let reasoning = build_reasoning(req, config);
    let include_items = include_list(&req.extra, &config.default_include);
    let parallel_tool_calls = extra_bool_value(&req.extra, "parallel_tool_calls", config.default_parallel_tool_calls);
    let max_output_tokens = if config.drop_max_tokens { None } else { req.max_tokens };
    let temperature = if config.drop_temperature {
        None
    } else {
        match &req.temperature {
            Some(t) => Some(t.duplicate()),
            None => None,
        }
    };
    let top_p = if config.drop_top_p {
        None
    } else {
        match &req.top_p {
            Some(t) => Some(t.duplicate()),
            None => None,
        }
    };
    let text = match &req.response_format {
        Some(f) => translate_response_format(Some(f)),
        None => None,
    };
    let ghost instr = all_instructions(req.messages@, config.system_handling);
    let ghost all = all_items(req.messages@, config.system_handling);
    assert(input matches Some(v) ==> v.model() == Json::Array(all));
    assert(input is None ==> all.len() == 0);
    assert(instr.len() == 0 && !config.force_instructions ==> instructions is None);
    assert(instr.len() > 0 ==> (instructions matches Some(v) && v.model() == jstr(join_seqs(instr, "\n\n"@))));
    assert(match req.tools {
        None => tools is None,
        Some(ts) => tools matches Some(rs) && rs@.len() == ts@.len()
            && forall|i: int| 0 <= i < ts@.len() ==> #[trigger] tool_of(ts@[i], config.max_tool_name_len, rs@[i]),
    });
    assert(match req.tool_choice {
        None => tool_choice is None,
        Some(tc) => tool_choice matches Some(rc) && tool_choice_of(tc, rc),
    });
    assert(text_config_of(req.response_format, text));
    assert(instr.len() == 0 && config.force_instructions ==> (instructions matches Some(v) && v.model() == jstr(Seq::empty())));
    assert(match reasoning_of(req.extra.model(), *config) {
        None => reasoning is None,
        Some(j) => reasoning matches Some(v) && v.model() == j,
    });
    assert(strings_model(include_items) == include_of(req.extra.model(), config.default_include));
    assert(number_model(temperature) == if config.drop_temperature { None } else { number_model(req.temperature) });
    assert(number_model(top_p) == if config.drop_top_p { None } else { number_model(req.top_p) });
    Ok(ResponseCreateRequest {
        model: req.model.clone(),
        input,
        instructions,
        max_output_tokens,
        temperature,
        top_p,
        tools,
        tool_choice,
        user: copy_text(&req.user),
        store,
        reasoning,
        include_items,
        parallel_tool_calls,
        text,
        stream: req.stream,
        background: None,
        conversation: None,
        context_management: None,
        metadata: None,
        previous_response_id: None,
        prompt_cache_key: None,
        prompt_cache_retention: None,
        safety_identifier: None,
        service_tier: None,
        stream_options: None,
        truncation: None,
        extra: JsonObject::new(),
    })
}


/// Translates canonical requests for the Responses endpoint.
pub struct ResponsesRequestTranslator {
    pub transport: OpenAITransport,
    pub config: ResponsesRequestConfig,
}

pub open spec fn tools_named_ok(req: ChatRequest, max: Option<usize>) -> bool {
    match req.tools {
        Some(ts) => forall|i: int| 0 <= i < ts@.len() ==> #[trigger] tool_name_ok(ts@[i].function.name@, max),
        None => true,
    }
}

impl ResponsesRequestTranslator {
    /// A translator with the public endpoint's configuration.
    pub fn new(transport: OpenAITransport) -> (r: ResponsesRequestTranslator)
        ensures
            r.transport == transport,
            r.config.system_handling is ExtractToInstructions,
            !r.config.force_instructions,
            r.config.max_tool_name_len is None,
    {
        ResponsesRequestTranslator { transport, config: ResponsesRequestConfig::default() }
    }

    /// The same translator with another configuration.
    pub fn with_config(self, config: ResponsesRequestConfig) -> (r: ResponsesRequestTranslator)
        ensures
            r.transport == self.transport,
            r.config == config,
    {
        ResponsesRequestTranslator { transport: self.transport, config }
    }

    /// The Responses request and the parts of its call to `/responses`;
    /// refused when a configured header cannot be sent.
    pub fn translate_request(&self, req: &ChatRequest) -> (r: Result<(ResponseCreateRequest, OpenAITransportRequest), TranslateError>)
        requires
            tools_named_ok(*req, self.config.max_tool_name_len),
        ensures
            match r {
                Ok((body, parts)) => responses_request_of(*req, self.config, body)
                    && responses_parts(self.transport, false, parts) && headers_valid(parts.headers.model()),
                Err(e) => e is Other && !headers_valid(responses_headers(self.transport, false)),
            },
    {
        let body = match chat_request_to_responses(req, &self.config) {
            Ok(b) => b,
            Err(e) => return Err(e),
        };
        let extra = StringMap::new();
        assert(extra.model() =~= responses_extra_headers(false));
        let parts = self.transport.prepare_json_request("/responses", &extra);
        match check_request_headers(&parts.headers) {
            Ok(()) => Ok((body, parts)),
            Err(e) => Err(e),
        }
    }

    /// As `translate_request` for a streaming call: the body asks for a
    /// stream and event streams are accepted.
    pub fn translate_stream_request(&self, req: &ChatRequest) -> (r: Result<(ResponseCreateRequest, OpenAITransportRequest), TranslateError>)
        requires
            tools_named_ok(*req, self.config.max_tool_name_len),
        ensures
            match r {
                Ok((body, parts)) => body.stream == Some(true)
                    && responses_request_of(*req, self.config, ResponseCreateRequest { stream: req.stream, ..body })
                    && responses_parts(self.transport, true, parts) && headers_valid(parts.headers.model()),
                Err(e) => e is Other && !headers_valid(responses_headers(self.transport, true)),
            },
    {
        let mut body = match chat_request_to_responses(req, &self.config) {
            Ok(b) => b,
            Err(e) => return Err(e),
        };
        let ghost before = body;
        body.stream = Some(true);
        assert(ResponseCreateRequest { stream: req.stream, ..body } == before);
        let mut extra = StringMap::new();
        extra.insert("Accept".to_string(), "text/event-stream".to_string());
        assert(extra.model() =~= responses_extra_headers(true));
        let parts = self.transport.prepare_json_request("/responses", &extra);
        match check_request_headers(&parts.headers) {
            Ok(()) => Ok((body, parts)),
            Err(e) => Err(e),
        }
    }
}

/// The request headers of a Responses call: event streams are accepted
/// when streaming.
pub open spec fn responses_extra_headers(streaming: bool) -> Seq<(Seq<char>, Seq<char>)> {
    if streaming {
        seq![("Accept"@, "text/event-stream"@)]
    } else {
        Seq::empty()
    }
}

/// The headers of a Responses call through `t`.
pub open spec fn responses_headers(t: OpenAITransport, streaming: bool) -> PairsModel {
    request_headers(
        t.spec_config().http.default_headers.model(),
        json_headers(responses_extra_headers(streaming)),
        t.spec_config().auth.api_key@,
        text_of(t.spec_config().auth.organization),
        text_of(t.spec_config().auth.project),
    )
}

/// The URL and headers of a Responses call through `t`.
pub open spec fn responses_parts(t: OpenAITransport, streaming: bool, p: OpenAITransportRequest) -> bool {
    &&& p.url@ == joined_url(t.spec_config().http.base_url@, "/responses"@)
    &&& p.headers.model() == responses_headers(t, streaming)
}

// ─── Tool names of ASCII text ───────────────────────────────────────────────

/// Whether every character of `s` is ASCII.
pub open spec fn is_ascii_text(s: Seq<char>) -> bool {
    forall|i: int| 0 <= i < s.len() ==> (#[trigger] s[i] as u32) < 128
}

proof fn lemma_encode_concat(a: Seq<char>, b: Seq<char>)
    ensures
        vstd::utf8::encode_utf8(a + b) == vstd::utf8::encode_utf8(a) + vstd::utf8::encode_utf8(b),
    decreases a.len(),
{
    if a.len() > 0 {
        assert((a + b).drop_first() =~= a.drop_first() + b);
        assert((a + b)[0] == a[0]);
        lemma_encode_concat(a.drop_first(), b);
        assert(vstd::utf8::encode_utf8(a + b) =~= vstd::utf8::encode_utf8(a) + vstd::utf8::encode_utf8(b));
    }
}

proof fn lemma_encode_ascii_len(a: Seq<char>)
    requires
        is_ascii_text(a),
    ensures
        vstd::utf8::encode_utf8(a).len() == a.len(),
    decreases a.len(),
{
    if a.len() > 0 {
        assert((a[0] as u32) < 128);
        assert(vstd::utf8::has_width_1_encoding(a[0] as u32));
        let t = a.drop_first();
        assert forall|i: int| 0 <= i < t.len() implies (#[trigger] t[i] as u32) < 128 by {
            assert(t[i] == a[i + 1]);
        }
        lemma_encode_ascii_len(t);
    }
}

/// For a tool name of ASCII characters, the byte cut that a tool
/// translation makes keeps exactly the first `m` characters; a name no
/// longer than `m` stays as it is.
pub proof fn lemma_ascii_tool_name_cut(t: Tool, m: usize, r: ResponseTool)
    requires
        is_ascii_text(t.function.name@),
        tool_of(t, Some(m), r),
    ensures
        r->Function_name@ == if t.function.name@.len() > m {
            t.function.name@.take(m as int)
        } else {
            t.function.name@
        },
{
    let name = t.function.name@;
    lemma_encode_ascii_len(name);
    if name.len() > m {
        let head = name.take(m as int);
        let tail = name.skip(m as int);
        assert(name =~= head + tail);
        lemma_encode_concat(head, tail);
        assert forall|i: int| 0 <= i < head.len() implies (#[trigger] head[i] as u32) < 128 by {
            assert(head[i] == name[i]);
        }
        lemma_encode_ascii_len(head);
        assert(vstd::utf8::encode_utf8(name).take(m as int) =~= vstd::utf8::encode_utf8(head));
        vstd::utf8::encode_utf8_decode_utf8(head);
        vstd::utf8::encode_utf8_decode_utf8(r->Function_name@);
    }
}

// ─── Tool results stay linked to their calls ────────────────────────────────

/// The value of field `k` of a JSON object, if it has one.
pub open spec fn object_field(j: Json, k: Seq<char>) -> Option<Json> {
    match j {
        Json::Object(entries) => model_lookup(entries, k),
        _ => None,
    }
}

/// A tool message becomes one `function_call_output` item whose `call_id`
/// is the message's `tool_call_id`, and whose `output` is its text; so the
/// result of a call carries the same `call_id` as the `function_call` item
/// of that call.
pub proof fn lemma_tool_output_linked_to_call(m: Message, h: SystemHandling, tc: ToolCall)
    requires
        m.role is Tool,
        m.tool_call_id matches Some(id) && id@ == tc.id@,
    ensures
        message_items(m, h).len() == 1,
        object_field(message_items(m, h)[0], "type"@) == Some(Json::Str("function_call_output"@)),
        object_field(message_items(m, h)[0], "call_id"@) == Some(Json::Str(tc.id@)),
        object_field(message_items(m, h)[0], "output"@) == Some(Json::Str(text_or_empty(extracted_text(m.content)))),
        object_field(tool_call_item(tc), "type"@) == Some(Json::Str("function_call"@)),
        object_field(tool_call_item(tc), "call_id"@) == object_field(message_items(m, h)[0], "call_id"@),
{
    reveal_with_fuel(model_lookup, 5);
    reveal_strlit("type");
    reveal_strlit("call_id");
    reveal_strlit("output");
    reveal_strlit("name");
    reveal_strlit("arguments");
    assert("type"@[0] != "call_id"@[0]);
    assert("output"@[0] != "call_id"@[0]);
    assert("name"@[0] != "call_id"@[0]);
    assert("arguments"@[0] != "call_id"@[0]);
    assert("output"@[0] != "type"@[0]);
}

} // verus!
