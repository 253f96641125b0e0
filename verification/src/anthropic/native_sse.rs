//! Native-protocol bridge, stream direction: canonical stream events become
//! Anthropic SSE frames.
//!
//! Anthropic's stream is block-structured (`message_start`, then each content
//! block bracketed by `content_block_start` / `content_block_stop`, then
//! `message_delta` and `message_stop`); the canonical stream is flat. The
//! context tracks which block is open, the next block index, which tool call
//! owns which block, and the finish reason and usage, which Anthropic reports
//! together at the end.

use crate::anthropic::native_response::stop_of_finish;
use crate::anthropic::types::{stop_reason_text, StopReason};
use crate::canonical::model::{FinishReason, StreamEvent, Usage};
use crate::json::{
    json_render, json_str, json_u64, lookup_u64, model_lookup, render_json_text, Json, JsonObject,
    JsonValue, NumberModel,
};
use std::collections::HashMap;
use vstd::prelude::*;

verus! {

broadcast use vstd::std_specs::hash::group_hash_axioms;

// ─── Frames ─────────────────────────────────────────────────────────────────

/// A single Anthropic SSE frame: a named `event:` and its `data:` JSON text.
#[derive(Debug, PartialEq)]
pub struct AnthropicSseFrame {
    /// The SSE `event:` name.
    pub event: String,
    /// The SSE `data:` payload (JSON object text).
    pub data: String,
}

/// What a frame is made of: its event name and the JSON value of its data.
pub type FrameModel = (Seq<char>, Json);

/// The wire text of a frame.
pub open spec fn sse_text(event: Seq<char>, data: Seq<char>) -> Seq<char> {
    "event: "@ + event + "\ndata: "@ + data + "\n\n"@
}

/// `f` is the frame that `m` describes.
pub open spec fn frame_is(f: AnthropicSseFrame, m: FrameModel) -> bool {
    f.event@ == m.0 && f.data@ == json_render(m.1)
}

/// `fs` are the frames that `ms` describe, one for one.
pub open spec fn frames_match(fs: Seq<AnthropicSseFrame>, ms: Seq<FrameModel>) -> bool {
    &&& fs.len() == ms.len()
    &&& forall|i: int| 0 <= i < fs.len() ==> #[trigger] frame_is(fs[i], ms[i])
}

impl AnthropicSseFrame {
    /// Renders the frame as SSE bytes: `event: <event>\ndata: <data>\n\n`,
    /// UTF-8 encoded.
    pub fn to_sse_bytes(&self) -> (r: Vec<u8>)
        ensures
            r@ == vstd::utf8::encode_utf8(sse_text(self.event@, self.data@)),
    {
        let mut text = "event: ".to_string();
        text.append(self.event.as_str());
        text.append("\ndata: ");
        text.append(self.data.as_str());
        text.append("\n\n");
        text.as_str().as_bytes_vec()
    }

    fn new(event: &str, data: &JsonValue) -> (r: AnthropicSseFrame)
        ensures
            r.event@ == event@,
            r.data@ == json_render(data.model()),
    {
        AnthropicSseFrame { event: event.to_string(), data: render_json_text(data) }
    }
}

proof fn lemma_frames_concat(a: Seq<AnthropicSseFrame>, ma: Seq<FrameModel>, b: Seq<AnthropicSseFrame>, mb: Seq<FrameModel>)
    requires
        frames_match(a, ma),
        frames_match(b, mb),
    ensures
        frames_match(a + b, ma + mb),
{
    assert forall|i: int| 0 <= i < (a + b).len() implies #[trigger] frame_is((a + b)[i], (ma + mb)[i]) by {
        if i < a.len() {
            assert((a + b)[i] == a[i]);
            assert((ma + mb)[i] == ma[i]);
            assert(frame_is(a[i], ma[i]));
        } else {
            assert((a + b)[i] == b[i - a.len()]);
            assert((ma + mb)[i] == mb[i - a.len()]);
            assert(frame_is(b[i - a.len()], mb[i - a.len()]));
        }
    }
}

proof fn lemma_frames_push(a: Seq<AnthropicSseFrame>, ma: Seq<FrameModel>, f: AnthropicSseFrame, m: FrameModel)
    requires
        frames_match(a, ma),
        frame_is(f, m),
    ensures
        frames_match(a.push(f), ma.push(m)),
{
    assert forall|i: int| 0 <= i < a.push(f).len() implies #[trigger] frame_is(a.push(f)[i], ma.push(m)[i]) by {
        if i < a.len() {
            assert(a.push(f)[i] == a[i]);
            assert(ma.push(m)[i] == ma[i]);
            assert(frame_is(a[i], ma[i]));
        }
    }
}

// ─── JSON of the frames ─────────────────────────────────────────────────────

pub open spec fn jstr(s: Seq<char>) -> Json {
    Json::Str(s)
}

pub open spec fn juint(n: u64) -> Json {
    Json::Number(NumberModel::PosInt(n))
}

pub open spec fn message_start_json(id: Seq<char>, model: Seq<char>) -> Json {
    Json::Object(seq![
        ("type"@, jstr("message_start"@)),
        ("message"@, Json::Object(seq![
            ("id"@, jstr(id)),
            ("type"@, jstr("message"@)),
            ("role"@, jstr("assistant"@)),
            ("model"@, jstr(model)),
            ("content"@, Json::Array(Seq::empty())),
            ("stop_reason"@, Json::Null),
            ("stop_sequence"@, Json::Null),
            ("usage"@, Json::Object(seq![("input_tokens"@, juint(0)), ("output_tokens"@, juint(0))])),
        ])),
    ])
}

pub open spec fn block_start_json(index: usize, block: Json) -> Json {
    Json::Object(seq![
        ("type"@, jstr("content_block_start"@)),
        ("index"@, juint(index as u64)),
        ("content_block"@, block),
    ])
}

pub open spec fn text_block_json() -> Json {
    Json::Object(seq![("type"@, jstr("text"@)), ("text"@, jstr(""@))])
}

pub open spec fn thinking_block_json() -> Json {
    Json::Object(seq![("type"@, jstr("thinking"@)), ("thinking"@, jstr(""@)), ("signature"@, jstr(""@))])
}

pub open spec fn tool_block_json(id: Seq<char>, name: Seq<char>) -> Json {
    Json::Object(seq![
        ("type"@, jstr("tool_use"@)),
        ("id"@, jstr(id)),
        ("name"@, jstr(name)),
        ("input"@, Json::Object(Seq::empty())),
    ])
}

pub open spec fn block_delta_json(index: usize, kind: Seq<char>, key: Seq<char>, text: Seq<char>) -> Json {
    Json::Object(seq![
        ("type"@, jstr("content_block_delta"@)),
        ("index"@, juint(index as u64)),
        ("delta"@, Json::Object(seq![("type"@, jstr(kind)), (key, jstr(text))])),
    ])
}

pub open spec fn block_stop_json(index: usize) -> Json {
    Json::Object(seq![("type"@, jstr("content_block_stop"@)), ("index"@, juint(index as u64))])
}

pub open spec fn message_delta_json(stop_reason: Seq<char>, usage: Json) -> Json {
    Json::Object(seq![
        ("type"@, jstr("message_delta"@)),
        ("delta"@, Json::Object(seq![("stop_reason"@, jstr(stop_reason)), ("stop_sequence"@, Json::Null)])),
        ("usage"@, usage),
    ])
}

pub open spec fn message_stop_json() -> Json {
    Json::Object(seq![("type"@, jstr("message_stop"@))])
}

// ─── Usage ──────────────────────────────────────────────────────────────────

/// What the bridge keeps of canonical usage.
pub struct UsageModel {
    pub prompt_tokens: Option<u64>,
    pub completion_tokens: Option<u64>,
    pub extra: Seq<(Seq<char>, Json)>,
}

pub open spec fn usage_model(u: Usage) -> UsageModel {
    UsageModel { prompt_tokens: u.prompt_tokens, completion_tokens: u.completion_tokens, extra: u.extra.model() }
}

/// Cache-hit input tokens: the Anthropic-style key first, then OpenAI's
/// `prompt_tokens_details.cached_tokens`.
pub open spec fn cache_read_of(extra: Seq<(Seq<char>, Json)>) -> Option<u64> {
    match lookup_u64(extra, "cache_read_input_tokens"@) {
        Some(n) => Some(n),
        None => match model_lookup(extra, "prompt_tokens_details"@) {
            Some(Json::Object(d)) => lookup_u64(d, "cached_tokens"@),
            _ => None,
        },
    }
}

pub open spec fn count_or_zero(n: Option<u64>) -> u64 {
    match n {
        Some(n) => n,
        None => 0,
    }
}

/// The streaming `usage` object: input and output tokens always, the cache
/// counts when reported.
pub open spec fn streaming_usage_model(u: Option<UsageModel>) -> Json {
    match u {
        None => Json::Object(seq![("input_tokens"@, juint(0)), ("output_tokens"@, juint(0))]),
        Some(u) => {
            let base = seq![
                ("input_tokens"@, juint(count_or_zero(u.prompt_tokens))),
                ("output_tokens"@, juint(count_or_zero(u.completion_tokens))),
            ];
            let with_read = match cache_read_of(u.extra) {
                Some(r) => base.push(("cache_read_input_tokens"@, juint(r))),
                None => base,
            };
            let with_creation = match lookup_u64(u.extra, "cache_creation_input_tokens"@) {
                Some(c) => with_read.push(("cache_creation_input_tokens"@, juint(c))),
                None => with_read,
            };
            Json::Object(with_creation)
        },
    }
}

/// The stop-reason text a finish reason is reported as.
pub open spec fn stop_text_of(f: FinishReason) -> Seq<char> {
    match f {
        FinishReason::Stop => "end_turn"@,
        FinishReason::Length => "max_tokens"@,
        FinishReason::ToolCalls => "tool_use"@,
        FinishReason::ContentFilter => "content_filter"@,
        FinishReason::Unknown(u) => u@,
    }
}

// ─── State ──────────────────────────────────────────────────────────────────

/// The content block open in the output stream, with its index.
#[derive(Clone, Copy, Debug, PartialEq)]
pub enum OpenBlock {
    Text(usize),
    Thinking(usize),
    Tool(usize),
}

impl OpenBlock {
    pub open spec fn spec_index(self) -> usize {
        match self {
            OpenBlock::Text(i) => i,
            OpenBlock::Thinking(i) => i,
            OpenBlock::Tool(i) => i,
        }
    }

    /// The block's index in the response content.
    pub fn index(self) -> (r: usize)
        ensures
            r == self.spec_index(),
    {
        match self {
            OpenBlock::Text(i) => i,
            OpenBlock::Thinking(i) => i,
            OpenBlock::Tool(i) => i,
        }
    }
}

/// The abstract state of a stream bridge.
pub struct SseState {
    pub model: Seq<char>,
    pub message_id: Seq<char>,
    pub pinned: bool,
    pub started: bool,
    pub stopped: bool,
    pub next_index: usize,
    pub open: Option<OpenBlock>,
    pub tool_blocks: Map<u32, usize>,
    pub stop: Option<Seq<char>>,
    pub usage: Option<UsageModel>,
}

/// Per-stream state of the canonical → Anthropic SSE bridge.
#[derive(Debug, PartialEq)]
pub struct SseContext {
    /// Model name surfaced in `message_start`.
    pub model: String,
    /// Message id surfaced in `message_start`.
    pub message_id: String,
    model_pinned: bool,
    started: bool,
    stopped: bool,
    next_index: usize,
    open: Option<OpenBlock>,
    tool_block_index: HashMap<u32, usize>,
    finish_reason: Option<FinishReason>,
    usage: Option<Usage>,
}

impl View for SseContext {
    type V = SseState;

    closed spec fn view(&self) -> SseState {
        SseState {
            model: self.model@,
            message_id: self.message_id@,
            pinned: self.model_pinned,
            started: self.started,
            stopped: self.stopped,
            next_index: self.next_index,
            open: self.open,
            tool_blocks: self.tool_block_index@,
            stop: match self.finish_reason {
                Some(f) => Some(stop_text_of(f)),
                None => None,
            },
            usage: match self.usage {
                Some(u) => Some(usage_model(u)),
                None => None,
            },
        }
    }
}

/// A fresh state with the given model.
pub open spec fn initial_state(model: Seq<char>, pinned: bool) -> SseState {
    SseState {
        model,
        message_id: Seq::empty(),
        pinned,
        started: false,
        stopped: false,
        next_index: 0,
        open: None,
        tool_blocks: Map::empty(),
        stop: None,
        usage: None,
    }
}

// ─── Transitions ────────────────────────────────────────────────────────────

pub open spec fn step_started(s: SseState) -> (SseState, Seq<FrameModel>) {
    if s.started {
        (s, Seq::empty())
    } else {
        (SseState { started: true, ..s }, seq![("message_start"@, message_start_json(s.message_id, s.model))])
    }
}

pub open spec fn step_close(s: SseState) -> (SseState, Seq<FrameModel>) {
    match s.open {
        Some(b) => (SseState { open: None, ..s }, seq![("content_block_stop"@, block_stop_json(b.spec_index()))]),
        None => (s, Seq::empty()),
    }
}

pub open spec fn step_text_block(s: SseState) -> (SseState, Seq<FrameModel>) {
    match s.open {
        Some(OpenBlock::Text(_)) => (s, Seq::empty()),
        _ => {
            let (c, o) = step_close(s);
            let idx = c.next_index;
            (
                SseState { next_index: (idx + 1) as usize, open: Some(OpenBlock::Text(idx)), ..c },
                o.push(("content_block_start"@, block_start_json(idx, text_block_json()))),
            )
        },
    }
}

pub open spec fn step_thinking_block(s: SseState) -> (SseState, Seq<FrameModel>) {
    match s.open {
        Some(OpenBlock::Thinking(_)) => (s, Seq::empty()),
        _ => {
            let (c, o) = step_close(s);
            let idx = c.next_index;
            (
                SseState { next_index: (idx + 1) as usize, open: Some(OpenBlock::Thinking(idx)), ..c },
                o.push(("content_block_start"@, block_start_json(idx, thinking_block_json()))),
            )
        },
    }
}

pub open spec fn step_message_stop(s: SseState) -> (SseState, Seq<FrameModel>) {
    if s.stopped {
        (s, Seq::empty())
    } else {
        let stop = match s.stop {
            Some(t) => t,
            None => "end_turn"@,
        };
        (
            SseState { stopped: true, ..s },
            seq![
                ("message_delta"@, message_delta_json(stop, streaming_usage_model(s.usage))),
                ("message_stop"@, message_stop_json()),
            ],
        )
    }
}

pub open spec fn open_index(s: SseState) -> usize {
    s.open->0.spec_index()
}

/// What one canonical event does to the bridge: the next state and the
/// frames emitted.
pub open spec fn sse_step(s: SseState, e: StreamEvent) -> (SseState, Seq<FrameModel>) {
    match e {
        StreamEvent::ResponseMeta { id, model } => {
            let s1 = SseState {
                message_id: id@,
                model: if !s.pinned && model@.len() > 0 { model@ } else { s.model },
                ..s
            };
            step_started(s1)
        },
        StreamEvent::ContentDelta(text) => if text@.len() == 0 {
            (s, Seq::empty())
        } else {
            let (s1, o1) = step_started(s);
            let (s2, o2) = step_text_block(s1);
            (s2, o1 + o2.push(("content_block_delta"@, block_delta_json(open_index(s2), "text_delta"@, "text"@, text@))))
        },
        StreamEvent::ReasoningStart { .. } => {
            let (s1, o1) = step_started(s);
            let (s2, o2) = step_thinking_block(s1);
            (s2, o1 + o2)
        },
        StreamEvent::ReasoningDelta(text) => if text@.len() == 0 {
            (s, Seq::empty())
        } else {
            let (s1, o1) = step_started(s);
            let (s2, o2) = step_thinking_block(s1);
            (s2, o1 + o2.push(("content_block_delta"@, block_delta_json(open_index(s2), "thinking_delta"@, "thinking"@, text@))))
        },
        StreamEvent::ReasoningEnd { signature, .. } => match s.open {
            Some(OpenBlock::Thinking(idx)) => {
                let sig: Seq<FrameModel> = if signature@.len() > 0 {
                    seq![("content_block_delta"@, block_delta_json(idx, "signature_delta"@, "signature"@, signature@))]
                } else {
                    Seq::empty()
                };
                let (s1, o1) = step_close(s);
                (s1, sig + o1)
            },
            _ => (s, Seq::empty()),
        },
        StreamEvent::ReasoningSignature(signature) => match s.open {
            Some(OpenBlock::Thinking(idx)) => if signature@.len() > 0 {
                (s, seq![("content_block_delta"@, block_delta_json(idx, "signature_delta"@, "signature"@, signature@))])
            } else {
                (s, Seq::empty())
            },
            _ => (s, Seq::empty()),
        },
        StreamEvent::ToolCallStart { index, id, name } => {
            let (s1, o1) = step_started(s);
            let (s2, o2) = step_close(s1);
            let idx = s2.next_index;
            (
                SseState {
                    next_index: (idx + 1) as usize,
                    tool_blocks: s2.tool_blocks.insert(index, idx),
                    open: Some(OpenBlock::Tool(idx)),
                    ..s2
                },
                o1 + o2.push(("content_block_start"@, block_start_json(idx, tool_block_json(id@, name@)))),
            )
        },
        StreamEvent::ToolCallDelta { index, arguments } => if arguments@.len() > 0 && s.tool_blocks.contains_key(index) {
            (s, seq![("content_block_delta"@, block_delta_json(s.tool_blocks[index], "input_json_delta"@, "partial_json"@, arguments@))])
        } else {
            (s, Seq::empty())
        },
        StreamEvent::Finish(reason) => step_close(SseState { stop: Some(stop_text_of(reason)), ..s }),
        StreamEvent::Usage(u) => (SseState { usage: Some(usage_model(u)), ..s }, Seq::empty()),
        StreamEvent::Done => {
            let (s1, o1) = step_started(s);
            let (s2, o2) = step_close(s1);
            let (s3, o3) = step_message_stop(s2);
            (s3, o1 + o2 + o3)
        },
    }
}

/// Whether the event may open a new content block (and so take an index).
pub open spec fn may_open_block(e: StreamEvent) -> bool {
    match e {
        StreamEvent::ContentDelta(_) => true,
        StreamEvent::ReasoningStart { .. } => true,
        StreamEvent::ReasoningDelta(_) => true,
        StreamEvent::ToolCallStart { .. } => true,
        _ => false,
    }
}

// ─── Executable ─────────────────────────────────────────────────────────────

fn obj_field(o: &mut JsonObject, k: &str, v: JsonValue)
    ensures
        final(o).model() == old(o).model().push((k@, v.model())),
{
    o.insert(k.to_string(), v);
}

fn usage_copy(u: &Usage) -> (r: Usage)
    ensures
        usage_model(r) == usage_model(*u),
{
    Usage {
        prompt_tokens: u.prompt_tokens,
        completion_tokens: u.completion_tokens,
        total_tokens: u.total_tokens,
        extra: u.extra.duplicate(),
    }
}

fn finish_copy(f: &FinishReason) -> (r: FinishReason)
    ensures
        stop_text_of(r) == stop_text_of(*f),
{
    match f {
        FinishReason::Stop => FinishReason::Stop,
        FinishReason::Length => FinishReason::Length,
        FinishReason::ToolCalls => FinishReason::ToolCalls,
        FinishReason::ContentFilter => FinishReason::ContentFilter,
        FinishReason::Unknown(s) => FinishReason::Unknown(s.clone()),
    }
}

/// Cache-hit input tokens of canonical usage.
pub fn cache_read_tokens(usage: &Usage) -> (r: Option<u64>)
    ensures
        r == cache_read_of(usage.extra.model()),
{
    match usage.extra.get("cache_read_input_tokens") {
        Some(v) => match v.as_u64() {
            Some(n) => {
                return Some(n);
            },
            None => {},
        },
        None => {},
    }
    match usage.extra.get("prompt_tokens_details") {
        Some(d) => match d.as_object() {
            Some(o) => match o.get("cached_tokens") {
                Some(c) => c.as_u64(),
                None => None,
            },
            None => None,
        },
        None => None,
    }
}

/// The Anthropic streaming `usage` object of canonical usage.
pub fn streaming_usage_json(usage: Option<&Usage>) -> (r: JsonValue)
    ensures
        r.model() == streaming_usage_model(match usage {
            Some(u) => Some(usage_model(*u)),
            None => None,
        }),
{
    let mut o = JsonObject::new();
    match usage {
        None => {
            obj_field(&mut o, "input_tokens", json_u64(0));
            obj_field(&mut o, "output_tokens", json_u64(0));
            assert(o.model() =~= seq![("input_tokens"@, juint(0)), ("output_tokens"@, juint(0))]);
        },
        Some(u) => {
            let input = match u.prompt_tokens { Some(n) => n, None => 0 };
            let output = match u.completion_tokens { Some(n) => n, None => 0 };
            obj_field(&mut o, "input_tokens", json_u64(input));
            obj_field(&mut o, "output_tokens", json_u64(output));
            let ghost base = o.model();
            assert(base =~= seq![
                ("input_tokens"@, juint(count_or_zero(u.prompt_tokens))),
                ("output_tokens"@, juint(count_or_zero(u.completion_tokens))),
            ]);
            match cache_read_tokens(u) {
                Some(read) => obj_field(&mut o, "cache_read_input_tokens", json_u64(read)),
                None => {},
            }
            let creation = match u.extra.get("cache_creation_input_tokens") {
                Some(v) => v.as_u64(),
                None => None,
            };
            match creation {
                Some(c) => obj_field(&mut o, "cache_creation_input_tokens", json_u64(c)),
                None => {},
            }
        },
    }
    crate::json::json_object(o)
}

fn block_stop_frame(index: usize) -> (r: AnthropicSseFrame)
    ensures
        r.event@ == "content_block_stop"@,
        r.data@ == json_render(block_stop_json(index)),
{
    let mut o = JsonObject::new();
    obj_field(&mut o, "type", json_str("content_block_stop"));
    obj_field(&mut o, "index", json_u64(index as u64));
    assert(o.model() =~= block_stop_json(index)->Object_0);
    AnthropicSseFrame::new("content_block_stop", &crate::json::json_object(o))
}

fn block_start_frame(index: usize, block: JsonValue) -> (r: AnthropicSseFrame)
    ensures
        r.event@ == "content_block_start"@,
        r.data@ == json_render(block_start_json(index, block.model())),
{
    let ghost bm = block.model();
    let mut o = JsonObject::new();
    obj_field(&mut o, "type", json_str("content_block_start"));
    obj_field(&mut o, "index", json_u64(index as u64));
    obj_field(&mut o, "content_block", block);
    assert(o.model() =~= block_start_json(index, bm)->Object_0);
    AnthropicSseFrame::new("content_block_start", &crate::json::json_object(o))
}

fn block_delta_frame(index: usize, kind: &str, key: &str, text: &str) -> (r: AnthropicSseFrame)
    ensures
        r.event@ == "content_block_delta"@,
        r.data@ == json_render(block_delta_json(index, kind@, key@, text@)),
{
    let mut d = JsonObject::new();
    obj_field(&mut d, "type", json_str(kind));
    obj_field(&mut d, key, json_str(text));
    assert(d.model() =~= seq![("type"@, jstr(kind@)), (key@, jstr(text@))]);
    let mut o = JsonObject::new();
    obj_field(&mut o, "type", json_str("content_block_delta"));
    obj_field(&mut o, "index", json_u64(index as u64));
    obj_field(&mut o, "delta", crate::json::json_object(d));
    assert(o.model() =~= block_delta_json(index, kind@, key@, text@)->Object_0);
    AnthropicSseFrame::new("content_block_delta", &crate::json::json_object(o))
}

fn text_block_value() -> (r: JsonValue)
    ensures
        r.model() == text_block_json(),
{
    let mut o = JsonObject::new();
    obj_field(&mut o, "type", json_str("text"));
    obj_field(&mut o, "text", json_str(""));
    assert(o.model() =~= text_block_json()->Object_0);
    crate::json::json_object(o)
}

fn thinking_block_value() -> (r: JsonValue)
    ensures
        r.model() == thinking_block_json(),
{
    let mut o = JsonObject::new();
    obj_field(&mut o, "type", json_str("thinking"));
    obj_field(&mut o, "thinking", json_str(""));
    obj_field(&mut o, "signature", json_str(""));
    assert(o.model() =~= thinking_block_json()->Object_0);
    crate::json::json_object(o)
}

fn tool_block_value(id: &str, name: &str) -> (r: JsonValue)
    ensures
        r.model() == tool_block_json(id@, name@),
{
    let mut o = JsonObject::new();
    obj_field(&mut o, "type", json_str("tool_use"));
    obj_field(&mut o, "id", json_str(id));
    obj_field(&mut o, "name", json_str(name));
    obj_field(&mut o, "input", crate::json::json_object(JsonObject::new()));
    assert(o.model() =~= tool_block_json(id@, name@)->Object_0);
    crate::json::json_object(o)
}

impl SseContext {
    /// A context with a fallback model name; `ResponseMeta` may replace it
    /// with the upstream model.
    pub fn with_model(model: &str) -> (r: SseContext)
        ensures
            r@ == initial_state(model@, false),
    {
        SseContext {
            model: model.to_string(),
            message_id: String::new(),
            model_pinned: false,
            started: false,
            stopped: false,
            next_index: 0,
            open: None,
            tool_block_index: HashMap::new(),
            finish_reason: None,
            usage: None,
        }
    }

    /// A context whose model is pinned: surfaced in `message_start` and
    /// never replaced by `ResponseMeta`.
    pub fn with_pinned_model(model: &str) -> (r: SseContext)
        ensures
            r@ == initial_state(model@, true),
    {
        SseContext {
            model: model.to_string(),
            message_id: String::new(),
            model_pinned: true,
            started: false,
            stopped: false,
            next_index: 0,
            open: None,
            tool_block_index: HashMap::new(),
            finish_reason: None,
            usage: None,
        }
    }

    fn ensure_started(&mut self) -> (r: Vec<AnthropicSseFrame>)
        ensures
            final(self)@ == step_started(old(self)@).0,
            frames_match(r@, step_started(old(self)@).1),
    {
        let mut out: Vec<AnthropicSseFrame> = Vec::new();
        if self.started {
            return out;
        }
        self.started = true;
        let mut usage = JsonObject::new();
        obj_field(&mut usage, "input_tokens", json_u64(0));
        obj_field(&mut usage, "output_tokens", json_u64(0));
        assert(usage.model() =~= seq![("input_tokens"@, juint(0)), ("output_tokens"@, juint(0))]);
        let content = crate::json::json_array(Vec::new());
        assert(content.model()->Array_0 =~= Seq::<Json>::empty());
        let mut m = JsonObject::new();
        obj_field(&mut m, "id", json_str(self.message_id.as_str()));
        obj_field(&mut m, "type", json_str("message"));
        obj_field(&mut m, "role", json_str("assistant"));
        obj_field(&mut m, "model", json_str(self.model.as_str()));
        obj_field(&mut m, "content", content);
        obj_field(&mut m, "stop_reason", JsonValue::Null);
        obj_field(&mut m, "stop_sequence", JsonValue::Null);
        obj_field(&mut m, "usage", crate::json::json_object(usage));
        assert(m.model() =~= seq![
            ("id"@, jstr(self.message_id@)),
            ("type"@, jstr("message"@)),
            ("role"@, jstr("assistant"@)),
            ("model"@, jstr(self.model@)),
            ("content"@, Json::Array(Seq::empty())),
            ("stop_reason"@, Json::Null),
            ("stop_sequence"@, Json::Null),
            ("usage"@, Json::Object(seq![("input_tokens"@, juint(0)), ("output_tokens"@, juint(0))])),
        ]);
        let mut o = JsonObject::new();
        obj_field(&mut o, "type", json_str("message_start"));
        obj_field(&mut o, "message", crate::json::json_object(m));
        assert(o.model() =~= message_start_json(self.message_id@, self.model@)->Object_0);
        out.push(AnthropicSseFrame::new("message_start", &crate::json::json_object(o)));
        out
    }

    fn close_open(&mut self) -> (r: Vec<AnthropicSseFrame>)
        ensures
            final(self)@ == step_close(old(self)@).0,
            frames_match(r@, step_close(old(self)@).1),
    {
        let mut out: Vec<AnthropicSseFrame> = Vec::new();
        match self.open {
            Some(b) => {
                self.open = None;
                out.push(block_stop_frame(b.index()));
            },
            None => {},
        }
        out
    }

    fn alloc_index(&mut self) -> (r: usize)
        requires
            old(self)@.next_index < usize::MAX,
        ensures
            r == old(self)@.next_index,
            final(self)@ == (SseState { next_index: (r + 1) as usize, ..old(self)@ }),
    {
        let idx = self.next_index;
        self.next_index = self.next_index + 1;
        idx
    }

    fn ensure_text_block(&mut self) -> (r: Vec<AnthropicSseFrame>)
        requires
            old(self)@.next_index < usize::MAX,
        ensures
            final(self)@ == step_text_block(old(self)@).0,
            frames_match(r@, step_text_block(old(self)@).1),
    {
        match self.open {
            Some(OpenBlock::Text(_)) => {
                return Vec::new();
            },
            _ => {},
        }
        let mut out = self.close_open();
        let idx = self.alloc_index();
        self.open = Some(OpenBlock::Text(idx));
        let ghost before = out@;
        let f = block_start_frame(idx, text_block_value());
        proof {
            lemma_frames_push(before, step_close(old(self)@).1, f, ("content_block_start"@, block_start_json(idx, text_block_json())));
        }
        out.push(f);
        out
    }

    fn ensure_thinking_block(&mut self) -> (r: Vec<AnthropicSseFrame>)
        requires
            old(self)@.next_index < usize::MAX,
        ensures
            final(self)@ == step_thinking_block(old(self)@).0,
            frames_match(r@, step_thinking_block(old(self)@).1),
    {
        match self.open {
            Some(OpenBlock::Thinking(_)) => {
                return Vec::new();
            },
            _ => {},
        }
        let mut out = self.close_open();
        let idx = self.alloc_index();
        self.open = Some(OpenBlock::Thinking(idx));
        let ghost before = out@;
        let f = block_start_frame(idx, thinking_block_value());
        proof {
            lemma_frames_push(before, step_close(old(self)@).1, f, ("content_block_start"@, block_start_json(idx, thinking_block_json())));
        }
        out.push(f);
        out
    }

    fn emit_message_delta_and_stop(&mut self) -> (r: Vec<AnthropicSseFrame>)
        ensures
            final(self)@ == step_message_stop(old(self)@).0,
            frames_match(r@, step_message_stop(old(self)@).1),
    {
        let mut out: Vec<AnthropicSseFrame> = Vec::new();
        if self.stopped {
            return out;
        }
        self.stopped = true;
        let stop_reason = match &self.finish_reason {
            Some(f) => StopReason::from_finish(finish_copy(f)),
            None => StopReason::EndTurn,
        };
        let ghost stop_text = match old(self)@.stop {
            Some(t) => t,
            None => "end_turn"@,
        };
        assert(stop_reason_text(stop_reason) == stop_text);
        let mut delta = JsonObject::new();
        obj_field(&mut delta, "stop_reason", json_str(stop_reason.as_str()));
        obj_field(&mut delta, "stop_sequence", JsonValue::Null);
        assert(delta.model() =~= seq![("stop_reason"@, jstr(stop_text)), ("stop_sequence"@, Json::Null)]);
        let usage = match &self.usage {
            Some(u) => streaming_usage_json(Some(u)),
            None => streaming_usage_json(None),
        };
        let ghost um = usage.model();
        let mut o = JsonObject::new();
        obj_field(&mut o, "type", json_str("message_delta"));
        obj_field(&mut o, "delta", crate::json::json_object(delta));
        obj_field(&mut o, "usage", usage);
        assert(o.model() =~= message_delta_json(stop_text, um)->Object_0);
        out.push(AnthropicSseFrame::new("message_delta", &crate::json::json_object(o)));
        let mut s = JsonObject::new();
        obj_field(&mut s, "type", json_str("message_stop"));
        assert(s.model() =~= message_stop_json()->Object_0);
        out.push(AnthropicSseFrame::new("message_stop", &crate::json::json_object(s)));
        out
    }
}

/// Converts one canonical stream event into the Anthropic SSE frames it
/// stands for, advancing the context. One event may open or close blocks
/// and so emit several frames; empty deltas emit none.
pub fn stream_event_to_anthropic_sse(event: &StreamEvent, ctx: &mut SseContext) -> (r: Vec<AnthropicSseFrame>)
    requires
        may_open_block(*event) ==> old(ctx)@.next_index < usize::MAX,
    ensures
        final(ctx)@ == sse_step(old(ctx)@, *event).0,
        frames_match(r@, sse_step(old(ctx)@, *event).1),
{
    match event {
        StreamEvent::ResponseMeta { id, model } => {
            ctx.message_id = id.clone();
            if !ctx.model_pinned && !model.as_str().is_empty() {
                ctx.model = model.clone();
            }
            ctx.ensure_started()
        },
        StreamEvent::ContentDelta(text) => {
            if text.as_str().is_empty() {
                return Vec::new();
            }
            let mut out = ctx.ensure_started();
            let mut o2 = ctx.ensure_text_block();
            let ghost (s1, m1) = step_started(old(ctx)@);
            let ghost (s2, m2) = step_text_block(s1);
            proof {
                lemma_frames_concat(out@, m1, o2@, m2);
            }
            out.append(&mut o2);
            let idx = match ctx.open {
                Some(b) => b.index(),
                None => 0,
            };
            let f = block_delta_frame(idx, "text_delta", "text", text.as_str());
            proof {
                lemma_frames_push(out@, m1 + m2, f, ("content_block_delta"@, block_delta_json(open_index(s2), "text_delta"@, "text"@, text@)));
                assert(m1 + m2.push(("content_block_delta"@, block_delta_json(open_index(s2), "text_delta"@, "text"@, text@))) =~= (m1 + m2).push(("content_block_delta"@, block_delta_json(open_index(s2), "text_delta"@, "text"@, text@))));
            }
            out.push(f);
            out
        },
        StreamEvent::ReasoningStart { .. } => {
            let mut out = ctx.ensure_started();
            let mut o2 = ctx.ensure_thinking_block();
            let ghost (s1, m1) = step_started(old(ctx)@);
            let ghost (s2, m2) = step_thinking_block(s1);
            proof {
                lemma_frames_concat(out@, m1, o2@, m2);
            }
            out.append(&mut o2);
            out
        },
        StreamEvent::ReasoningDelta(text) => {
            if text.as_str().is_empty() {
                return Vec::new();
            }
            let mut out = ctx.ensure_started();
            let mut o2 = ctx.ensure_thinking_block();
            let ghost (s1, m1) = step_started(old(ctx)@);
            let ghost (s2, m2) = step_thinking_block(s1);
            proof {
                lemma_frames_concat(out@, m1, o2@, m2);
            }
            out.append(&mut o2);
            let idx = match ctx.open {
                Some(b) => b.index(),
                None => 0,
            };
            let f = block_delta_frame(idx, "thinking_delta", "thinking", text.as_str());
            proof {
                lemma_frames_push(out@, m1 + m2, f, ("content_block_delta"@, block_delta_json(open_index(s2), "thinking_delta"@, "thinking"@, text@)));
                assert(m1 + m2.push(("content_block_delta"@, block_delta_json(open_index(s2), "thinking_delta"@, "thinking"@, text@))) =~= (m1 + m2).push(("content_block_delta"@, block_delta_json(open_index(s2), "thinking_delta"@, "thinking"@, text@))));
            }
            out.push(f);
            out
        },
        StreamEvent::ReasoningEnd { signature, .. } => {
            match ctx.open {
                Some(OpenBlock::Thinking(idx)) => {
                    let mut out: Vec<AnthropicSseFrame> = Vec::new();
                    if !signature.as_str().is_empty() {
                        out.push(block_delta_frame(idx, "signature_delta", "signature", signature.as_str()));
                    }
                    let ghost sig: Seq<FrameModel> = if signature@.len() > 0 {
                        seq![("content_block_delta"@, block_delta_json(idx, "signature_delta"@, "signature"@, signature@))]
                    } else {
                        Seq::empty()
                    };
                    let mut o2 = ctx.close_open();
                    proof {
                        lemma_frames_concat(out@, sig, o2@, step_close(old(ctx)@).1);
                    }
                    out.append(&mut o2);
                    out
                },
                _ => Vec::new(),
            }
        },
        StreamEvent::ReasoningSignature(signature) => {
            let mut out: Vec<AnthropicSseFrame> = Vec::new();
            match ctx.open {
                Some(OpenBlock::Thinking(idx)) => {
                    if !signature.as_str().is_empty() {
                        out.push(block_delta_frame(idx, "signature_delta", "signature", signature.as_str()));
                    }
                },
                _ => {},
            }
            out
        },
        StreamEvent::ToolCallStart { index, id, name } => {
            let mut out = ctx.ensure_started();
            let mut o2 = ctx.close_open();
            let ghost (s1, m1) = step_started(old(ctx)@);
            let ghost (s2, m2) = step_close(s1);
            proof {
                lemma_frames_concat(out@, m1, o2@, m2);
            }
            out.append(&mut o2);
            let idx = ctx.alloc_index();
            ctx.tool_block_index.insert(*index, idx);
            ctx.open = Some(OpenBlock::Tool(idx));
            let f = block_start_frame(idx, tool_block_value(id.as_str(), name.as_str()));
            proof {
                lemma_frames_push(out@, m1 + m2, f, ("content_block_start"@, block_start_json(idx, tool_block_json(id@, name@))));
                assert(m1 + m2.push(("content_block_start"@, block_start_json(idx, tool_block_json(id@, name@)))) =~= (m1 + m2).push(("content_block_start"@, block_start_json(idx, tool_block_json(id@, name@)))));
            }
            out.push(f);
            out
        },
        StreamEvent::ToolCallDelta { index, arguments } => {
            let mut out: Vec<AnthropicSseFrame> = Vec::new();
            if !arguments.as_str().is_empty() {
                match ctx.tool_block_index.get(index) {
                    Some(idx) => {
                        out.push(block_delta_frame(*idx, "input_json_delta", "partial_json", arguments.as_str()));
                    },
                    None => {},
                }
            }
            out
        },
        StreamEvent::Finish(reason) => {
            ctx.finish_reason = Some(finish_copy(reason));
            ctx.close_open()
        },
        StreamEvent::Usage(usage) => {
            ctx.usage = Some(usage_copy(usage));
            Vec::new()
        },
        StreamEvent::Done => {
            let mut out = ctx.ensure_started();
            let mut o2 = ctx.close_open();
            let mut o3 = ctx.emit_message_delta_and_stop();
            let ghost (s1, m1) = step_started(old(ctx)@);
            let ghost (s2, m2) = step_close(s1);
            let ghost (s3, m3) = step_message_stop(s2);
            proof {
                lemma_frames_concat(out@, m1, o2@, m2);
                lemma_frames_concat(out@ + o2@, m1 + m2, o3@, m3);
            }
            out.append(&mut o2);
            out.append(&mut o3);
            out
        },
    }
}


impl Default for SseContext {
    /// A context with no model name.
    fn default() -> (r: SseContext)
        ensures
            r@ == initial_state(""@, false),
    {
        SseContext::with_model("")
    }
}

// ─── Laws ───────────────────────────────────────────────────────────────────

/// Block bookkeeping is consistent: the open block and every tool call's
/// block have indices below the next index to assign.
pub open spec fn sse_state_wf(s: SseState) -> bool {
    &&& (s.open matches Some(b) ==> b.spec_index() < s.next_index)
    &&& forall|k: u32| #[trigger] s.tool_blocks.contains_key(k) ==> s.tool_blocks[k] < s.next_index
}

/// A fresh context is well formed.
pub proof fn lemma_initial_state_wf(model: Seq<char>, pinned: bool)
    ensures
        sse_state_wf(initial_state(model, pinned)),
{
}

/// Every event keeps the bookkeeping consistent, and block indices are
/// never reused: the next index to assign never decreases.
pub proof fn lemma_step_keeps_wf(s: SseState, e: StreamEvent)
    requires
        sse_state_wf(s),
        may_open_block(e) ==> s.next_index < usize::MAX,
    ensures
        sse_state_wf(sse_step(s, e).0),
        sse_step(s, e).0.next_index >= s.next_index,
{
    let t = sse_step(s, e).0;
    match e {
        StreamEvent::ToolCallStart { index, id, name } => {
            assert forall|k: u32| #[trigger] t.tool_blocks.contains_key(k) implies t.tool_blocks[k] < t.next_index by {
                if k != index {
                    assert(s.tool_blocks.contains_key(k));
                }
            }
        },
        _ => {},
    }
}

/// A second `Done` emits nothing and leaves the state as it was: the
/// message is closed exactly once.
pub proof fn lemma_done_is_idempotent(s: SseState)
    ensures
        sse_step(sse_step(s, StreamEvent::Done).0, StreamEvent::Done).1.len() == 0,
        sse_step(sse_step(s, StreamEvent::Done).0, StreamEvent::Done).0 == sse_step(s, StreamEvent::Done).0,
        sse_step(s, StreamEvent::Done).0.stopped,
        sse_step(s, StreamEvent::Done).0.open is None,
{
}

/// A pinned model is never replaced, and stays pinned.
pub proof fn lemma_pinned_model_kept(s: SseState, e: StreamEvent)
    requires
        s.pinned,
    ensures
        sse_step(s, e).0.model == s.model,
        sse_step(s, e).0.pinned,
{
}

/// Once the message has started it stays started, and no event emits a
/// second `message_start`.
pub proof fn lemma_message_start_once(s: SseState, e: StreamEvent)
    requires
        s.started,
    ensures
        sse_step(s, e).0.started,
        forall|i: int| 0 <= i < sse_step(s, e).1.len() ==> #[trigger] sse_step(s, e).1[i].0 != "message_start"@,
{
    reveal_strlit("message_start");
    reveal_strlit("content_block_start");
    reveal_strlit("content_block_delta");
    reveal_strlit("content_block_stop");
    reveal_strlit("message_delta");
    reveal_strlit("message_stop");
    let out = sse_step(s, e).1;
    let ms = "message_start"@;
    let names = seq!["content_block_start"@, "content_block_delta"@, "content_block_stop"@, "message_delta"@, "message_stop"@];
    assert(names[0].len() != ms.len());
    assert(names[1].len() != ms.len());
    assert(names[2].len() != ms.len());
    assert(names[3][8] != ms[8]);
    assert(names[4].len() != ms.len());
    assert(!names.contains(ms));
    assert forall|i: int| 0 <= i < out.len() implies #[trigger] out[i].0 != "message_start"@ by {
        assert(names.contains(out[i].0)) by {
            match e {
                StreamEvent::ContentDelta(text) => {
                    let (s2, o2) = step_text_block(s);
                    if text@.len() > 0 {
                        assert(out =~= o2.push(("content_block_delta"@, block_delta_json(open_index(s2), "text_delta"@, "text"@, text@))));
                        if i < o2.len() {
                            if o2.len() == 2 {
                                assert(i == 0 ==> out[i].0 == names[2]);
                                assert(i == 1 ==> out[i].0 == names[0]);
                            } else if o2.len() == 1 {
                                assert(out[i].0 == names[0]);
                            }
                        } else {
                            assert(out[i].0 == names[1]);
                        }
                    }
                },
                StreamEvent::ReasoningStart { .. } => {
                    let (s2, o2) = step_thinking_block(s);
                    assert(out =~= o2);
                    if o2.len() == 2 {
                        assert(i == 0 ==> out[i].0 == names[2]);
                        assert(i == 1 ==> out[i].0 == names[0]);
                    } else if o2.len() == 1 {
                        assert(out[i].0 == names[0]);
                    }
                },
                StreamEvent::ReasoningDelta(text) => {
                    let (s2, o2) = step_thinking_block(s);
                    if text@.len() > 0 {
                        assert(out =~= o2.push(("content_block_delta"@, block_delta_json(open_index(s2), "thinking_delta"@, "thinking"@, text@))));
                        if i < o2.len() {
                            if o2.len() == 2 {
                                assert(i == 0 ==> out[i].0 == names[2]);
                                assert(i == 1 ==> out[i].0 == names[0]);
                            } else if o2.len() == 1 {
                                assert(out[i].0 == names[0]);
                            }
                        } else {
                            assert(out[i].0 == names[1]);
                        }
                    }
                },
                StreamEvent::ReasoningEnd { signature, .. } => {
                    if s.open matches Some(OpenBlock::Thinking(_)) {
                        if signature@.len() > 0 {
                            assert(i == 0 ==> out[i].0 == names[1]);
                            assert(i == 1 ==> out[i].0 == names[2]);
                        } else {
                            assert(out[i].0 == names[2]);
                        }
                    }
                },
                StreamEvent::ReasoningSignature(_) => {
                    assert(out[i].0 == names[1]);
                },
                StreamEvent::ToolCallStart { index, id, name } => {
                    let (s2, o2) = step_close(s);
                    assert(out =~= o2.push(("content_block_start"@, block_start_json(s2.next_index, tool_block_json(id@, name@)))));
                    if i < o2.len() {
                        assert(out[i].0 == names[2]);
                    } else {
                        assert(out[i].0 == names[0]);
                    }
                },
                StreamEvent::ToolCallDelta { .. } => {
                    assert(out[i].0 == names[1]);
                },
                StreamEvent::Finish(_) => {
                    assert(out[i].0 == names[2]);
                },
                StreamEvent::Done => {
                    let (s2, o2) = step_close(s);
                    let (s3, o3) = step_message_stop(s2);
                    assert(out =~= o2 + o3);
                    if i < o2.len() {
                        assert(out[i].0 == names[2]);
                    } else if i == o2.len() {
                        assert(out[i].0 == names[3]);
                    } else {
                        assert(out[i].0 == names[4]);
                    }
                },
                _ => {},
            }
        }
    }
}

// ─── Content-block discipline ───────────────────────────────────────────────

/// Whether a content block is open after `frames`, starting from `open0`.
pub open spec fn open_after(open0: bool, frames: Seq<FrameModel>) -> bool
    decreases frames.len(),
{
    if frames.len() == 0 {
        open0
    } else if frames.last().0 == "content_block_start"@ {
        true
    } else if frames.last().0 == "content_block_stop"@ {
        false
    } else {
        open_after(open0, frames.drop_last())
    }
}

/// The frames open a block only when none is open, and close one only when
/// one is open.
pub open spec fn blocks_balanced(open0: bool, frames: Seq<FrameModel>) -> bool
    decreases frames.len(),
{
    if frames.len() == 0 {
        true
    } else {
        &&& blocks_balanced(open0, frames.drop_last())
        &&& (frames.last().0 == "content_block_start"@ ==> !open_after(open0, frames.drop_last()))
        &&& (frames.last().0 == "content_block_stop"@ ==> open_after(open0, frames.drop_last()))
    }
}

proof fn lemma_frame_names_distinct()
    ensures
        "content_block_start"@ != "content_block_stop"@,
        "content_block_delta"@ != "content_block_start"@,
        "content_block_delta"@ != "content_block_stop"@,
        "message_start"@ != "content_block_start"@,
        "message_start"@ != "content_block_stop"@,
        "message_delta"@ != "content_block_start"@,
        "message_delta"@ != "content_block_stop"@,
        "message_stop"@ != "content_block_start"@,
        "message_stop"@ != "content_block_stop"@,
{
    reveal_strlit("content_block_start");
    reveal_strlit("content_block_stop");
    reveal_strlit("content_block_delta");
    reveal_strlit("message_start");
    reveal_strlit("message_delta");
    reveal_strlit("message_stop");
    assert("content_block_start"@.len() == 19 && "content_block_stop"@.len() == 18);
    assert("content_block_delta"@.len() == 19 && "message_stop"@.len() == 12);
    assert("message_start"@.len() == 13 && "message_delta"@.len() == 13);
    assert("content_block_start"@[14] != "content_block_delta"@[14]);
    assert("message_start"@[0] != "content_block_start"@[0]);
    assert("message_delta"@[0] != "content_block_start"@[0]);
}

proof fn lemma_blocks_concat(o: bool, a: Seq<FrameModel>, b: Seq<FrameModel>)
    ensures
        open_after(o, a + b) == open_after(open_after(o, a), b),
        blocks_balanced(o, a + b) == (blocks_balanced(o, a) && blocks_balanced(open_after(o, a), b)),
    decreases b.len(),
{
    if b.len() == 0 {
        assert(a + b =~= a);
    } else {
        assert((a + b).drop_last() =~= a + b.drop_last());
        assert((a + b).last() == b.last());
        lemma_blocks_concat(o, a, b.drop_last());
    }
}

/// Frames that neither open nor close a block.
pub open spec fn no_block_frames(frames: Seq<FrameModel>) -> bool {
    forall|i: int| 0 <= i < frames.len() ==> #[trigger] frames[i].0 != "content_block_start"@ && frames[i].0 != "content_block_stop"@
}

proof fn lemma_no_block_frames(o: bool, f: Seq<FrameModel>)
    requires
        no_block_frames(f),
    ensures
        open_after(o, f) == o,
        blocks_balanced(o, f),
    decreases f.len(),
{
    if f.len() > 0 {
        assert(f.last() == f[f.len() - 1]);
        lemma_no_block_frames(o, f.drop_last());
    }
}

proof fn lemma_started_no_blocks(s: SseState)
    ensures
        no_block_frames(step_started(s).1),
        step_started(s).0.open == s.open,
{
    lemma_frame_names_distinct();
}

proof fn lemma_close_balanced(s: SseState)
    ensures
        blocks_balanced(s.open is Some, step_close(s).1),
        !open_after(s.open is Some, step_close(s).1),
        step_close(s).0.open is None,
{
    lemma_frame_names_distinct();
    let f = step_close(s).1;
    if s.open is Some {
        assert(f.len() == 1);
        assert(f.drop_last() =~= Seq::<FrameModel>::empty());
        assert(f.last().0 == "content_block_stop"@);
        assert(open_after(true, f.drop_last()));
        assert(blocks_balanced(true, f.drop_last()));
    }
}

proof fn lemma_push_plain(x: bool, f: Seq<FrameModel>, d: FrameModel)
    requires
        d.0 != "content_block_start"@,
        d.0 != "content_block_stop"@,
    ensures
        open_after(x, f.push(d)) == open_after(x, f),
        blocks_balanced(x, f.push(d)) == blocks_balanced(x, f),
{
    assert(f.push(d).drop_last() =~= f);
    assert(f.push(d).last() == d);
}

/// Opening a block after closing the open one.
proof fn lemma_close_then_start(s: SseState, start: FrameModel)
    requires
        start.0 == "content_block_start"@,
    ensures
        blocks_balanced(s.open is Some, step_close(s).1.push(start)),
        open_after(s.open is Some, step_close(s).1.push(start)),
{
    lemma_frame_names_distinct();
    lemma_close_balanced(s);
    let f = step_close(s).1;
    assert(f.push(start).drop_last() =~= f);
    assert(f.push(start).last() == start);
}

/// The frames of every event keep the Anthropic content-block discipline: a
/// `content_block_start` is only emitted while no block is open (the open
/// one is closed first), a `content_block_stop` only while one is open, and
/// afterwards a block is open exactly when the state records one.
pub proof fn lemma_step_keeps_block_discipline(s: SseState, e: StreamEvent)
    ensures
        blocks_balanced(s.open is Some, sse_step(s, e).1),
        open_after(s.open is Some, sse_step(s, e).1) == (sse_step(s, e).0.open is Some),
{
    lemma_frame_names_distinct();
    let o = s.open is Some;
    let (s1, o1) = step_started(s);
    lemma_started_no_blocks(s);
    lemma_no_block_frames(o, o1);
    match e {
        StreamEvent::ResponseMeta { id, model } => {
            let s0 = SseState { message_id: id@, model: if !s.pinned && model@.len() > 0 { model@ } else { s.model }, ..s };
            lemma_started_no_blocks(s0);
            lemma_no_block_frames(o, step_started(s0).1);
            assert(sse_step(s, e) == step_started(s0));
            assert(s0.open == s.open);
        },
        StreamEvent::ContentDelta(text) => {
            if text@.len() > 0 {
                let (s2, o2) = step_text_block(s1);
                let d: FrameModel = ("content_block_delta"@, block_delta_json(open_index(s2), "text_delta"@, "text"@, text@));
                match s1.open {
                    Some(OpenBlock::Text(_)) => {},
                    _ => {
                        let c = step_close(s1);
                        let st: FrameModel = ("content_block_start"@, block_start_json(c.0.next_index, text_block_json()));
                        lemma_close_then_start(s1, st);
                    },
                }
                lemma_push_plain(open_after(o, o1), o2, d);
                lemma_blocks_concat(o, o1, o2.push(d));
            }
        },
        StreamEvent::ReasoningStart { .. } => {
            let (s2, o2) = step_thinking_block(s1);
            match s1.open {
                Some(OpenBlock::Thinking(_)) => {},
                _ => {
                    let c = step_close(s1);
                    let st: FrameModel = ("content_block_start"@, block_start_json(c.0.next_index, thinking_block_json()));
                    lemma_close_then_start(s1, st);
                },
            }
            lemma_blocks_concat(o, o1, o2);
        },
        StreamEvent::ReasoningDelta(text) => {
            if text@.len() > 0 {
                let (s2, o2) = step_thinking_block(s1);
                let d: FrameModel = ("content_block_delta"@, block_delta_json(open_index(s2), "thinking_delta"@, "thinking"@, text@));
                match s1.open {
                    Some(OpenBlock::Thinking(_)) => {},
                    _ => {
                        let c = step_close(s1);
                        let st: FrameModel = ("content_block_start"@, block_start_json(c.0.next_index, thinking_block_json()));
                        lemma_close_then_start(s1, st);
                    },
                }
                lemma_push_plain(open_after(o, o1), o2, d);
                lemma_blocks_concat(o, o1, o2.push(d));
            }
        },
        StreamEvent::ReasoningEnd { signature, .. } => {
            match s.open {
                Some(OpenBlock::Thinking(idx)) => {
                    let sig: Seq<FrameModel> = if signature@.len() > 0 {
                        seq![("content_block_delta"@, block_delta_json(idx, "signature_delta"@, "signature"@, signature@))]
                    } else {
                        Seq::empty()
                    };
                    assert(no_block_frames(sig));
                    lemma_no_block_frames(o, sig);
                    lemma_close_balanced(s);
                    lemma_blocks_concat(o, sig, step_close(s).1);
                },
                _ => {},
            }
        },
        StreamEvent::ReasoningSignature(signature) => {
            match s.open {
                Some(OpenBlock::Thinking(idx)) => {
                    if signature@.len() > 0 {
                        let f = seq![("content_block_delta"@, block_delta_json(idx, "signature_delta"@, "signature"@, signature@))];
                        assert(no_block_frames(f));
                        lemma_no_block_frames(o, f);
                    }
                },
                _ => {},
            }
        },
        StreamEvent::ToolCallStart { index, id, name } => {
            let (s2, o2) = step_close(s1);
            let st: FrameModel = ("content_block_start"@, block_start_json(s2.next_index, tool_block_json(id@, name@)));
            lemma_close_then_start(s1, st);
            lemma_blocks_concat(o, o1, o2.push(st));
        },
        StreamEvent::ToolCallDelta { index, arguments } => {
            if arguments@.len() > 0 && s.tool_blocks.contains_key(index) {
                let f = seq![("content_block_delta"@, block_delta_json(s.tool_blocks[index], "input_json_delta"@, "partial_json"@, arguments@))];
                assert(no_block_frames(f));
                lemma_no_block_frames(o, f);
            }
        },
        StreamEvent::Finish(reason) => {
            lemma_close_balanced(SseState { stop: Some(stop_text_of(reason)), ..s });
        },
        StreamEvent::Usage(u) => {},
        StreamEvent::Done => {
            let (s2, o2) = step_close(s1);
            let (s3, o3) = step_message_stop(s2);
            lemma_close_balanced(s1);
            assert(no_block_frames(o3));
            lemma_no_block_frames(false, o3);
            lemma_blocks_concat(o, o1, o2);
            lemma_blocks_concat(o, o1 + o2, o3);
        },
    }
}

// ─── Whole event sequences ──────────────────────────────────────────────────

/// The state and frames after feeding `events`, in order, from `s`.
pub open spec fn sse_run(s: SseState, events: Seq<StreamEvent>) -> (SseState, Seq<FrameModel>)
    decreases events.len(),
{
    if events.len() == 0 {
        (s, Seq::empty())
    } else {
        let (t, f) = sse_run(s, events.drop_last());
        let (u, g) = sse_step(t, events.last());
        (u, f + g)
    }
}

/// Over any sequence of events, the frames keep the content-block
/// discipline: no block is started while another is open, none is stopped
/// while none is open, and at the end a block is open exactly when the state
/// records one.
pub proof fn lemma_run_keeps_block_discipline(s: SseState, events: Seq<StreamEvent>)
    ensures
        blocks_balanced(s.open is Some, sse_run(s, events).1),
        open_after(s.open is Some, sse_run(s, events).1) == (sse_run(s, events).0.open is Some),
    decreases events.len(),
{
    if events.len() > 0 {
        let (t, f) = sse_run(s, events.drop_last());
        lemma_run_keeps_block_discipline(s, events.drop_last());
        lemma_step_keeps_block_discipline(t, events.last());
        lemma_blocks_concat(s.open is Some, f, sse_step(t, events.last()).1);
    }
}

/// Once the message has started, no sequence of events emits another
/// `message_start`, and the message stays started.
pub proof fn lemma_run_message_start_once(s: SseState, events: Seq<StreamEvent>)
    requires
        s.started,
    ensures
        sse_run(s, events).0.started,
        forall|i: int| 0 <= i < sse_run(s, events).1.len() ==> #[trigger] sse_run(s, events).1[i].0 != "message_start"@,
    decreases events.len(),
{
    if events.len() > 0 {
        let (t, f) = sse_run(s, events.drop_last());
        lemma_run_message_start_once(s, events.drop_last());
        lemma_message_start_once(t, events.last());
        let g = sse_step(t, events.last()).1;
        assert forall|i: int| 0 <= i < (f + g).len() implies #[trigger] (f + g)[i].0 != "message_start"@ by {
            if i < f.len() {
                assert((f + g)[i] == f[i]);
            } else {
                assert((f + g)[i] == g[i - f.len()]);
            }
        }
    }
}

// ─── Block indices ──────────────────────────────────────────────────────────

/// The open block's index, if any.
pub open spec fn open_of(s: SseState) -> Option<int> {
    match s.open {
        Some(b) => Some(b.spec_index() as int),
        None => None,
    }
}

/// The open block index and the next index to start after `frames`, from
/// `open0` and `next0`: a start opens the next index, a stop closes.
pub open spec fn block_track(open0: Option<int>, next0: int, frames: Seq<FrameModel>) -> (Option<int>, int)
    decreases frames.len(),
{
    if frames.len() == 0 {
        (open0, next0)
    } else {
        let (o, n) = block_track(open0, next0, frames.drop_last());
        if frames.last().0 == "content_block_start"@ {
            (Some(n), n + 1)
        } else if frames.last().0 == "content_block_stop"@ {
            (None, n)
        } else {
            (o, n)
        }
    }
}

/// Every `content_block_start` comes while no block is open and carries the
/// next index (so starts run `next0`, `next0 + 1`, ...), and every
/// `content_block_stop` names the block that is open (so each started block
/// is stopped at most once).
pub open spec fn block_indices_ok(open0: Option<int>, next0: int, frames: Seq<FrameModel>) -> bool
    decreases frames.len(),
{
    if frames.len() == 0 {
        true
    } else {
        let (o, n) = block_track(open0, next0, frames.drop_last());
        let f = frames.last();
        &&& block_indices_ok(open0, next0, frames.drop_last())
        &&& (f.0 == "content_block_start"@ ==> o is None && exists|b: Json| f.1 == #[trigger] block_start_json(n as usize, b))
        &&& (f.0 == "content_block_stop"@ ==> o is Some && f.1 == block_stop_json(o->0 as usize))
    }
}

proof fn lemma_track_concat(o: Option<int>, n: int, a: Seq<FrameModel>, b: Seq<FrameModel>)
    ensures
        block_track(o, n, a + b) == block_track(block_track(o, n, a).0, block_track(o, n, a).1, b),
        block_indices_ok(o, n, a + b) == (block_indices_ok(o, n, a)
            && block_indices_ok(block_track(o, n, a).0, block_track(o, n, a).1, b)),
    decreases b.len(),
{
    if b.len() == 0 {
        assert(a + b =~= a);
    } else {
        assert((a + b).drop_last() =~= a + b.drop_last());
        assert((a + b).last() == b.last());
        lemma_track_concat(o, n, a, b.drop_last());
    }
}

proof fn lemma_track_plain(o: Option<int>, n: int, f: Seq<FrameModel>)
    requires
        no_block_frames(f),
    ensures
        block_track(o, n, f) == (o, n),
        block_indices_ok(o, n, f),
    decreases f.len(),
{
    if f.len() > 0 {
        assert(f.last() == f[f.len() - 1]);
        lemma_track_plain(o, n, f.drop_last());
    }
}

proof fn lemma_track_push_plain(o: Option<int>, n: int, f: Seq<FrameModel>, d: FrameModel)
    requires
        d.0 != "content_block_start"@,
        d.0 != "content_block_stop"@,
    ensures
        block_track(o, n, f.push(d)) == block_track(o, n, f),
        block_indices_ok(o, n, f.push(d)) == block_indices_ok(o, n, f),
{
    assert(f.push(d).drop_last() =~= f);
    assert(f.push(d).last() == d);
}

proof fn lemma_track_close(s: SseState)
    ensures
        block_indices_ok(open_of(s), s.next_index as int, step_close(s).1),
        block_track(open_of(s), s.next_index as int, step_close(s).1) == (None::<int>, s.next_index as int),
        step_close(s).0.next_index == s.next_index,
        step_close(s).0.open is None,
{
    lemma_frame_names_distinct();
    let f = step_close(s).1;
    if s.open is Some {
        let e = Seq::<FrameModel>::empty();
        assert(f.drop_last() =~= e);
        assert(f.last().0 == "content_block_stop"@);
        assert(block_track(open_of(s), s.next_index as int, e) == (open_of(s), s.next_index as int));
        assert(block_indices_ok(open_of(s), s.next_index as int, e));
        let k = s.open->0.spec_index();
        assert(f.last().1 == block_stop_json(((k as int) as usize)));
    } else {
        assert(f =~= Seq::<FrameModel>::empty());
    }
}

/// Closing the open block, then starting a new one at the next index.
proof fn lemma_track_close_then_start(s: SseState, b: Json)
    ensures
        ({
            let f = step_close(s).1.push(("content_block_start"@, block_start_json(s.next_index, b)));
            &&& block_indices_ok(open_of(s), s.next_index as int, f)
            &&& block_track(open_of(s), s.next_index as int, f) == (Some(s.next_index as int), s.next_index + 1)
        }),
{
    lemma_frame_names_distinct();
    lemma_track_close(s);
    let st: FrameModel = ("content_block_start"@, block_start_json(s.next_index, b));
    let f = step_close(s).1;
    assert(f.push(st).drop_last() =~= f);
    assert(f.push(st).last() == st);
    assert(st.1 == block_start_json((s.next_index as int) as usize, b));
}

/// Each event's frames start blocks at the state's next index, in order,
/// and stop only the open block; afterwards the state's open block and next
/// index are what the frames leave.
pub proof fn lemma_step_block_indices(s: SseState, e: StreamEvent)
    requires
        may_open_block(e) ==> s.next_index < usize::MAX,
    ensures
        block_indices_ok(open_of(s), s.next_index as int, sse_step(s, e).1),
        block_track(open_of(s), s.next_index as int, sse_step(s, e).1)
            == (open_of(sse_step(s, e).0), sse_step(s, e).0.next_index as int),
        sse_step(s, e).0.next_index <= s.next_index + 1,
{
    lemma_frame_names_distinct();
    let o = open_of(s);
    let n = s.next_index as int;
    let (s1, o1) = step_started(s);
    lemma_started_no_blocks(s);
    lemma_track_plain(o, n, o1);
    match e {
        StreamEvent::ResponseMeta { id, model } => {
            let s0 = SseState { message_id: id@, model: if !s.pinned && model@.len() > 0 { model@ } else { s.model }, ..s };
            lemma_started_no_blocks(s0);
            lemma_track_plain(o, n, step_started(s0).1);
            assert(sse_step(s, e) == step_started(s0));
        },
        StreamEvent::ContentDelta(text) => {
            if text@.len() > 0 {
                let (s2, o2) = step_text_block(s1);
                let d: FrameModel = ("content_block_delta"@, block_delta_json(open_index(s2), "text_delta"@, "text"@, text@));
                match s1.open {
                    Some(OpenBlock::Text(_)) => {
                        lemma_track_plain(o, n, o2);
                    },
                    _ => {
                        lemma_track_close_then_start(s1, text_block_json());
                    },
                }
                lemma_track_push_plain(o, n, o2, d);
                lemma_track_concat(o, n, o1, o2.push(d));
            }
        },
        StreamEvent::ReasoningStart { .. } => {
            let (s2, o2) = step_thinking_block(s1);
            match s1.open {
                Some(OpenBlock::Thinking(_)) => {
                    lemma_track_plain(o, n, o2);
                },
                _ => {
                    lemma_track_close_then_start(s1, thinking_block_json());
                },
            }
            lemma_track_concat(o, n, o1, o2);
        },
        StreamEvent::ReasoningDelta(text) => {
            if text@.len() > 0 {
                let (s2, o2) = step_thinking_block(s1);
                let d: FrameModel = ("content_block_delta"@, block_delta_json(open_index(s2), "thinking_delta"@, "thinking"@, text@));
                match s1.open {
                    Some(OpenBlock::Thinking(_)) => {
                        lemma_track_plain(o, n, o2);
                    },
                    _ => {
                        lemma_track_close_then_start(s1, thinking_block_json());
                    },
                }
                lemma_track_push_plain(o, n, o2, d);
                lemma_track_concat(o, n, o1, o2.push(d));
            }
        },
        StreamEvent::ReasoningEnd { signature, .. } => {
            match s.open {
                Some(OpenBlock::Thinking(idx)) => {
                    let sig: Seq<FrameModel> = if signature@.len() > 0 {
                        seq![("content_block_delta"@, block_delta_json(idx, "signature_delta"@, "signature"@, signature@))]
                    } else {
                        Seq::empty()
                    };
                    assert(no_block_frames(sig));
                    lemma_track_plain(o, n, sig);
                    lemma_track_close(s);
                    lemma_track_concat(o, n, sig, step_close(s).1);
                },
                _ => {
                    lemma_track_plain(o, n, Seq::<FrameModel>::empty());
                },
            }
        },
        StreamEvent::ReasoningSignature(signature) => {
            match s.open {
                Some(OpenBlock::Thinking(idx)) => {
                    if signature@.len() > 0 {
                        let f = seq![("content_block_delta"@, block_delta_json(idx, "signature_delta"@, "signature"@, signature@))];
                        assert(no_block_frames(f));
                        lemma_track_plain(o, n, f);
                    }
                },
                _ => {},
            }
        },
        StreamEvent::ToolCallStart { index, id, name } => {
            let (s2, o2) = step_close(s1);
            let st: FrameModel = ("content_block_start"@, block_start_json(s2.next_index, tool_block_json(id@, name@)));
            lemma_track_close_then_start(s1, tool_block_json(id@, name@));
            lemma_track_concat(o, n, o1, o2.push(st));
        },
        StreamEvent::ToolCallDelta { index, arguments } => {
            if arguments@.len() > 0 && s.tool_blocks.contains_key(index) {
                let f = seq![("content_block_delta"@, block_delta_json(s.tool_blocks[index], "input_json_delta"@, "partial_json"@, arguments@))];
                assert(no_block_frames(f));
                lemma_track_plain(o, n, f);
            }
        },
        StreamEvent::Finish(reason) => {
            let s0 = SseState { stop: Some(stop_text_of(reason)), ..s };
            lemma_track_close(s0);
            assert(open_of(s0) == o);
        },
        StreamEvent::Usage(u) => {},
        StreamEvent::Done => {
            let (s2, o2) = step_close(s1);
            let (s3, o3) = step_message_stop(s2);
            lemma_track_close(s1);
            assert(no_block_frames(o3));
            lemma_track_plain(None, n, o3);
            lemma_track_concat(o, n, o1, o2);
            lemma_track_concat(o, n, o1 + o2, o3);
        },
    }
}

/// Over any run of events, `content_block_start` indices run on from the
/// state's next index, one by one (from a fresh context: 0, 1, 2, ...), each
/// start comes while no block is open, and each `content_block_stop` names
/// the latest started block, once. The state ends with the open block and
/// next index that the frames leave.
pub proof fn lemma_run_block_indices(s: SseState, events: Seq<StreamEvent>)
    requires
        s.next_index + events.len() < usize::MAX,
    ensures
        block_indices_ok(open_of(s), s.next_index as int, sse_run(s, events).1),
        block_track(open_of(s), s.next_index as int, sse_run(s, events).1)
            == (open_of(sse_run(s, events).0), sse_run(s, events).0.next_index as int),
        sse_run(s, events).0.next_index <= s.next_index + events.len(),
    decreases events.len(),
{
    if events.len() > 0 {
        let (t, f) = sse_run(s, events.drop_last());
        lemma_run_block_indices(s, events.drop_last());
        lemma_step_block_indices(t, events.last());
        lemma_track_concat(open_of(s), s.next_index as int, f, sse_step(t, events.last()).1);
    }
}

} // verus!
