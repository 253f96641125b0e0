//! Stream translation: Anthropic SSE events → canonical `StreamEvent`s.

use crate::anthropic::types::{
    ContentBlock, ContentDelta, StopReason, StreamEvent as AnthropicStreamEvent, TypedContentBlock,
};
use crate::canonical::error::TranslateError;
use crate::anthropic::native_response::stop_of_finish;
use crate::canonical::model::{finish_reason_text, FinishReason, StreamEvent, Usage};
use crate::json::JsonObject;
use vstd::prelude::*;

verus! {

/// The canonical finish reason of an Anthropic stop reason.
pub open spec fn finish_reason_of(r: StopReason) -> FinishReason {
    match r {
        StopReason::EndTurn => FinishReason::Stop,
        StopReason::StopSequence => FinishReason::Stop,
        StopReason::MaxTokens => FinishReason::Length,
        StopReason::ToolUse => FinishReason::ToolCalls,
        StopReason::Other(s) => FinishReason::Unknown(s),
    }
}

impl From<StopReason> for FinishReason {
    fn from(reason: StopReason) -> (r: FinishReason) {
        match reason {
            StopReason::EndTurn | StopReason::StopSequence => FinishReason::Stop,
            StopReason::MaxTokens => FinishReason::Length,
            StopReason::ToolUse => FinishReason::ToolCalls,
            StopReason::Other(s) => FinishReason::Unknown(s),
        }
    }
}

impl vstd::std_specs::convert::FromSpecImpl<StopReason> for FinishReason {
    open spec fn obeys_from_spec() -> bool {
        true
    }

    open spec fn from_spec(reason: StopReason) -> FinishReason {
        finish_reason_of(reason)
    }
}

/// Stateful parser for Anthropic SSE streams.
#[derive(Debug, PartialEq)]
pub struct AnthropicStreamParser {
    tool_call_index: u32,
    input_tokens: Option<u64>,
    done: bool,
}

/// Whether a decoded event opens a `tool_use` content block.
pub open spec fn opens_tool_use(event: AnthropicStreamEvent) -> bool {
    event matches AnthropicStreamEvent::ContentBlockStart {
        content_block: ContentBlock::Typed(TypedContentBlock::ToolUse { .. }),
        ..
    }
}

/// What translating one decoded event does: the result and the parser's
/// next state.
pub open spec fn native_translated(old_p: AnthropicStreamParser, event: AnthropicStreamEvent, r: Result<Vec<StreamEvent>, TranslateError>, new_p: AnthropicStreamParser) -> bool {
    match event {
        AnthropicStreamEvent::MessageStart { message } => {
            &&& r matches Ok(v) && v@ == seq![StreamEvent::ResponseMeta { id: message.id, model: message.model }]
            &&& new_p.seen_input_tokens() == Some(message.usage.input_tokens)
            &&& new_p.tool_calls_started() == old_p.tool_calls_started()
            &&& new_p.is_done() == old_p.is_done()
        },
        AnthropicStreamEvent::ContentBlockStart { content_block, .. } => {
            &&& match content_block {
                ContentBlock::Typed(TypedContentBlock::ToolUse { id, name, .. }) => {
                    &&& r matches Ok(v) && v@ == seq![StreamEvent::ToolCallStart {
                        index: old_p.tool_calls_started(),
                        id,
                        name,
                    }]
                    &&& new_p.tool_calls_started() == old_p.tool_calls_started() + 1
                },
                _ => {
                    &&& r matches Ok(v) && v@.len() == 0
                    &&& new_p.tool_calls_started() == old_p.tool_calls_started()
                },
            }
            &&& new_p.seen_input_tokens() == old_p.seen_input_tokens()
            &&& new_p.is_done() == old_p.is_done()
        },
        AnthropicStreamEvent::ContentBlockDelta { delta, .. } => {
            &&& match delta {
                ContentDelta::TextDelta { text } => r matches Ok(v) && v@ == seq![
                    StreamEvent::ContentDelta(text),
                ],
                ContentDelta::InputJsonDelta { partial_json } => r matches Ok(v) && v@
                    == seq![
                    StreamEvent::ToolCallDelta {
                        index: if old_p.tool_calls_started() == 0 {
                            0
                        } else {
                            (old_p.tool_calls_started() - 1) as u32
                        },
                        arguments: partial_json,
                    },
                ],
                _ => r matches Ok(v) && v@.len() == 0,
            }
            &&& new_p == old_p
        },
        AnthropicStreamEvent::MessageDelta { delta, usage } => {
            let input = match old_p.seen_input_tokens() {
                Some(n) => n,
                None => 0,
            };
            &&& r matches Ok(v) && match delta.stop_reason {
                Some(reason) => v@.len() == 2 && v@[0] == StreamEvent::Finish(finish_reason_of(reason))
                    && v@[1] is Usage && usage_matches(v@[1], input, usage.output_tokens),
                None => v@.len() == 1 && usage_matches(v@[0], input, usage.output_tokens),
            }
            &&& new_p == old_p
        },
        AnthropicStreamEvent::MessageStop => {
            &&& r matches Ok(v) && v@ == seq![StreamEvent::Done]
            &&& new_p.is_done()
            &&& new_p.tool_calls_started() == old_p.tool_calls_started()
            &&& new_p.seen_input_tokens() == old_p.seen_input_tokens()
        },
        AnthropicStreamEvent::Error { error } => {
            &&& r matches Err(TranslateError::StreamParse { message }) && message@ == "Anthropic stream error: ["@
                + error.kind@ + "] "@ + error.message@
            &&& new_p == old_p
        },
        _ => {
            &&& r matches Ok(v) && v@.len() == 0
            &&& new_p == old_p
        },
    }
}

impl AnthropicStreamParser {
    /// Number of tool calls started so far.
    pub closed spec fn tool_calls_started(&self) -> u32 {
        self.tool_call_index
    }

    /// Input tokens reported by `message_start`, if seen.
    pub closed spec fn seen_input_tokens(&self) -> Option<u64> {
        self.input_tokens
    }

    /// Whether `Done` has been emitted.
    pub closed spec fn is_done(&self) -> bool {
        self.done
    }

    /// Number of tool calls started so far.
    pub fn tool_call_count(&self) -> (r: u32)
        ensures
            r == self.tool_calls_started(),
    {
        self.tool_call_index
    }

    /// Input tokens reported by `message_start`, if seen.
    pub fn input_tokens(&self) -> (r: Option<u64>)
        ensures
            r == self.seen_input_tokens(),
    {
        self.input_tokens
    }

    /// Whether `Done` has been emitted.
    pub fn done(&self) -> (r: bool)
        ensures
            r == self.is_done(),
    {
        self.done
    }

    /// A parser at the start of a stream.
    pub fn new() -> (r: AnthropicStreamParser)
        ensures
            r.tool_calls_started() == 0,
            r.seen_input_tokens() is None,
            !r.is_done(),
    {
        AnthropicStreamParser { tool_call_index: 0, input_tokens: None, done: false }
    }

    /// Translates one decoded Anthropic event into canonical events.
    ///
    /// `message_start` yields `ResponseMeta` and remembers the input tokens;
    /// a `tool_use` block start yields `ToolCallStart` with the next tool
    /// index; text and input-JSON deltas yield `ContentDelta` and
    /// `ToolCallDelta` (for the latest tool call); `message_delta` yields
    /// `Finish` (when a stop reason is given) and `Usage`; `message_stop`
    /// yields `Done`; an `error` event is an error; everything else yields
    /// nothing.
    pub fn parse_native(&mut self, event: AnthropicStreamEvent) -> (r: Result<Vec<StreamEvent>, TranslateError>)
        requires
            opens_tool_use(event) ==> old(self).tool_calls_started() < u32::MAX,
            event matches AnthropicStreamEvent::MessageDelta { usage, .. } ==> match old(self).seen_input_tokens() {
                Some(n) => n + usage.output_tokens <= u64::MAX,
                None => true,
            },
        ensures
            native_translated(*old(self), event, r, *final(self)),
    {
        match event {
            AnthropicStreamEvent::MessageStart { message } => {
                self.input_tokens = Some(message.usage.input_tokens);
                let mut v = Vec::new();
                v.push(StreamEvent::ResponseMeta { id: message.id, model: message.model });
                Ok(v)
            },
            AnthropicStreamEvent::ContentBlockStart { content_block, .. } => {
                match content_block {
                    ContentBlock::Typed(TypedContentBlock::ToolUse { id, name, .. }) => {
                        let idx = self.tool_call_index;
                        self.tool_call_index = self.tool_call_index + 1;
                        let mut v = Vec::new();
                        v.push(StreamEvent::ToolCallStart { index: idx, id, name });
                        Ok(v)
                    },
                    _ => Ok(Vec::new()),
                }
            },
            AnthropicStreamEvent::ContentBlockDelta { delta, .. } => match delta {
                ContentDelta::TextDelta { text } => {
                    let mut v = Vec::new();
                    v.push(StreamEvent::ContentDelta(text));
                    Ok(v)
                },
                ContentDelta::InputJsonDelta { partial_json } => {
                    let tool_idx = if self.tool_call_index == 0 {
                        0
                    } else {
                        self.tool_call_index - 1
                    };
                    let mut v = Vec::new();
                    v.push(StreamEvent::ToolCallDelta { index: tool_idx, arguments: partial_json });
                    Ok(v)
                },
                _ => Ok(Vec::new()),
            },
            AnthropicStreamEvent::ContentBlockStop { .. } => Ok(Vec::new()),
            AnthropicStreamEvent::MessageDelta { delta, usage } => {
                let mut events = Vec::new();
                if let Some(stop_reason) = delta.stop_reason {
                    events.push(StreamEvent::Finish(FinishReason::from(stop_reason)));
                }
                let output_tokens = usage.output_tokens;
                let input_tokens = match self.input_tokens {
                    Some(n) => n,
                    None => 0,
                };
                events.push(
                    StreamEvent::Usage(
                        Usage {
                            prompt_tokens: Some(input_tokens),
                            completion_tokens: Some(output_tokens),
                            total_tokens: Some(input_tokens + output_tokens),
                            extra: JsonObject::new(),
                        },
                    ),
                );
                Ok(events)
            },
            AnthropicStreamEvent::MessageStop => {
                self.done = true;
                let mut v = Vec::new();
                v.push(StreamEvent::Done);
                Ok(v)
            },
            AnthropicStreamEvent::Ping => Ok(Vec::new()),
            AnthropicStreamEvent::Error { error } => {
                let mut message = "Anthropic stream error: [".to_string();
                message.append(error.kind.as_str());
                message.append("] ");
                message.append(error.message.as_str());
                Err(TranslateError::StreamParse { message })
            },
            AnthropicStreamEvent::Unknown => Ok(Vec::new()),
        }
    }

    /// Translates one SSE `data:` payload after it was decoded: a payload
    /// that failed to decode (with the decoder's message) is a stream parse
    /// error, a decoded event goes to [`Self::parse_native`].
    pub fn parse_event(&mut self, decoded: Result<AnthropicStreamEvent, String>) -> (r: Result<Vec<StreamEvent>, TranslateError>)
        requires
            decoded matches Ok(event) ==> {
                &&& opens_tool_use(event) ==> old(self).tool_calls_started() < u32::MAX
                &&& event matches AnthropicStreamEvent::MessageDelta { usage, .. } ==> match old(self).seen_input_tokens() {
                    Some(n) => n + usage.output_tokens <= u64::MAX,
                    None => true,
                }
            },
        ensures
            decoded matches Ok(event) ==> native_translated(*old(self), event, r, *final(self)),
            decoded matches Err(e) ==> {
                &&& r matches Err(TranslateError::StreamParse { message })
                    && message@ == "failed to parse Anthropic stream event: "@ + e@
                &&& *final(self) == *old(self)
            },
    {
        match decoded {
            Ok(event) => self.parse_native(event),
            Err(e) => {
                let mut message = "failed to parse Anthropic stream event: ".to_string();
                message.append(e.as_str());
                Err(TranslateError::StreamParse { message })
            },
        }
    }

    /// Ends the stream: emits `Done` unless it was already emitted.
    pub fn finish(&mut self) -> (r: Result<Vec<StreamEvent>, TranslateError>)
        ensures
            final(self).is_done(),
            final(self).tool_calls_started() == old(self).tool_calls_started(),
            final(self).seen_input_tokens() == old(self).seen_input_tokens(),
            old(self).is_done() ==> (r matches Ok(v) && v@.len() == 0),
            !old(self).is_done() ==> (r matches Ok(v) && v@ == seq![StreamEvent::Done]),
    {
        if !self.done {
            self.done = true;
            let mut v = Vec::new();
            v.push(StreamEvent::Done);
            Ok(v)
        } else {
            Ok(Vec::new())
        }
    }
}

/// Whether `e` is a usage event with the given prompt and completion
/// counts, their sum as total, and no extra fields.
pub open spec fn usage_matches(e: StreamEvent, input: u64, output: u64) -> bool {
    e matches StreamEvent::Usage(u) && u.prompt_tokens == Some(input) && u.completion_tokens == Some(
        output,
    ) && u.total_tokens == Some((input + output) as u64) && u.extra.model().len() == 0
}

impl Default for AnthropicStreamParser {
    fn default() -> (r: AnthropicStreamParser)
        ensures
            r.tool_calls_started() == 0,
            r.seen_input_tokens() is None,
            !r.is_done(),
    {
        AnthropicStreamParser::new()
    }
}

/// How many `tool_use` blocks the events open.
pub open spec fn tool_starts(events: Seq<AnthropicStreamEvent>) -> nat
    decreases events.len(),
{
    if events.len() == 0 {
        0
    } else {
        tool_starts(events.drop_last()) + if opens_tool_use(events.last()) { 1nat } else { 0nat }
    }
}

proof fn lemma_tool_count_run(
    events: Seq<AnthropicStreamEvent>,
    parsers: Seq<AnthropicStreamParser>,
    results: Seq<Result<Vec<StreamEvent>, TranslateError>>,
    n: int,
)
    requires
        0 <= n <= events.len(),
        parsers.len() == events.len() + 1,
        results.len() == events.len(),
        parsers[0].tool_calls_started() == 0,
        forall|i: int| 0 <= i < events.len() ==> #[trigger] native_translated(parsers[i], events[i], results[i], parsers[i + 1]),
    ensures
        parsers[n].tool_calls_started() == tool_starts(events.take(n)),
    decreases n,
{
    if n == 0 {
        assert(events.take(0) =~= Seq::<AnthropicStreamEvent>::empty());
    } else {
        let i = n - 1;
        lemma_tool_count_run(events, parsers, results, i);
        assert(events.take(n).drop_last() =~= events.take(i));
        assert(events.take(n).last() == events[i]);
        assert(native_translated(parsers[i], events[i], results[i], parsers[i + 1]));
    }
}

/// Over a stream read from a fresh parser, the parser counts the `tool_use`
/// blocks opened so far; the k-th `tool_use` block start (counting from 0)
/// yields `ToolCallStart` with index k, and an `input_json_delta` after at
/// least one tool start yields a `ToolCallDelta` for the latest started tool.
/// `parsers[i]` is the parser before the i-th event and `results[i]` what
/// that event gave.
pub proof fn lemma_tool_indices_over_run(
    events: Seq<AnthropicStreamEvent>,
    parsers: Seq<AnthropicStreamParser>,
    results: Seq<Result<Vec<StreamEvent>, TranslateError>>,
)
    requires
        parsers.len() == events.len() + 1,
        results.len() == events.len(),
        parsers[0].tool_calls_started() == 0,
        forall|i: int| 0 <= i < events.len() ==> #[trigger] native_translated(parsers[i], events[i], results[i], parsers[i + 1]),
    ensures
        forall|i: int| 0 <= i <= events.len() ==> #[trigger] parsers[i].tool_calls_started() == tool_starts(events.take(i)),
        forall|i: int| 0 <= i < events.len() && #[trigger] opens_tool_use(events[i]) ==> {
            &&& results[i] matches Ok(v)
            &&& v@.len() == 1
            &&& v@[0] matches StreamEvent::ToolCallStart { index, .. }
            &&& index == tool_starts(events.take(i))
        },
        forall|i: int| 0 <= i < events.len() && tool_starts(events.take(i)) > 0 ==> ((#[trigger] events[i]) matches AnthropicStreamEvent::ContentBlockDelta {
            delta: ContentDelta::InputJsonDelta { partial_json },
            ..
        } ==> results[i] matches Ok(v) && v@ == seq![StreamEvent::ToolCallDelta {
            index: (tool_starts(events.take(i)) - 1) as u32,
            arguments: partial_json,
        }]),
{
    assert forall|i: int| 0 <= i <= events.len() implies #[trigger] parsers[i].tool_calls_started() == tool_starts(events.take(i)) by {
        lemma_tool_count_run(events, parsers, results, i);
    }
    assert forall|i: int| 0 <= i < events.len() && #[trigger] opens_tool_use(events[i]) implies {
        &&& results[i] matches Ok(v)
        &&& v@.len() == 1
        &&& v@[0] matches StreamEvent::ToolCallStart { index, .. }
        &&& index == tool_starts(events.take(i))
    } by {
        lemma_tool_count_run(events, parsers, results, i);
        assert(native_translated(parsers[i], events[i], results[i], parsers[i + 1]));
    }
    assert forall|i: int| 0 <= i < events.len() && tool_starts(events.take(i)) > 0 implies ((#[trigger] events[i]) matches AnthropicStreamEvent::ContentBlockDelta {
        delta: ContentDelta::InputJsonDelta { partial_json },
        ..
    } ==> results[i] matches Ok(v) && v@ == seq![StreamEvent::ToolCallDelta {
        index: (tool_starts(events.take(i)) - 1) as u32,
        arguments: partial_json,
    }]) by {
        lemma_tool_count_run(events, parsers, results, i);
        assert(native_translated(parsers[i], events[i], results[i], parsers[i + 1]));
    }
}

/// An Anthropic stop reason becomes the canonical reason of the same
/// meaning: `tool_use` gives `tool_calls`, `max_tokens` gives `length`,
/// `end_turn` and `stop_sequence` give `stop`, and any other text is kept.
/// Going back, each canonical reason that the response direction maps to a
/// stop reason comes back as itself.
pub proof fn lemma_stop_reason_meaning(s: StopReason, f: FinishReason)
    ensures
        s is ToolUse ==> finish_reason_of(s) == FinishReason::ToolCalls && finish_reason_text(finish_reason_of(s)) == "tool_calls"@,
        s is MaxTokens ==> finish_reason_of(s) == FinishReason::Length && finish_reason_text(finish_reason_of(s)) == "length"@,
        s is EndTurn ==> finish_reason_of(s) == FinishReason::Stop && finish_reason_text(finish_reason_of(s)) == "stop"@,
        s is StopSequence ==> finish_reason_of(s) == FinishReason::Stop && finish_reason_text(finish_reason_of(s)) == "stop"@,
        s matches StopReason::Other(t) ==> finish_reason_text(finish_reason_of(s)) == t@,
        stop_of_finish(f, s) && (f is Stop || f is Length || f is ToolCalls) ==> finish_reason_of(s) == f,
        stop_of_finish(f, s) && !(f is ContentFilter) ==> finish_reason_text(finish_reason_of(s)) == finish_reason_text(f),
{
}

/// A `message_delta` that names a stop reason yields, first, `Finish` of
/// that reason's canonical meaning: `tool_use` gives `ToolCalls`,
/// `max_tokens` gives `Length`, `end_turn` and `stop_sequence` give `Stop`.
pub proof fn lemma_message_delta_finish(
    old_p: AnthropicStreamParser,
    event: AnthropicStreamEvent,
    r: Result<Vec<StreamEvent>, TranslateError>,
    new_p: AnthropicStreamParser,
)
    requires
        event matches AnthropicStreamEvent::MessageDelta { delta, .. } && delta.stop_reason is Some,
        native_translated(old_p, event, r, new_p),
    ensures
        r matches Ok(v) && v@.len() == 2 && v@[0] is Finish,
        ({
            let s = event->MessageDelta_delta.stop_reason->0;
            let f = r->Ok_0@[0]->Finish_0;
            &&& (s is ToolUse ==> f == FinishReason::ToolCalls)
            &&& (s is MaxTokens ==> f == FinishReason::Length)
            &&& (s is EndTurn || s is StopSequence ==> f == FinishReason::Stop)
        }),
{
}

} // verus!
