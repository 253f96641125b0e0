//! Stream translation: OpenAI Chat Completions chunks → canonical
//! `StreamEvent`s.

use crate::canonical::error::TranslateError;
use crate::canonical::model::{finish_reason_text, is_known_finish_text, FinishReason, StreamEvent, Usage};
use crate::openai::wire_chat::{ChatCompletionChunk, ChatCompletionChunkChoice, ChatToolCallDelta};
use crate::text::{str_eq, trim, trim_str};
use vstd::prelude::*;

verus! {

/// Translates OpenAI streaming chunks; the first chunk also yields the
/// response identity.
#[derive(Debug, PartialEq)]
pub struct OpenAIStreamParser {
    meta_emitted: bool,
}

/// The canonical finish reason of wire text, keeping the text itself when
/// the reason is unknown.
pub open spec fn finish_of(s: String) -> FinishReason {
    if s@ == "stop"@ {
        FinishReason::Stop
    } else if s@ == "length"@ {
        FinishReason::Length
    } else if s@ == "tool_calls"@ {
        FinishReason::ToolCalls
    } else if s@ == "content_filter"@ {
        FinishReason::ContentFilter
    } else {
        FinishReason::Unknown(s)
    }
}

/// The events of one tool-call delta: a start when it carries an id and a
/// function name, then a delta when it carries non-empty arguments.
pub open spec fn tool_delta_events(tc: ChatToolCallDelta) -> Seq<StreamEvent> {
    let start: Seq<StreamEvent> = match (tc.id, tc.function) {
        (Some(id), Some(f)) => match f.name {
            Some(name) => seq![StreamEvent::ToolCallStart { index: tc.index, id, name }],
            None => Seq::empty(),
        },
        _ => Seq::empty(),
    };
    let delta: Seq<StreamEvent> = match tc.function {
        Some(f) => match f.arguments {
            Some(a) => if a@.len() > 0 {
                seq![StreamEvent::ToolCallDelta { index: tc.index, arguments: a }]
            } else {
                Seq::empty()
            },
            None => Seq::empty(),
        },
        None => Seq::empty(),
    };
    start + delta
}

pub open spec fn tool_deltas_events(tcs: Seq<ChatToolCallDelta>) -> Seq<StreamEvent>
    decreases tcs.len(),
{
    if tcs.len() == 0 {
        Seq::empty()
    } else {
        tool_deltas_events(tcs.drop_last()) + tool_delta_events(tcs.last())
    }
}

/// The events of one choice: its text, its tool-call deltas, its finish.
pub open spec fn choice_events(c: ChatCompletionChunkChoice) -> Seq<StreamEvent> {
    let text: Seq<StreamEvent> = match c.delta.content {
        Some(t) => if t@.len() > 0 { seq![StreamEvent::ContentDelta(t)] } else { Seq::empty() },
        None => Seq::empty(),
    };
    let tools: Seq<StreamEvent> = match c.delta.tool_calls {
        Some(tcs) => tool_deltas_events(tcs@),
        None => Seq::empty(),
    };
    let finish: Seq<StreamEvent> = match c.finish_reason {
        Some(r) => seq![StreamEvent::Finish(finish_of(r))],
        None => Seq::empty(),
    };
    text + tools + finish
}

pub open spec fn choices_events(cs: Seq<ChatCompletionChunkChoice>) -> Seq<StreamEvent>
    decreases cs.len(),
{
    if cs.len() == 0 {
        Seq::empty()
    } else {
        choices_events(cs.drop_last()) + choice_events(cs.last())
    }
}

/// The events of a chunk before its usage: the response identity when not
/// yet emitted, then each choice's events in order.
pub open spec fn chunk_events(meta_emitted: bool, chunk: ChatCompletionChunk) -> Seq<StreamEvent> {
    let meta: Seq<StreamEvent> = if meta_emitted {
        Seq::empty()
    } else {
        seq![StreamEvent::ResponseMeta { id: chunk.id, model: chunk.model }]
    };
    meta + choices_events(chunk.choices@)
}

/// `events` are what a chunk becomes: `chunk_events`, then a usage event
/// carrying the chunk's usage when it has one.
pub open spec fn chunk_translated(meta_emitted: bool, chunk: ChatCompletionChunk, events: Seq<StreamEvent>) -> bool {
    let base = chunk_events(meta_emitted, chunk);
    match chunk.usage {
        None => events == base,
        Some(u) => {
            &&& events.len() == base.len() + 1
            &&& events.take(base.len() as int) == base
            &&& events.last() matches StreamEvent::Usage(x)
            &&& events.last()->Usage_0.prompt_tokens == u.prompt_tokens
            &&& events.last()->Usage_0.completion_tokens == u.completion_tokens
            &&& events.last()->Usage_0.total_tokens == u.total_tokens
            &&& events.last()->Usage_0.extra.model() == u.extra.model()
        },
    }
}

/// The canonical finish reason of OpenAI wire text (unknown text is kept).
pub fn map_finish_reason(reason: &str) -> (r: FinishReason)
    ensures
        finish_reason_text(r) == reason@,
        r is Unknown ==> !is_known_finish_text(reason@),
{
    FinishReason::parse(reason)
}

fn finish_of_string(s: &String) -> (r: FinishReason)
    ensures
        r == finish_of(*s),
{
    if str_eq(s.as_str(), "stop") {
        FinishReason::Stop
    } else if str_eq(s.as_str(), "length") {
        FinishReason::Length
    } else if str_eq(s.as_str(), "tool_calls") {
        FinishReason::ToolCalls
    } else if str_eq(s.as_str(), "content_filter") {
        FinishReason::ContentFilter
    } else {
        FinishReason::Unknown(s.clone())
    }
}

fn push_all(events: &mut Vec<StreamEvent>, more: Vec<StreamEvent>)
    ensures
        final(events)@ == old(events)@ + more@,
{
    let mut more = more;
    events.append(&mut more);
}

fn tool_delta_to_events(tc: &ChatToolCallDelta) -> (r: Vec<StreamEvent>)
    ensures
        r@ == tool_delta_events(*tc),
{
    let mut out: Vec<StreamEvent> = Vec::new();
    match (&tc.id, &tc.function) {
        (Some(id), Some(f)) => match &f.name {
            Some(name) => out.push(StreamEvent::ToolCallStart { index: tc.index, id: id.clone(), name: name.clone() }),
            None => {},
        },
        _ => {},
    }
    match &tc.function {
        Some(f) => match &f.arguments {
            Some(a) => {
                if !a.as_str().is_empty() {
                    out.push(StreamEvent::ToolCallDelta { index: tc.index, arguments: a.clone() });
                }
            },
            None => {},
        },
        None => {},
    }
    assert(out@ =~= tool_delta_events(*tc));
    out
}

fn choice_to_events(c: &ChatCompletionChunkChoice) -> (r: Vec<StreamEvent>)
    ensures
        r@ == choice_events(*c),
{
    let mut out: Vec<StreamEvent> = Vec::new();
    match &c.delta.content {
        Some(t) => {
            if !t.as_str().is_empty() {
                out.push(StreamEvent::ContentDelta(t.clone()));
            }
        },
        None => {},
    }
    let ghost text = out@;
    match &c.delta.tool_calls {
        Some(tcs) => {
            let mut i: usize = 0;
            assert(tcs@.take(0) =~= Seq::<ChatToolCallDelta>::empty());
            while i < tcs.len()
                invariant
                    i <= tcs@.len(),
                    out@ == text + tool_deltas_events(tcs@.take(i as int)),
                decreases tcs.len() - i,
            {
                let evs = tool_delta_to_events(&tcs[i]);
                push_all(&mut out, evs);
                proof {
                    let t1 = tcs@.take(i + 1);
                    assert(t1.drop_last() =~= tcs@.take(i as int));
                    assert(t1.last() == tcs@[i as int]);
                }
                i = i + 1;
            }
            assert(tcs@.take(tcs@.len() as int) =~= tcs@);
        },
        None => {},
    }
    match &c.finish_reason {
        Some(r) => out.push(StreamEvent::Finish(finish_of_string(r))),
        None => {},
    }
    assert(out@ =~= choice_events(*c));
    out
}

impl OpenAIStreamParser {
    /// Whether the response identity has been emitted.
    pub closed spec fn meta_emitted(&self) -> bool {
        self.meta_emitted
    }

    /// A parser at the start of a stream.
    pub fn new() -> (r: OpenAIStreamParser)
        ensures
            !r.meta_emitted(),
    {
        OpenAIStreamParser { meta_emitted: false }
    }

    /// Translates one decoded chunk. The first chunk of a stream also
    /// yields `ResponseMeta`; empty text and empty arguments yield nothing.
    pub fn parse_chunk(&mut self, chunk: &ChatCompletionChunk) -> (r: Vec<StreamEvent>)
        ensures
            chunk_translated(old(self).meta_emitted(), *chunk, r@),
            final(self).meta_emitted(),
    {
        let mut events: Vec<StreamEvent> = Vec::new();
        if !self.meta_emitted {
            events.push(StreamEvent::ResponseMeta { id: chunk.id.clone(), model: chunk.model.clone() });
            self.meta_emitted = true;
        }
        let ghost meta = events@;
        let mut i: usize = 0;
        assert(chunk.choices@.take(0) =~= Seq::<ChatCompletionChunkChoice>::empty());
        while i < chunk.choices.len()
            invariant
                i <= chunk.choices@.len(),
                events@ == meta + choices_events(chunk.choices@.take(i as int)),
            decreases chunk.choices.len() - i,
        {
            let evs = choice_to_events(&chunk.choices[i]);
            push_all(&mut events, evs);
            proof {
                let t1 = chunk.choices@.take(i + 1);
                assert(t1.drop_last() =~= chunk.choices@.take(i as int));
                assert(t1.last() == chunk.choices@[i as int]);
            }
            i = i + 1;
        }
        assert(chunk.choices@.take(chunk.choices@.len() as int) =~= chunk.choices@);
        assert(events@ =~= chunk_events(old(self).meta_emitted(), *chunk));
        match &chunk.usage {
            Some(u) => {
                events.push(StreamEvent::Usage(Usage {
                    prompt_tokens: u.prompt_tokens,
                    completion_tokens: u.completion_tokens,
                    total_tokens: u.total_tokens,
                    extra: u.extra.duplicate(),
                }));
                assert(events@.take(events@.len() - 1) =~= chunk_events(old(self).meta_emitted(), *chunk));
            },
            None => {},
        }
        events
    }

    /// Translates one SSE `data:` payload, given what it decoded to (the
    /// chunk, or the JSON parser's error text). `[DONE]` (ignoring
    /// surrounding whitespace) yields `Done`; a payload that did not decode
    /// is a stream-parse error.
    pub fn parse_event(&mut self, data: &str, decoded: Result<ChatCompletionChunk, String>) -> (r: Result<Vec<StreamEvent>, TranslateError>)
        ensures
            event_translated(*old(self), data@, decoded, r, *final(self)),
    {
        let trimmed = trim_str(data);
        if str_eq(trimmed.as_str(), "[DONE]") {
            let mut v: Vec<StreamEvent> = Vec::new();
            v.push(StreamEvent::Done);
            return Ok(v);
        }
        match decoded {
            Ok(chunk) => Ok(self.parse_chunk(&chunk)),
            Err(e) => {
                let mut message = "failed to parse OpenAI chunk: ".to_string();
                message.append(e.as_str());
                Err(TranslateError::StreamParse { message })
            },
        }
    }

    /// Ends the stream: OpenAI always sends `[DONE]`, so nothing is left.
    pub fn finish(&mut self) -> (r: Result<Vec<StreamEvent>, TranslateError>)
        ensures
            r matches Ok(v) && v@.len() == 0,
            *final(self) == *old(self),
    {
        Ok(Vec::new())
    }
}

/// What one `parse_event` call does: `[DONE]` (ignoring surrounding
/// whitespace) yields `Done`; a decoded chunk yields its events and marks the
/// identity as emitted; a payload that did not decode is a stream-parse error
/// and leaves the parser as it was.
pub open spec fn event_translated(
    old_p: OpenAIStreamParser,
    data: Seq<char>,
    decoded: Result<ChatCompletionChunk, String>,
    r: Result<Vec<StreamEvent>, TranslateError>,
    new_p: OpenAIStreamParser,
) -> bool {
    if trim(data) == "[DONE]"@ {
        r matches Ok(v) && v@ == seq![StreamEvent::Done] && new_p == old_p
    } else {
        match decoded {
            Ok(chunk) => r matches Ok(v) && chunk_translated(old_p.meta_emitted(), chunk, v@) && new_p.meta_emitted(),
            Err(e) => (r matches Err(TranslateError::StreamParse { message }) && message@
                == "failed to parse OpenAI chunk: "@ + e@) && new_p == old_p,
        }
    }
}

impl Default for OpenAIStreamParser {
    fn default() -> (r: OpenAIStreamParser)
        ensures
            !r.meta_emitted(),
    {
        OpenAIStreamParser::new()
    }
}

/// Only the first decoded chunk of a stream yields the response identity:
/// once it is emitted, no chunk emits it again.
pub proof fn lemma_meta_emitted_once(chunk: ChatCompletionChunk, i: int)
    requires
        0 <= i < chunk_events(true, chunk).len(),
    ensures
        !(chunk_events(true, chunk)[i] is ResponseMeta),
{
    lemma_choices_have_no_meta(chunk.choices@);
    assert(chunk_events(true, chunk) =~= choices_events(chunk.choices@));
}

proof fn lemma_choices_have_no_meta(cs: Seq<ChatCompletionChunkChoice>)
    ensures
        forall|k: int| 0 <= k < choices_events(cs).len() ==> !(#[trigger] choices_events(cs)[k] is ResponseMeta),
    decreases cs.len(),
{
    if cs.len() > 0 {
        lemma_choices_have_no_meta(cs.drop_last());
        let c = cs.last();
        let prev = choices_events(cs.drop_last());
        let cur = choice_events(c);
        let tools: Seq<StreamEvent> = match c.delta.tool_calls {
            Some(tcs) => tool_deltas_events(tcs@),
            None => Seq::empty(),
        };
        match c.delta.tool_calls {
            Some(tcs) => lemma_tool_deltas_have_no_meta(tcs@),
            None => {},
        }
        assert forall|k: int| 0 <= k < choices_events(cs).len() implies !(#[trigger] choices_events(cs)[k] is ResponseMeta) by {
            if k < prev.len() {
                assert(choices_events(cs)[k] == prev[k]);
            } else {
                assert(choices_events(cs)[k] == cur[k - prev.len()]);
            }
        }
    }
}

proof fn lemma_tool_deltas_have_no_meta(tcs: Seq<ChatToolCallDelta>)
    ensures
        forall|k: int| 0 <= k < tool_deltas_events(tcs).len() ==> !(#[trigger] tool_deltas_events(tcs)[k] is ResponseMeta),
    decreases tcs.len(),
{
    if tcs.len() > 0 {
        lemma_tool_deltas_have_no_meta(tcs.drop_last());
        let prev = tool_deltas_events(tcs.drop_last());
        let cur = tool_delta_events(tcs.last());
        assert forall|k: int| 0 <= k < tool_deltas_events(tcs).len() implies !(#[trigger] tool_deltas_events(tcs)[k] is ResponseMeta) by {
            if k < prev.len() {
                assert(tool_deltas_events(tcs)[k] == prev[k]);
            } else {
                assert(tool_deltas_events(tcs)[k] == cur[k - prev.len()]);
            }
        }
    }
}

/// The events of a chunk translated after the identity was emitted hold no
/// `ResponseMeta`.
proof fn lemma_translated_without_meta(chunk: ChatCompletionChunk, v: Seq<StreamEvent>)
    requires
        chunk_translated(true, chunk, v),
    ensures
        forall|k: int| 0 <= k < v.len() ==> !(#[trigger] v[k] is ResponseMeta),
{
    let base = chunk_events(true, chunk);
    assert forall|k: int| 0 <= k < v.len() implies !(#[trigger] v[k] is ResponseMeta) by {
        if k < base.len() {
            if chunk.usage is Some {
                assert(v[k] == v.take(base.len() as int)[k]);
            }
            lemma_meta_emitted_once(chunk, k);
        } else {
            assert(v[k] == v.last());
        }
    }
}

proof fn lemma_emitted_stays(
    datas: Seq<Seq<char>>,
    decodeds: Seq<Result<ChatCompletionChunk, String>>,
    parsers: Seq<OpenAIStreamParser>,
    results: Seq<Result<Vec<StreamEvent>, TranslateError>>,
    i: int,
    j: int,
)
    requires
        parsers.len() == datas.len() + 1,
        decodeds.len() == datas.len(),
        results.len() == datas.len(),
        forall|n: int| 0 <= n < datas.len() ==> #[trigger] event_translated(parsers[n], datas[n], decodeds[n], results[n], parsers[n + 1]),
        0 <= i <= j <= datas.len(),
        parsers[i].meta_emitted(),
    ensures
        parsers[j].meta_emitted(),
    decreases j - i,
{
    if i < j {
        assert(event_translated(parsers[i], datas[i], decodeds[i], results[i], parsers[i + 1]));
        lemma_emitted_stays(datas, decodeds, parsers, results, i + 1, j);
    }
}

/// Over any run of `parse_event` calls, the response identity is emitted at
/// most once: once one call's events hold a `ResponseMeta`, no later call's
/// events do. `parsers[i]` is the parser before the i-th call (on
/// `datas[i]`, decoded as `decodeds[i]`) and `results[i]` what it gave.
pub proof fn lemma_meta_at_most_once_over_run(
    datas: Seq<Seq<char>>,
    decodeds: Seq<Result<ChatCompletionChunk, String>>,
    parsers: Seq<OpenAIStreamParser>,
    results: Seq<Result<Vec<StreamEvent>, TranslateError>>,
)
    requires
        parsers.len() == datas.len() + 1,
        decodeds.len() == datas.len(),
        results.len() == datas.len(),
        forall|n: int| 0 <= n < datas.len() ==> #[trigger] event_translated(parsers[n], datas[n], decodeds[n], results[n], parsers[n + 1]),
    ensures
        forall|i: int, j: int, k: int, l: int|
            0 <= i < j < datas.len() && results[i] is Ok && results[j] is Ok
                && 0 <= k < results[i]->Ok_0@.len() && 0 <= l < results[j]->Ok_0@.len()
                && (#[trigger] results[i]->Ok_0@[k]) is ResponseMeta
                ==> !((#[trigger] results[j]->Ok_0@[l]) is ResponseMeta),
{
    reveal_strlit("[DONE]");
    assert forall|i: int, j: int, k: int, l: int|
        0 <= i < j < datas.len() && results[i] is Ok && results[j] is Ok
            && 0 <= k < results[i]->Ok_0@.len() && 0 <= l < results[j]->Ok_0@.len()
            && (#[trigger] results[i]->Ok_0@[k]) is ResponseMeta
        implies !((#[trigger] results[j]->Ok_0@[l]) is ResponseMeta) by {
        assert(event_translated(parsers[i], datas[i], decodeds[i], results[i], parsers[i + 1]));
        assert(event_translated(parsers[j], datas[j], decodeds[j], results[j], parsers[j + 1]));
        if trim(datas[i]) == "[DONE]"@ {
            assert(results[i]->Ok_0@[k] == StreamEvent::Done);
        } else {
            lemma_emitted_stays(datas, decodeds, parsers, results, i + 1, j);
            if trim(datas[j]) == "[DONE]"@ {
                assert(results[j]->Ok_0@[l] == StreamEvent::Done);
            } else {
                let chunk = decodeds[j]->Ok_0;
                lemma_translated_without_meta(chunk, results[j]->Ok_0@);
            }
        }
    }
}

/// A choice that ends with a wire finish reason yields, as its last event,
/// `Finish` of the canonical reason whose text is that wire text: `stop`
/// gives `Stop`, `length` gives `Length`, `tool_calls` gives `ToolCalls`,
/// `content_filter` gives `ContentFilter`, and any other text is kept.
pub proof fn lemma_finish_event_carries_wire_reason(c: ChatCompletionChunkChoice)
    requires
        c.finish_reason is Some,
    ensures
        ({
            let t = c.finish_reason->0@;
            let ev = choice_events(c);
            &&& ev.len() > 0
            &&& ev.last() matches StreamEvent::Finish(f)
            &&& finish_reason_text(ev.last()->Finish_0) == t
            &&& (t == "stop"@ ==> ev.last()->Finish_0 == FinishReason::Stop)
            &&& (t == "length"@ ==> ev.last()->Finish_0 == FinishReason::Length)
            &&& (t == "tool_calls"@ ==> ev.last()->Finish_0 == FinishReason::ToolCalls)
            &&& (t == "content_filter"@ ==> ev.last()->Finish_0 == FinishReason::ContentFilter)
            &&& (!is_known_finish_text(t) ==> ev.last()->Finish_0 is Unknown)
        }),
{
    reveal_strlit("stop");
    reveal_strlit("length");
    reveal_strlit("tool_calls");
    reveal_strlit("content_filter");
    let ev = choice_events(c);
    assert(ev.last() == StreamEvent::Finish(finish_of(c.finish_reason->0)));
}

/// A later chunk whose only choice ends with wire reason `t` (and carries
/// no usage) ends its events with `Finish` of the reason whose text is `t`;
/// `tool_calls` gives `ToolCalls`.
pub proof fn lemma_chunk_finish_reason(chunk: ChatCompletionChunk, v: Seq<StreamEvent>)
    requires
        chunk.choices@.len() == 1,
        chunk.choices@[0].finish_reason is Some,
        chunk.usage is None,
        chunk_translated(true, chunk, v),
    ensures
        v.len() > 0,
        v.last() matches StreamEvent::Finish(f),
        finish_reason_text(v.last()->Finish_0) == chunk.choices@[0].finish_reason->0@,
        chunk.choices@[0].finish_reason->0@ == "tool_calls"@ ==> v.last() == StreamEvent::Finish(FinishReason::ToolCalls),
{
    let c = chunk.choices@[0];
    assert(chunk.choices@.drop_last() =~= Seq::<ChatCompletionChunkChoice>::empty());
    assert(chunk.choices@.last() == c);
    assert(choices_events(chunk.choices@.drop_last()) == Seq::<StreamEvent>::empty());
    assert(choices_events(chunk.choices@) =~= choice_events(c));
    assert(v =~= choice_events(c));
    lemma_finish_event_carries_wire_reason(c);
}

} // verus!
