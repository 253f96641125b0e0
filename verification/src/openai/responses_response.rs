//! Responses API response → canonical chat response: output items become a
//! single choice with message text and tool calls; the reasoning summary
//! travels in the message's extra fields.

use crate::canonical::error::{map_error_status, map_error_status_spec, ProviderError, TranslateError};
use crate::canonical::model::{ChatResponse, Choice, FinishReason, FunctionCall, Message, MessageContent, Role, ToolCall, Usage};
use crate::http_headers::HeaderList;
use crate::json::{json_string, JsonObject, JsonValue, Json};
use crate::openai::responses_output::{
    ResponseContentPart, ResponseObject, ResponseOutputItem, ResponseReasoningSummaryPart, ResponseUsage,
};
use crate::openai::wire_chat::ApiErrorResponse;
use crate::text::{concat_seqs, concat_strings, str_eq, utf8_lossy, utf8_lossy_text};
use vstd::prelude::*;

verus! {

/// Translates Responses API responses into canonical responses.
#[derive(Debug, PartialEq)]
pub struct ResponsesResponseTranslator;

// ─── Specifications ─────────────────────────────────────────────────────────

/// The output texts of a message's content parts, in order.
pub open spec fn content_texts(cs: Seq<ResponseContentPart>) -> Seq<Seq<char>>
    decreases cs.len(),
{
    if cs.len() == 0 {
        Seq::empty()
    } else {
        content_texts(cs.drop_last()) + match cs.last() {
            ResponseContentPart::OutputText { text, .. } => seq![text@],
            _ => Seq::empty(),
        }
    }
}

pub open spec fn item_texts(item: ResponseOutputItem) -> Seq<Seq<char>> {
    match item {
        ResponseOutputItem::Message { content, .. } => content_texts(content@),
        _ => Seq::empty(),
    }
}

/// The output texts of all message items, in order.
pub open spec fn output_texts(items: Seq<ResponseOutputItem>) -> Seq<Seq<char>>
    decreases items.len(),
{
    if items.len() == 0 {
        Seq::empty()
    } else {
        output_texts(items.drop_last()) + item_texts(items.last())
    }
}

/// The function-call items, in order.
pub open spec fn call_items(items: Seq<ResponseOutputItem>) -> Seq<ResponseOutputItem>
    decreases items.len(),
{
    if items.len() == 0 {
        Seq::empty()
    } else {
        call_items(items.drop_last()) + match items.last() {
            ResponseOutputItem::FunctionCall { .. } => seq![items.last()],
            _ => Seq::empty(),
        }
    }
}

/// The canonical tool call of a function-call item: its id, or else its
/// call id.
pub open spec fn call_of_item(item: ResponseOutputItem, tc: ToolCall) -> bool {
    &&& item matches ResponseOutputItem::FunctionCall { arguments, call_id, name, id, .. }
    &&& tc.id@ == match item->FunctionCall_id {
        Some(i) => i@,
        None => item->FunctionCall_call_id@,
    }
    &&& tc.kind@ == "function"@
    &&& tc.function.name@ == item->FunctionCall_name@
    &&& tc.function.arguments@ == item->FunctionCall_arguments@
    &&& tc.function.extra.model().len() == 0
    &&& tc.extra.model().len() == 0
}

pub open spec fn summary_texts(ps: Seq<ResponseReasoningSummaryPart>) -> Seq<Seq<char>>
    decreases ps.len(),
{
    if ps.len() == 0 {
        Seq::empty()
    } else {
        summary_texts(ps.drop_last()) + match ps.last() {
            ResponseReasoningSummaryPart::SummaryText { text, .. } => seq![text@],
            _ => Seq::empty(),
        }
    }
}

/// The reasoning text: the summary of the last reasoning item that has
/// summary text.
pub open spec fn reasoning_text(items: Seq<ResponseOutputItem>) -> Option<Seq<char>>
    decreases items.len(),
{
    if items.len() == 0 {
        None
    } else {
        match items.last() {
            ResponseOutputItem::Reasoning { summary, .. } if summary_texts(summary@).len() > 0 =>
                Some(concat_seqs(summary_texts(summary@))),
            _ => reasoning_text(items.drop_last()),
        }
    }
}

/// The finish reason of a response status.
pub open spec fn finish_of_status(status: Option<String>, has_calls: bool, f: Option<FinishReason>) -> bool {
    match status {
        None => f is None,
        Some(s) => if s@ == "completed"@ {
            f == Some(if has_calls { FinishReason::ToolCalls } else { FinishReason::Stop })
        } else if s@ == "incomplete"@ {
            f == Some(FinishReason::Length)
        } else if s@ == "cancelled"@ || s@ == "failed"@ {
            f == Some(FinishReason::Stop)
        } else {
            f matches Some(FinishReason::Unknown(u)) && u@ == s@
        },
    }
}

/// The canonical usage of response usage: token counts renamed, detail
/// objects under their chat names.
pub open spec fn usage_of(u: ResponseUsage, c: Usage) -> bool {
    &&& c.prompt_tokens == u.input_tokens
    &&& c.completion_tokens == u.output_tokens
    &&& c.total_tokens == u.total_tokens
    &&& c.extra.model() == match u.input_tokens_details {
        Some(d) => seq![("prompt_tokens_details"@, d.model())],
        None => Seq::empty(),
    } + match u.output_tokens_details {
        Some(d) => seq![("completion_tokens_details"@, d.model())],
        None => Seq::empty(),
    }
}

/// The canonical response of a response object.
pub open spec fn chat_response_of(resp: ResponseObject, r: ChatResponse) -> bool {
    let items = match resp.output {
        Some(v) => v@,
        None => Seq::empty(),
    };
    let texts = output_texts(items);
    let calls = call_items(items);
    &&& r.id == resp.id
    &&& r.object@ == "chat.completion"@
    &&& r.created == match resp.created_at { Some(c) => c, None => 0 }
    &&& r.model@ == match resp.model { Some(m) => m@, None => Seq::empty() }
    &&& r.extra.model().len() == 0
    &&& match resp.usage {
        None => r.usage is None,
        Some(u) => r.usage matches Some(c) && usage_of(u, c),
    }
    &&& r.choices@.len() == 1
    &&& r.choices@[0].index == 0
    &&& r.choices@[0].extra.model().len() == 0
    &&& r.choices@[0].message.role is Assistant
    &&& r.choices@[0].message.name is None
    &&& r.choices@[0].message.tool_call_id is None
    &&& if texts.len() == 0 {
        r.choices@[0].message.content is None
    } else {
        r.choices@[0].message.content matches Some(MessageContent::Text(t)) && t@ == concat_seqs(texts)
    }
    &&& if calls.len() == 0 {
        r.choices@[0].message.tool_calls is None
    } else {
        r.choices@[0].message.tool_calls matches Some(tcs) && tcs@.len() == calls.len()
            && forall|i: int| 0 <= i < calls.len() ==> #[trigger] call_of_item(calls[i], tcs@[i])
    }
    &&& r.choices@[0].message.extra.model() == match reasoning_text(items) {
        Some(t) => seq![("reasoning_content"@, Json::Str(t))],
        None => Seq::empty(),
    }
    &&& finish_of_status(resp.status, calls.len() > 0, r.choices@[0].finish_reason)
}

// ─── Executable ─────────────────────────────────────────────────────────────

fn usage_to_canonical(u: ResponseUsage) -> (r: Usage)
    ensures
        usage_of(u, r),
{
    let mut extra = JsonObject::new();
    let ghost a: Seq<(Seq<char>, Json)> = if u.input_tokens_details is Some {
        seq![("prompt_tokens_details"@, u.input_tokens_details->0.model())]
    } else {
        Seq::empty()
    };
    let ghost b: Seq<(Seq<char>, Json)> = if u.output_tokens_details is Some {
        seq![("completion_tokens_details"@, u.output_tokens_details->0.model())]
    } else {
        Seq::empty()
    };
    match u.input_tokens_details {
        Some(d) => extra.insert("prompt_tokens_details".to_string(), d),
        None => {},
    }
    match u.output_tokens_details {
        Some(d) => extra.insert("completion_tokens_details".to_string(), d),
        None => {},
    }
    assert(extra.model() =~= a + b);
    Usage {
        prompt_tokens: u.input_tokens,
        completion_tokens: u.output_tokens,
        total_tokens: u.total_tokens,
        extra,
    }
}

fn summary_to_texts(summary: &Vec<ResponseReasoningSummaryPart>) -> (r: Vec<String>)
    ensures
        r@.map_values(|t: String| t@) == summary_texts(summary@),
{
    let mut out: Vec<String> = Vec::new();
    let mut i: usize = 0;
    assert(summary@.take(0) =~= Seq::<ResponseReasoningSummaryPart>::empty());
    while i < summary.len()
        invariant
            i <= summary@.len(),
            out@.map_values(|t: String| t@) == summary_texts(summary@.take(i as int)),
        decreases summary.len() - i,
    {
        let ghost before = out@;
        match &summary[i] {
            ResponseReasoningSummaryPart::SummaryText { text, .. } => out.push(text.clone()),
            _ => {},
        }
        proof {
            let t1 = summary@.take(i + 1);
            assert(t1.drop_last() =~= summary@.take(i as int));
            assert(t1.last() == summary@[i as int]);
            assert(out@.map_values(|t: String| t@) =~= summary_texts(summary@.take(i + 1)));
        }
        i = i + 1;
    }
    assert(summary@.take(summary@.len() as int) =~= summary@);
    out
}

fn content_to_texts(content: &Vec<ResponseContentPart>, out: &mut Vec<String>)
    ensures
        final(out)@.map_values(|t: String| t@) == old(out)@.map_values(|t: String| t@) + content_texts(content@),
{
    let ghost start = old(out)@.map_values(|t: String| t@);
    let mut i: usize = 0;
    assert(content@.take(0) =~= Seq::<ResponseContentPart>::empty());
    while i < content.len()
        invariant
            i <= content@.len(),
            out@.map_values(|t: String| t@) == start + content_texts(content@.take(i as int)),
        decreases content.len() - i,
    {
        let ghost before = out@;
        match &content[i] {
            ResponseContentPart::OutputText { text, .. } => {
                out.push(text.clone());
                assert(out@.map_values(|t: String| t@) =~= before.map_values(|t: String| t@).push(text@));
            },
            _ => {},
        }
        proof {
            let t1 = content@.take(i + 1);
            assert(t1.drop_last() =~= content@.take(i as int));
            assert(t1.last() == content@[i as int]);
            assert(out@.map_values(|t: String| t@) =~= start + content_texts(content@.take(i + 1)));
        }
        i = i + 1;
    }
    assert(content@.take(content@.len() as int) =~= content@);
}

fn finish_reason_of_status(status: &Option<String>, has_calls: bool) -> (r: Option<FinishReason>)
    ensures
        finish_of_status(*status, has_calls, r),
{
    match status {
        None => None,
        Some(s) => {
            if str_eq(s.as_str(), "completed") {
                Some(if has_calls { FinishReason::ToolCalls } else { FinishReason::Stop })
            } else if str_eq(s.as_str(), "incomplete") {
                Some(FinishReason::Length)
            } else if str_eq(s.as_str(), "cancelled") || str_eq(s.as_str(), "failed") {
                Some(FinishReason::Stop)
            } else {
                Some(FinishReason::Unknown(s.clone()))
            }
        },
    }
}

/// Converts a Responses API response object into a canonical chat response
/// with one choice: the output messages' text, the function calls as tool
/// calls, the last reasoning summary as `reasoning_content`, and the finish
/// reason from the status.
pub fn response_object_to_chat_response(resp: ResponseObject) -> (r: ChatResponse)
    ensures
        chat_response_of(resp, r),
{
    let ghost g = resp;
    let ResponseObject { id, created_at, model, output, status, usage, .. } = resp;
    let mut text_parts: Vec<String> = Vec::new();
    let mut tool_calls: Vec<ToolCall> = Vec::new();
    let mut reasoning: Option<String> = None;
    let ghost items = if output is Some { output->0@ } else { Seq::<ResponseOutputItem>::empty() };
    match &output {
        Some(out_items) => {
            let mut i: usize = 0;
            assert(items.take(0) =~= Seq::<ResponseOutputItem>::empty());
            while i < out_items.len()
                invariant
                    i <= out_items@.len(),
                    items == out_items@,
                    text_parts@.map_values(|t: String| t@) == output_texts(items.take(i as int)),
                    tool_calls@.len() == call_items(items.take(i as int)).len(),
                    forall|k: int| 0 <= k < tool_calls@.len() ==> #[trigger] call_of_item(call_items(items.take(i as int))[k], tool_calls@[k]),
                    match reasoning_text(items.take(i as int)) {
                        Some(t) => reasoning matches Some(s) && s@ == t,
                        None => reasoning is None,
                    },
                decreases out_items.len() - i,
            {
                let ghost t0 = items.take(i as int);
                let ghost t1 = items.take(i + 1);
                proof {
                    assert(t1.drop_last() =~= t0);
                    assert(t1.last() == items[i as int]);
                }
                let ghost calls0 = call_items(t0);
                match &out_items[i] {
                    ResponseOutputItem::Message { content, .. } => {
                        content_to_texts(content, &mut text_parts);
                        assert(call_items(t1) =~= calls0);
                    },
                    ResponseOutputItem::FunctionCall { arguments, call_id, name, id, .. } => {
                        let tc_id = match id {
                            Some(x) => x.clone(),
                            None => call_id.clone(),
                        };
                        tool_calls.push(ToolCall {
                            id: tc_id,
                            kind: "function".to_string(),
                            function: FunctionCall { name: name.clone(), arguments: arguments.clone(), extra: JsonObject::new() },
                            extra: JsonObject::new(),
                        });
                        proof {
                            assert(call_items(t1) =~= calls0.push(items[i as int]));
                            assert(output_texts(t1) =~= output_texts(t0));
                        }
                    },
                    ResponseOutputItem::Reasoning { summary, .. } => {
                        let texts = summary_to_texts(summary);
                        if texts.len() > 0 {
                            reasoning = Some(concat_strings(&texts));
                        }
                        proof {
                            assert(call_items(t1) =~= calls0);
                            assert(output_texts(t1) =~= output_texts(t0));
                        }
                    },
                    _ => {
                        proof {
                            assert(call_items(t1) =~= calls0);
                            assert(output_texts(t1) =~= output_texts(t0));
                        }
                    },
                }
                i = i + 1;
            }
            assert(items.take(out_items@.len() as int) =~= items);
        },
        None => {},
    }
    let content = if text_parts.len() == 0 {
        None
    } else {
        Some(MessageContent::Text(concat_strings(&text_parts)))
    };
    let has_calls = tool_calls.len() > 0;
    let tool_calls_field = if has_calls { Some(tool_calls) } else { None };
    let finish_reason = finish_reason_of_status(&status, has_calls);
    let usage = match usage {
        Some(u) => Some(usage_to_canonical(u)),
        None => None,
    };
    let mut msg_extra = JsonObject::new();
    match reasoning {
        Some(t) => msg_extra.insert("reasoning_content".to_string(), json_string(t)),
        None => {},
    }
    let mut choices: Vec<Choice> = Vec::new();
    choices.push(Choice {
        index: 0,
        message: Message {
            role: Role::Assistant,
            content,
            name: None,
            tool_call_id: None,
            tool_calls: tool_calls_field,
            extra: msg_extra,
        },
        finish_reason,
        extra: JsonObject::new(),
    });
    ChatResponse {
        id,
        object: "chat.completion".to_string(),
        created: match created_at { Some(c) => c, None => 0 },
        model: match model { Some(m) => m, None => String::new() },
        choices,
        usage,
        extra: JsonObject::new(),
    }
}

impl ResponsesResponseTranslator {
    /// The canonical response of a decoded response object.
    pub fn translate_response(&self, resp: ResponseObject) -> (r: Result<ChatResponse, TranslateError>)
        ensures
            r matches Ok(c) && chat_response_of(resp, c),
    {
        Ok(response_object_to_chat_response(resp))
    }

    /// The provider error of an error response: the parsed error body's
    /// message, or else the body text; the status decides the kind.
    pub fn translate_error(&self, status: u16, headers: &HeaderList, body: &[u8], parsed: Option<ApiErrorResponse>) -> (r: ProviderError)
        ensures
            match parsed {
                Some(p) => r == map_error_status_spec(status, *headers, p.error.message),
                None => exists|m: String| m@ == utf8_lossy_text(body@) && r == map_error_status_spec(status, *headers, m),
            },
    {
        let message = match parsed {
            Some(p) => p.error.message,
            None => utf8_lossy(body),
        };
        map_error_status(status, headers, message)
    }
}

/// The canonical usage of a translated response carries the response's own
/// counts field for field: prompt tokens are its input tokens, completion
/// tokens its output tokens, and the total its total (not a sum or another
/// count); a response without usage gives none.
pub proof fn lemma_usage_counts_carried(resp: ResponseObject, r: ChatResponse)
    requires
        chat_response_of(resp, r),
    ensures
        resp.usage is None <==> r.usage is None,
        resp.usage is Some ==> {
            &&& r.usage->0.prompt_tokens == resp.usage->0.input_tokens
            &&& r.usage->0.completion_tokens == resp.usage->0.output_tokens
            &&& r.usage->0.total_tokens == resp.usage->0.total_tokens
        },
{
}

} // verus!
