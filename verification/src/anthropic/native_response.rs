//! Native-protocol bridge, response direction: a canonical chat response
//! becomes an Anthropic Messages response.

use crate::anthropic::types::{
    ContentBlock, ImageSource, MessagesResponse, Role as AnthropicRole, StopReason,
    TypedContentBlock, Usage as AnthropicUsage,
};
use crate::canonical::error::TranslateError;
use crate::canonical::generic::ForwardCompatible;
use crate::canonical::model::{
    ChatResponse, ContentPart, FinishReason, Message, MessageContent, ToolCall, TypedContentPart,
    Usage,
};
use crate::json::{
    json_parse, lookup_u64, parse_json_text, Json, JsonObject, JsonValue,
};
use crate::anthropic::native_bridge::image_source_url;
use crate::text::{first_index_of, has_prefix, has_suffix, lemma_first_index_found, lemma_first_index_prefix, split_once_char, strip_prefix_str, strip_suffix_str};
use vstd::prelude::*;

verus! {

// ─── Specifications ─────────────────────────────────────────────────────────

/// The stop reason a canonical finish reason becomes; a reason Anthropic has
/// no name for keeps its wire text.
pub open spec fn stop_of_finish(f: FinishReason, s: StopReason) -> bool {
    match f {
        FinishReason::Stop => s is EndTurn,
        FinishReason::Length => s is MaxTokens,
        FinishReason::ToolCalls => s is ToolUse,
        FinishReason::ContentFilter => s matches StopReason::Other(t) && t@ == "content_filter"@,
        FinishReason::Unknown(u) => s matches StopReason::Other(t) && t@ == u@,
    }
}

/// Whether `url` is a `data:<header>;base64,<data>` URI, the header being
/// the text before the first comma.
pub open spec fn is_base64_data_url(url: Seq<char>) -> bool {
    let rest = url.subrange("data:"@.len() as int, url.len() as int);
    let comma = first_index_of(rest, ',');
    has_prefix(url, "data:"@) && comma is Some && has_suffix(rest.subrange(0, comma->0), ";base64"@)
}

/// The image source a URL denotes: a `data:<media type>;base64,<data>` URI
/// is inline data, anything else a URL.
pub open spec fn source_of_url(url: Seq<char>, src: ImageSource) -> bool {
    let rest = url.subrange("data:"@.len() as int, url.len() as int);
    let comma = first_index_of(rest, ',');
    let header = rest.subrange(0, comma->0);
    if is_base64_data_url(url) {
        src matches ImageSource::Base64 { media_type, data }
            && media_type@ == header.subrange(0, header.len() - ";base64"@.len())
            && data@ == rest.subrange(comma->0 + 1, rest.len() as int)
    } else {
        src matches ImageSource::Url { url: u } && u@ == url
    }
}

/// The block a content part becomes; audio and file parts have none.
pub open spec fn block_of_part(p: ContentPart, b: ContentBlock) -> bool {
    match p {
        ForwardCompatible::Known(TypedContentPart::Text { text, .. }) =>
            b matches ContentBlock::Typed(TypedContentBlock::Text { text: t, cache_control })
                && t@ == text@ && cache_control is None,
        ForwardCompatible::Known(TypedContentPart::Thinking { thinking, signature, .. }) =>
            b matches ContentBlock::Typed(TypedContentBlock::Thinking { thinking: t, signature: s })
                && t@ == thinking@ && s@ == signature@,
        ForwardCompatible::Known(TypedContentPart::RedactedThinking { data, .. }) =>
            b matches ContentBlock::Typed(TypedContentBlock::RedactedThinking { data: d }) && d@ == data@,
        ForwardCompatible::Known(TypedContentPart::ImageUrl { image_url, .. }) =>
            b matches ContentBlock::Typed(TypedContentBlock::Image { source, cache_control })
                && source_of_url(image_url.url@, source) && cache_control is None,
        ForwardCompatible::Raw(o) => b matches ContentBlock::Raw(bo) && bo.model() == o.model(),
        _ => false,
    }
}

/// Whether a content part has an Anthropic response form.
pub open spec fn part_has_block(p: ContentPart) -> bool {
    match p {
        ForwardCompatible::Known(TypedContentPart::InputAudio { .. }) => false,
        ForwardCompatible::Known(TypedContentPart::File { .. }) => false,
        _ => true,
    }
}

/// The blocks of a list of parts: one per part that has a form, in order.
pub open spec fn part_blocks(parts: Seq<ContentPart>, out: Seq<ContentBlock>) -> bool
    decreases parts.len(),
{
    if parts.len() == 0 {
        out.len() == 0
    } else if part_has_block(parts.last()) {
        out.len() > 0 && block_of_part(parts.last(), out.last()) && part_blocks(parts.drop_last(), out.drop_last())
    } else {
        part_blocks(parts.drop_last(), out)
    }
}

/// The `tool_use` block a tool call becomes; arguments that are not JSON
/// become an empty object.
pub open spec fn tool_use_of_call(tc: ToolCall, b: ContentBlock) -> bool {
    b matches ContentBlock::Typed(TypedContentBlock::ToolUse { id, name, input, cache_control })
        && id@ == tc.id@ && name@ == tc.function.name@ && cache_control is None
        && input.model() == match json_parse(tc.function.arguments@) {
            Some(j) => j,
            None => Json::Object(Seq::empty()),
        }
}

/// The blocks of the message content: its text when non-empty, or one block
/// per part that has a form.
pub open spec fn content_blocks(c: Option<MessageContent>, out: Seq<ContentBlock>) -> bool {
    match c {
        Some(MessageContent::Text(s)) => if s@.len() > 0 {
            &&& out.len() == 1
            &&& out[0] matches ContentBlock::Typed(TypedContentBlock::Text { text, cache_control })
            &&& out[0]->Typed_0->Text_text@ == s@
            &&& out[0]->Typed_0->Text_cache_control is None
        } else {
            out.len() == 0
        },
        Some(MessageContent::Parts(ps)) => part_blocks(ps@, out),
        None => out.len() == 0,
    }
}

/// The blocks of an assistant message: its content's blocks, then one
/// `tool_use` block per tool call.
pub open spec fn message_blocks(m: Message, out: Seq<ContentBlock>) -> bool {
    let calls = match m.tool_calls {
        Some(tcs) => tcs@,
        None => Seq::empty(),
    };
    &&& out.len() >= calls.len()
    &&& content_blocks(m.content, out.subrange(0, out.len() - calls.len()))
    &&& forall|i: int| 0 <= i < calls.len() ==> #[trigger] tool_use_of_call(calls[i], out[out.len() - calls.len() + i])
}

/// The Anthropic usage of canonical usage: missing counts are zero, cache
/// counts come from the extra fields.
pub open spec fn usage_of_canonical(u: Usage, a: AnthropicUsage) -> bool {
    &&& a.input_tokens == match u.prompt_tokens { Some(n) => n, None => 0u64 }
    &&& a.output_tokens == match u.completion_tokens { Some(n) => n, None => 0u64 }
    &&& a.cache_creation_input_tokens == lookup_u64(u.extra.model(), "cache_creation_input_tokens"@)
    &&& a.cache_read_input_tokens == lookup_u64(u.extra.model(), "cache_read_input_tokens"@)
}

/// The Anthropic response a canonical response becomes: its first choice is
/// the message.
pub open spec fn messages_response_of(resp: ChatResponse, r: MessagesResponse) -> bool {
    &&& r.id@ == resp.id@
    &&& r.kind@ == "message"@
    &&& r.role is Assistant
    &&& r.model@ == resp.model@
    &&& r.stop_sequence is None
    &&& match resp.usage {
        Some(u) => usage_of_canonical(u, r.usage),
        None => r.usage == AnthropicUsage {
            input_tokens: 0,
            output_tokens: 0,
            cache_creation_input_tokens: None,
            cache_read_input_tokens: None,
        },
    }
    &&& if resp.choices@.len() == 0 {
        r.content@.len() == 0 && r.stop_reason is None
    } else {
        let c = resp.choices@[0];
        &&& message_blocks(c.message, r.content@)
        &&& match c.finish_reason {
            Some(f) => r.stop_reason matches Some(s) && stop_of_finish(f, s),
            None => r.stop_reason is None,
        }
    }
}

// ─── Executable ─────────────────────────────────────────────────────────────

impl StopReason {
    /// The stop reason of a canonical finish reason (the inverse of the
    /// canonical conversion); `content_filter` and unknown reasons keep their
    /// wire text.
    pub fn from_finish(reason: FinishReason) -> (r: StopReason)
        ensures
            stop_of_finish(reason, r),
    {
        match reason {
            FinishReason::Stop => StopReason::EndTurn,
            FinishReason::Length => StopReason::MaxTokens,
            FinishReason::ToolCalls => StopReason::ToolUse,
            FinishReason::ContentFilter => StopReason::Other("content_filter".to_string()),
            FinishReason::Unknown(s) => StopReason::Other(s),
        }
    }
}

/// The image source of a URL: a base64 `data:` URI becomes inline data,
/// anything else stays a URL.
pub fn url_to_image_source(url: &str) -> (r: ImageSource)
    ensures
        source_of_url(url@, r),
{
    match strip_prefix_str(url, "data:") {
        Some(rest) => match split_once_char(rest.as_str(), ',') {
            Some((header, data)) => match strip_suffix_str(header.as_str(), ";base64") {
                Some(media_type) => {
                    return ImageSource::Base64 { media_type, data };
                },
                None => {},
            },
            None => {},
        },
        None => {},
    }
    ImageSource::Url { url: url.to_string() }
}

fn text_block(text: String) -> (r: ContentBlock)
    ensures
        r == ContentBlock::Typed(TypedContentBlock::Text { text, cache_control: None }),
{
    ContentBlock::Typed(TypedContentBlock::Text { text, cache_control: None })
}

/// The block a content part becomes, if it has one.
pub fn content_part_to_block(part: &ContentPart) -> (r: Option<ContentBlock>)
    ensures
        part_has_block(*part) ==> (r matches Some(b) && block_of_part(*part, b)),
        !part_has_block(*part) ==> r is None,
{
    match part {
        ForwardCompatible::Known(TypedContentPart::Text { text, .. }) => Some(text_block(text.clone())),
        ForwardCompatible::Known(TypedContentPart::Thinking { thinking, signature, .. }) => Some(
            ContentBlock::Typed(TypedContentBlock::Thinking { thinking: thinking.clone(), signature: signature.clone() }),
        ),
        ForwardCompatible::Known(TypedContentPart::RedactedThinking { data, .. }) => Some(
            ContentBlock::Typed(TypedContentBlock::RedactedThinking { data: data.clone() }),
        ),
        ForwardCompatible::Known(TypedContentPart::ImageUrl { image_url, .. }) => Some(
            ContentBlock::Typed(TypedContentBlock::Image {
                source: url_to_image_source(image_url.url.as_str()),
                cache_control: None,
            }),
        ),
        ForwardCompatible::Raw(obj) => Some(ContentBlock::Raw(obj.duplicate())),
        ForwardCompatible::Known(_) => None,
    }
}

/// The `tool_use` block of a tool call; arguments that do not parse as JSON
/// become an empty object.
pub fn tool_call_to_block(tc: &ToolCall) -> (r: ContentBlock)
    ensures
        tool_use_of_call(*tc, r),
{
    let input = match parse_json_text(tc.function.arguments.as_str()) {
        Some(v) => v,
        None => crate::json::json_object(JsonObject::new()),
    };
    ContentBlock::Typed(TypedContentBlock::ToolUse {
        id: tc.id.clone(),
        name: tc.function.name.clone(),
        input,
        cache_control: None,
    })
}

/// The Anthropic content blocks of an assistant message.
pub fn assistant_message_to_blocks(msg: &Message) -> (r: Vec<ContentBlock>)
    ensures
        message_blocks(*msg, r@),
{
    let mut blocks: Vec<ContentBlock> = Vec::new();
    match &msg.content {
        Some(MessageContent::Text(s)) => {
            if !s.as_str().is_empty() {
                blocks.push(text_block(s.clone()));
            }
        },
        Some(MessageContent::Parts(parts)) => {
            let mut i: usize = 0;
            assert(parts@.take(0) =~= Seq::<ContentPart>::empty());
            while i < parts.len()
                invariant
                    i <= parts@.len(),
                    part_blocks(parts@.take(i as int), blocks@),
                decreases parts.len() - i,
            {
                let ghost before = blocks@;
                let b = content_part_to_block(&parts[i]);
                match b {
                    Some(b) => {
                        blocks.push(b);
                    },
                    None => {},
                }
                proof {
                    let t1 = parts@.take(i + 1);
                    assert(t1.drop_last() =~= parts@.take(i as int));
                    assert(t1.last() == parts@[i as int]);
                    if part_has_block(parts@[i as int]) {
                        assert(blocks@.drop_last() =~= before);
                    }
                }
                i = i + 1;
            }
            assert(parts@.take(parts@.len() as int) =~= parts@);
        },
        None => {},
    }
    let ghost head = blocks@;
    match &msg.tool_calls {
        Some(tcs) => {
            let mut i: usize = 0;
            while i < tcs.len()
                invariant
                    i <= tcs@.len(),
                    blocks@.len() == head.len() + i,
                    blocks@.subrange(0, head.len() as int) == head,
                    forall|k: int| 0 <= k < i ==> #[trigger] tool_use_of_call(tcs@[k], blocks@[head.len() + k]),
                decreases tcs.len() - i,
            {
                let ghost before = blocks@;
                blocks.push(tool_call_to_block(&tcs[i]));
                proof {
                    assert(blocks@.subrange(0, head.len() as int) =~= before.subrange(0, head.len() as int));
                    assert forall|k: int| 0 <= k < i + 1 implies #[trigger] tool_use_of_call(tcs@[k], blocks@[head.len() + k]) by {
                        if k < i {
                            assert(blocks@[head.len() + k] == before[head.len() + k]);
                        }
                    }
                }
                i = i + 1;
            }
            assert(blocks@.subrange(0, blocks@.len() - tcs@.len()) =~= head);
        },
        None => {
            assert(blocks@.subrange(0, blocks@.len() as int) =~= head);
        },
    }
    blocks
}

/// The Anthropic usage of canonical usage.
pub fn canonical_usage_to_anthropic(usage: Usage) -> (r: AnthropicUsage)
    ensures
        usage_of_canonical(usage, r),
{
    let creation = match usage.extra.get("cache_creation_input_tokens") {
        Some(v) => v.as_u64(),
        None => None,
    };
    let read = match usage.extra.get("cache_read_input_tokens") {
        Some(v) => v.as_u64(),
        None => None,
    };
    AnthropicUsage {
        input_tokens: match usage.prompt_tokens { Some(n) => n, None => 0 },
        output_tokens: match usage.completion_tokens { Some(n) => n, None => 0 },
        cache_creation_input_tokens: creation,
        cache_read_input_tokens: read,
    }
}

/// Converts a canonical chat response into an Anthropic Messages response.
/// Anthropic returns a single message, so only the first choice is used. The
/// conversion is total: every response is accepted.
pub fn chat_response_to_messages(resp: ChatResponse) -> (r: Result<MessagesResponse, TranslateError>)
    ensures
        r matches Ok(m) && messages_response_of(resp, m),
{
    let ghost g = resp;
    let ChatResponse { id, object, created, model, choices, usage, extra } = resp;
    let usage = match usage {
        Some(u) => canonical_usage_to_anthropic(u),
        None => AnthropicUsage {
            input_tokens: 0,
            output_tokens: 0,
            cache_creation_input_tokens: None,
            cache_read_input_tokens: None,
        },
    };
    let mut choices = choices;
    let (content, stop_reason) = if choices.len() == 0 {
        (Vec::new(), None)
    } else {
        let choice = choices.remove(0);
        let content = assistant_message_to_blocks(&choice.message);
        let stop = match choice.finish_reason {
            Some(f) => Some(StopReason::from_finish(f)),
            None => None,
        };
        (content, stop)
    };
    Ok(MessagesResponse {
        id,
        kind: "message".to_string(),
        role: AnthropicRole::Assistant,
        content,
        model,
        stop_reason,
        stop_sequence: None,
        usage,
    })
}

/// A URL read as an image source and written back as a URL is the URL it
/// was: `url_to_image_source` loses nothing that `image_source_to_url`
/// needs.
pub proof fn lemma_url_round_trip(url: Seq<char>, r: ImageSource)
    requires
        source_of_url(url, r),
    ensures
        image_source_url(r) == url,
{
    reveal_strlit("data:");
    reveal_strlit(";base64");
    reveal_strlit(";base64,");
    if is_base64_data_url(url) {
        let rest = url.subrange(5, url.len() as int);
        let c = first_index_of(rest, ',')->0;
        lemma_first_index_found(rest, ',');
        let header = rest.subrange(0, c);
        let mt = header.subrange(0, header.len() - 7);
        assert(header =~= mt + ";base64"@);
        assert(rest =~= header + seq![','] + rest.subrange(c + 1, rest.len() as int));
        assert(url =~= "data:"@ + rest);
        assert(url =~= "data:"@ + mt + ";base64,"@ + rest.subrange(c + 1, rest.len() as int));
    }
}

/// An image source written as a URL and read back is the source it was:
/// inline data whose media type holds no comma comes back as the same data,
/// and a URL that is not a base64 `data:` URI comes back as itself.
pub proof fn lemma_image_source_round_trip(s: ImageSource, r: ImageSource)
    requires
        match s {
            ImageSource::Base64 { media_type, .. } => !media_type@.contains(','),
            ImageSource::Url { url } => !is_base64_data_url(url@),
        },
        source_of_url(image_source_url(s), r),
    ensures
        match s {
            ImageSource::Base64 { media_type, data } => r matches ImageSource::Base64 { media_type: m, data: d }
                && m@ == media_type@ && d@ == data@,
            ImageSource::Url { url } => r matches ImageSource::Url { url: u } && u@ == url@,
        },
{
    match s {
        ImageSource::Base64 { media_type, data } => {
            reveal_strlit("data:");
            reveal_strlit(";base64");
            reveal_strlit(";base64,");
            let url = image_source_url(s);
            let mt = media_type@;
            let rest = url.subrange(5, url.len() as int);
            assert(url.subrange(0, 5) =~= "data:"@);
            assert(rest =~= mt + ";base64,"@ + data@);
            let i: int = mt.len() as int + 7;
            assert forall|k: int| 0 <= k < i implies rest[k] != ',' by {
                if k < mt.len() {
                    assert(rest[k] == mt[k]);
                    if mt[k] == ',' {
                        assert(mt.contains(','));
                    }
                } else {
                    assert(rest[k] == ";base64,"@[k - mt.len()]);
                }
            }
            lemma_first_index_prefix(rest, ',', i);
            assert(rest.subrange(i, rest.len() as int)[0] == ',');
            let header = rest.subrange(0, i);
            assert(header =~= mt + ";base64"@);
            assert(header.subrange(header.len() - 7, header.len() as int) =~= ";base64"@);
            assert(header.subrange(0, header.len() - 7) =~= mt);
            assert(rest.subrange(i + 1, rest.len() as int) =~= data@);
        },
        ImageSource::Url { url } => {},
    }
}

} // verus!
