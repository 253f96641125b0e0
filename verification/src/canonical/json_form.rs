//! The JSON form of canonical content, as the wire carries it.

use crate::canonical::generic::ForwardCompatible;
use crate::canonical::model::{ContentPart, ImageUrl, MessageContent, ThinkingSource, TypedContentPart};
use crate::json::{json_array, json_object, json_str, Json, JsonObject, JsonValue};
use vstd::prelude::*;

verus! {

/// The JSON form of an image URL reference.
pub open spec fn image_url_json(u: ImageUrl) -> Json {
    Json::Object(
        seq![("url"@, Json::Str(u.url@))] + match u.detail {
            Some(d) => seq![("detail"@, Json::Str(d@))],
            None => Seq::empty(),
        } + u.extra.model(),
    )
}

/// The `source` field of a thinking part, when it has one.
pub open spec fn source_fields(s: Option<ThinkingSource>) -> Seq<(Seq<char>, Json)> {
    match s {
        Some(ThinkingSource::Anthropic) => seq![("source"@, Json::Str("anthropic"@))],
        Some(ThinkingSource::Other(t)) => seq![("source"@, Json::Str(t@))],
        None => Seq::empty(),
    }
}

/// The JSON form of a typed content part: the `type` tag, the variant's
/// fields, then the pass-through fields.
pub open spec fn typed_part_json(p: TypedContentPart) -> Json {
    match p {
        TypedContentPart::Text { text, extra } => Json::Object(
            seq![("type"@, Json::Str("text"@)), ("text"@, Json::Str(text@))] + extra.model(),
        ),
        TypedContentPart::ImageUrl { image_url, extra } => Json::Object(
            seq![("type"@, Json::Str("image_url"@)), ("image_url"@, image_url_json(image_url))]
                + extra.model(),
        ),
        TypedContentPart::InputAudio { input_audio, extra } => Json::Object(
            seq![("type"@, Json::Str("input_audio"@)), ("input_audio"@, input_audio.model())]
                + extra.model(),
        ),
        TypedContentPart::File { file, extra } => Json::Object(
            seq![("type"@, Json::Str("file"@)), ("file"@, file.model())] + extra.model(),
        ),
        TypedContentPart::Thinking { thinking, signature, source, extra } => Json::Object(
            seq![
                ("type"@, Json::Str("thinking"@)),
                ("thinking"@, Json::Str(thinking@)),
                ("signature"@, Json::Str(signature@)),
            ] + source_fields(source) + extra.model(),
        ),
        TypedContentPart::RedactedThinking { data, source, extra } => Json::Object(
            seq![("type"@, Json::Str("redacted_thinking"@)), ("data"@, Json::Str(data@))]
                + source_fields(source) + extra.model(),
        ),
    }
}

/// The JSON form of a content part (a raw part is its object).
pub open spec fn part_json(p: ContentPart) -> Json {
    match p {
        ForwardCompatible::Known(t) => typed_part_json(t),
        ForwardCompatible::Raw(o) => Json::Object(o.model()),
    }
}

/// The JSON form of message content: a string, or an array of parts.
pub open spec fn content_json(c: MessageContent) -> Json {
    match c {
        MessageContent::Text(s) => Json::Str(s@),
        MessageContent::Parts(ps) => Json::Array(ps@.map_values(|p: ContentPart| part_json(p))),
    }
}

fn source_into(o: &mut JsonObject, source: &Option<ThinkingSource>)
    ensures
        final(o).model() == old(o).model() + source_fields(*source),
{
    match source {
        Some(ThinkingSource::Anthropic) => {
            o.insert("source".to_string(), json_str("anthropic"));
            assert(o.model() =~= old(o).model() + source_fields(*source));
        },
        Some(ThinkingSource::Other(t)) => {
            o.insert("source".to_string(), json_str(t.as_str()));
            assert(o.model() =~= old(o).model() + source_fields(*source));
        },
        None => {
            assert(o.model() =~= old(o).model() + source_fields(*source));
        },
    }
}

fn image_url_to_json(u: &ImageUrl) -> (r: JsonValue)
    ensures
        r.model() == image_url_json(*u),
{
    let mut o = JsonObject::new();
    o.insert("url".to_string(), json_str(u.url.as_str()));
    match &u.detail {
        Some(d) => {
            o.insert("detail".to_string(), json_str(d.as_str()));
        },
        None => {},
    }
    let ghost before = o.model();
    o.append_copy(&u.extra);
    assert(o.model() =~= seq![("url"@, Json::Str(u.url@))] + match u.detail {
        Some(d) => seq![("detail"@, Json::Str(d@))],
        None => Seq::empty(),
    } + u.extra.model());
    json_object(o)
}

/// The JSON form of a content part.
pub fn part_to_json(p: &ContentPart) -> (r: JsonValue)
    ensures
        r.model() == part_json(*p),
{
    match p {
        ForwardCompatible::Raw(obj) => json_object(obj.duplicate()),
        ForwardCompatible::Known(t) => {
            let mut o = JsonObject::new();
            match t {
                TypedContentPart::Text { text, extra } => {
                    o.insert("type".to_string(), json_str("text"));
                    o.insert("text".to_string(), json_str(text.as_str()));
                    o.append_copy(extra);
                    assert(o.model() =~= seq![("type"@, Json::Str("text"@)), ("text"@, Json::Str(text@))] + extra.model());
                },
                TypedContentPart::ImageUrl { image_url, extra } => {
                    o.insert("type".to_string(), json_str("image_url"));
                    o.insert("image_url".to_string(), image_url_to_json(image_url));
                    o.append_copy(extra);
                    assert(o.model() =~= seq![("type"@, Json::Str("image_url"@)), ("image_url"@, image_url_json(*image_url))] + extra.model());
                },
                TypedContentPart::InputAudio { input_audio, extra } => {
                    o.insert("type".to_string(), json_str("input_audio"));
                    o.insert("input_audio".to_string(), input_audio.duplicate());
                    o.append_copy(extra);
                    assert(o.model() =~= seq![("type"@, Json::Str("input_audio"@)), ("input_audio"@, input_audio.model())] + extra.model());
                },
                TypedContentPart::File { file, extra } => {
                    o.insert("type".to_string(), json_str("file"));
                    o.insert("file".to_string(), file.duplicate());
                    o.append_copy(extra);
                    assert(o.model() =~= seq![("type"@, Json::Str("file"@)), ("file"@, file.model())] + extra.model());
                },
                TypedContentPart::Thinking { thinking, signature, source, extra } => {
                    o.insert("type".to_string(), json_str("thinking"));
                    o.insert("thinking".to_string(), json_str(thinking.as_str()));
                    o.insert("signature".to_string(), json_str(signature.as_str()));
                    source_into(&mut o, source);
                    o.append_copy(extra);
                    assert(o.model() =~= seq![
                        ("type"@, Json::Str("thinking"@)),
                        ("thinking"@, Json::Str(thinking@)),
                        ("signature"@, Json::Str(signature@)),
                    ] + source_fields(*source) + extra.model());
                },
                TypedContentPart::RedactedThinking { data, source, extra } => {
                    o.insert("type".to_string(), json_str("redacted_thinking"));
                    o.insert("data".to_string(), json_str(data.as_str()));
                    source_into(&mut o, source);
                    o.append_copy(extra);
                    assert(o.model() =~= seq![("type"@, Json::Str("redacted_thinking"@)), ("data"@, Json::Str(data@))]
                        + source_fields(*source) + extra.model());
                },
            }
            json_object(o)
        },
    }
}

/// The JSON form of message content.
pub fn content_to_json(c: &MessageContent) -> (r: JsonValue)
    ensures
        r.model() == content_json(*c),
{
    match c {
        MessageContent::Text(s) => json_str(s.as_str()),
        MessageContent::Parts(ps) => {
            let mut items: Vec<JsonValue> = Vec::new();
            let mut i: usize = 0;
            while i < ps.len()
                invariant
                    i <= ps@.len(),
                    items@.len() == i,
                    forall|k: int| 0 <= k < i ==> #[trigger] items@[k].model() == part_json(ps@[k]),
                decreases ps.len() - i,
            {
                items.push(part_to_json(&ps[i]));
                i = i + 1;
            }
            let ghost iv = items@;
            let r = json_array(items);
            assert(iv.map_values(|v: JsonValue| v.model()) =~= ps@.map_values(|p: ContentPart| part_json(p)));
            r
        },
    }
}

} // verus!
