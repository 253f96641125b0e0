//! The JSON form of Anthropic content blocks, as the wire carries them.

use crate::anthropic::types::{CacheControl, ContentBlock, ImageSource, ToolResultContent, TypedContentBlock};
use crate::json::{json_array, json_object, json_str, Json, JsonObject, JsonValue};
use vstd::prelude::*;

verus! {

pub open spec fn cache_fields(c: Option<CacheControl>) -> Seq<(Seq<char>, Json)> {
    match c {
        Some(cc) => seq![("cache_control"@, Json::Object(seq![("type"@, Json::Str(cc.kind@))]))],
        None => Seq::empty(),
    }
}

pub open spec fn image_source_json(s: ImageSource) -> Json {
    match s {
        ImageSource::Base64 { media_type, data } => Json::Object(seq![
            ("type"@, Json::Str("base64"@)),
            ("media_type"@, Json::Str(media_type@)),
            ("data"@, Json::Str(data@)),
        ]),
        ImageSource::Url { url } => Json::Object(seq![("type"@, Json::Str("url"@)), ("url"@, Json::Str(url@))]),
    }
}

/// The JSON form of a content block.
pub open spec fn block_json(b: ContentBlock) -> Json
    decreases b, 1nat,
{
    match b {
        ContentBlock::Raw(o) => Json::Object(o.model()),
        ContentBlock::Typed(t) => match t {
            TypedContentBlock::Text { text, cache_control } => Json::Object(
                seq![("type"@, Json::Str("text"@)), ("text"@, Json::Str(text@))] + cache_fields(cache_control),
            ),
            TypedContentBlock::Image { source, cache_control } => Json::Object(
                seq![("type"@, Json::Str("image"@)), ("source"@, image_source_json(source))] + cache_fields(cache_control),
            ),
            TypedContentBlock::ToolUse { id, name, input, cache_control } => Json::Object(
                seq![
                    ("type"@, Json::Str("tool_use"@)),
                    ("id"@, Json::Str(id@)),
                    ("name"@, Json::Str(name@)),
                    ("input"@, input.model()),
                ] + cache_fields(cache_control),
            ),
            TypedContentBlock::ToolResult { tool_use_id, content, is_error, cache_control } => Json::Object(
                seq![("type"@, Json::Str("tool_result"@)), ("tool_use_id"@, Json::Str(tool_use_id@))]
                    + result_content_fields(content) + match is_error {
                    Some(e) => seq![("is_error"@, Json::Bool(e))],
                    None => Seq::empty(),
                } + cache_fields(cache_control),
            ),
            TypedContentBlock::Thinking { thinking, signature } => Json::Object(seq![
                ("type"@, Json::Str("thinking"@)),
                ("thinking"@, Json::Str(thinking@)),
                ("signature"@, Json::Str(signature@)),
            ]),
            TypedContentBlock::RedactedThinking { data } => Json::Object(
                seq![("type"@, Json::Str("redacted_thinking"@)), ("data"@, Json::Str(data@))],
            ),
        },
    }
}

/// The `content` field of a tool result block, when it has one.
pub open spec fn result_content_fields(content: Option<ToolResultContent>) -> Seq<(Seq<char>, Json)>
    decreases content, 0nat,
{
    match content {
        Some(ToolResultContent::Text(s)) => seq![("content"@, Json::Str(s@))],
        Some(ToolResultContent::Blocks(bs)) => seq![("content"@, Json::Array(
            Seq::new(bs@.len(), |i: int| if 0 <= i < bs@.len() { block_json(bs@[i]) } else { Json::Null }),
        ))],
        None => Seq::empty(),
    }
}

fn cache_into(o: &mut JsonObject, c: &Option<CacheControl>)
    ensures
        final(o).model() == old(o).model() + cache_fields(*c),
{
    match c {
        Some(cc) => {
            let mut inner = JsonObject::new();
            inner.insert("type".to_string(), json_str(cc.kind.as_str()));
            let v = json_object(inner);
            o.insert("cache_control".to_string(), v);
            assert(v.model() == Json::Object(seq![("type"@, Json::Str(cc.kind@))])) by {
                assert(v.model()->Object_0 =~= seq![("type"@, Json::Str(cc.kind@))]);
            }
            assert(o.model() =~= old(o).model() + cache_fields(*c));
        },
        None => {
            assert(o.model() =~= old(o).model() + cache_fields(*c));
        },
    }
}

fn image_source_to_json(s: &ImageSource) -> (r: JsonValue)
    ensures
        r.model() == image_source_json(*s),
{
    let mut o = JsonObject::new();
    match s {
        ImageSource::Base64 { media_type, data } => {
            o.insert("type".to_string(), json_str("base64"));
            o.insert("media_type".to_string(), json_str(media_type.as_str()));
            o.insert("data".to_string(), json_str(data.as_str()));
        },
        ImageSource::Url { url } => {
            o.insert("type".to_string(), json_str("url"));
            o.insert("url".to_string(), json_str(url.as_str()));
        },
    }
    let r = json_object(o);
    assert(r.model()->Object_0 =~= image_source_json(*s)->Object_0);
    r
}

/// The JSON form of a content block.
#[verifier::loop_isolation(false)]
pub fn block_to_json(b: &ContentBlock) -> (r: JsonValue)
    ensures
        r.model() == block_json(*b),
    decreases b,
{
    match b {
        ContentBlock::Raw(obj) => json_object(obj.duplicate()),
        ContentBlock::Typed(t) => {
            let mut o = JsonObject::new();
            match t {
                TypedContentBlock::Text { text, cache_control } => {
                    o.insert("type".to_string(), json_str("text"));
                    o.insert("text".to_string(), json_str(text.as_str()));
                    cache_into(&mut o, cache_control);
                    assert(o.model() =~= seq![("type"@, Json::Str("text"@)), ("text"@, Json::Str(text@))] + cache_fields(*cache_control));
                },
                TypedContentBlock::Image { source, cache_control } => {
                    o.insert("type".to_string(), json_str("image"));
                    o.insert("source".to_string(), image_source_to_json(source));
                    cache_into(&mut o, cache_control);
                    assert(o.model() =~= seq![("type"@, Json::Str("image"@)), ("source"@, image_source_json(*source))] + cache_fields(*cache_control));
                },
                TypedContentBlock::ToolUse { id, name, input, cache_control } => {
                    o.insert("type".to_string(), json_str("tool_use"));
                    o.insert("id".to_string(), json_str(id.as_str()));
                    o.insert("name".to_string(), json_str(name.as_str()));
                    o.insert("input".to_string(), input.duplicate());
                    cache_into(&mut o, cache_control);
                    assert(o.model() =~= seq![
                        ("type"@, Json::Str("tool_use"@)),
                        ("id"@, Json::Str(id@)),
                        ("name"@, Json::Str(name@)),
                        ("input"@, input.model()),
                    ] + cache_fields(*cache_control));
                },
                TypedContentBlock::ToolResult { tool_use_id, content, is_error, cache_control } => {
                    o.insert("type".to_string(), json_str("tool_result"));
                    o.insert("tool_use_id".to_string(), json_str(tool_use_id.as_str()));
                    let ghost before_content = o.model();
                    match content {
                        Some(ToolResultContent::Text(s)) => {
                            o.insert("content".to_string(), json_str(s.as_str()));
                        },
                        Some(ToolResultContent::Blocks(bs)) => {
                            let mut items: Vec<JsonValue> = Vec::new();
                            let mut i: usize = 0;
                            while i < bs.len()
                                invariant
                                    i <= bs@.len(),
                                    items@.len() == i,
                                    o.model() == before_content,
                                    forall|k: int| 0 <= k < i ==> #[trigger] items@[k].model() == block_json(bs@[k]),
                                decreases bs.len() - i,
                            {
                                assert(decreases_to!(*bs => bs@));
                                assert(decreases_to!(bs@ => bs@[i as int]));
                                items.push(block_to_json(&bs[i]));
                                i = i + 1;
                            }
                            let ghost iv = items@;
                            let arr = json_array(items);
                            assert(arr.model()->Array_0 =~= result_content_fields(*content)[0].1->Array_0);
                            o.insert("content".to_string(), arr);
                        },
                        None => {},
                    }
                    let ghost content_fields = result_content_fields(*content);
                    assert(o.model() =~= before_content + content_fields);
                    let ghost before_error = o.model();
                    match is_error {
                        Some(e) => {
                            o.insert("is_error".to_string(), JsonValue::Bool(*e));
                        },
                        None => {},
                    }
                    let ghost error_fields = match is_error {
                        Some(e) => seq![("is_error"@, Json::Bool(*e))],
                        None => Seq::<(Seq<char>, Json)>::empty(),
                    };
                    assert(o.model() =~= before_error + error_fields);
                    cache_into(&mut o, cache_control);
                    assert(o.model() =~= seq![("type"@, Json::Str("tool_result"@)), ("tool_use_id"@, Json::Str(tool_use_id@))]
                        + content_fields + error_fields + cache_fields(*cache_control));
                    assert(block_json(*b)->Object_0 =~= o.model());
                },
                TypedContentBlock::Thinking { thinking, signature } => {
                    o.insert("type".to_string(), json_str("thinking"));
                    o.insert("thinking".to_string(), json_str(thinking.as_str()));
                    o.insert("signature".to_string(), json_str(signature.as_str()));
                    assert(o.model() =~= seq![
                        ("type"@, Json::Str("thinking"@)),
                        ("thinking"@, Json::Str(thinking@)),
                        ("signature"@, Json::Str(signature@)),
                    ]);
                },
                TypedContentBlock::RedactedThinking { data } => {
                    o.insert("type".to_string(), json_str("redacted_thinking"));
                    o.insert("data".to_string(), json_str(data.as_str()));
                    assert(o.model() =~= seq![("type"@, Json::Str("redacted_thinking"@)), ("data"@, Json::Str(data@))]);
                },
            }
            let r = json_object(o);
            assert(r.model()->Object_0 =~= block_json(*b)->Object_0);
            r
        },
    }
}

} // verus!
