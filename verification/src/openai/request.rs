//! Request translation for Chat Completions: the canonical request is the
//! wire request, so translation is the endpoint, its headers, and (for a
//! streaming call) the stream fields set on the body.

use crate::anthropic::transport::{header_value_ok, header_value_valid};
use crate::canonical::error::TranslateError;
use crate::canonical::model::ChatRequest;
use crate::json::{json_object, json_u64, model_lookup, Json, JsonObject, JsonValue};
use crate::openai::transport::{json_headers, joined_url, request_headers, text_of, OpenAITransport, OpenAITransportRequest};
use crate::string_map::{pairs_lookup, PairsModel, StringMap};
use vstd::prelude::*;

verus! {

/// Translates canonical requests for the Chat Completions endpoint.
/// It carries the API key, so it has no `Debug` form.
#[derive(PartialEq)]
pub struct OpenAIRequestTranslator {
    pub transport: OpenAITransport,
}

/// The request headers of a Chat Completions call: event streams are
/// accepted when streaming.
pub open spec fn chat_extra_headers(streaming: bool) -> Seq<(Seq<char>, Seq<char>)> {
    if streaming {
        seq![("Accept"@, "text/event-stream"@)]
    } else {
        Seq::empty()
    }
}

// ─── Header validity ────────────────────────────────────────────────────────

/// Whether `http::HeaderName::try_from(&str)` accepts `name`.
pub uninterp spec fn http_header_name_ok(name: Seq<char>) -> bool;

/// `http::HeaderName::try_from(&str)`: whether `name` is a valid header
/// name. The contract names the outcome and claims nothing else of it.
#[verifier::external_body]
fn header_name_valid(name: &str) -> (r: bool)
    ensures
        r == http_header_name_ok(name@),
{
    http::HeaderName::try_from(name).is_ok()
}

/// The binding of `k` can be sent: its name and the value bound to it are
/// accepted by the `http` crate.
pub open spec fn binding_valid(m: PairsModel, k: Seq<char>) -> bool {
    &&& http_header_name_ok(k)
    &&& match pairs_lookup(m, k) {
        Some(v) => header_value_ok(v),
        None => true,
    }
}

/// Every header of the map can be sent.
pub open spec fn headers_valid(m: PairsModel) -> bool {
    forall|i: int| 0 <= i < m.len() ==> #[trigger] binding_valid(m, m[i].0)
}

/// The error text of an unsendable binding: the name is checked first.
pub open spec fn header_error_text(k: Seq<char>) -> Seq<char> {
    if !http_header_name_ok(k) {
        "invalid header name '"@ + k + "': invalid HTTP header name"@
    } else {
        "invalid header value: failed to parse header value"@
    }
}

/// Checks that every header of a prepared request can be sent (what
/// converting it to an `http::HeaderMap` requires); the first unsendable
/// binding met gives the error.
pub fn check_request_headers(headers: &StringMap) -> (r: Result<(), TranslateError>)
    ensures
        r is Ok <==> headers_valid(headers.model()),
        r matches Err(e) ==> exists|i: int| 0 <= i < headers.model().len()
            && !binding_valid(headers.model(), #[trigger] headers.model()[i].0)
            && (e matches TranslateError::Other(t) && t@ == header_error_text(headers.model()[i].0)),
{
    let ghost m = headers.model();
    let n = headers.entries.len();
    let mut i: usize = 0;
    while i < n
        invariant
            i <= n,
            n == headers.entries@.len(),
            m == headers.model(),
            m.len() == n,
            forall|j: int| 0 <= j < i ==> #[trigger] binding_valid(m, m[j].0),
        decreases n - i,
    {
        let name = &headers.entries[i].0;
        assert(m[i as int].0 == name@);
        if !header_name_valid(name.as_str()) {
            let mut t = "invalid header name '".to_string();
            t.append(name.as_str());
            t.append("': invalid HTTP header name");
            assert(!binding_valid(m, m[i as int].0));
            return Err(TranslateError::Other(t));
        }
        match headers.get(name.as_str()) {
            Some(v) => {
                if !header_value_valid(v.as_str()) {
                    assert(!binding_valid(m, m[i as int].0));
                    return Err(TranslateError::Other("invalid header value: failed to parse header value".to_string()));
                }
            },
            None => {},
        }
        i = i + 1;
    }
    Ok(())
}

// ─── Streaming body fields ──────────────────────────────────────────────────

/// `{"include_usage": true}`.
pub open spec fn include_usage_json() -> Json {
    Json::Object(seq![("include_usage"@, Json::Bool(true))])
}

/// The body of a streaming call: `stream` set, and `stream_options` asking
/// for usage (replacing any passed through), the rest unchanged.
pub open spec fn streaming_body(req: ChatRequest, out: ChatRequest) -> bool {
    &&& out == ChatRequest { stream: Some(true), extra: out.extra, ..req }
    &&& model_lookup(out.extra.model(), "stream_options"@) == Some(include_usage_json())
    &&& forall|k: Seq<char>| k != "stream_options"@ ==> model_lookup(out.extra.model(), k) == model_lookup(req.extra.model(), k)
}

/// The headers of a Chat Completions call through `t`.
pub open spec fn chat_headers(t: OpenAITransport, streaming: bool) -> PairsModel {
    request_headers(
        t.spec_config().http.default_headers.model(),
        json_headers(chat_extra_headers(streaming)),
        t.spec_config().auth.api_key@,
        text_of(t.spec_config().auth.organization),
        text_of(t.spec_config().auth.project),
    )
}

/// The URL and headers of a Chat Completions call through `t`.
pub open spec fn chat_parts(t: OpenAITransport, streaming: bool, p: OpenAITransportRequest) -> bool {
    &&& p.url@ == joined_url(t.spec_config().http.base_url@, "/chat/completions"@)
    &&& p.headers.model() == chat_headers(t, streaming)
}

impl OpenAIRequestTranslator {
    pub fn new(transport: OpenAITransport) -> (r: OpenAIRequestTranslator)
        ensures
            r.transport == transport,
    {
        OpenAIRequestTranslator { transport }
    }

    /// The URL and headers of a request to `/chat/completions`; a streaming
    /// request accepts `text/event-stream`.
    pub fn request_parts(&self, streaming: bool) -> (r: OpenAITransportRequest)
        ensures
            chat_parts(self.transport, streaming, r),
    {
        let mut extra = StringMap::new();
        if streaming {
            extra.insert("Accept".to_string(), "text/event-stream".to_string());
        }
        assert(extra.model() =~= chat_extra_headers(streaming));
        self.transport.prepare_json_request("/chat/completions", &extra)
    }

    /// The body (the request itself) and the parts of a Chat Completions
    /// call; refused when a configured header cannot be sent.
    pub fn translate_request(&self, req: ChatRequest) -> (r: Result<(ChatRequest, OpenAITransportRequest), TranslateError>)
        ensures
            match r {
                Ok((body, parts)) => body == req && chat_parts(self.transport, false, parts) && headers_valid(parts.headers.model()),
                Err(e) => e is Other && !headers_valid(chat_headers(self.transport, false)),
            },
    {
        let parts = self.request_parts(false);
        match check_request_headers(&parts.headers) {
            Ok(()) => Ok((req, parts)),
            Err(e) => Err(e),
        }
    }

    /// As `translate_request` for a streaming call: the body has `stream`
    /// set and asks for usage in `stream_options`; event streams are
    /// accepted.
    pub fn translate_stream_request(&self, req: ChatRequest) -> (r: Result<(ChatRequest, OpenAITransportRequest), TranslateError>)
        ensures
            match r {
                Ok((body, parts)) => streaming_body(req, body) && chat_parts(self.transport, true, parts) && headers_valid(parts.headers.model()),
                Err(e) => e is Other && !headers_valid(chat_headers(self.transport, true)),
            },
    {
        let parts = self.request_parts(true);
        match check_request_headers(&parts.headers) {
            Ok(()) => {
                let mut body = req;
                body.stream = Some(true);
                let mut opts = JsonObject::new();
                opts.insert("include_usage".to_string(), JsonValue::Bool(true));
                assert(opts.model() =~= seq![("include_usage"@, Json::Bool(true))]);
                let _ = body.extra.remove("stream_options");
                let ghost removed = body.extra.model();
                body.extra.insert("stream_options".to_string(), json_object(opts));
                proof {
                    assert(body.extra.model().last().1 == include_usage_json());
                    assert(body.extra.model().drop_last() =~= removed);
                    assert forall|k: Seq<char>| k != "stream_options"@ implies model_lookup(body.extra.model(), k) == model_lookup(req.extra.model(), k) by {
                        assert(model_lookup(body.extra.model(), k) == model_lookup(removed, k));
                    }
                    assert(model_lookup(body.extra.model(), "stream_options"@) == Some(include_usage_json()));
                    assert(body == ChatRequest { stream: Some(true), extra: body.extra, ..req });
                }
                Ok((body, parts))
            },
            Err(e) => Err(e),
        }
    }
}

} // verus!
