//! Request translation for compatible providers: quirks decide which
//! features are refused or stripped before the OpenAI translation.

use crate::canonical::error::TranslateError;
use crate::canonical::generic::ForwardCompatible;
use crate::canonical::model::{ChatRequest, ContentPart, Message, MessageContent, TypedContentPart};
use crate::compat::provider::{OpenAICompatProvider, Quirks};
use crate::json::model_lookup;
use crate::openai::request::{chat_headers, chat_parts, headers_valid, streaming_body, OpenAIRequestTranslator};
use crate::openai::transport::{
    config_ok, json_headers, joined_url, request_headers, text_of, HttpTransportConfig,
    OpenAIAuthConfig, OpenAITransport, OpenAITransportConfig, OpenAITransportConfigError,
    OpenAITransportRequest,
};
use vstd::prelude::*;

verus! {

pub open spec fn is_image_content_part(p: ContentPart) -> bool {
    p matches ForwardCompatible::Known(TypedContentPart::ImageUrl { .. })
}

pub open spec fn message_has_image_part(m: Message) -> bool {
    m.content matches Some(MessageContent::Parts(ps))
        && exists|j: int| 0 <= j < ps@.len() && #[trigger] is_image_content_part(ps@[j])
}

/// Some message carries an image part.
pub open spec fn has_image(req: ChatRequest) -> bool {
    exists|i: int| 0 <= i < req.messages@.len() && #[trigger] message_has_image_part(req.messages@[i])
}

#[verifier::loop_isolation(false)]
fn message_has_image(m: &Message) -> (r: bool)
    ensures
        r == message_has_image_part(*m),
{
    match &m.content {
        Some(MessageContent::Parts(parts)) => {
            let mut j: usize = 0;
            while j < parts.len()
                invariant
                    j <= parts@.len(),
                    forall|k: int| 0 <= k < j ==> !#[trigger] is_image_content_part(parts@[k]),
                decreases parts.len() - j,
            {
                match &parts[j] {
                    ForwardCompatible::Known(TypedContentPart::ImageUrl { .. }) => {
                        assert(is_image_content_part(parts@[j as int]));
                        return true;
                    },
                    _ => {},
                }
                j = j + 1;
            }
            false
        },
        _ => false,
    }
}

/// Whether any message of the request carries an image part.
pub fn request_has_image(req: &ChatRequest) -> (r: bool)
    ensures
        r == has_image(*req),
{
    let mut i: usize = 0;
    while i < req.messages.len()
        invariant
            i <= req.messages@.len(),
            forall|k: int| 0 <= k < i ==> !#[trigger] message_has_image_part(req.messages@[k]),
        decreases req.messages.len() - i,
    {
        if message_has_image(&req.messages[i]) {
            return true;
        }
        i = i + 1;
    }
    false
}

/// Translates canonical requests for a compatible provider.
/// It carries the API key, so it has no `Debug` form.
#[derive(PartialEq)]
pub struct OpenAICompatRequestTranslator {
    pub inner: OpenAIRequestTranslator,
    pub quirks: Quirks,
    pub provider_name: String,
}

fn copy_http(h: &HttpTransportConfig) -> (r: HttpTransportConfig)
    ensures
        r.base_url@ == h.base_url@,
        r.timeout_seconds == h.timeout_seconds,
        r.default_headers.model() == h.default_headers.model(),
{
    HttpTransportConfig {
        base_url: h.base_url.clone(),
        timeout_seconds: h.timeout_seconds,
        default_headers: h.default_headers.duplicate(),
    }
}

fn copy_auth(a: &OpenAIAuthConfig) -> (r: OpenAIAuthConfig)
    ensures
        r == *a,
{
    OpenAIAuthConfig {
        api_key: a.api_key.clone(),
        organization: match &a.organization {
            Some(o) => Some(o.clone()),
            None => None,
        },
        project: match &a.project {
            Some(p) => Some(p.clone()),
            None => None,
        },
    }
}

/// The error text of a refused feature.
pub open spec fn feature_text(provider_name: Seq<char>, feature: Seq<char>) -> Seq<char> {
    provider_name + ": "@ + feature
}

pub open spec fn unsupported(e: TranslateError, provider_name: Seq<char>, feature: Seq<char>) -> bool {
    e matches TranslateError::UnsupportedFeature { provider, feature: f }
        && provider@ == "openai_compat"@ && f@ == feature_text(provider_name, feature)
}

/// The request after stripping what the quirks say the provider does not
/// support: the tool choice, and `parallel_tool_calls` in the extra fields.
pub open spec fn filtered(q: Quirks, req: ChatRequest, out: ChatRequest) -> bool {
    &&& out.model == req.model
    &&& out.messages == req.messages
    &&& out.temperature == req.temperature
    &&& out.max_tokens == req.max_tokens
    &&& out.top_p == req.top_p
    &&& out.stop == req.stop
    &&& out.stream == req.stream
    &&& out.tools == req.tools
    &&& (if q.supports_tool_choice { out.tool_choice == req.tool_choice } else { out.tool_choice is None })
    &&& out.response_format == req.response_format
    &&& out.frequency_penalty == req.frequency_penalty
    &&& out.presence_penalty == req.presence_penalty
    &&& out.n == req.n
    &&& out.seed == req.seed
    &&& out.user == req.user
    &&& out.thinking == req.thinking
    &&& if q.supports_parallel_tool_calls {
        out.extra == req.extra
    } else {
        &&& model_lookup(out.extra.model(), "parallel_tool_calls"@) is None
        &&& forall|k: Seq<char>| k != "parallel_tool_calls"@ ==> model_lookup(out.extra.model(), k) == model_lookup(req.extra.model(), k)
    }
}

impl OpenAICompatRequestTranslator {
    /// A translator for a provider: its transport, quirks and name.
    pub fn new(provider: &OpenAICompatProvider) -> (r: Result<OpenAICompatRequestTranslator, OpenAITransportConfigError>)
        ensures
            r is Ok <==> config_ok(OpenAITransportConfig { http: provider.spec_config().http, auth: provider.spec_config().auth }),
            r matches Ok(t) ==> t.quirks == provider.spec_config().quirks && t.provider_name@ == provider.spec_config().name@,
    {
        let config = OpenAITransportConfig { http: copy_http(provider.http_config()), auth: copy_auth(provider.auth_config()) };
        match OpenAITransport::new(config) {
            Ok(transport) => Ok(OpenAICompatRequestTranslator {
                inner: OpenAIRequestTranslator::new(transport),
                quirks: provider.quirks().clone(),
                provider_name: provider.name().to_string(),
            }),
            Err(e) => Err(e),
        }
    }

    fn unsupported_feature(&self, feature: &str) -> (r: TranslateError)
        ensures
            unsupported(r, self.provider_name@, feature@),
    {
        let mut text = self.provider_name.clone();
        text.append(": ");
        text.append(feature);
        TranslateError::UnsupportedFeature { provider: "openai_compat".to_string(), feature: text }
    }

    /// Checks the request against the quirks: image content is refused when
    /// the provider has no vision; the tool choice and `parallel_tool_calls`
    /// are stripped when unsupported.
    pub fn filter_request(&self, req: ChatRequest) -> (r: Result<ChatRequest, TranslateError>)
        ensures
            (!self.quirks.supports_vision && has_image(req)) ==> (r matches Err(e) && unsupported(e, self.provider_name@, "vision/image content"@)),
            !(!self.quirks.supports_vision && has_image(req)) ==> (r matches Ok(out) && filtered(self.quirks, req, out)),
    {
        if !self.quirks.supports_vision && request_has_image(&req) {
            return Err(self.unsupported_feature("vision/image content"));
        }
        let mut out = req;
        if !self.quirks.supports_tool_choice {
            out.tool_choice = None;
        }
        if !self.quirks.supports_parallel_tool_calls {
            let _ = out.extra.remove("parallel_tool_calls");
        }
        Ok(out)
    }

    /// Refuses or strips what the quirks rule out, then hands the filtered
    /// request to the OpenAI translator.
    fn validate_and_delegate(&self, req: ChatRequest, streaming: bool) -> (r: Result<(ChatRequest, OpenAITransportRequest), TranslateError>)
        ensures
            compat_translated(*self, req, streaming, r),
    {
        let out = match self.filter_request(req) {
            Ok(out) => out,
            Err(e) => return Err(e),
        };
        let ghost f = out;
        assert(filtered(self.quirks, req, f));
        if streaming {
            self.inner.translate_stream_request(out)
        } else {
            self.inner.translate_request(out)
        }
    }

    /// The filtered request and the parts of its Chat Completions call
    /// (see `compat_translated`).
    pub fn translate_request(&self, req: ChatRequest) -> (r: Result<(ChatRequest, OpenAITransportRequest), TranslateError>)
        ensures
            compat_translated(*self, req, false, r),
    {
        self.validate_and_delegate(req, false)
    }

    /// As `translate_request` for a streaming call; refused first when the
    /// provider does not stream.
    pub fn translate_stream_request(&self, req: ChatRequest) -> (r: Result<(ChatRequest, OpenAITransportRequest), TranslateError>)
        ensures
            !self.quirks.supports_streaming ==> (r matches Err(e) && unsupported(e, self.provider_name@, "streaming"@)),
            self.quirks.supports_streaming ==> compat_translated(*self, req, true, r),
    {
        if !self.quirks.supports_streaming {
            return Err(self.unsupported_feature("streaming"));
        }
        self.validate_and_delegate(req, true)
    }
}

/// What a compatible provider's translation gives: image content refused
/// without vision; otherwise the filtered request handed to the OpenAI
/// translator, which refuses unsendable headers and (when streaming) sets
/// the stream fields on the body.
pub open spec fn compat_translated(
    t: OpenAICompatRequestTranslator,
    req: ChatRequest,
    streaming: bool,
    r: Result<(ChatRequest, OpenAITransportRequest), TranslateError>,
) -> bool {
    if !t.quirks.supports_vision && has_image(req) {
        r matches Err(e) && unsupported(e, t.provider_name@, "vision/image content"@)
    } else if !headers_valid(chat_headers(t.inner.transport, streaming)) {
        r matches Err(TranslateError::Other(_))
    } else {
        r matches Ok((body, parts)) && chat_parts(t.inner.transport, streaming, parts)
            && exists|f: ChatRequest| #[trigger] filtered(t.quirks, req, f)
                && if streaming { streaming_body(f, body) } else { body == f }
    }
}

} // verus!
