//! Gemini client configuration: normalization, request headers and the
//! endpoint URLs. Sending requests is the caller's part.

use crate::anthropic::transport::{header_value_ok, header_value_valid};
use crate::text::{trim, trim_end_char, trim_end_char_str, trim_str};
use vstd::prelude::*;

verus! {

pub const DEFAULT_BASE_URL: &'static str = "https://generativelanguage.googleapis.com";
pub const DEFAULT_API_VERSION: &'static str = "v1beta";
/// The default timeout, 600 seconds, in nanoseconds.
pub const DEFAULT_TIMEOUT_NANOS: u128 = 600_000_000_000u128;

/// Client settings; the timeout is held in nanoseconds.
/// It carries the API key, so it has no `Debug` form.
#[derive(PartialEq)]
pub struct ClientConfig {
    pub api_key: String,
    pub base_url: String,
    pub api_version: String,
    pub timeout_nanos: u128,
}

pub open spec fn normalized_part(s: Seq<char>) -> Seq<char> {
    trim_end_char(trim(s), '/')
}

impl ClientConfig {
    /// A configuration with the public endpoint, API version `v1beta` and a
    /// 600 s timeout.
    pub fn with_api_key(api_key: String) -> (r: ClientConfig)
        ensures
            r.api_key == api_key,
            r.base_url@ == DEFAULT_BASE_URL@,
            r.api_version@ == DEFAULT_API_VERSION@,
            r.timeout_nanos == DEFAULT_TIMEOUT_NANOS,
    {
        ClientConfig {
            api_key,
            base_url: DEFAULT_BASE_URL.to_string(),
            api_version: DEFAULT_API_VERSION.to_string(),
            timeout_nanos: DEFAULT_TIMEOUT_NANOS,
        }
    }

    /// Trims the base URL and the API version and strips their trailing
    /// slashes.
    pub fn normalize(&mut self)
        ensures
            final(self).base_url@ == normalized_part(old(self).base_url@),
            final(self).api_version@ == normalized_part(old(self).api_version@),
            final(self).api_key == old(self).api_key,
            final(self).timeout_nanos == old(self).timeout_nanos,
    {
        let b = trim_str(self.base_url.as_str());
        self.base_url = trim_end_char_str(b.as_str(), '/');
        let v = trim_str(self.api_version.as_str());
        self.api_version = trim_end_char_str(v.as_str(), '/');
    }
}

/// What a client needs to make requests: headers, base URL, API version.
/// It carries the API key, so it has no `Debug` form.
#[derive(PartialEq)]
pub struct ClientParts {
    pub headers: Vec<(String, String)>,
    pub base_url: String,
    pub api_version: String,
    pub timeout_nanos: u128,
}

/// The error text of an API key that is not a valid header value.
pub open spec fn invalid_key_text() -> Seq<char> {
    "invalid api key: failed to parse header value"@
}

/// Normalizes a configuration and builds the request headers: JSON content
/// and the API key, which must be a valid header value.
pub fn client_parts(config: ClientConfig) -> (r: Result<ClientParts, String>)
    ensures
        !header_value_ok(config.api_key@) ==> (r matches Err(e) && e@ == invalid_key_text()),
        header_value_ok(config.api_key@) ==> (r matches Ok(p)
            && p.base_url@ == normalized_part(config.base_url@)
            && p.api_version@ == normalized_part(config.api_version@)
            && p.timeout_nanos == config.timeout_nanos
            && p.headers@.len() == 2
            && p.headers@[0].0@ == "content-type"@ && p.headers@[0].1@ == "application/json"@
            && p.headers@[1].0@ == "x-goog-api-key"@ && p.headers@[1].1@ == config.api_key@),
{
    let mut config = config;
    config.normalize();
    if !header_value_valid(config.api_key.as_str()) {
        return Err("invalid api key: failed to parse header value".to_string());
    }
    let mut headers: Vec<(String, String)> = Vec::new();
    headers.push(("content-type".to_string(), "application/json".to_string()));
    headers.push(("x-goog-api-key".to_string(), config.api_key));
    Ok(ClientParts { headers, base_url: config.base_url, api_version: config.api_version, timeout_nanos: config.timeout_nanos })
}

pub open spec fn model_url(base: Seq<char>, version: Seq<char>, model: Seq<char>, method: Seq<char>) -> Seq<char> {
    base + "/"@ + version + "/models/"@ + model + method
}

fn build_model_url(base: &str, version: &str, model: &str, method: &str) -> (r: String)
    ensures
        r@ == model_url(base@, version@, model@, method@),
{
    let mut u = base.to_string();
    u.append("/");
    u.append(version);
    u.append("/models/");
    u.append(model);
    u.append(method);
    u
}

/// The URL of `generateContent` for a model.
pub fn generate_content_url(base_url: &str, api_version: &str, model: &str) -> (r: String)
    ensures
        r@ == model_url(base_url@, api_version@, model@, ":generateContent"@),
        r@ == base_url@ + "/"@ + api_version@ + "/models/"@ + model@ + ":generateContent"@,
{
    build_model_url(base_url, api_version, model, ":generateContent")
}

/// The URL of streamed `generateContent` (server-sent events) for a model.
pub fn stream_generate_content_url(base_url: &str, api_version: &str, model: &str) -> (r: String)
    ensures
        r@ == model_url(base_url@, api_version@, model@, ":streamGenerateContent?alt=sse"@),
        r@ == base_url@ + "/"@ + api_version@ + "/models/"@ + model@ + ":streamGenerateContent?alt=sse"@,
{
    build_model_url(base_url, api_version, model, ":streamGenerateContent?alt=sse")
}

/// A model URL is the base URL, a slash, the API version, the `/models/`
/// segment, the model name and the method, in that order: it begins with
/// `<base>/<version>/models/` and ends with `<model><method>`.
pub proof fn lemma_model_url_segments(base: Seq<char>, version: Seq<char>, model: Seq<char>, method: Seq<char>)
    ensures
        model_url(base, version, model, method) == base + "/"@ + version + "/models/"@ + model + method,
        model_url(base, version, model, method).take((base + "/"@ + version + "/models/"@).len() as int)
            == base + "/"@ + version + "/models/"@,
        model_url(base, version, model, method).skip((base + "/"@ + version + "/models/"@).len() as int)
            == model + method,
{
    let head = base + "/"@ + version + "/models/"@;
    assert(model_url(base, version, model, method) =~= head + (model + method));
    assert((head + (model + method)).take(head.len() as int) =~= head);
    assert((head + (model + method)).skip(head.len() as int) =~= model + method);
}

} // verus!
