//! Provider configuration and its validation.

use crate::openai::transport::{
    config_ok, normalized_url, optional_field, text_of, HttpTransportConfig, OpenAIAuthConfig,
    OpenAITransportConfigError,
};
use crate::string_map::StringMap;
use crate::text::{bool_str, bool_text, opt_quoted, opt_quoted_str, opt_text, pairs_str, pairs_text, quoted, quoted_str, trim, trim_str};
use vstd::prelude::*;

verus! {

/// Which OpenAI features a compatible provider supports.
#[derive(Debug, PartialEq)]
pub struct Quirks {
    pub supports_responses_api: bool,
    pub supports_chat_completions: bool,
    pub supports_embeddings: bool,
    pub supports_streaming: bool,
    pub supports_tool_choice: bool,
    pub supports_parallel_tool_calls: bool,
    pub supports_vision: bool,
}

/// `true`, the default of the supported-by-default quirks.
pub fn ret_true() -> (r: bool)
    ensures
        r,
{
    true
}

/// `false`, the default of the Responses API quirk.
pub fn ret_false() -> (r: bool)
    ensures
        !r,
{
    false
}

impl Default for Quirks {
    /// Everything but the Responses API is supported.
    fn default() -> (r: Quirks)
        ensures
            !r.supports_responses_api,
            r.supports_chat_completions && r.supports_embeddings && r.supports_streaming,
            r.supports_tool_choice && r.supports_parallel_tool_calls && r.supports_vision,
    {
        Quirks {
            supports_responses_api: ret_false(),
            supports_chat_completions: ret_true(),
            supports_embeddings: ret_true(),
            supports_streaming: ret_true(),
            supports_tool_choice: ret_true(),
            supports_parallel_tool_calls: ret_true(),
            supports_vision: ret_true(),
        }
    }
}

impl Clone for Quirks {
    fn clone(&self) -> (r: Quirks)
        ensures
            r == *self,
    {
        Quirks {
            supports_responses_api: self.supports_responses_api,
            supports_chat_completions: self.supports_chat_completions,
            supports_embeddings: self.supports_embeddings,
            supports_streaming: self.supports_streaming,
            supports_tool_choice: self.supports_tool_choice,
            supports_parallel_tool_calls: self.supports_parallel_tool_calls,
            supports_vision: self.supports_vision,
        }
    }
}

/// Why a provider configuration was refused.
#[derive(Debug, PartialEq)]
pub enum OpenAICompatConfigError {
    MissingName,
    MissingBaseUrl,
    MissingApiKey,
    InvalidBaseUrl(String),
    InvalidTimeoutSeconds(u64),
}

pub open spec fn compat_error_of(e: OpenAITransportConfigError) -> OpenAICompatConfigError {
    match e {
        OpenAITransportConfigError::MissingBaseUrl => OpenAICompatConfigError::MissingBaseUrl,
        OpenAITransportConfigError::MissingApiKey => OpenAICompatConfigError::MissingApiKey,
        OpenAITransportConfigError::InvalidBaseUrl(u) => OpenAICompatConfigError::InvalidBaseUrl(u),
        OpenAITransportConfigError::InvalidTimeoutSeconds(t) => OpenAICompatConfigError::InvalidTimeoutSeconds(t),
    }
}

impl From<OpenAITransportConfigError> for OpenAICompatConfigError {
    fn from(value: OpenAITransportConfigError) -> (r: OpenAICompatConfigError) {
        match value {
            OpenAITransportConfigError::MissingBaseUrl => OpenAICompatConfigError::MissingBaseUrl,
            OpenAITransportConfigError::MissingApiKey => OpenAICompatConfigError::MissingApiKey,
            OpenAITransportConfigError::InvalidBaseUrl(u) => OpenAICompatConfigError::InvalidBaseUrl(u),
            OpenAITransportConfigError::InvalidTimeoutSeconds(t) => OpenAICompatConfigError::InvalidTimeoutSeconds(t),
        }
    }
}

impl vstd::std_specs::convert::FromSpecImpl<OpenAITransportConfigError> for OpenAICompatConfigError {
    open spec fn obeys_from_spec() -> bool {
        true
    }

    open spec fn from_spec(value: OpenAITransportConfigError) -> OpenAICompatConfigError {
        compat_error_of(value)
    }
}

/// A provider's configuration.
/// It carries the API key, so it has no `Debug` form; `redacted_debug` lists it with the key hidden.
#[derive(PartialEq)]
pub struct OpenAICompatConfig {
    pub name: String,
    pub http: HttpTransportConfig,
    pub auth: OpenAIAuthConfig,
    pub quirks: Quirks,
}

/// A validated provider.
/// It carries the API key, so it has no `Debug` form; `redacted_debug` lists it with the key hidden.
#[derive(PartialEq)]
pub struct OpenAICompatProvider {
    config: OpenAICompatConfig,
}

/// The configuration is accepted: a name, and an accepted transport.
pub open spec fn compat_config_ok(c: OpenAICompatConfig) -> bool {
    let base = normalized_url(c.http.base_url@);
    &&& trim(c.name@).len() > 0
    &&& base.len() > 0
    &&& crate::openai::transport::is_http_url(base)
    &&& c.http.timeout_seconds > 0
    &&& trim(c.auth.api_key@).len() > 0
}

/// The normalized form of an accepted configuration.
pub open spec fn compat_normalized(old_c: OpenAICompatConfig, c: OpenAICompatConfig) -> bool {
    &&& c.name@ == trim(old_c.name@)
    &&& c.http.base_url@ == normalized_url(old_c.http.base_url@)
    &&& c.http.timeout_seconds == old_c.http.timeout_seconds
    &&& c.http.default_headers == old_c.http.default_headers
    &&& c.auth.api_key@ == trim(old_c.auth.api_key@)
    &&& text_of(c.auth.organization) == optional_field(old_c.auth.organization)
    &&& text_of(c.auth.project) == optional_field(old_c.auth.project)
    &&& c.quirks == old_c.quirks
}

impl OpenAICompatConfig {
    /// Trims the name, which must not be blank, then normalizes the HTTP
    /// settings and the credentials, reporting the first error.
    pub fn normalize(&mut self) -> (r: Result<(), OpenAICompatConfigError>)
        ensures
            r is Ok <==> compat_config_ok(*old(self)),
            r is Ok ==> compat_normalized(*old(self), *final(self)),
            trim(old(self).name@).len() == 0 ==> r matches Err(OpenAICompatConfigError::MissingName),
            trim(old(self).name@).len() > 0 && normalized_url(old(self).http.base_url@).len() == 0 ==> r matches Err(OpenAICompatConfigError::MissingBaseUrl),
            trim(old(self).name@).len() > 0 && normalized_url(old(self).http.base_url@).len() > 0
                && !crate::openai::transport::is_http_url(normalized_url(old(self).http.base_url@)) ==>
                (r matches Err(OpenAICompatConfigError::InvalidBaseUrl(u)) && u@ == normalized_url(old(self).http.base_url@)),
            trim(old(self).name@).len() > 0 && normalized_url(old(self).http.base_url@).len() > 0
                && crate::openai::transport::is_http_url(normalized_url(old(self).http.base_url@))
                && old(self).http.timeout_seconds == 0 ==> r matches Err(OpenAICompatConfigError::InvalidTimeoutSeconds(0)),
            trim(old(self).name@).len() > 0 && normalized_url(old(self).http.base_url@).len() > 0
                && crate::openai::transport::is_http_url(normalized_url(old(self).http.base_url@))
                && old(self).http.timeout_seconds > 0 && trim(old(self).auth.api_key@).len() == 0 ==> r matches Err(OpenAICompatConfigError::MissingApiKey),
    {
        self.name = trim_str(self.name.as_str());
        if self.name.as_str().is_empty() {
            return Err(OpenAICompatConfigError::MissingName);
        }
        match self.http.normalize() {
            Ok(()) => {},
            Err(e) => return Err(OpenAICompatConfigError::from(e)),
        }
        match self.auth.normalize() {
            Ok(()) => {},
            Err(e) => return Err(OpenAICompatConfigError::from(e)),
        }
        Ok(())
    }
}

impl OpenAICompatProvider {
    pub closed spec fn spec_config(&self) -> OpenAICompatConfig {
        self.config
    }

    /// Validates and normalizes a configuration.
    pub fn new(config: OpenAICompatConfig) -> (r: Result<OpenAICompatProvider, OpenAICompatConfigError>)
        ensures
            r is Ok <==> compat_config_ok(config),
            r matches Ok(p) ==> compat_normalized(config, p.spec_config()),
    {
        let mut config = config;
        match config.normalize() {
            Ok(()) => Ok(OpenAICompatProvider { config }),
            Err(e) => Err(e),
        }
    }

    /// The provider's name.
    pub fn name(&self) -> (r: &str)
        ensures
            r@ == self.spec_config().name@,
    {
        self.config.name.as_str()
    }

    /// The normalized base URL.
    pub fn base_url(&self) -> (r: &str)
        ensures
            r@ == self.spec_config().http.base_url@,
    {
        self.config.http.base_url.as_str()
    }

    /// The trimmed API key.
    pub fn api_key(&self) -> (r: &str)
        ensures
            r@ == self.spec_config().auth.api_key@,
    {
        self.config.auth.api_key.as_str()
    }

    /// The organization, if any.
    pub fn organization(&self) -> (r: Option<&str>)
        ensures
            match self.spec_config().auth.organization {
                Some(o) => r matches Some(s) && s@ == o@,
                None => r is None,
            },
    {
        match &self.config.auth.organization {
            Some(o) => Some(o.as_str()),
            None => None,
        }
    }

    /// The project, if any.
    pub fn project(&self) -> (r: Option<&str>)
        ensures
            match self.spec_config().auth.project {
                Some(p) => r matches Some(s) && s@ == p@,
                None => r is None,
            },
    {
        match &self.config.auth.project {
            Some(p) => Some(p.as_str()),
            None => None,
        }
    }

    /// The provider's quirks.
    pub fn quirks(&self) -> (r: &Quirks)
        ensures
            *r == self.spec_config().quirks,
    {
        &self.config.quirks
    }

    /// The default headers.
    pub fn default_headers(&self) -> (r: &StringMap)
        ensures
            r.model() == self.spec_config().http.default_headers.model(),
    {
        &self.config.http.default_headers
    }

    /// The HTTP settings.
    pub fn http_config(&self) -> (r: &HttpTransportConfig)
        ensures
            *r == self.spec_config().http,
    {
        &self.config.http
    }

    /// The credentials.
    pub fn auth_config(&self) -> (r: &OpenAIAuthConfig)
        ensures
            *r == self.spec_config().auth,
    {
        &self.config.auth
    }
}

// ─── Listings without the key ───────────────────────────────────────────────

/// The listing of the quirks.
pub open spec fn quirks_listing(q: Quirks) -> Seq<char> {
    "Quirks { supports_responses_api: "@ + bool_text(q.supports_responses_api)
        + ", supports_chat_completions: "@ + bool_text(q.supports_chat_completions)
        + ", supports_embeddings: "@ + bool_text(q.supports_embeddings)
        + ", supports_streaming: "@ + bool_text(q.supports_streaming)
        + ", supports_tool_choice: "@ + bool_text(q.supports_tool_choice)
        + ", supports_parallel_tool_calls: "@ + bool_text(q.supports_parallel_tool_calls)
        + ", supports_vision: "@ + bool_text(q.supports_vision) + " }"@
}

/// The listing of a provider configuration: the key shows as `[REDACTED]`.
pub open spec fn compat_config_listing(c: OpenAICompatConfig) -> Seq<char> {
    "OpenAICompatConfig { name: "@ + quoted(c.name@) + ", base_url: "@ + quoted(c.http.base_url@)
        + ", api_key: \"[REDACTED]\", organization: "@ + opt_quoted(opt_text(c.auth.organization))
        + ", project: "@ + opt_quoted(opt_text(c.auth.project)) + ", default_headers: "@
        + pairs_text(c.http.default_headers.model()) + ", quirks: "@ + quirks_listing(c.quirks) + " }"@
}

/// The listing of a provider: its name and base URL only.
pub open spec fn compat_provider_listing(c: OpenAICompatConfig) -> Seq<char> {
    "OpenAICompatProvider { name: "@ + quoted(c.name@) + ", base_url: "@ + quoted(c.http.base_url@) + " }"@
}

impl Quirks {
    /// The debug listing of the quirks.
    pub fn listing(&self) -> (r: String)
        ensures
            r@ == quirks_listing(*self),
    {
        let mut r = "Quirks { supports_responses_api: ".to_string();
        let t = bool_str(self.supports_responses_api);
        r.append(t.as_str());
        r.append(", supports_chat_completions: ");
        let t = bool_str(self.supports_chat_completions);
        r.append(t.as_str());
        r.append(", supports_embeddings: ");
        let t = bool_str(self.supports_embeddings);
        r.append(t.as_str());
        r.append(", supports_streaming: ");
        let t = bool_str(self.supports_streaming);
        r.append(t.as_str());
        r.append(", supports_tool_choice: ");
        let t = bool_str(self.supports_tool_choice);
        r.append(t.as_str());
        r.append(", supports_parallel_tool_calls: ");
        let t = bool_str(self.supports_parallel_tool_calls);
        r.append(t.as_str());
        r.append(", supports_vision: ");
        let t = bool_str(self.supports_vision);
        r.append(t.as_str());
        r.append(" }");
        r
    }
}

impl OpenAICompatConfig {
    /// The debug listing of the configuration, with the key redacted.
    pub fn redacted_debug(&self) -> (r: String)
        ensures
            r@ == compat_config_listing(*self),
    {
        let mut r = "OpenAICompatConfig { name: ".to_string();
        let t = quoted_str(self.name.as_str());
        r.append(t.as_str());
        r.append(", base_url: ");
        let t = quoted_str(self.http.base_url.as_str());
        r.append(t.as_str());
        r.append(", api_key: \"[REDACTED]\", organization: ");
        let t = opt_quoted_str(&self.auth.organization);
        r.append(t.as_str());
        r.append(", project: ");
        let t = opt_quoted_str(&self.auth.project);
        r.append(t.as_str());
        r.append(", default_headers: ");
        let t = pairs_str(&self.http.default_headers.entries);
        r.append(t.as_str());
        r.append(", quirks: ");
        let t = self.quirks.listing();
        r.append(t.as_str());
        r.append(" }");
        r
    }
}

impl OpenAICompatProvider {
    /// The debug listing of the provider: its name and base URL.
    pub fn redacted_debug(&self) -> (r: String)
        ensures
            r@ == compat_provider_listing(self.spec_config()),
    {
        let mut r = "OpenAICompatProvider { name: ".to_string();
        let t = quoted_str(self.config.name.as_str());
        r.append(t.as_str());
        r.append(", base_url: ");
        let t = quoted_str(self.config.http.base_url.as_str());
        r.append(t.as_str());
        r.append(" }");
        r
    }
}

/// The listings do not depend on the key: a configuration and a provider
/// list the same whatever key they hold.
pub proof fn lemma_compat_listings_hide_api_key(c: OpenAICompatConfig, key: String)
    ensures
        compat_config_listing(c) == compat_config_listing(
            OpenAICompatConfig { auth: OpenAIAuthConfig { api_key: key, ..c.auth }, ..c },
        ),
        compat_provider_listing(c) == compat_provider_listing(
            OpenAICompatConfig { auth: OpenAIAuthConfig { api_key: key, ..c.auth }, ..c },
        ),
{
}

} // verus!
