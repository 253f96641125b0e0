//! OpenAI transport configuration: validation and the request parts (URL
//! and headers) of each call. Sending is the caller's part.

use crate::string_map::{pairs_lookup, StringMap, PairsModel, lemma_lookup_concat, lemma_lookup_push};
use crate::text::{decimal_text, opt_quoted, opt_quoted_str, opt_text, pairs_str, pairs_text, quoted, quoted_str, u64_to_text, has_prefix, starts_with_str, trim, trim_end_char, trim_end_char_str, trim_start_char, trim_start_char_str, trim_str};
use vstd::prelude::*;

verus! {

pub const DEFAULT_OPENAI_BASE_URL: &'static str = "https://api.openai.com/v1";
pub const DEFAULT_TIMEOUT_SECONDS: u64 = 600;

/// HTTP settings.
#[derive(Debug, PartialEq)]
pub struct HttpTransportConfig {
    pub base_url: String,
    pub timeout_seconds: u64,
    pub default_headers: StringMap,
}

/// Credentials.
/// It carries the API key, so it has no `Debug` form; `redacted_debug` lists it with the key hidden.
#[derive(PartialEq)]
pub struct OpenAIAuthConfig {
    pub api_key: String,
    pub organization: Option<String>,
    pub project: Option<String>,
}

/// Transport settings.
/// It carries the API key, so it has no `Debug` form; `redacted_debug` lists it with the key hidden.
#[derive(PartialEq)]
pub struct OpenAITransportConfig {
    pub http: HttpTransportConfig,
    pub auth: OpenAIAuthConfig,
}

/// A validated transport.
/// It carries the API key, so it has no `Debug` form; `redacted_debug` lists it with the key hidden.
#[derive(PartialEq)]
pub struct OpenAITransport {
    config: OpenAITransportConfig,
}

/// The URL and headers of one request.
#[derive(Debug, PartialEq)]
pub struct OpenAITransportRequest {
    pub url: String,
    pub headers: StringMap,
}

/// Why a transport configuration was refused.
#[derive(Debug, PartialEq)]
pub enum OpenAITransportConfigError {
    MissingBaseUrl,
    MissingApiKey,
    InvalidBaseUrl(String),
    InvalidTimeoutSeconds(u64),
}

// ─── Specifications ─────────────────────────────────────────────────────────

pub open spec fn normalized_url(s: Seq<char>) -> Seq<char> {
    trim_end_char(trim(s), '/')
}

pub open spec fn is_http_url(s: Seq<char>) -> bool {
    has_prefix(s, "http://"@) || has_prefix(s, "https://"@)
}

/// An optional field after normalization: trimmed, and absent when blank.
pub open spec fn optional_field(v: Option<String>) -> Option<Seq<char>> {
    match v {
        Some(s) => if trim(s@).len() == 0 { None } else { Some(trim(s@)) },
        None => None,
    }
}

pub open spec fn text_of(v: Option<String>) -> Option<Seq<char>> {
    match v {
        Some(s) => Some(s@),
        None => None,
    }
}

/// `path` joined under `base`: the base alone for a blank path, else one
/// slash between.
pub open spec fn joined_url(base: Seq<char>, path: Seq<char>) -> Seq<char> {
    let p = trim(path);
    if p.len() == 0 {
        base
    } else {
        base + "/"@ + trim_start_char(p, '/')
    }
}

/// The headers of a request: the defaults, then the request's own, then the
/// credentials, which therefore cannot be overridden.
pub open spec fn request_headers(defaults: PairsModel, extra: PairsModel, key: Seq<char>, organization: Option<Seq<char>>, project: Option<Seq<char>>) -> PairsModel {
    let base = (defaults + extra).push(("Authorization"@, "Bearer "@ + key));
    let with_org = match organization {
        Some(o) => base.push(("OpenAI-Organization"@, o)),
        None => base,
    };
    match project {
        Some(p) => with_org.push(("OpenAI-Project"@, p)),
        None => with_org,
    }
}

/// `extra` with `Accept` and `Content-Type` defaulting to JSON.
pub open spec fn json_headers(extra: PairsModel) -> PairsModel {
    let with_accept = if pairs_lookup(extra, "Accept"@) is Some {
        extra
    } else {
        extra.push(("Accept"@, "application/json"@))
    };
    if pairs_lookup(with_accept, "Content-Type"@) is Some {
        with_accept
    } else {
        with_accept.push(("Content-Type"@, "application/json"@))
    }
}

// ─── Executable ─────────────────────────────────────────────────────────────

/// The default base URL.
pub fn default_openai_base_url() -> (r: String)
    ensures
        r@ == DEFAULT_OPENAI_BASE_URL@,
{
    DEFAULT_OPENAI_BASE_URL.to_string()
}

/// The default timeout in seconds.
pub fn default_timeout_seconds() -> (r: u64)
    ensures
        r == DEFAULT_TIMEOUT_SECONDS,
{
    DEFAULT_TIMEOUT_SECONDS
}

/// A trimmed optional field; blank is absent.
pub fn normalize_optional_field(value: String) -> (r: Option<String>)
    ensures
        match optional_field(Some(value)) {
            Some(t) => r matches Some(s) && s@ == t,
            None => r is None,
        },
{
    let trimmed = trim_str(value.as_str());
    if trimmed.as_str().is_empty() {
        None
    } else {
        Some(trimmed)
    }
}

/// `path` joined under `base_url`.
pub fn join_url(base_url: &str, path: &str) -> (r: String)
    ensures
        r@ == joined_url(base_url@, path@),
{
    let trimmed = trim_str(path);
    if trimmed.as_str().is_empty() {
        return base_url.to_string();
    }
    let rest = trim_start_char_str(trimmed.as_str(), '/');
    let mut u = base_url.to_string();
    u.append("/");
    u.append(rest.as_str());
    u
}

impl HttpTransportConfig {
    /// Trims the base URL and strips trailing slashes, then checks that it
    /// is an `http(s)://` URL and that the timeout is non-zero.
    pub fn normalize(&mut self) -> (r: Result<(), OpenAITransportConfigError>)
        ensures
            final(self).base_url@ == normalized_url(old(self).base_url@),
            final(self).timeout_seconds == old(self).timeout_seconds,
            final(self).default_headers == old(self).default_headers,
            normalized_url(old(self).base_url@).len() == 0 ==> r matches Err(OpenAITransportConfigError::MissingBaseUrl),
            normalized_url(old(self).base_url@).len() > 0 && !is_http_url(normalized_url(old(self).base_url@)) ==>
                (r matches Err(OpenAITransportConfigError::InvalidBaseUrl(u)) && u@ == normalized_url(old(self).base_url@)),
            normalized_url(old(self).base_url@).len() > 0 && is_http_url(normalized_url(old(self).base_url@)) && old(self).timeout_seconds == 0 ==>
                r matches Err(OpenAITransportConfigError::InvalidTimeoutSeconds(0)),
            normalized_url(old(self).base_url@).len() > 0 && is_http_url(normalized_url(old(self).base_url@)) && old(self).timeout_seconds > 0 ==>
                r is Ok,
    {
        let trimmed = trim_str(self.base_url.as_str());
        self.base_url = trim_end_char_str(trimmed.as_str(), '/');
        if self.base_url.as_str().is_empty() {
            return Err(OpenAITransportConfigError::MissingBaseUrl);
        }
        if !(starts_with_str(self.base_url.as_str(), "http://") || starts_with_str(self.base_url.as_str(), "https://")) {
            return Err(OpenAITransportConfigError::InvalidBaseUrl(self.base_url.clone()));
        }
        if self.timeout_seconds == 0 {
            return Err(OpenAITransportConfigError::InvalidTimeoutSeconds(self.timeout_seconds));
        }
        Ok(())
    }
}

impl OpenAIAuthConfig {
    /// Trims the key, which must not be blank, and the optional fields,
    /// which become absent when blank.
    pub fn normalize(&mut self) -> (r: Result<(), OpenAITransportConfigError>)
        ensures
            trim(old(self).api_key@).len() == 0 ==> (r matches Err(OpenAITransportConfigError::MissingApiKey) && *final(self) == *old(self)),
            trim(old(self).api_key@).len() > 0 ==> {
                &&& r is Ok
                &&& final(self).api_key@ == trim(old(self).api_key@)
                &&& text_of(final(self).organization) == optional_field(old(self).organization)
                &&& text_of(final(self).project) == optional_field(old(self).project)
            },
    {
        let trimmed = trim_str(self.api_key.as_str());
        if trimmed.as_str().is_empty() {
            return Err(OpenAITransportConfigError::MissingApiKey);
        }
        self.api_key = trimmed;
        let organization = match self.organization.take() {
            Some(o) => normalize_optional_field(o),
            None => None,
        };
        self.organization = organization;
        let project = match self.project.take() {
            Some(p) => normalize_optional_field(p),
            None => None,
        };
        self.project = project;
        Ok(())
    }
}

/// The configuration is accepted.
pub open spec fn config_ok(c: OpenAITransportConfig) -> bool {
    let base = normalized_url(c.http.base_url@);
    base.len() > 0 && is_http_url(base) && c.http.timeout_seconds > 0 && trim(c.auth.api_key@).len() > 0
}

impl OpenAITransportConfig {
    /// Normalizes the HTTP settings, then the credentials.
    pub fn normalize(&mut self) -> (r: Result<(), OpenAITransportConfigError>)
        ensures
            r is Ok <==> config_ok(*old(self)),
            r is Ok ==> {
                &&& final(self).http.base_url@ == normalized_url(old(self).http.base_url@)
                &&& final(self).http.timeout_seconds == old(self).http.timeout_seconds
                &&& final(self).http.default_headers == old(self).http.default_headers
                &&& final(self).auth.api_key@ == trim(old(self).auth.api_key@)
                &&& text_of(final(self).auth.organization) == optional_field(old(self).auth.organization)
                &&& text_of(final(self).auth.project) == optional_field(old(self).auth.project)
            },
    {
        match self.http.normalize() {
            Ok(()) => {},
            Err(e) => return Err(e),
        }
        self.auth.normalize()
    }

    /// The base URL.
    pub fn base_url(&self) -> (r: &str)
        ensures
            r@ == self.http.base_url@,
    {
        self.http.base_url.as_str()
    }

    /// The API key.
    pub fn api_key(&self) -> (r: &str)
        ensures
            r@ == self.auth.api_key@,
    {
        self.auth.api_key.as_str()
    }

    /// The organization, if any.
    pub fn organization(&self) -> (r: Option<&str>)
        ensures
            match self.auth.organization {
                Some(o) => r matches Some(s) && s@ == o@,
                None => r is None,
            },
    {
        match &self.auth.organization {
            Some(o) => Some(o.as_str()),
            None => None,
        }
    }

    /// The project, if any.
    pub fn project(&self) -> (r: Option<&str>)
        ensures
            match self.auth.project {
                Some(p) => r matches Some(s) && s@ == p@,
                None => r is None,
            },
    {
        match &self.auth.project {
            Some(p) => Some(p.as_str()),
            None => None,
        }
    }

    /// The default headers.
    pub fn default_headers(&self) -> (r: &StringMap)
        ensures
            r.model() == self.http.default_headers.model(),
    {
        &self.http.default_headers
    }

    /// The timeout in seconds.
    pub fn timeout_seconds(&self) -> (r: u64)
        ensures
            r == self.http.timeout_seconds,
    {
        self.http.timeout_seconds
    }
}

impl OpenAITransport {
    pub closed spec fn spec_config(&self) -> OpenAITransportConfig {
        self.config
    }

    /// Validates and normalizes a configuration.
    pub fn new(config: OpenAITransportConfig) -> (r: Result<OpenAITransport, OpenAITransportConfigError>)
        ensures
            r is Ok <==> config_ok(config),
            r matches Ok(t) ==> {
                &&& t.spec_config().http.base_url@ == normalized_url(config.http.base_url@)
                &&& t.spec_config().http.timeout_seconds == config.http.timeout_seconds
                &&& t.spec_config().http.default_headers == config.http.default_headers
                &&& t.spec_config().auth.api_key@ == trim(config.auth.api_key@)
                &&& text_of(t.spec_config().auth.organization) == optional_field(config.auth.organization)
                &&& text_of(t.spec_config().auth.project) == optional_field(config.auth.project)
            },
    {
        let mut config = config;
        match config.normalize() {
            Ok(()) => Ok(OpenAITransport { config }),
            Err(e) => Err(e),
        }
    }

    /// The normalized base URL.
    pub fn base_url(&self) -> (r: &str)
        ensures
            r@ == self.spec_config().http.base_url@,
    {
        self.config.base_url()
    }

    /// The trimmed API key.
    pub fn api_key(&self) -> (r: &str)
        ensures
            r@ == self.spec_config().auth.api_key@,
    {
        self.config.api_key()
    }

    /// The organization, if any.
    pub fn organization(&self) -> (r: Option<&str>)
        ensures
            match self.spec_config().auth.organization {
                Some(o) => r matches Some(s) && s@ == o@,
                None => r is None,
            },
    {
        self.config.organization()
    }

    /// The project, if any.
    pub fn project(&self) -> (r: Option<&str>)
        ensures
            match self.spec_config().auth.project {
                Some(p) => r matches Some(s) && s@ == p@,
                None => r is None,
            },
    {
        self.config.project()
    }

    /// The default headers.
    pub fn default_headers(&self) -> (r: &StringMap)
        ensures
            r.model() == self.spec_config().http.default_headers.model(),
    {
        self.config.default_headers()
    }

    /// The timeout in seconds.
    pub fn timeout_seconds(&self) -> (r: u64)
        ensures
            r == self.spec_config().http.timeout_seconds,
    {
        self.config.timeout_seconds()
    }

    /// The URL and headers of a request to `path`: default headers, then
    /// `extra_headers`, then the credentials.
    pub fn prepare_request(&self, path: &str, extra_headers: &StringMap) -> (r: OpenAITransportRequest)
        ensures
            r.url@ == joined_url(self.spec_config().http.base_url@, path@),
            r.headers.model() == request_headers(
                self.spec_config().http.default_headers.model(),
                extra_headers.model(),
                self.spec_config().auth.api_key@,
                text_of(self.spec_config().auth.organization),
                text_of(self.spec_config().auth.project),
            ),
    {
        let mut headers = self.default_headers().duplicate();
        headers.extend_from(extra_headers);
        let mut auth = "Bearer ".to_string();
        auth.append(self.api_key());
        headers.insert("Authorization".to_string(), auth);
        match self.organization() {
            Some(o) => headers.insert("OpenAI-Organization".to_string(), o.to_string()),
            None => {},
        }
        match self.project() {
            Some(p) => headers.insert("OpenAI-Project".to_string(), p.to_string()),
            None => {},
        }
        OpenAITransportRequest { url: join_url(self.base_url(), path), headers }
    }

    /// `prepare_request` with `Accept` and `Content-Type` defaulting to JSON.
    pub fn prepare_json_request(&self, path: &str, extra_headers: &StringMap) -> (r: OpenAITransportRequest)
        ensures
            r.url@ == joined_url(self.spec_config().http.base_url@, path@),
            r.headers.model() == request_headers(
                self.spec_config().http.default_headers.model(),
                json_headers(extra_headers.model()),
                self.spec_config().auth.api_key@,
                text_of(self.spec_config().auth.organization),
                text_of(self.spec_config().auth.project),
            ),
    {
        let mut json = extra_headers.duplicate();
        json.insert_if_absent("Accept".to_string(), "application/json".to_string());
        json.insert_if_absent("Content-Type".to_string(), "application/json".to_string());
        self.prepare_request(path, &json)
    }
}

/// The credentials always win: whatever the default and request headers
/// say, a prepared request authenticates with the configured key.
pub proof fn lemma_auth_header_not_overridden(defaults: PairsModel, extra: PairsModel, key: Seq<char>, organization: Option<Seq<char>>, project: Option<Seq<char>>)
    ensures
        pairs_lookup(request_headers(defaults, extra, key, organization, project), "Authorization"@) == Some("Bearer "@ + key),
        organization matches Some(o) ==> pairs_lookup(request_headers(defaults, extra, key, organization, project), "OpenAI-Organization"@) == Some(o),
        project matches Some(p) ==> pairs_lookup(request_headers(defaults, extra, key, organization, project), "OpenAI-Project"@) == Some(p),
{
    reveal_strlit("Authorization");
    reveal_strlit("OpenAI-Organization");
    reveal_strlit("OpenAI-Project");
    let a = "Authorization"@;
    let o = "OpenAI-Organization"@;
    let p = "OpenAI-Project"@;
    assert(a.len() != o.len());
    assert(a.len() != p.len());
    assert(o.len() != p.len());
    lemma_headers_lookup(defaults, extra, key, organization, project, a);
    lemma_headers_lookup(defaults, extra, key, organization, project, o);
    lemma_headers_lookup(defaults, extra, key, organization, project, p);
}

proof fn lemma_headers_lookup(defaults: PairsModel, extra: PairsModel, key: Seq<char>, organization: Option<Seq<char>>, project: Option<Seq<char>>, name: Seq<char>)
    ensures
        pairs_lookup(request_headers(defaults, extra, key, organization, project), name) == if project is Some && name == "OpenAI-Project"@ {
            Some(project->0)
        } else if organization is Some && name == "OpenAI-Organization"@ {
            Some(organization->0)
        } else if name == "Authorization"@ {
            Some("Bearer "@ + key)
        } else {
            pairs_lookup(defaults + extra, name)
        },
{
    let base = (defaults + extra).push(("Authorization"@, "Bearer "@ + key));
    lemma_lookup_push(defaults + extra, ("Authorization"@, "Bearer "@ + key), name);
    let with_org = match organization {
        Some(o) => base.push(("OpenAI-Organization"@, o)),
        None => base,
    };
    match organization {
        Some(o) => lemma_lookup_push(base, ("OpenAI-Organization"@, o), name),
        None => {},
    }
    match project {
        Some(p) => lemma_lookup_push(with_org, ("OpenAI-Project"@, p), name),
        None => {},
    }
}

/// Any other header takes the request's value when it sets one, else the
/// default.
pub proof fn lemma_request_header_precedence(defaults: PairsModel, extra: PairsModel, key: Seq<char>, organization: Option<Seq<char>>, project: Option<Seq<char>>, name: Seq<char>)
    requires
        name != "Authorization"@,
        name != "OpenAI-Organization"@,
        name != "OpenAI-Project"@,
    ensures
        pairs_lookup(request_headers(defaults, extra, key, organization, project), name) == match pairs_lookup(extra, name) {
            Some(v) => Some(v),
            None => pairs_lookup(defaults, name),
        },
{
    lemma_lookup_concat(defaults, extra, name);
    lemma_headers_lookup(defaults, extra, key, organization, project, name);
}

// ─── Listings without the key ───────────────────────────────────────────────

/// The listing of credentials: the key shows as `[REDACTED]`.
pub open spec fn auth_listing(a: OpenAIAuthConfig) -> Seq<char> {
    "OpenAIAuthConfig { api_key: \"[REDACTED]\", organization: "@ + opt_quoted(opt_text(a.organization))
        + ", project: "@ + opt_quoted(opt_text(a.project)) + " }"@
}

/// The listing of transport settings: the key shows as `[REDACTED]`.
pub open spec fn transport_config_listing(c: OpenAITransportConfig) -> Seq<char> {
    "OpenAITransportConfig { base_url: "@ + quoted(c.http.base_url@) + ", timeout_seconds: "@
        + decimal_text(c.http.timeout_seconds as nat) + ", api_key: \"[REDACTED]\", organization: "@
        + opt_quoted(opt_text(c.auth.organization)) + ", project: "@ + opt_quoted(opt_text(c.auth.project))
        + ", default_headers: "@ + pairs_text(c.http.default_headers.model()) + " }"@
}

/// The listing of a transport: its settings' listing.
pub open spec fn transport_listing(c: OpenAITransportConfig) -> Seq<char> {
    "OpenAITransport { config: "@ + transport_config_listing(c) + " }"@
}

impl OpenAIAuthConfig {
    /// The debug listing of the credentials, with the key redacted.
    pub fn redacted_debug(&self) -> (r: String)
        ensures
            r@ == auth_listing(*self),
    {
        let mut r = "OpenAIAuthConfig { api_key: \"[REDACTED]\", organization: ".to_string();
        let o = opt_quoted_str(&self.organization);
        r.append(o.as_str());
        r.append(", project: ");
        let p = opt_quoted_str(&self.project);
        r.append(p.as_str());
        r.append(" }");
        r
    }
}

impl OpenAITransportConfig {
    /// The debug listing of the settings, with the key redacted.
    pub fn redacted_debug(&self) -> (r: String)
        ensures
            r@ == transport_config_listing(*self),
    {
        let mut r = "OpenAITransportConfig { base_url: ".to_string();
        let b = quoted_str(self.http.base_url.as_str());
        r.append(b.as_str());
        r.append(", timeout_seconds: ");
        let t = u64_to_text(self.http.timeout_seconds);
        r.append(t.as_str());
        r.append(", api_key: \"[REDACTED]\", organization: ");
        let o = opt_quoted_str(&self.auth.organization);
        r.append(o.as_str());
        r.append(", project: ");
        let p = opt_quoted_str(&self.auth.project);
        r.append(p.as_str());
        r.append(", default_headers: ");
        let h = pairs_str(&self.http.default_headers.entries);
        r.append(h.as_str());
        r.append(" }");
        r
    }
}

impl OpenAITransport {
    /// The debug listing of the transport, with the key redacted.
    pub fn redacted_debug(&self) -> (r: String)
        ensures
            r@ == transport_listing(self.spec_config()),
    {
        let mut r = "OpenAITransport { config: ".to_string();
        let c = self.config.redacted_debug();
        r.append(c.as_str());
        r.append(" }");
        r
    }
}

/// The listings do not depend on the key: credentials, settings and a
/// transport list the same whatever key they hold.
pub proof fn lemma_listings_hide_api_key(c: OpenAITransportConfig, key: String)
    ensures
        auth_listing(c.auth) == auth_listing(OpenAIAuthConfig { api_key: key, ..c.auth }),
        transport_config_listing(c) == transport_config_listing(
            OpenAITransportConfig { auth: OpenAIAuthConfig { api_key: key, ..c.auth }, ..c },
        ),
        transport_listing(c) == transport_listing(
            OpenAITransportConfig { auth: OpenAIAuthConfig { api_key: key, ..c.auth }, ..c },
        ),
{
}

} // verus!
