//! Transport configuration for the Anthropic API: validation, the request
//! headers and URL assembly. Sending requests is the caller's part.

use crate::text::{decimal_text, opt_quoted, opt_quoted_str, opt_text, pairs_str, pairs_text, quoted, quoted_str, u128_to_text, has_prefix, starts_with_str, trim, trim_end_char, trim_end_char_str, trim_start_char, trim_start_char_str, trim_str};
use vstd::prelude::*;

verus! {

pub const DEFAULT_BASE_URL: &'static str = "https://api.anthropic.com";
pub const DEFAULT_VERSION: &'static str = "2023-06-01";
/// The default timeout, 600 seconds, in nanoseconds.
pub const DEFAULT_TIMEOUT_NANOS: u128 = 600_000_000_000u128;

/// How the API key is sent.
#[derive(Debug, PartialEq)]
pub enum AuthMode {
    /// `x-api-key: <key>`.
    ApiKey,
    /// `authorization: Bearer <key>`.
    Bearer,
}

impl Default for AuthMode {
    fn default() -> (r: AuthMode)
        ensures
            r is ApiKey,
    {
        AuthMode::ApiKey
    }
}

/// Transport settings. The timeout is held in nanoseconds; extra headers are
/// `(lower-case name, value)` pairs.
/// It carries the API key, so it has no `Debug` form; `redacted_debug` lists it with the key hidden.
#[derive(PartialEq)]
pub struct TransportConfig {
    pub api_key: String,
    pub auth_mode: AuthMode,
    pub base_url: String,
    pub version: String,
    pub timeout_nanos: u128,
    pub beta: Option<String>,
    pub extra_headers: Vec<(String, String)>,
}

impl Default for TransportConfig {
    /// No key, the public base URL, API version `2023-06-01`, a 600 s
    /// timeout, no beta flags and no extra headers.
    fn default() -> (r: TransportConfig)
        ensures
            r.api_key@.len() == 0,
            r.auth_mode is ApiKey,
            r.base_url@ == DEFAULT_BASE_URL@,
            r.version@ == DEFAULT_VERSION@,
            r.timeout_nanos == DEFAULT_TIMEOUT_NANOS,
            r.beta is None,
            r.extra_headers@.len() == 0,
    {
        TransportConfig {
            api_key: String::new(),
            auth_mode: AuthMode::ApiKey,
            base_url: DEFAULT_BASE_URL.to_string(),
            version: DEFAULT_VERSION.to_string(),
            timeout_nanos: DEFAULT_TIMEOUT_NANOS,
            beta: None,
            extra_headers: Vec::new(),
        }
    }
}

/// A validated transport: base URL, timeout and the headers of every request.
/// It carries the API key, so it has no `Debug` form; `redacted_debug` lists it with the key hidden.
#[derive(PartialEq)]
pub struct Transport {
    base_url: String,
    timeout_nanos: u128,
    headers: Vec<(String, String)>,
}

/// Why a transport configuration was refused.
#[derive(Debug, PartialEq)]
pub enum TransportConfigError {
    MissingApiKey,
    MissingBaseUrl,
    InvalidApiKey,
    InvalidBaseUrl(String),
    InvalidVersion(String),
    InvalidBeta(String),
    InvalidTimeout,
}

// ─── Specifications ─────────────────────────────────────────────────────────

/// A character that an HTTP header value may hold (`HeaderValue::from_str`
/// accepts a string whose every byte is a tab, or at least a space and not
/// DEL; the bytes of a non-ASCII character are all of that kind).
pub open spec fn header_char_ok(c: char) -> bool {
    c == '\t' || (' ' <= c && c != '\u{7f}')
}

pub open spec fn header_value_ok(s: Seq<char>) -> bool {
    forall|i: int| 0 <= i < s.len() ==> #[trigger] header_char_ok(s[i])
}

/// The base URL after normalization: trimmed, without trailing slashes.
pub open spec fn normalized_base_url(s: Seq<char>) -> Seq<char> {
    trim_end_char(trim(s), '/')
}

pub open spec fn http_url(s: Seq<char>) -> bool {
    has_prefix(s, "http://"@) || has_prefix(s, "https://"@)
}

/// The error a configuration is refused with, checked in order; `None` when
/// it is accepted.
pub open spec fn config_error(c: TransportConfig) -> Option<TransportConfigErrorKind> {
    let key = trim(c.api_key@);
    let base = normalized_base_url(c.base_url@);
    if key.len() == 0 {
        Some(TransportConfigErrorKind::MissingApiKey)
    } else if base.len() == 0 {
        Some(TransportConfigErrorKind::MissingBaseUrl)
    } else if !http_url(base) {
        Some(TransportConfigErrorKind::InvalidBaseUrl(base))
    } else if c.timeout_nanos == 0 {
        Some(TransportConfigErrorKind::InvalidTimeout)
    } else if !header_value_ok(key) {
        Some(TransportConfigErrorKind::InvalidApiKey)
    } else if !header_value_ok(c.version@) {
        Some(TransportConfigErrorKind::InvalidVersion(c.version@))
    } else if c.beta matches Some(b) && !header_value_ok(b@) {
        Some(TransportConfigErrorKind::InvalidBeta(c.beta->0@))
    } else {
        None
    }
}

/// A configuration error, with its text by view.
pub enum TransportConfigErrorKind {
    MissingApiKey,
    MissingBaseUrl,
    InvalidApiKey,
    InvalidBaseUrl(Seq<char>),
    InvalidVersion(Seq<char>),
    InvalidBeta(Seq<char>),
    InvalidTimeout,
}

pub open spec fn error_kind(e: TransportConfigError) -> TransportConfigErrorKind {
    match e {
        TransportConfigError::MissingApiKey => TransportConfigErrorKind::MissingApiKey,
        TransportConfigError::MissingBaseUrl => TransportConfigErrorKind::MissingBaseUrl,
        TransportConfigError::InvalidApiKey => TransportConfigErrorKind::InvalidApiKey,
        TransportConfigError::InvalidBaseUrl(s) => TransportConfigErrorKind::InvalidBaseUrl(s@),
        TransportConfigError::InvalidVersion(s) => TransportConfigErrorKind::InvalidVersion(s@),
        TransportConfigError::InvalidBeta(s) => TransportConfigErrorKind::InvalidBeta(s@),
        TransportConfigError::InvalidTimeout => TransportConfigErrorKind::InvalidTimeout,
    }
}

pub type HeaderModel = Seq<(Seq<char>, Seq<char>)>;

pub open spec fn headers_model(h: Seq<(String, String)>) -> HeaderModel {
    h.map_values(|p: (String, String)| (p.0@, p.1@))
}

/// Whether `h` has a header named `name`.
pub open spec fn has_header(h: HeaderModel, name: Seq<char>) -> bool {
    exists|k: int| 0 <= k < h.len() && #[trigger] h[k].0 == name
}

/// The headers of `base` whose names `extra` does not carry, in order.
pub open spec fn headers_not_in(base: HeaderModel, extra: HeaderModel) -> HeaderModel
    decreases base.len(),
{
    if base.len() == 0 {
        base
    } else if has_header(extra, base.last().0) {
        headers_not_in(base.drop_last(), extra)
    } else {
        headers_not_in(base.drop_last(), extra).push(base.last())
    }
}

/// The headers `base` extended by `extra` (`HeaderMap::extend`): every name
/// that `extra` carries takes exactly `extra`'s values.
pub open spec fn extended_headers(base: HeaderModel, extra: HeaderModel) -> HeaderModel {
    headers_not_in(base, extra) + extra
}

/// The headers of a valid configuration.
pub open spec fn config_headers(c: TransportConfig) -> HeaderModel {
    let key = trim(c.api_key@);
    let auth = match c.auth_mode {
        AuthMode::ApiKey => ("x-api-key"@, key),
        AuthMode::Bearer => ("authorization"@, "Bearer "@ + key),
    };
    let base = seq![("content-type"@, "application/json"@), auth, ("anthropic-version"@, c.version@)];
    let with_beta = match c.beta {
        Some(b) => base.push(("anthropic-beta"@, b@)),
        None => base,
    };
    extended_headers(with_beta, headers_model(c.extra_headers@))
}

/// The URL of `path` under `base`: the base alone for an empty path, else
/// joined by one slash.
pub open spec fn url_of(base: Seq<char>, path: Seq<char>) -> Seq<char> {
    let p = trim(path);
    if p.len() == 0 {
        base
    } else {
        base + "/"@ + trim_start_char(p, '/')
    }
}

// ─── Executable ─────────────────────────────────────────────────────────────

/// Whether `s` can be an HTTP header value.
pub fn header_value_valid(s: &str) -> (r: bool)
    ensures
        r == header_value_ok(s@),
{
    let n = s.unicode_len();
    let mut i: usize = 0;
    while i < n
        invariant
            i <= n,
            n == s@.len(),
            forall|k: int| 0 <= k < i ==> #[trigger] header_char_ok(s@[k]),
        decreases n - i,
    {
        let c = s.get_char(i);
        if !(c == '\t' || (' ' <= c && c != '\u{7f}')) {
            assert(!header_char_ok(s@[i as int]));
            return false;
        }
        i = i + 1;
    }
    true
}

fn push_header(headers: &mut Vec<(String, String)>, name: &str, value: String)
    ensures
        headers_model(final(headers)@) == headers_model(old(headers)@).push((name@, value@)),
{
    headers.push((name.to_string(), value));
    assert(headers_model(headers@) =~= headers_model(old(headers)@).push((name@, value@)));
}

/// `base` extended by `extra`: entries of `base` whose name `extra` carries
/// are dropped, then `extra` is appended.
fn extend_headers(base: Vec<(String, String)>, extra: Vec<(String, String)>) -> (r: Vec<(String, String)>)
    ensures
        headers_model(r@) == extended_headers(headers_model(base@), headers_model(extra@)),
{
    let ghost em = headers_model(extra@);
    let ghost bm = headers_model(base@);
    let mut out: Vec<(String, String)> = Vec::new();
    let mut i: usize = 0;
    while i < base.len()
        invariant
            i <= base@.len(),
            bm == headers_model(base@),
            em == headers_model(extra@),
            headers_model(out@) == headers_not_in(bm.take(i as int), em),
        decreases base.len() - i,
    {
        let mut present = false;
        let mut j: usize = 0;
        while j < extra.len()
            invariant
                j <= extra@.len(),
                i < base@.len(),
                em == headers_model(extra@),
                bm == headers_model(base@),
                present == exists|k: int| 0 <= k < j && #[trigger] em[k].0 == bm[i as int].0,
            decreases extra.len() - j,
        {
            assert(em[j as int].0 == extra@[j as int].0@);
            assert(bm[i as int].0 == base@[i as int].0@);
            if crate::text::str_eq(extra[j].0.as_str(), base[i].0.as_str()) {
                present = true;
            }
            j = j + 1;
        }
        proof {
            let t1 = bm.take(i + 1);
            assert(t1.drop_last() =~= bm.take(i as int));
            assert(t1.last() == bm[i as int]);
            assert(present == has_header(em, bm[i as int].0));
        }
        if !present {
            let ghost before = out@;
            out.push((base[i].0.clone(), base[i].1.clone()));
            proof {
                assert(headers_model(out@) =~= headers_model(before).push(bm[i as int]));
            }
        }
        i = i + 1;
    }
    assert(bm.take(base@.len() as int) =~= bm);
    let ghost kept = headers_model(out@);
    let mut out = out;
    let mut extra = extra;
    out.append(&mut extra);
    assert(headers_model(out@) =~= kept + em);
    out
}

impl Transport {
    /// Validates and normalizes a configuration (key trimmed; base URL
    /// trimmed and stripped of trailing slashes; it must be `http://` or
    /// `https://`; the timeout must be non-zero; key, version and beta flags
    /// must be valid header values) and builds the request headers.
    pub fn new(config: TransportConfig) -> (r: Result<Transport, TransportConfigError>)
        ensures
            match config_error(config) {
                Some(k) => r matches Err(e) && error_kind(e) == k,
                None => r matches Ok(t) && t.spec_base_url() == normalized_base_url(config.base_url@)
                    && t.spec_timeout_nanos() == config.timeout_nanos
                    && t.spec_headers() == config_headers(config),
            },
    {
        let ghost c = config;
        let TransportConfig { api_key, auth_mode, base_url, version, timeout_nanos, beta, extra_headers } = config;
        let key = trim_str(api_key.as_str());
        if key.as_str().is_empty() {
            return Err(TransportConfigError::MissingApiKey);
        }
        let trimmed = trim_str(base_url.as_str());
        let base = trim_end_char_str(trimmed.as_str(), '/');
        if base.as_str().is_empty() {
            return Err(TransportConfigError::MissingBaseUrl);
        }
        if !(starts_with_str(base.as_str(), "http://") || starts_with_str(base.as_str(), "https://")) {
            return Err(TransportConfigError::InvalidBaseUrl(base));
        }
        if timeout_nanos == 0 {
            return Err(TransportConfigError::InvalidTimeout);
        }
        if !header_value_valid(key.as_str()) {
            return Err(TransportConfigError::InvalidApiKey);
        }
        if !header_value_valid(version.as_str()) {
            return Err(TransportConfigError::InvalidVersion(version));
        }
        match &beta {
            Some(b) => {
                if !header_value_valid(b.as_str()) {
                    return Err(TransportConfigError::InvalidBeta(b.clone()));
                }
            },
            None => {},
        }
        let mut headers: Vec<(String, String)> = Vec::new();
        push_header(&mut headers, "content-type", "application/json".to_string());
        match auth_mode {
            AuthMode::ApiKey => push_header(&mut headers, "x-api-key", key),
            AuthMode::Bearer => {
                let mut v = "Bearer ".to_string();
                v.append(key.as_str());
                push_header(&mut headers, "authorization", v);
            },
        }
        push_header(&mut headers, "anthropic-version", version);
        match beta {
            Some(b) => push_header(&mut headers, "anthropic-beta", b),
            None => {},
        }
        proof {
            let key_v = trim(c.api_key@);
            let auth = match c.auth_mode {
                AuthMode::ApiKey => ("x-api-key"@, key_v),
                AuthMode::Bearer => ("authorization"@, "Bearer "@ + key_v),
            };
            let want = seq![("content-type"@, "application/json"@), auth, ("anthropic-version"@, c.version@)];
            let want_beta = match c.beta {
                Some(b) => want.push(("anthropic-beta"@, b@)),
                None => want,
            };
            assert(headers_model(headers@) =~= want_beta);
        }
        let headers = extend_headers(headers, extra_headers);
        Ok(Transport { base_url: base, timeout_nanos, headers })
    }

    pub closed spec fn spec_base_url(&self) -> Seq<char> {
        self.base_url@
    }

    pub closed spec fn spec_timeout_nanos(&self) -> u128 {
        self.timeout_nanos
    }

    pub closed spec fn spec_headers(&self) -> HeaderModel {
        headers_model(self.headers@)
    }

    /// The URL of an API path: the base URL alone for a blank path, else the
    /// base URL, one slash, and the trimmed path without leading slashes.
    pub fn url(&self, path: &str) -> (r: String)
        ensures
            r@ == url_of(self.spec_base_url(), path@),
    {
        let p = trim_str(path);
        if p.as_str().is_empty() {
            return self.base_url.clone();
        }
        let rest = trim_start_char_str(p.as_str(), '/');
        let mut u = self.base_url.clone();
        u.append("/");
        u.append(rest.as_str());
        u
    }

    /// The headers sent with every request, `(name, value)`.
    pub fn headers(&self) -> (r: &Vec<(String, String)>)
        ensures
            headers_model(r@) == self.spec_headers(),
    {
        &self.headers
    }

    /// The request timeout in nanoseconds.
    pub fn timeout_nanos(&self) -> (r: u128)
        ensures
            r == self.spec_timeout_nanos(),
    {
        self.timeout_nanos
    }

    /// The normalized base URL.
    pub fn base_url(&self) -> (r: &str)
        ensures
            r@ == self.spec_base_url(),
    {
        self.base_url.as_str()
    }
}

// ─── Listings without the key ───────────────────────────────────────────────

/// The name of an auth mode.
pub open spec fn auth_mode_text(m: AuthMode) -> Seq<char> {
    match m {
        AuthMode::ApiKey => "ApiKey"@,
        AuthMode::Bearer => "Bearer"@,
    }
}

/// The listing of transport settings: the key shows as `[REDACTED]`.
pub open spec fn transport_config_listing(c: TransportConfig) -> Seq<char> {
    "TransportConfig { api_key: \"[REDACTED]\", auth_mode: "@ + auth_mode_text(c.auth_mode) + ", base_url: "@
        + quoted(c.base_url@) + ", version: "@ + quoted(c.version@) + ", timeout_nanos: "@
        + decimal_text(c.timeout_nanos as nat) + ", beta: "@ + opt_quoted(opt_text(c.beta))
        + ", extra_headers: "@ + pairs_text(c.extra_headers@.map_values(|p: (String, String)| (p.0@, p.1@))) + " }"@
}

/// The listing of a transport: its base URL and timeout, not its headers
/// (which carry the key).
pub open spec fn transport_listing(base_url: Seq<char>, timeout_nanos: u128) -> Seq<char> {
    "Transport { base_url: "@ + quoted(base_url) + ", timeout_nanos: "@ + decimal_text(timeout_nanos as nat) + ", .. }"@
}

impl TransportConfig {
    /// The debug listing of the settings, with the key redacted.
    pub fn redacted_debug(&self) -> (r: String)
        ensures
            r@ == transport_config_listing(*self),
    {
        let mut r = "TransportConfig { api_key: \"[REDACTED]\", auth_mode: ".to_string();
        match self.auth_mode {
            AuthMode::ApiKey => r.append("ApiKey"),
            AuthMode::Bearer => r.append("Bearer"),
        }
        r.append(", base_url: ");
        let t = quoted_str(self.base_url.as_str());
        r.append(t.as_str());
        r.append(", version: ");
        let t = quoted_str(self.version.as_str());
        r.append(t.as_str());
        r.append(", timeout_nanos: ");
        let t = u128_to_text(self.timeout_nanos);
        r.append(t.as_str());
        r.append(", beta: ");
        let t = opt_quoted_str(&self.beta);
        r.append(t.as_str());
        r.append(", extra_headers: ");
        let t = pairs_str(&self.extra_headers);
        r.append(t.as_str());
        r.append(" }");
        r
    }
}

impl Transport {
    /// The debug listing of the transport: base URL and timeout only.
    pub fn redacted_debug(&self) -> (r: String)
        ensures
            r@ == transport_listing(self.spec_base_url(), self.spec_timeout_nanos()),
    {
        let mut r = "Transport { base_url: ".to_string();
        let t = quoted_str(self.base_url.as_str());
        r.append(t.as_str());
        r.append(", timeout_nanos: ");
        let t = u128_to_text(self.timeout_nanos);
        r.append(t.as_str());
        r.append(", .. }");
        r
    }
}

/// The settings' listing does not depend on the key: settings list the same
/// whatever key they hold.
pub proof fn lemma_listing_hides_api_key(c: TransportConfig, key: String)
    ensures
        transport_config_listing(c) == transport_config_listing(TransportConfig { api_key: key, ..c }),
{
}

} // verus!
