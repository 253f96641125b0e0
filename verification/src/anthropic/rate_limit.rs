//! Rate-limit state read from Anthropic response headers
//! (`anthropic-ratelimit-*` and `retry-after`).

use crate::http_headers::{header_trimmed_spec, header_u64_spec, HeaderList};
use vstd::prelude::*;

verus! {

/// The rate-limit headers of a response; each field is `None` when its
/// header is absent or malformed.
#[derive(Debug, PartialEq)]
pub struct RateLimitInfo {
    pub requests_limit: Option<u64>,
    pub requests_remaining: Option<u64>,
    pub requests_reset: Option<String>,
    pub tokens_limit: Option<u64>,
    pub tokens_remaining: Option<u64>,
    pub tokens_reset: Option<String>,
    pub input_tokens_limit: Option<u64>,
    pub input_tokens_remaining: Option<u64>,
    pub input_tokens_reset: Option<String>,
    pub output_tokens_limit: Option<u64>,
    pub output_tokens_remaining: Option<u64>,
    pub output_tokens_reset: Option<String>,
    pub retry_after: Option<u64>,
}

/// A response body together with the rate-limit state that came with it.
#[derive(Debug, PartialEq)]
pub struct ApiResponse<T> {
    pub body: T,
    pub rate_limit: RateLimitInfo,
}

/// `s` holds the text `t` when there is one.
pub open spec fn text_field(s: Option<String>, t: Option<Seq<char>>) -> bool {
    match t {
        Some(t) => s matches Some(v) && v@ == t,
        None => s is None,
    }
}

/// The rate-limit state that `headers` carry.
pub open spec fn rate_limit_of(h: HeaderList, r: RateLimitInfo) -> bool {
    &&& r.requests_limit == header_u64_spec(h, "anthropic-ratelimit-requests-limit"@)
    &&& r.requests_remaining == header_u64_spec(h, "anthropic-ratelimit-requests-remaining"@)
    &&& text_field(r.requests_reset, header_trimmed_spec(h, "anthropic-ratelimit-requests-reset"@))
    &&& r.tokens_limit == header_u64_spec(h, "anthropic-ratelimit-tokens-limit"@)
    &&& r.tokens_remaining == header_u64_spec(h, "anthropic-ratelimit-tokens-remaining"@)
    &&& text_field(r.tokens_reset, header_trimmed_spec(h, "anthropic-ratelimit-tokens-reset"@))
    &&& r.input_tokens_limit == header_u64_spec(h, "anthropic-ratelimit-input-tokens-limit"@)
    &&& r.input_tokens_remaining == header_u64_spec(h, "anthropic-ratelimit-input-tokens-remaining"@)
    &&& text_field(r.input_tokens_reset, header_trimmed_spec(h, "anthropic-ratelimit-input-tokens-reset"@))
    &&& r.output_tokens_limit == header_u64_spec(h, "anthropic-ratelimit-output-tokens-limit"@)
    &&& r.output_tokens_remaining == header_u64_spec(h, "anthropic-ratelimit-output-tokens-remaining"@)
    &&& text_field(r.output_tokens_reset, header_trimmed_spec(h, "anthropic-ratelimit-output-tokens-reset"@))
    &&& r.retry_after == header_u64_spec(h, "retry-after"@)
}

/// No rate-limit information at all: every limit, remaining count, reset
/// time and `retry-after` is absent.
pub open spec fn rate_limit_empty(r: RateLimitInfo) -> bool {
    &&& r.requests_limit is None
    &&& r.requests_remaining is None
    &&& r.requests_reset is None
    &&& r.tokens_limit is None
    &&& r.tokens_remaining is None
    &&& r.tokens_reset is None
    &&& r.input_tokens_limit is None
    &&& r.input_tokens_remaining is None
    &&& r.input_tokens_reset is None
    &&& r.output_tokens_limit is None
    &&& r.output_tokens_remaining is None
    &&& r.output_tokens_reset is None
    &&& r.retry_after is None
}

impl RateLimitInfo {
    /// Reads the rate-limit headers; a missing or malformed header leaves
    /// its field `None`.
    pub fn from_headers(headers: &HeaderList) -> (r: RateLimitInfo)
        ensures
            rate_limit_of(*headers, r),
    {
        RateLimitInfo {
            requests_limit: headers.get_u64("anthropic-ratelimit-requests-limit"),
            requests_remaining: headers.get_u64("anthropic-ratelimit-requests-remaining"),
            requests_reset: headers.get_trimmed("anthropic-ratelimit-requests-reset"),
            tokens_limit: headers.get_u64("anthropic-ratelimit-tokens-limit"),
            tokens_remaining: headers.get_u64("anthropic-ratelimit-tokens-remaining"),
            tokens_reset: headers.get_trimmed("anthropic-ratelimit-tokens-reset"),
            input_tokens_limit: headers.get_u64("anthropic-ratelimit-input-tokens-limit"),
            input_tokens_remaining: headers.get_u64("anthropic-ratelimit-input-tokens-remaining"),
            input_tokens_reset: headers.get_trimmed("anthropic-ratelimit-input-tokens-reset"),
            output_tokens_limit: headers.get_u64("anthropic-ratelimit-output-tokens-limit"),
            output_tokens_remaining: headers.get_u64("anthropic-ratelimit-output-tokens-remaining"),
            output_tokens_reset: headers.get_trimmed("anthropic-ratelimit-output-tokens-reset"),
            retry_after: headers.get_u64("retry-after"),
        }
    }

    /// Whether no rate-limit header was found at all.
    pub fn is_empty(&self) -> (r: bool)
        ensures
            r == rate_limit_empty(*self),
    {
        self.requests_limit.is_none() && self.requests_remaining.is_none() && self.requests_reset.is_none()
            && self.tokens_limit.is_none() && self.tokens_remaining.is_none() && self.tokens_reset.is_none()
            && self.input_tokens_limit.is_none() && self.input_tokens_remaining.is_none()
            && self.input_tokens_reset.is_none() && self.output_tokens_limit.is_none()
            && self.output_tokens_remaining.is_none() && self.output_tokens_reset.is_none()
            && self.retry_after.is_none()
    }
}

impl Default for RateLimitInfo {
    /// No rate-limit information.
    fn default() -> (r: RateLimitInfo)
        ensures
            rate_limit_empty(r),
    {
        RateLimitInfo {
            requests_limit: None,
            requests_remaining: None,
            requests_reset: None,
            tokens_limit: None,
            tokens_remaining: None,
            tokens_reset: None,
            input_tokens_limit: None,
            input_tokens_remaining: None,
            input_tokens_reset: None,
            output_tokens_limit: None,
            output_tokens_remaining: None,
            output_tokens_reset: None,
            retry_after: None,
        }
    }
}

/// Headers with no rate-limit header give empty rate-limit state.
pub proof fn lemma_no_headers_no_limits(h: HeaderList, r: RateLimitInfo)
    requires
        h.entries@.len() == 0,
        rate_limit_of(h, r),
    ensures
        rate_limit_empty(r),
{
}

} // verus!
