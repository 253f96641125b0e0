//! Errors of the translation layer and of upstream providers.

use crate::http_headers::{header_u64_spec, HeaderList};
use vstd::prelude::*;

verus! {

/// Errors that occur during request/response translation.
#[derive(Debug, PartialEq)]
pub enum TranslateError {
    /// A required field is missing and cannot be defaulted.
    MissingField { field: String },
    /// The request uses a feature the target provider doesn't support.
    UnsupportedFeature { provider: String, feature: String },
    /// Content type incompatibility.
    IncompatibleContent { reason: String },
    /// JSON could not be parsed or rendered during translation.
    Json { message: String },
    /// Stream parsing failed.
    StreamParse { message: String },
    /// Anything else.
    Other(String),
}

/// Errors returned by upstream provider APIs.
#[derive(Debug, PartialEq)]
pub enum ProviderError {
    /// Rate limited (HTTP 429); `retry_after_secs` is the `retry-after`
    /// header in seconds, where the provider sent a valid one.
    RateLimited { retry_after_secs: Option<u64>, message: String },
    /// Authentication failed (HTTP 401).
    AuthenticationFailed { message: String },
    /// Permission denied (HTTP 403).
    PermissionDenied { message: String },
    /// Model not found (HTTP 404).
    ModelNotFound { model: String },
    /// Input too long.
    ContextLengthExceeded { max: u64, requested: u64 },
    /// Invalid request (HTTP 400).
    InvalidRequest { message: String },
    /// Provider overloaded.
    Overloaded { message: String },
    /// Server error (HTTP 5xx).
    ServerError { status: u16, message: String },
    /// Anything else: raw status and body.
    Unknown { status: u16, body: String },
}

/// The `retry-after` value in seconds that a header list carries: the first
/// value under that name, when it is text, trimmed, parsed as a `u64`.
pub open spec fn retry_after_spec(headers: HeaderList) -> Option<u64> {
    header_u64_spec(headers, "retry-after"@)
}

/// The error that `map_error_status` gives, with the message's view.
pub open spec fn map_error_status_spec(status: u16, headers: HeaderList, message: String) -> ProviderError {
    if status == 401 {
        ProviderError::AuthenticationFailed { message }
    } else if status == 403 {
        ProviderError::PermissionDenied { message }
    } else if status == 404 {
        ProviderError::ModelNotFound { model: message }
    } else if status == 429 {
        ProviderError::RateLimited { retry_after_secs: retry_after_spec(headers), message }
    } else if status == 400 {
        ProviderError::InvalidRequest { message }
    } else if 500 <= status <= 599 {
        ProviderError::ServerError { status, message }
    } else {
        ProviderError::Unknown { status, body: message }
    }
}

/// Maps an HTTP status code and an extracted message to a [`ProviderError`];
/// for 429 the `retry-after` header gives the retry delay.
pub fn map_error_status(status: u16, headers: &HeaderList, message: String) -> (r: ProviderError)
    ensures
        r == map_error_status_spec(status, *headers, message),
{
    if status == 401 {
        ProviderError::AuthenticationFailed { message }
    } else if status == 403 {
        ProviderError::PermissionDenied { message }
    } else if status == 404 {
        ProviderError::ModelNotFound { model: message }
    } else if status == 429 {
        let retry_after_secs = headers.get_u64("retry-after");
        ProviderError::RateLimited { retry_after_secs, message }
    } else if status == 400 {
        ProviderError::InvalidRequest { message }
    } else if 500 <= status && status <= 599 {
        ProviderError::ServerError { status, message }
    } else {
        ProviderError::Unknown { status, body: message }
    }
}

} // verus!
