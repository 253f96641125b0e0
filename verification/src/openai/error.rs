//! OpenAI API error classification.

use crate::json::JsonValue;
use crate::openai::wire_chat::ApiErrorResponse;
use crate::text::{utf8_lossy, utf8_lossy_text};
use vstd::prelude::*;

verus! {

/// The class of an API error, by HTTP status.
#[derive(Debug, PartialEq)]
pub enum OpenAIApiErrorKind {
    BadRequest,
    Authentication,
    PermissionDenied,
    NotFound,
    Conflict,
    UnprocessableEntity,
    RateLimit,
    InternalServerError,
    UnexpectedStatus,
}

pub open spec fn kind_of_status(status: u16) -> OpenAIApiErrorKind {
    if status == 400 {
        OpenAIApiErrorKind::BadRequest
    } else if status == 401 {
        OpenAIApiErrorKind::Authentication
    } else if status == 403 {
        OpenAIApiErrorKind::PermissionDenied
    } else if status == 404 {
        OpenAIApiErrorKind::NotFound
    } else if status == 409 {
        OpenAIApiErrorKind::Conflict
    } else if status == 422 {
        OpenAIApiErrorKind::UnprocessableEntity
    } else if status == 429 {
        OpenAIApiErrorKind::RateLimit
    } else if 500 <= status <= 599 {
        OpenAIApiErrorKind::InternalServerError
    } else {
        OpenAIApiErrorKind::UnexpectedStatus
    }
}

pub open spec fn kind_text(k: OpenAIApiErrorKind) -> Seq<char> {
    match k {
        OpenAIApiErrorKind::BadRequest => "bad request"@,
        OpenAIApiErrorKind::Authentication => "authentication error"@,
        OpenAIApiErrorKind::PermissionDenied => "permission denied"@,
        OpenAIApiErrorKind::NotFound => "not found"@,
        OpenAIApiErrorKind::Conflict => "conflict"@,
        OpenAIApiErrorKind::UnprocessableEntity => "unprocessable entity"@,
        OpenAIApiErrorKind::RateLimit => "rate limit"@,
        OpenAIApiErrorKind::InternalServerError => "internal server error"@,
        OpenAIApiErrorKind::UnexpectedStatus => "unexpected status"@,
    }
}

impl OpenAIApiErrorKind {
    /// The kind of an HTTP status: the documented client statuses by name,
    /// any 5xx as a server error, anything else unexpected.
    pub fn from_status(status: u16) -> (r: OpenAIApiErrorKind)
        ensures
            r == kind_of_status(status),
    {
        if status == 400 {
            OpenAIApiErrorKind::BadRequest
        } else if status == 401 {
            OpenAIApiErrorKind::Authentication
        } else if status == 403 {
            OpenAIApiErrorKind::PermissionDenied
        } else if status == 404 {
            OpenAIApiErrorKind::NotFound
        } else if status == 409 {
            OpenAIApiErrorKind::Conflict
        } else if status == 422 {
            OpenAIApiErrorKind::UnprocessableEntity
        } else if status == 429 {
            OpenAIApiErrorKind::RateLimit
        } else if 500 <= status && status <= 599 {
            OpenAIApiErrorKind::InternalServerError
        } else {
            OpenAIApiErrorKind::UnexpectedStatus
        }
    }

    /// The kind's text (`Display`).
    pub fn as_str(&self) -> (r: &str)
        ensures
            r@ == kind_text(*self),
    {
        match self {
            OpenAIApiErrorKind::BadRequest => "bad request",
            OpenAIApiErrorKind::Authentication => "authentication error",
            OpenAIApiErrorKind::PermissionDenied => "permission denied",
            OpenAIApiErrorKind::NotFound => "not found",
            OpenAIApiErrorKind::Conflict => "conflict",
            OpenAIApiErrorKind::UnprocessableEntity => "unprocessable entity",
            OpenAIApiErrorKind::RateLimit => "rate limit",
            OpenAIApiErrorKind::InternalServerError => "internal server error",
            OpenAIApiErrorKind::UnexpectedStatus => "unexpected status",
        }
    }
}

/// An API error response, classified.
#[derive(Debug, PartialEq)]
pub struct OpenAIApiError {
    pub kind: OpenAIApiErrorKind,
    pub status: u16,
    pub message: String,
    pub error_type: Option<String>,
    pub param: Option<JsonValue>,
    pub code: Option<JsonValue>,
    pub request_id: Option<String>,
    pub body: String,
}

/// Every status in 500..=599 is a server error, and only those are.
pub proof fn lemma_server_errors(status: u16)
    ensures
        (kind_of_status(status) is InternalServerError) <==> (500 <= status <= 599),
{
}

/// The API error of an error response: its kind by status, and message,
/// type, param and code from the parsed error body; when the body is not an
/// error envelope the message is the body text.
pub fn api_error_from_parts(status: u16, request_id: Option<String>, body: &[u8], parsed: Option<ApiErrorResponse>) -> (r: OpenAIApiError)
    ensures
        r.kind == kind_of_status(status),
        r.status == status,
        r.request_id == request_id,
        r.body@ == utf8_lossy_text(body@),
        match parsed {
            Some(p) => r.message == p.error.message && r.error_type == p.error.kind
                && r.param == p.error.param && r.code == p.error.code,
            None => r.message@ == utf8_lossy_text(body@) && r.error_type is None && r.param is None && r.code is None,
        },
{
    let text = utf8_lossy(body);
    let (message, error_type, param, code) = match parsed {
        Some(p) => (p.error.message, p.error.kind, p.error.param, p.error.code),
        None => (text.clone(), None, None, None),
    };
    OpenAIApiError {
        kind: OpenAIApiErrorKind::from_status(status),
        status,
        message,
        error_type,
        param,
        code,
        request_id,
        body: text,
    }
}

} // verus!
