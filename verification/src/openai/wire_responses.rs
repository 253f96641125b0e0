//! Responses API wire types that the verified logic reads.

use crate::text::str_eq;
use vstd::prelude::*;

verus! {

/// A tool-choice mode (`none` is the `Disabled` variant).
#[derive(Debug, PartialEq)]
pub enum ResponseToolChoiceMode {
    Disabled,
    Auto,
    Required,
    Unknown(String),
}

/// The mode of an allowed-tools choice.
#[derive(Debug, PartialEq)]
pub enum ResponseAllowedToolsMode {
    Auto,
    Required,
    Unknown(String),
}

pub open spec fn response_mode_text(m: ResponseToolChoiceMode) -> Seq<char> {
    match m {
        ResponseToolChoiceMode::Disabled => "none"@,
        ResponseToolChoiceMode::Auto => "auto"@,
        ResponseToolChoiceMode::Required => "required"@,
        ResponseToolChoiceMode::Unknown(s) => s@,
    }
}

pub open spec fn allowed_mode_text(m: ResponseAllowedToolsMode) -> Seq<char> {
    match m {
        ResponseAllowedToolsMode::Auto => "auto"@,
        ResponseAllowedToolsMode::Required => "required"@,
        ResponseAllowedToolsMode::Unknown(s) => s@,
    }
}

impl ResponseToolChoiceMode {
    /// The mode's wire text.
    pub fn as_str(&self) -> (r: &str)
        ensures
            r@ == response_mode_text(*self),
    {
        match self {
            ResponseToolChoiceMode::Disabled => "none",
            ResponseToolChoiceMode::Auto => "auto",
            ResponseToolChoiceMode::Required => "required",
            ResponseToolChoiceMode::Unknown(s) => s.as_str(),
        }
    }

    /// The mode of wire text; unknown text is kept (`From<String>`).
    pub fn from_text(value: String) -> (r: ResponseToolChoiceMode)
        ensures
            response_mode_text(r) == value@,
            r is Unknown ==> (value@ != "none"@ && value@ != "auto"@ && value@ != "required"@),
    {
        if str_eq(value.as_str(), "none") {
            ResponseToolChoiceMode::Disabled
        } else if str_eq(value.as_str(), "auto") {
            ResponseToolChoiceMode::Auto
        } else if str_eq(value.as_str(), "required") {
            ResponseToolChoiceMode::Required
        } else {
            ResponseToolChoiceMode::Unknown(value)
        }
    }
}

impl ResponseAllowedToolsMode {
    /// The mode's wire text.
    pub fn as_str(&self) -> (r: &str)
        ensures
            r@ == allowed_mode_text(*self),
    {
        match self {
            ResponseAllowedToolsMode::Auto => "auto",
            ResponseAllowedToolsMode::Required => "required",
            ResponseAllowedToolsMode::Unknown(s) => s.as_str(),
        }
    }

    /// The mode of wire text; unknown text is kept.
    pub fn from_text(value: String) -> (r: ResponseAllowedToolsMode)
        ensures
            allowed_mode_text(r) == value@,
            r is Unknown ==> (value@ != "auto"@ && value@ != "required"@),
    {
        if str_eq(value.as_str(), "auto") {
            ResponseAllowedToolsMode::Auto
        } else if str_eq(value.as_str(), "required") {
            ResponseAllowedToolsMode::Required
        } else {
            ResponseAllowedToolsMode::Unknown(value)
        }
    }
}

/// Why a Responses request was refused.
#[derive(Debug, PartialEq)]
pub enum ResponseCreateRequestError {
    /// `previous_response_id` and `conversation` were both set.
    PreviousResponseIdAndConversationConflict,
}

impl ResponseCreateRequestError {
    /// The error's text (`Display`).
    pub fn message(&self) -> (r: &str)
        ensures
            r@ == "`previous_response_id` and `conversation` cannot both be set"@,
    {
        "`previous_response_id` and `conversation` cannot both be set"
    }
}

/// A request continues either a previous response or a conversation, not
/// both.
pub fn validate_previous_response_id_and_conversation<C>(previous_response_id: Option<&str>, conversation: Option<&C>) -> (r: Result<(), ResponseCreateRequestError>)
    ensures
        r is Err <==> (previous_response_id is Some && conversation is Some),
{
    if previous_response_id.is_some() && conversation.is_some() {
        return Err(ResponseCreateRequestError::PreviousResponseIdAndConversationConflict);
    }
    Ok(())
}

/// Query of a streamed retrieval of a stored response.
#[derive(Debug, PartialEq)]
pub struct ResponseRetrieveStreamQuery {
    pub stream: bool,
    pub starting_after: Option<String>,
}

impl Default for ResponseRetrieveStreamQuery {
    /// Streaming, from the start.
    fn default() -> (r: ResponseRetrieveStreamQuery)
        ensures
            r.stream,
            r.starting_after is None,
    {
        ResponseRetrieveStreamQuery { stream: true, starting_after: None }
    }
}

} // verus!
