//! OpenAI SSE framing: each `data:` payload is a JSON message, and the
//! literal `[DONE]` ends the stream.

use vstd::prelude::*;

verus! {

/// Errors of an OpenAI SSE stream.
#[derive(Debug, PartialEq)]
pub enum OpenAISseError {
    /// The byte stream failed.
    Transport(String),
    /// The SSE framing could not be parsed.
    Parse(String),
    /// A `data:` payload was not the expected JSON.
    JsonDecode { data: String, message: String },
}

/// What one SSE `data:` payload stands for.
#[derive(Debug, PartialEq)]
pub enum OpenAISseFrame<T> {
    Message(T),
    Done,
}

/// Classifies one `data:` payload. The exact text `[DONE]` ends the
/// stream; anything else is the message that `decoded` (the payload parsed
/// as JSON, or the parser's error text) gives.
pub fn parse_openai_sse_event<T>(data: String, decoded: Result<T, String>) -> (r: Result<OpenAISseFrame<T>, OpenAISseError>)
    ensures
        data@ == "[DONE]"@ ==> r matches Ok(OpenAISseFrame::Done),
        data@ != "[DONE]"@ ==> match decoded {
            Ok(v) => r == Ok::<OpenAISseFrame<T>, OpenAISseError>(OpenAISseFrame::Message(v)),
            Err(e) => r matches Err(OpenAISseError::JsonDecode { data: d, message: m }) && d@ == data@ && m@ == e@,
        },
{
    if crate::text::str_eq(data.as_str(), "[DONE]") {
        return Ok(OpenAISseFrame::Done);
    }
    match decoded {
        Ok(v) => Ok(OpenAISseFrame::Message(v)),
        Err(message) => Err(OpenAISseError::JsonDecode { data, message }),
    }
}

} // verus!
