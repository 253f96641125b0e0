//! Response translation for Chat Completions: error responses become
//! provider errors.

use crate::canonical::error::{map_error_status_spec, map_error_status, ProviderError};
use crate::http_headers::HeaderList;
use crate::openai::wire_chat::ApiErrorResponse;
use crate::openai::stream::OpenAIStreamParser;
use crate::text::{utf8_lossy, utf8_lossy_text};
use vstd::prelude::*;

verus! {

/// Translates Chat Completions responses; the canonical response format is
/// the Chat Completions format, so success bodies decode as they are.
pub struct OpenAIResponseTranslator;

impl OpenAIResponseTranslator {
    /// The stream parser for this API.
    pub fn stream_parser(&self) -> (r: OpenAIStreamParser)
        ensures
            !r.meta_emitted(),
    {
        OpenAIStreamParser::new()
    }

    /// The provider error of an error response: the message is the parsed
    /// error body's message, or else the body text; the status decides the
    /// kind.
    pub fn translate_error(&self, status: u16, headers: &HeaderList, body: &[u8], parsed: Option<ApiErrorResponse>) -> (r: ProviderError)
        ensures
            match parsed {
                Some(p) => r == map_error_status_spec(status, *headers, p.error.message),
                None => exists|m: String| m@ == utf8_lossy_text(body@) && r == map_error_status_spec(status, *headers, m),
            },
    {
        let message = match parsed {
            Some(p) => p.error.message,
            None => utf8_lossy(body),
        };
        map_error_status(status, headers, message)
    }
}

} // verus!
