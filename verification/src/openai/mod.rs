//! OpenAI Chat Completions and Responses APIs: wire model, errors, SSE
//! framing, stream translation and transport configuration.

pub mod wire_chat;
pub mod wire_responses;
pub mod error;
pub mod sse;
pub mod stream;
pub mod request;
pub mod response;
pub mod transport;
pub mod responses_config;
pub mod responses;
pub mod responses_request;
pub mod responses_output;
pub mod responses_response;
