//! Anthropic Messages API: wire model, request/stream translation, the
//! native-protocol bridge, rate limits and transport configuration.

pub mod types;
pub mod stream;
pub mod tools;
pub mod request;
pub mod wire_json;
pub mod native_bridge;
pub mod native_response;
pub mod native_sse;
pub mod rate_limit;
pub mod transport;
pub mod client;
