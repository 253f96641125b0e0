//! Verified core of a multi-provider AI gateway: the canonical chat model,
//! the provider wire models, and the translations and stream state machines
//! between them.

pub mod text;
pub mod json;
pub mod http_headers;
pub mod string_map;
pub mod canonical;
pub mod anthropic;
pub mod gemini;
pub mod openai;
pub mod compat;
