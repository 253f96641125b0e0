//! Google Gemini API wire model.

pub mod types;
pub mod client;
