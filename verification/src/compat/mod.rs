//! OpenAI-compatible providers: an OpenAI transport plus quirks that say
//! which features the provider supports.

pub mod provider;
pub mod translate;
