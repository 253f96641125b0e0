//! The canonical, provider-neutral chat model (Chat Completions shaped) and
//! its generic helpers.

pub mod error;
pub mod generic;
pub mod model;
pub mod json_form;
