//! Request shaping and response normalization for a hosted chat-completion
//! service: model resolution, configuration validation, tool translation,
//! request building, status classification and response extraction.
use vstd::prelude::*;

pub mod config;
pub mod json;
pub mod request;
pub mod response;
pub mod tools;
pub mod registry;

verus! {

} // verus!
