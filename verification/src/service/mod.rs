//! The engine's side: the documents that travel and the calls that carry them.

pub mod engine_service;
pub mod json;
pub mod model;
pub mod variables;
pub mod wire;
