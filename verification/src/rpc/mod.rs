//! Boundary to the upstream node: typed payloads and response classification.

pub mod client;
pub mod types;
