//! Helpers shared by the endpoints.

pub mod config;
pub mod gemini;
