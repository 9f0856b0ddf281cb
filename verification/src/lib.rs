//! Bearer-token authorization and scoped random sampling for a small
//! document-store API.
//!
//! The crate holds the decisions of the service and proves them: how a
//! password is hashed and checked, how a signed claim is issued and judged,
//! how a request is admitted, and how a category's records are reduced to a
//! random sample. Reading requests, talking to the store and writing
//! responses are left to the program around it, which hands in plain values
//! and gets plain values back.

pub mod api;
pub mod common;
pub mod models;
