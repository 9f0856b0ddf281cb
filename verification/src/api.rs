//! The decisions of the endpoints, from plain values to plain values.

pub mod data;
pub mod initial;
pub mod user;
pub mod utils;
