//! The data of the service: credentials, claims, users and records.

pub mod bearer;
pub mod claim;
pub mod data;
pub mod user;
pub mod utils;
