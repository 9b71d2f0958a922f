//! A small link-shortener core: short identifiers mapped to target URLs,
//! with validated creation and update, redirect responses, an authorization
//! gate for mutating operations, and deadline-bounded store calls.

pub mod auth;
pub mod deadline;
pub mod errors;
pub mod handlers;
pub mod laws;
pub mod ids;
pub mod store;
pub mod urls;
