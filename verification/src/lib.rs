//! RustFlow task and workflow service: the verified core.
//!
//! The in-memory stores for tasks, projects and users, the mapping of
//! service errors to HTTP replies, API-key authentication, request
//! validation outcomes and the small decisions of the middleware stack.
pub mod auth;
pub mod errors;
pub mod extractors;
pub mod laws;
pub mod model;
pub mod projects;
pub mod records;
pub mod service;
pub mod tasks;
pub mod text;
pub mod users;
