//! Core logic of a calendar and task management service: request
//! validation, authorization decisions, error responses, session tokens
//! and configuration, with their contracts proved by Verus.

pub mod config;
pub mod text;
pub mod encoding;
pub mod validation;
pub mod errors;
pub mod numbers;
pub mod time;
pub mod handlers;
pub mod middleware;
pub mod models;
pub mod utils;
