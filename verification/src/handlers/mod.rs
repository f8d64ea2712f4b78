//! The decisions of the HTTP handlers. Each handler alternates database
//! work with decisions; the decisions are the functions here, each taking
//! what the database returned and giving either the next thing to do or
//! the handler's answer.

pub mod auth;
pub mod calendar;
pub mod task;
