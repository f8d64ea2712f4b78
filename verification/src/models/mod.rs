//! The records the service stores and the bodies it reads and writes.

pub mod auth;
pub mod calendar;
pub mod task;
