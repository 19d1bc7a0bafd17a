//! The credential store and the operations that work on it.

pub mod auth;
pub mod database;
