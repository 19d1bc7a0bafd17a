//! The two requests of e-mail verification.

pub mod confirm;
pub mod send;
