//! Identity lifecycle for the end users of a service: account registration,
//! credential checks at login, and proof of e-mail ownership through a
//! one-time code.
//!
//! `repository` holds the rules and the credential store; `api` maps plain
//! request values onto those operations and their outcomes onto responses;
//! `text` holds the character classes that the rules speak of.
//!
//! Every function carries a contract and is proved to meet it. Hashing,
//! token issuing and the drawing of code digits are done by the `bcrypt`,
//! `uuid` and `rand` crates; what is assumed of them is stated where they are
//! called, in `repository::auth::password`, `repository::auth::token` and
//! `repository::auth::verify`.

pub mod api;
pub mod repository;
pub mod text;
