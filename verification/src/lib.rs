//! Smok Finance: the rules of a local-first personal finance store.
//!
//! The library decides; the program around it talks to SQLite and HTTP.
//! Every database operation is a small protocol: a flow issues a
//! [`db::Request`], the caller performs it and hands back a [`db::Reply`],
//! and the flow either asks again or finishes with a result.

pub mod accounts;
pub mod api;
pub mod db;
pub mod error;
pub mod models;
pub mod payees;
pub mod store;
pub mod text;

