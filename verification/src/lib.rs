//! Credential and session core of a small identity provider.
//!
//! The library owns the account index (email to username), the per-account
//! credential records, the current session token of each account, and the
//! current one-time password-reset challenge. Callers feed it plain values;
//! durable storage, HTTP routing and outbound delivery live outside.

pub mod errors;
pub mod laws;
pub mod models;
pub mod outside;
pub mod service;
pub mod store;
pub mod text;
