//! A typed, transport-free core for a download-manager's HTTP API.
//!
//! The library decides what to send and what a reply means: it validates
//! arguments, assembles request fields, tracks the session token, drives the
//! re-login-and-retry exchange one step at a time and turns reply envelopes
//! into typed results. Performing the HTTP requests is left to the caller.

pub mod client;
pub mod entities;
pub mod exchange;
pub mod operations;
pub mod request;
pub mod text;
pub mod utils;
