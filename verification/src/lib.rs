//! Verified core of a JSON-first YNAB client: amount parsing, transaction
//! filtering and export, request payload building, configuration state and
//! error envelopes.

pub mod app;
pub mod cli;
pub mod config;
pub mod dates;
pub mod error;
pub mod inputs;
pub mod json;
pub mod laws;
pub mod mcp_types;
pub mod models;
pub mod named;
pub mod routes;
pub mod scheduled;
pub mod secrets;
pub mod setup;
pub mod text;
pub mod web;
