//! A small risk-evaluation service core.
//!
//! The library holds the verified logic of a service that forwards a project
//! description to an upstream chat-completion provider, extracts a JSON array
//! of risk records from the provider's free-text answer, and falls back to a
//! fixed pair of risks when the upstream call or the extraction fails.

pub mod client;
pub mod config;
pub mod extract;
pub mod model;
pub mod parse;
pub mod service;
