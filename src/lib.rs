//! Core of a pastoral-report service: form ingestion, prompt composition,
//! reading text out of a generation response, and sanitizing its HTML.

pub mod text;
pub mod response;
pub mod sanitize;
pub mod prompt;
pub mod ingest;
pub mod extract;
pub mod report;
