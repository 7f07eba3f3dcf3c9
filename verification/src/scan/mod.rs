//! Scanning: evaluating compiled queries against compiled documents.

pub mod engine;
pub mod laws;
pub mod scanner;
