//! Building blocks shared by queries, documents and the scanner.

pub mod compilation;
pub mod matcher;
pub mod pattern;
pub mod text;
pub mod validation;
