//! Documents: what the queries are run on.

pub mod decode;
pub mod document;
