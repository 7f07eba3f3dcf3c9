//! Queries and their parts.

pub mod group;
pub mod query;
pub mod response;
pub mod scope;
pub mod threshold;
pub mod trigger;
