//! An engine for a declarative content-monitoring query language.
//!
//! A query names textual triggers (regular expressions or literal
//! substrings), a boolean threshold over them, a URL scope and a response
//! description. Queries are compiled once, a group of them shares one
//! multi-pattern prefilter, and documents are evaluated against the group.

pub mod common;
pub mod input;
pub mod output;
pub mod query;
pub mod scan;

pub use common::pattern::{Pattern, PatternKind};
pub use input::document::Document;
pub use output::output::Output;
pub use query::query::{Query, QueryGroup};
pub use query::response::{Response, ResponseItem, ResponseKind};
pub use query::scope::{Scope, ScopeContent};
pub use query::threshold::{Threshold, ThresholdConsideration};
pub use query::trigger::Trigger;
pub use scan::scanner::Scanner;
