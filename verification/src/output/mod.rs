//! Outputs: what a scan produces.

pub mod output;
