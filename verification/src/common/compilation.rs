//! The compilation interface.

use crate::common::validation::Issue;
use vstd::prelude::*;

verus! {

/// Compilation does the expensive, repeatable preparation of a component
/// ahead of time, so that scanning does not pay for it again.
pub trait CompilableTo<T> {
    /// Returns a compiled version of `self`, leaving `self` untouched.
    fn compile(&self) -> Result<T, Issue>;
}

} // verus!
