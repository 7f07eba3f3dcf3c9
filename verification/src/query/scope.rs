//! Scopes: which documents a query applies to, and which of their texts.

use crate::common::compilation::CompilableTo;
use crate::common::pattern::{CompiledPattern, Pattern, PatternView};
use crate::common::validation::{Issue, IssueView};
use vstd::prelude::*;

verus! {

/// The form of a document's text that a query's triggers are run on.
#[derive(Copy, Clone, Debug, PartialEq, Eq, Structural)]
pub enum ScopeContent {
    /// The lossily decoded bytes of the document.
    Raw,
    /// The human-readable text extracted from the document.
    Text,
}

/// The scope of a query.
#[derive(Debug, PartialEq)]
pub struct Scope {
    /// Applied to the URL of each document: the query runs only on
    /// documents whose URL it matches.
    pub pattern: Pattern,
    /// The text of the document that the triggers are run on.
    pub content: ScopeContent,
}

/// The mathematical value of a [`Scope`].
pub struct ScopeView {
    pub pattern: PatternView,
    pub content: ScopeContent,
}

impl View for Scope {
    type V = ScopeView;

    open spec fn view(&self) -> ScopeView {
        ScopeView { pattern: self.pattern@, content: self.content }
    }
}

/// A scope whose pattern has been compiled.
pub struct CompiledScope {
    pub pattern: CompiledPattern,
    pub content: ScopeContent,
}

/// The mathematical value of a [`CompiledScope`]: the regular expression
/// applied to URLs, and the content channel.
pub struct CompiledScopeView {
    pub pattern: Seq<char>,
    pub content: ScopeContent,
}

impl View for CompiledScope {
    type V = CompiledScopeView;

    open spec fn view(&self) -> CompiledScopeView {
        CompiledScopeView { pattern: self.pattern@, content: self.content }
    }
}

impl ScopeView {
    /// What the scope compiles to, where its pattern compiles.
    pub open spec fn compiled(self) -> CompiledScopeView {
        CompiledScopeView { pattern: self.pattern.safe_regex(), content: self.content }
    }
}

impl Clone for Scope {
    fn clone(&self) -> (r: Scope)
        ensures
            r@ == self@,
    {
        Scope { pattern: self.pattern.clone(), content: self.content }
    }
}

impl Clone for CompiledScope {
    fn clone(&self) -> (r: CompiledScope)
        ensures
            r@ == self@,
    {
        CompiledScope { pattern: self.pattern.clone(), content: self.content }
    }
}

impl CompilableTo<CompiledScope> for Scope {
    /// Compiles the pattern of the scope and keeps the content channel.
    /// Fails exactly when the pattern does, with its error.
    fn compile(&self) -> (r: Result<CompiledScope, Issue>)
        ensures
            r is Ok <==> self@.pattern.compiles(),
            r matches Ok(compiled) ==> compiled@ == self@.compiled(),
            r matches Err(issue) ==> issue@ == IssueView::Error(self@.pattern.failure_message()),
    {
        match self.pattern.compile() {
            Ok(compiled_pattern) => Ok(
                CompiledScope { pattern: compiled_pattern, content: self.content },
            ),
            Err(issue) => Err(issue),
        }
    }
}

} // verus!
