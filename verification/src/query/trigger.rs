//! Triggers: named patterns.

use crate::common::compilation::CompilableTo;
use crate::common::matcher::regex_matches;
use crate::common::pattern::{
    full_check_result, CompiledPattern, Pattern, PatternMatch, PatternView,
};
use crate::common::validation::{Issue, IssueView};
use vstd::prelude::*;

verus! {

/// A pattern with the name by which a threshold refers to it.
#[derive(Debug, PartialEq)]
pub struct Trigger {
    /// The pattern that is evaluated on the text.
    pub pattern: Pattern,
    /// The name of the trigger, unique within its query.
    pub id: String,
}

/// The mathematical value of a [`Trigger`].
pub struct TriggerView {
    pub pattern: PatternView,
    pub id: Seq<char>,
}

impl View for Trigger {
    type V = TriggerView;

    open spec fn view(&self) -> TriggerView {
        TriggerView { pattern: self.pattern@, id: self.id@ }
    }
}

/// A trigger whose pattern has been compiled.
pub struct CompiledTrigger {
    pub pattern: CompiledPattern,
    pub id: String,
}

/// The mathematical value of a [`CompiledTrigger`]: the regular expression
/// that it runs, and its name.
pub struct CompiledTriggerView {
    pub pattern: Seq<char>,
    pub id: Seq<char>,
}

impl View for CompiledTrigger {
    type V = CompiledTriggerView;

    open spec fn view(&self) -> CompiledTriggerView {
        CompiledTriggerView { pattern: self.pattern@, id: self.id@ }
    }
}

impl TriggerView {
    /// What the trigger compiles to, where its pattern compiles.
    pub open spec fn compiled(self) -> CompiledTriggerView {
        CompiledTriggerView { pattern: self.pattern.safe_regex(), id: self.id }
    }
}

impl Clone for Trigger {
    fn clone(&self) -> (r: Trigger)
        ensures
            r@ == self@,
    {
        Trigger { pattern: self.pattern.clone(), id: self.id.clone() }
    }
}

impl Clone for CompiledTrigger {
    fn clone(&self) -> (r: CompiledTrigger)
        ensures
            r@ == self@,
    {
        CompiledTrigger { pattern: self.pattern.clone(), id: self.id.clone() }
    }
}

impl CompilableTo<CompiledTrigger> for Trigger {
    /// Compiles the pattern of the trigger and keeps its name. Fails
    /// exactly when the pattern does, with its error.
    fn compile(&self) -> (r: Result<CompiledTrigger, Issue>)
        ensures
            r is Ok <==> self@.pattern.compiles(),
            r matches Ok(compiled) ==> compiled@ == self@.compiled(),
            r matches Err(issue) ==> issue@ == IssueView::Error(self@.pattern.failure_message()),
    {
        match self.pattern.compile() {
            Ok(compiled_pattern) => Ok(
                CompiledTrigger { pattern: compiled_pattern, id: self.id.clone() },
            ),
            Err(issue) => Err(issue),
        }
    }
}

impl CompiledTrigger {
    /// Whether the trigger matches anywhere in `other`, without building
    /// an excerpt.
    pub fn quick_check(&self, other: &String) -> (r: bool)
        ensures
            r == regex_matches(self@.pattern, other@),
    {
        self.pattern.quick_check(other)
    }

    /// The leftmost match of the trigger in `other`, if any, with its
    /// excerpt. There is one exactly when `quick_check` holds.
    pub fn full_check(&self, other: &String) -> (r: Option<PatternMatch>)
        ensures
            r is Some <==> regex_matches(self@.pattern, other@),
            match r {
                Some(m) => full_check_result(self@.pattern, other@) == Some(m@),
                None => full_check_result(self@.pattern, other@) is None,
            },
    {
        self.pattern.full_check(other)
    }
}

} // verus!
