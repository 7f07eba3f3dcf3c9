//! Patterns: a regular expression or a literal, and its compiled form.

use crate::common::compilation::CompilableTo;
use crate::common::matcher::{
    compile_regex, escape, escaped, find, is_match, regex_compiles, regex_first_match,
    regex_matches, regex_source,
};
use crate::common::validation::{Issue, IssueView, Validatable};
use vstd::prelude::*;

verus! {

/// How the content of a [`Pattern`] is to be read.
#[derive(Copy, Clone, Debug, PartialEq, Eq, Structural)]
pub enum PatternKind {
    /// The content is a regular expression.
    RegEx,
    /// The content is plain text, matched verbatim.
    Raw,
}

/// An uncompiled pattern. It must be compiled before it can match text.
#[derive(Debug, PartialEq)]
pub struct Pattern {
    /// The text to match: a regular expression or plain text, as `kind`
    /// says. Only linear-time regular expressions are accepted.
    pub content: String,
    /// How `content` is to be read.
    pub kind: PatternKind,
}

/// The mathematical value of a [`Pattern`].
pub struct PatternView {
    pub content: Seq<char>,
    pub kind: PatternKind,
}

impl View for Pattern {
    type V = PatternView;

    open spec fn view(&self) -> PatternView {
        PatternView { content: self.content@, kind: self.kind }
    }
}

impl PatternView {
    /// The regular expression that the pattern stands for: the content
    /// itself, or the content with its meta characters escaped.
    pub open spec fn safe_regex(self) -> Seq<char> {
        match self.kind {
            PatternKind::RegEx => self.content,
            PatternKind::Raw => escaped(self.content),
        }
    }

    /// Whether the pattern can be compiled.
    pub open spec fn compiles(self) -> bool {
        regex_compiles(self.safe_regex())
    }

    /// The message of the error that compilation gives for this kind.
    pub open spec fn failure_message(self) -> Seq<char> {
        match self.kind {
            PatternKind::RegEx => "regex could not compile"@,
            PatternKind::Raw => "escaped regex literal could not compile"@,
        }
    }
}

/// What a compiled pattern reports about text that it matches.
#[derive(Debug, PartialEq)]
pub struct PatternMatch {
    /// An excerpt of the searched text that contains the match.
    pub excerpt: String,
    /// Where in `excerpt` the match lies, as byte offsets
    /// (start inclusive, end exclusive).
    pub relevant: (usize, usize),
}

/// The mathematical value of a [`PatternMatch`].
pub struct PatternMatchView {
    pub excerpt: Seq<char>,
    pub relevant: (usize, usize),
}

impl View for PatternMatch {
    type V = PatternMatchView;

    open spec fn view(&self) -> PatternMatchView {
        PatternMatchView { excerpt: self.excerpt@, relevant: self.relevant }
    }
}

impl Clone for PatternMatch {
    fn clone(&self) -> (r: PatternMatch)
        ensures
            r@ == self@,
    {
        PatternMatch { excerpt: self.excerpt.clone(), relevant: self.relevant }
    }
}

/// A pattern whose regular expression has been built.
pub struct CompiledPattern {
    regex: regex::Regex,
}

impl View for CompiledPattern {
    type V = Seq<char>;

    /// The regular expression that the pattern was compiled from.
    closed spec fn view(&self) -> Seq<char> {
        regex_source(self.regex)
    }
}

/// What a full check of the regular expression `source` reports on `text`:
/// the leftmost match with the whole text as its excerpt.
pub open spec fn full_check_result(source: Seq<char>, text: Seq<char>) -> Option<
    PatternMatchView,
> {
    match regex_first_match(source, text) {
        Some(span) => Some(PatternMatchView { excerpt: text, relevant: span }),
        None => None,
    }
}

impl Pattern {
    /// Returns the pattern as a regular expression that is safe to compile:
    /// the content of a `RegEx` pattern as it is, that of a `Raw` pattern
    /// escaped. Whether the result compiles is not checked.
    pub fn get_as_safe_regex(&self) -> (r: String)
        ensures
            r@ == self@.safe_regex(),
    {
        match self.kind {
            PatternKind::RegEx => self.content.clone(),
            PatternKind::Raw => escape(self.content.as_str()),
        }
    }
}

impl Clone for Pattern {
    fn clone(&self) -> (r: Pattern)
        ensures
            r@ == self@,
    {
        Pattern { content: self.content.clone(), kind: self.kind }
    }
}

impl CompilableTo<CompiledPattern> for Pattern {
    /// Builds the regular expression of the pattern. Fails exactly when the
    /// engine rejects it, with a message that depends on the kind.
    fn compile(&self) -> (r: Result<CompiledPattern, Issue>)
        ensures
            r is Ok <==> self@.compiles(),
            r matches Ok(compiled) ==> compiled@ == self@.safe_regex(),
            r matches Err(issue) ==> issue@ == IssueView::Error(self@.failure_message()),
    {
        let source = self.get_as_safe_regex();
        match compile_regex(source.as_str()) {
            Ok(regex) => Ok(CompiledPattern { regex }),
            Err(_) => match self.kind {
                PatternKind::Raw => Err(Issue::error("escaped regex literal could not compile")),
                PatternKind::RegEx => Err(Issue::error("regex could not compile")),
            },
        }
    }
}

impl Clone for CompiledPattern {
    fn clone(&self) -> (r: CompiledPattern)
        ensures
            r@ == self@,
    {
        CompiledPattern { regex: self.regex.clone() }
    }
}

impl CompiledPattern {
    /// Whether the pattern matches anywhere in `other`.
    pub fn quick_check(&self, other: &String) -> (r: bool)
        ensures
            r == regex_matches(self@, other@),
    {
        is_match(&self.regex, other.as_str())
    }

    /// The leftmost match of the pattern in `other`, if any, with the whole
    /// of `other` as its excerpt. There is one exactly when `quick_check`
    /// holds.
    pub fn full_check(&self, other: &String) -> (r: Option<PatternMatch>)
        ensures
            r is Some <==> regex_matches(self@, other@),
            match r {
                Some(m) => full_check_result(self@, other@) == Some(m@),
                None => full_check_result(self@, other@) is None,
            },
    {
        match find(&self.regex, other.as_str()) {
            Some(span) => Some(PatternMatch { excerpt: other.clone(), relevant: span }),
            None => None,
        }
    }
}

impl Validatable for Pattern {
    /// A pattern is valid when it compiles; otherwise the one issue is the
    /// compilation error.
    fn validate(&self) -> (r: Option<Vec<Issue>>)
        ensures
            r is None <==> self@.compiles(),
            r matches Some(issues) ==> issues@.len() == 1 && issues@[0]@ == IssueView::Error(
                self@.failure_message(),
            ),
    {
        match self.compile() {
            Err(issue) => Some(vec![issue]),
            Ok(_) => None,
        }
    }
}

} // verus!
