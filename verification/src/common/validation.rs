//! Issues found while validating or compiling, and the validation interface.

use vstd::prelude::*;
use vstd::string::StringExecFns;

verus! {

/// A problem with a component. `Warning` is advisory; `Error` blocks
/// further use of the component.
#[derive(Debug, PartialEq)]
pub enum Issue {
    /// Recoverable, but worth telling the user.
    Warning(String),
    /// Severe or otherwise unrecoverable.
    Error(String),
}

/// The mathematical value of an [`Issue`]: its severity and message text.
pub enum IssueView {
    Warning(Seq<char>),
    Error(Seq<char>),
}

impl View for Issue {
    type V = IssueView;

    open spec fn view(&self) -> IssueView {
        match self {
            Issue::Warning(message) => IssueView::Warning(message@),
            Issue::Error(message) => IssueView::Error(message@),
        }
    }
}

impl IssueView {
    /// Whether the issue blocks further use.
    pub open spec fn is_error(self) -> bool {
        self is Error
    }

    /// The human-readable description carried by the issue.
    pub open spec fn message(self) -> Seq<char> {
        match self {
            IssueView::Warning(message) => message,
            IssueView::Error(message) => message,
        }
    }

    /// The line shown to a user: a severity tag followed by the message.
    pub open spec fn rendered(self) -> Seq<char> {
        match self {
            IssueView::Warning(message) => "(warning): "@ + message,
            IssueView::Error(message) => "(err): "@ + message,
        }
    }
}

/// Whether any issue of the list has `Error` severity.
pub open spec fn has_error(issues: Seq<IssueView>) -> bool {
    exists|i: int| 0 <= i < issues.len() && (#[trigger] issues[i]).is_error()
}

impl Issue {
    /// Builds an `Error` issue carrying `message`.
    pub fn error(message: &str) -> (r: Issue)
        ensures
            r@ == IssueView::Error(message@),
    {
        Issue::Error(String::from_str(message))
    }

    /// Builds a `Warning` issue carrying `message`.
    pub fn warning(message: &str) -> (r: Issue)
        ensures
            r@ == IssueView::Warning(message@),
    {
        Issue::Warning(String::from_str(message))
    }

    /// Whether the issue has `Error` severity.
    pub fn is_error(&self) -> (r: bool)
        ensures
            r == self@.is_error(),
    {
        match self {
            Issue::Warning(_) => false,
            Issue::Error(_) => true,
        }
    }

    /// The line shown to a user: `(err): ` or `(warning): ` followed by the
    /// message.
    pub fn to_text(&self) -> (r: String)
        ensures
            r@ == self@.rendered(),
    {
        match self {
            Issue::Error(message) => String::from_str("(err): ").concat(message.as_str()),
            Issue::Warning(message) => String::from_str("(warning): ").concat(message.as_str()),
        }
    }
}

/// Types whose values can be in states of which only some are valid.
pub trait Validatable {
    /// Returns `None` when `self` is valid, and the issues found otherwise.
    fn validate(&self) -> Option<Vec<Issue>>;
}

} // verus!
