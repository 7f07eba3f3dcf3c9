//! Responses: what an output is to hold.

use crate::common::text::{lemma_views_push, views};
use crate::common::validation::{Issue, IssueView, Validatable};
use vstd::prelude::*;

verus! {

/// The kind of output that a query asks for.
#[derive(Copy, Clone, Debug, PartialEq, Eq, Structural)]
pub enum ResponseKind {
    /// An output that stands on its own.
    Full,
    /// An output that is meant to be reduced with others.
    Partial,
}

/// A piece of information that an output can hold.
#[derive(Copy, Clone, Debug, PartialEq, Eq, Structural)]
pub enum ResponseItem {
    /// The URL of the document, as it was given.
    Url,
    /// The MIME type of the document.
    Mime,
    /// The host name of the document's URL.
    Domain,
    /// The excerpts that the triggers found.
    Excerpt,
    /// The whole raw content of the document.
    FullContent,
}

/// The parameters for building outputs. A response has no compiled form:
/// it is handed to the scanner as it is.
#[derive(Debug, PartialEq)]
pub struct Response {
    /// The kind of output to produce.
    pub kind: ResponseKind,
    /// The items that an output holds, in the order in which they appear.
    pub includes: Vec<ResponseItem>,
}

/// The mathematical value of a [`Response`].
pub struct ResponseView {
    pub kind: ResponseKind,
    pub includes: Seq<ResponseItem>,
}

impl View for Response {
    type V = ResponseView;

    open spec fn view(&self) -> ResponseView {
        ResponseView { kind: self.kind, includes: self.includes@ }
    }
}

/// The items that cannot be reduced, and so may not stand in a partial
/// response.
pub open spec fn is_irreducible(item: ResponseItem) -> bool {
    item == ResponseItem::Excerpt || item == ResponseItem::Url
}

/// The issue raised for an irreducible item in a partial response.
pub open spec fn irreducible_issue(item: ResponseItem) -> IssueView {
    if item == ResponseItem::Excerpt {
        IssueView::Error("`Excerpt` is not allowed in partial responses"@)
    } else {
        IssueView::Error("`Url` is not allowed in partial responses"@)
    }
}

/// One issue for each irreducible item of `includes`, in order.
pub open spec fn irreducible_issues(includes: Seq<ResponseItem>) -> Seq<IssueView>
    decreases includes.len(),
{
    if includes.len() == 0 {
        Seq::empty()
    } else if is_irreducible(includes.last()) {
        irreducible_issues(includes.drop_last()).push(irreducible_issue(includes.last()))
    } else {
        irreducible_issues(includes.drop_last())
    }
}

impl ResponseView {
    /// The issues of the response: none for a full response, one per
    /// irreducible item for a partial one.
    pub open spec fn issues(self) -> Seq<IssueView> {
        if self.kind == ResponseKind::Partial {
            irreducible_issues(self.includes)
        } else {
            Seq::empty()
        }
    }

    /// A response is valid when it raises no issue.
    pub open spec fn is_valid(self) -> bool {
        self.issues().len() == 0
    }
}

/// Every issue of a response is an error.
pub proof fn lemma_irreducible_issues_are_errors(includes: Seq<ResponseItem>)
    ensures
        forall|i: int|
            0 <= i < irreducible_issues(includes).len() ==> (#[trigger] irreducible_issues(
                includes,
            )[i]).is_error(),
    decreases includes.len(),
{
    if includes.len() > 0 {
        let rest = irreducible_issues(includes.drop_last());
        lemma_irreducible_issues_are_errors(includes.drop_last());
        assert forall|i: int| 0 <= i < irreducible_issues(includes).len() implies (
        #[trigger] irreducible_issues(includes)[i]).is_error() by {
            if i < rest.len() {
                assert(rest[i].is_error());
                assert(irreducible_issues(includes)[i] == rest[i]);
            }
        }
    }
}

impl Clone for Response {
    fn clone(&self) -> (r: Response)
        ensures
            r@ == self@,
    {
        let mut includes: Vec<ResponseItem> = Vec::new();
        let mut i: usize = 0;
        while i < self.includes.len()
            invariant
                i <= self.includes@.len(),
                includes@ == self.includes@.take(i as int),
            decreases self.includes@.len() - i,
        {
            includes.push(self.includes[i]);
            i = i + 1;
        }
        assert(self.includes@.take(i as int) =~= self.includes@);
        Response { kind: self.kind, includes }
    }
}

impl Validatable for Response {
    /// A partial response may not hold `Excerpt` or `Url`: each such
    /// item gives one error, in the order of `includes`.
    fn validate(&self) -> (r: Option<Vec<Issue>>)
        ensures
            r is None <==> self@.is_valid(),
            r matches Some(issues) ==> views(issues@) == self@.issues(),
    {
        let mut issues: Vec<Issue> = Vec::new();
        if self.kind == ResponseKind::Partial {
            let mut i: usize = 0;
            while i < self.includes.len()
                invariant
                    i <= self.includes@.len(),
                    views(issues@) == irreducible_issues(self.includes@.take(i as int)),
                decreases self.includes@.len() - i,
            {
                let item = self.includes[i];
                proof {
                    assert(self.includes@.take(i + 1).drop_last() =~= self.includes@.take(i as int));
                }
                if item == ResponseItem::Excerpt {
                    let issue = Issue::error(
                        "`Excerpt` is not allowed in partial responses",
                    );
                    proof {
                        lemma_views_push(issues@, issue);
                    }
                    issues.push(issue);
                } else if item == ResponseItem::Url {
                    let issue = Issue::error("`Url` is not allowed in partial responses");
                    proof {
                        lemma_views_push(issues@, issue);
                    }
                    issues.push(issue);
                }
                i = i + 1;
            }
            assert(self.includes@.take(i as int) =~= self.includes@);
        }
        if issues.len() == 0 {
            None
        } else {
            Some(issues)
        }
    }
}

} // verus!
