//! Outputs and batches of outputs.

use crate::common::pattern::{PatternMatch, PatternMatchView};
use crate::common::text::{lemma_views_concat, lemma_views_push, opt_text, views};
use crate::input::document::{CompiledDocument, CompiledDocumentView};
use crate::query::query::CompiledQuery;
use crate::query::response::{ResponseItem, ResponseKind, ResponseView};
use vstd::prelude::*;
use vstd::string::StringExecFns;

verus! {

/// A match of a query on a document: the product of a scan.
#[derive(Debug, PartialEq)]
pub struct Output {
    /// What the query asked to be told, in the order in which it asked.
    pub items: Vec<OutputItem>,
    /// The kind of the output.
    pub kind: OutputKind,
    /// A name for the output, if a higher layer gave it one.
    pub id: Option<String>,
    /// The name of the query that made the output, if it has one.
    pub query_id: Option<String>,
}

/// The kind of an output, as its query asked for it.
#[derive(Copy, Clone, Debug, PartialEq, Eq, Structural)]
pub enum OutputKind {
    Full,
    Partial,
}

/// A piece of information in an output, most of it copied from the
/// document that matched.
#[derive(Debug, PartialEq)]
pub enum OutputItem {
    /// The URL of the document, as it was given.
    Url(Option<String>),
    /// The MIME type of the document.
    Mime(Option<String>),
    /// The host of the URL of the document.
    Domain(Option<String>),
    /// The excerpts that the triggers found.
    Excerpt(Vec<PatternMatch>),
    /// The whole raw content of the document.
    FullContent(Option<String>),
}

/// A collection of outputs, in the order in which they were made.
#[derive(Debug, PartialEq)]
pub struct OutputBatch {
    pub outputs: Vec<Output>,
}

/// The mathematical value of an [`OutputItem`].
pub enum OutputItemView {
    Url(Option<Seq<char>>),
    Mime(Option<Seq<char>>),
    Domain(Option<Seq<char>>),
    Excerpt(Seq<PatternMatchView>),
    FullContent(Option<Seq<char>>),
}

/// The mathematical value of an [`Output`].
pub struct OutputView {
    pub items: Seq<OutputItemView>,
    pub kind: OutputKind,
    pub id: Option<Seq<char>>,
    pub query_id: Option<Seq<char>>,
}

impl View for OutputItem {
    type V = OutputItemView;

    open spec fn view(&self) -> OutputItemView {
        match self {
            OutputItem::Url(url) => OutputItemView::Url(opt_text(*url)),
            OutputItem::Mime(mime) => OutputItemView::Mime(opt_text(*mime)),
            OutputItem::Domain(domain) => OutputItemView::Domain(opt_text(*domain)),
            OutputItem::Excerpt(matches) => OutputItemView::Excerpt(views(matches@)),
            OutputItem::FullContent(content) => OutputItemView::FullContent(opt_text(*content)),
        }
    }
}

impl View for Output {
    type V = OutputView;

    open spec fn view(&self) -> OutputView {
        OutputView {
            items: views(self.items@),
            kind: self.kind,
            id: opt_text(self.id),
            query_id: opt_text(self.query_id),
        }
    }
}

impl View for OutputBatch {
    type V = Seq<OutputView>;

    open spec fn view(&self) -> Seq<OutputView> {
        views(self.outputs@)
    }
}

/// The kind of output that a kind of response gives.
pub open spec fn output_kind(kind: ResponseKind) -> OutputKind {
    match kind {
        ResponseKind::Full => OutputKind::Full,
        ResponseKind::Partial => OutputKind::Partial,
    }
}

/// The output item that a response item gives for a document and the
/// excerpts found in it.
pub open spec fn output_item(
    item: ResponseItem,
    document: CompiledDocumentView,
    matches: Seq<PatternMatchView>,
) -> OutputItemView {
    match item {
        ResponseItem::Url => OutputItemView::Url(document.url),
        ResponseItem::Mime => OutputItemView::Mime(document.mime),
        ResponseItem::Domain => OutputItemView::Domain(document.domain),
        ResponseItem::Excerpt => OutputItemView::Excerpt(matches),
        ResponseItem::FullContent => OutputItemView::FullContent(Some(document.raw)),
    }
}

/// The output of a query with the given response and name on a document:
/// one item for each item of the response, in order.
pub open spec fn assembled(
    document: CompiledDocumentView,
    response: ResponseView,
    query_id: Option<Seq<char>>,
    matches: Seq<PatternMatchView>,
    id: Option<Seq<char>>,
) -> OutputView {
    OutputView {
        items: Seq::new(
            response.includes.len(),
            |i: int| output_item(response.includes[i], document, matches),
        ),
        kind: output_kind(response.kind),
        id,
        query_id,
    }
}

/// What merging the batch `other` into the batch `first` gives: the
/// outputs of `first`, then those of `other`.
pub open spec fn merged(first: Seq<OutputView>, other: Seq<OutputView>) -> Seq<OutputView> {
    first + other
}

impl From<Vec<Output>> for OutputBatch {
    fn from(outputs: Vec<Output>) -> (r: OutputBatch) {
        OutputBatch { outputs }
    }
}

impl vstd::std_specs::convert::FromSpecImpl<Vec<Output>> for OutputBatch {
    open spec fn obeys_from_spec() -> bool {
        true
    }

    open spec fn from_spec(outputs: Vec<Output>) -> OutputBatch {
        OutputBatch { outputs }
    }
}

/// Clones an optional string.
pub fn string_clone_helper(to_clone: &Option<String>) -> (r: Option<String>)
    ensures
        opt_text(r) == opt_text(*to_clone),
{
    match to_clone {
        Some(value) => Some(value.clone()),
        None => None,
    }
}

/// Clones a list of excerpts.
fn clone_matches(matches: &Vec<PatternMatch>) -> (r: Vec<PatternMatch>)
    ensures
        views(r@) == views(matches@),
{
    let mut cloned: Vec<PatternMatch> = Vec::new();
    let mut i: usize = 0;
    while i < matches.len()
        invariant
            i <= matches@.len(),
            views(cloned@) == views(matches@).take(i as int),
        decreases matches@.len() - i,
    {
        let copy = matches[i].clone();
        proof {
            lemma_views_push(cloned@, copy);
        }
        cloned.push(copy);
        i = i + 1;
    }
    cloned
}

impl Output {
    /// Builds the output of `query` on `document`: one item for each item
    /// of the response of the query, in order, with the kind of the
    /// response and the name of the query. The content is copied, which
    /// is expensive.
    pub fn new(
        document: &CompiledDocument,
        query: &CompiledQuery,
        matches: Vec<PatternMatch>,
        id: Option<String>,
    ) -> (r: Output)
        ensures
            r@ == assembled(
                document@,
                query@.response,
                query@.id,
                views(matches@),
                opt_text(id),
            ),
    {
        let kind = match query.response.kind {
            ResponseKind::Full => OutputKind::Full,
            ResponseKind::Partial => OutputKind::Partial,
        };
        let query_id = string_clone_helper(&query.id);
        let mut items: Vec<OutputItem> = Vec::new();
        let ghost wanted = assembled(
            document@,
            query@.response,
            query@.id,
            views(matches@),
            opt_text(id),
        ).items;
        let mut i: usize = 0;
        while i < query.response.includes.len()
            invariant
                i <= query.response.includes@.len(),
                wanted == assembled(
                    document@,
                    query@.response,
                    query@.id,
                    views(matches@),
                    opt_text(id),
                ).items,
                views(items@) == wanted.take(i as int),
            decreases query.response.includes@.len() - i,
        {
            let item = match query.response.includes[i] {
                ResponseItem::Domain => OutputItem::Domain(string_clone_helper(&document.domain)),
                ResponseItem::Mime => OutputItem::Mime(string_clone_helper(&document.mime)),
                ResponseItem::Url => OutputItem::Url(string_clone_helper(&document.url)),
                ResponseItem::Excerpt => OutputItem::Excerpt(clone_matches(&matches)),
                ResponseItem::FullContent => OutputItem::FullContent(Some(document.raw.clone())),
            };
            proof {
                lemma_views_push(items@, item);
            }
            items.push(item);
            i = i + 1;
        }
        assert(wanted.take(i as int) =~= wanted);
        Output { items, kind, id, query_id }
    }
}

/// The name of the file that an output is written to: the name of the
/// output, or `fallback` where it has none, and the name of its query, or
/// `unknown_query` where that has none.
pub open spec fn output_file_name(output: OutputView, fallback: Seq<char>) -> Seq<char> {
    let id = match output.id {
        Some(id) => id,
        None => fallback,
    };
    let query_id = match output.query_id {
        Some(query_id) => query_id,
        None => "unknown_query"@,
    };
    "output-"@ + id + "-"@ + query_id + ".ieqlo"@
}

impl Output {
    /// The name of the file that this output is written to. `fallback_id`
    /// stands in for the name of an output that has none.
    pub fn file_name(&self, fallback_id: &str) -> (r: String)
        ensures
            r@ == output_file_name(self@, fallback_id@),
    {
        let mut name = String::from_str("output-");
        match &self.id {
            Some(value) => name.append(value.as_str()),
            None => name.append(fallback_id),
        }
        name.append("-");
        match &self.query_id {
            Some(value) => name.append(value.as_str()),
            None => name.append("unknown_query"),
        }
        name.append(".ieqlo");
        name
    }
}

impl OutputBatch {
    /// Moves the outputs of `other` to the end of this batch. Nothing is
    /// copied.
    pub fn merge_with(&mut self, other: OutputBatch)
        ensures
            final(self)@ == merged(old(self)@, other@),
    {
        let mut other = other;
        proof {
            lemma_views_concat(self.outputs@, other.outputs@);
        }
        self.outputs.append(&mut other.outputs);
    }

    /// A batch without outputs.
    pub fn new() -> (r: OutputBatch)
        ensures
            r@ == Seq::<OutputView>::empty(),
    {
        let r = OutputBatch { outputs: Vec::new() };
        r
    }
}

/// Merging is associative: merging `c` into the merge of `a` and `b` gives
/// what merging the merge of `b` and `c` into `a` gives.
pub proof fn law_merge_is_associative(
    a: Seq<OutputView>,
    b: Seq<OutputView>,
    c: Seq<OutputView>,
)
    ensures
        merged(merged(a, b), c) == merged(a, merged(b, c)),
{
    assert(merged(merged(a, b), c) =~= merged(a, merged(b, c)));
}

/// Merging keeps each operand whole and in its order: the first operand
/// comes first, unchanged, and the second follows, unchanged.
pub proof fn law_merge_preserves_order(a: Seq<OutputView>, b: Seq<OutputView>)
    ensures
        merged(a, b).len() == a.len() + b.len(),
        merged(a, b).subrange(0, a.len() as int) == a,
        merged(a, b).subrange(a.len() as int, merged(a, b).len() as int) == b,
{
    assert(merged(a, b).subrange(0, a.len() as int) =~= a);
    assert(merged(a, b).subrange(a.len() as int, merged(a, b).len() as int) =~= b);
}

} // verus!
