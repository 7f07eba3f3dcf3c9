//! The scanning interface, and the evaluation of one query on one
//! document.

use crate::common::matcher::{lists, regex_matches};
use crate::common::pattern::{full_check_result, PatternMatch, PatternMatchView};
use crate::common::text::{lemma_views_push, views};
use crate::input::document::{CompiledDocument, CompiledDocumentBatch, CompiledDocumentView};
use crate::output::output::{assembled, Output, OutputBatch, OutputView};
use crate::query::group::{lemma_group_shape, CompiledQueryGroup, CompiledQueryGroupView};
use crate::query::query::{CompiledQuery, CompiledQueryView};
use crate::query::threshold::TriggerResults;
use crate::query::trigger::CompiledTriggerView;
use vstd::prelude::*;

verus! {

/// What can scan compiled documents.
pub trait Scanner: Clone + Send {
    /// The outputs that a scan of `document` gives.
    spec fn outputs(&self, document: CompiledDocumentView) -> Seq<OutputView>;

    /// Scans a batch of documents, one after the other, and returns their
    /// outputs in the order of the documents.
    fn scan_batch(&self, documents: &CompiledDocumentBatch) -> (r: OutputBatch)
        ensures
            r@ == concatenated(
                Seq::new(
                    documents.documents@.len(),
                    |i: int| self.outputs(documents.documents@[i]@),
                ),
            ),
    ;

    /// Scans one document and returns its outputs.
    fn scan_single(&self, document: &CompiledDocument) -> (r: OutputBatch)
        ensures
            r@ == self.outputs(document@),
    ;
}

/// The given batches of outputs, joined in order.
pub open spec fn concatenated(parts: Seq<Seq<OutputView>>) -> Seq<OutputView>
    decreases parts.len(),
{
    if parts.len() == 0 {
        Seq::empty()
    } else {
        concatenated(parts.drop_last()) + parts.last()
    }
}

/// The results of the first `n` triggers on `text`. Where two triggers
/// share a name, the later one decides.
pub open spec fn trigger_hits(triggers: Seq<CompiledTriggerView>, n: nat, text: Seq<char>) -> Map<
    Seq<char>,
    bool,
>
    decreases n,
{
    if n == 0 || n > triggers.len() {
        Map::empty()
    } else {
        trigger_hits(triggers, (n - 1) as nat, text).insert(
            triggers[n - 1].id,
            regex_matches(triggers[n - 1].pattern, text),
        )
    }
}

/// The excerpts of those of the first `n` triggers that match `text`, in
/// the order of the triggers.
pub open spec fn excerpts(triggers: Seq<CompiledTriggerView>, n: nat, text: Seq<char>) -> Seq<
    PatternMatchView,
>
    decreases n,
{
    if n == 0 || n > triggers.len() {
        Seq::empty()
    } else if regex_matches(triggers[n - 1].pattern, text) {
        excerpts(triggers, (n - 1) as nat, text).push(
            full_check_result(triggers[n - 1].pattern, text)->0,
        )
    } else {
        excerpts(triggers, (n - 1) as nat, text)
    }
}

/// The outputs of one query on one document: none where the scope does
/// not match the URL (the empty text, where there is no URL), where the
/// threshold does not hold, or where it names a trigger that the query
/// does not have; else the one output that the response asks for.
pub open spec fn query_outputs(query: CompiledQueryView, document: CompiledDocumentView) -> Seq<
    OutputView,
> {
    let text = document.content(query.scope.content);
    let hits = trigger_hits(query.triggers, query.triggers.len(), text);
    if !regex_matches(query.scope.pattern, document.url_or_empty()) {
        Seq::empty()
    } else if query.threshold.evaluation(hits) == Some(true) {
        seq![
            assembled(
                document,
                query.response,
                query.id,
                excerpts(query.triggers, query.triggers.len(), text),
                None,
            ),
        ]
    } else {
        Seq::empty()
    }
}

impl Scanner for CompiledQuery {
    open spec fn outputs(&self, document: CompiledDocumentView) -> Seq<OutputView> {
        query_outputs(self@, document)
    }

    fn scan_single(&self, document: &CompiledDocument) -> (r: OutputBatch) {
        let placeholder_string_no_url = String::new();
        let url = match &document.url {
            Some(value) => value,
            None => &placeholder_string_no_url,
        };
        if !self.scope.pattern.quick_check(url) {
            return OutputBatch::new();
        }
        let input = document.content(self.scope.content);
        let mut matches = TriggerResults::new();
        let mut match_results: Vec<PatternMatch> = Vec::new();
        let mut i: usize = 0;
        while i < self.triggers.len()
            invariant
                i <= self.triggers@.len(),
                self@.triggers.len() == self.triggers@.len(),
                matches@ == trigger_hits(self@.triggers, i as nat, input@),
                views(match_results@) == excerpts(self@.triggers, i as nat, input@),
            decreases self.triggers@.len() - i,
        {
            let trigger = &self.triggers[i];
            let does_match = trigger.quick_check(input);
            if does_match {
                let found = match trigger.full_check(input) {
                    Some(value) => value,
                    None => return OutputBatch::new(),
                };
                proof {
                    lemma_views_push(match_results@, found);
                }
                match_results.push(found);
            }
            matches.insert(trigger.id.clone(), does_match);
            i = i + 1;
        }
        let holds = match self.threshold.evaluate(&matches) {
            Ok(evaluation) => evaluation,
            Err(_) => return OutputBatch::new(),
        };
        if holds {
            let output = Output::new(document, self, match_results, None);
            let outputs = vec![output];
            OutputBatch::from(outputs)
        } else {
            OutputBatch::new()
        }
    }

    fn scan_batch(&self, documents: &CompiledDocumentBatch) -> (r: OutputBatch) {
        let mut batch = OutputBatch::new();
        let ghost parts = Seq::new(
            documents.documents@.len(),
            |i: int| self.outputs(documents.documents@[i]@),
        );
        let mut i: usize = 0;
        while i < documents.documents.len()
            invariant
                i <= documents.documents@.len(),
                parts == Seq::new(
                    documents.documents@.len(),
                    |i: int| self.outputs(documents.documents@[i]@),
                ),
                batch@ == concatenated(parts.take(i as int)),
            decreases documents.documents@.len() - i,
        {
            let found = self.scan_single(&documents.documents[i]);
            proof {
                assert(parts.take(i + 1).drop_last() =~= parts.take(i as int));
            }
            batch.merge_with(found);
            i = i + 1;
        }
        assert(parts.take(i as int) =~= parts);
        batch
    }
}

/// Whether the query at position `k` of the group owns a pattern of the
/// shared matcher that matches in `text`.
pub open spec fn is_candidate(group: CompiledQueryGroupView, k: int, text: Seq<char>) -> bool {
    exists|p: int|
        0 <= p < group.patterns.len() && p < group.owners.len() && group.owners[p] == k
            && #[trigger] regex_matches(group.patterns[p], text)
}

/// The outputs of the candidates among the first `n` prefiltered queries
/// of the group, in the order of the queries.
pub open spec fn candidate_outputs(
    group: CompiledQueryGroupView,
    n: nat,
    document: CompiledDocumentView,
) -> Seq<OutputView>
    decreases n,
{
    if n == 0 || n > group.queries.len() {
        Seq::empty()
    } else if is_candidate(group, n - 1, document.content(group.feed)) {
        candidate_outputs(group, (n - 1) as nat, document) + query_outputs(
            group.queries[n - 1],
            document,
        )
    } else {
        candidate_outputs(group, (n - 1) as nat, document)
    }
}

/// The outputs of each of `queries` on the document, in the order of the
/// queries.
pub open spec fn all_outputs(queries: Seq<CompiledQueryView>, document: CompiledDocumentView) -> Seq<
    OutputView,
> {
    concatenated(Seq::new(queries.len(), |i: int| query_outputs(queries[i], document)))
}

/// The outputs of a group on one document: those of the candidates, in
/// the order of the prefiltered queries, then those of the queries that
/// are always run, in their order.
pub open spec fn group_outputs(group: CompiledQueryGroupView, document: CompiledDocumentView) -> Seq<
    OutputView,
> {
    candidate_outputs(group, group.queries.len(), document) + all_outputs(
        group.always_run,
        document,
    )
}

/// Prefiltered queries that are no candidates add nothing to the outputs
/// of the candidates.
pub proof fn lemma_skip_non_candidates(
    group: CompiledQueryGroupView,
    lo: nat,
    hi: nat,
    document: CompiledDocumentView,
)
    requires
        lo <= hi <= group.queries.len(),
        forall|k: int| lo <= k < hi ==> !is_candidate(group, k, document.content(group.feed)),
    ensures
        candidate_outputs(group, hi, document) == candidate_outputs(group, lo, document),
    decreases hi - lo,
{
    if lo < hi {
        lemma_skip_non_candidates(group, lo, (hi - 1) as nat, document);
    }
}

/// Between the owners of two neighbouring fired patterns there is no
/// candidate.
pub proof fn lemma_no_candidate_between(
    group: CompiledQueryGroupView,
    fired: Seq<usize>,
    text: Seq<char>,
    i: int,
    lo: int,
    hi: int,
)
    requires
        group.owners.len() == group.patterns.len(),
        forall|k: int| 0 <= k < fired.len() ==> (#[trigger] fired[k]) < group.patterns.len(),
        forall|p: int|
            0 <= p < group.patterns.len() ==> (lists(fired, p) <==> #[trigger] regex_matches(
                group.patterns[p],
                text,
            )),
        0 <= i <= fired.len(),
        forall|t: int| 0 <= t < i ==> group.owners[(#[trigger] fired[t]) as int] < lo,
        forall|t: int| i <= t < fired.len() ==> group.owners[(#[trigger] fired[t]) as int] >= hi,
    ensures
        forall|k: int| lo <= k < hi ==> !is_candidate(group, k, text),
{
    assert forall|k: int| lo <= k < hi implies !is_candidate(group, k, text) by {
        if is_candidate(group, k, text) {
            let p = choose|p: int|
                0 <= p < group.patterns.len() && p < group.owners.len() && group.owners[p] == k
                    && #[trigger] regex_matches(group.patterns[p], text);
            assert(lists(fired, p));
            let t = choose|t: int| 0 <= t < fired.len() && #[trigger] fired[t] == p;
            assert(group.owners[fired[t] as int] == k);
        }
    }
}

impl Scanner for CompiledQueryGroup {
    open spec fn outputs(&self, document: CompiledDocumentView) -> Seq<OutputView> {
        group_outputs(self@, document)
    }

    #[verifier::loop_isolation(false)]
    fn scan_single(&self, document: &CompiledDocument) -> (r: OutputBatch) {
        let mut output_batch = OutputBatch::new();
        let to_feed = document.content(self.regex_feed());
        let fired = self.fired_patterns(to_feed);
        let owners = self.regex_collected_query_index();
        let queries = self.queries();
        let ghost group = self@;
        proof {
            lemma_group_shape(group.queries);
        }
        let mut bound: usize = 0;
        let mut i: usize = 0;
        while i < fired.len()
            invariant
                i <= fired@.len(),
                bound <= queries@.len(),
                output_batch@ == candidate_outputs(group, bound as nat, document@),
                forall|t: int| 0 <= t < i ==> owners@[(#[trigger] fired@[t]) as int] < bound,
                forall|t: int|
                    i <= t < fired@.len() ==> owners@[(#[trigger] fired@[t]) as int] >= bound,
            decreases fired@.len() - i,
        {
            let owner = owners[fired[i]];
            let mut j: usize = i + 1;
            while j < fired.len() && owners[fired[j]] == owner
                invariant
                    i < j <= fired@.len(),
                    forall|t: int| i <= t < j ==> owners@[(#[trigger] fired@[t]) as int] == owner,
                decreases fired@.len() - j,
            {
                j = j + 1;
            }
            proof {
                assert forall|t: int| i <= t < fired@.len() implies owners@[(
                #[trigger] fired@[t]) as int] >= owner by {
                    assert(fired@[i as int] <= fired@[t]);
                }
                lemma_no_candidate_between(
                    group,
                    fired@,
                    to_feed@,
                    i as int,
                    bound as int,
                    owner as int,
                );
                lemma_skip_non_candidates(group, bound as nat, owner as nat, document@);
                assert(regex_matches(group.patterns[fired@[i as int] as int], to_feed@));
            }
            let found = queries[owner].scan_single(document);
            output_batch.merge_with(found);
            proof {
                assert forall|t: int| j <= t < fired@.len() implies owners@[(
                #[trigger] fired@[t]) as int] >= owner + 1 by {
                    assert(fired@[j as int] <= fired@[t]);
                }
            }
            bound = owner + 1;
            i = j;
        }
        proof {
            lemma_no_candidate_between(
                group,
                fired@,
                to_feed@,
                i as int,
                bound as int,
                queries@.len() as int,
            );
            lemma_skip_non_candidates(group, bound as nat, queries@.len() as nat, document@);
        }
        let always_run = self.always_run_queries();
        let ghost candidates = output_batch@;
        let ghost parts = Seq::new(
            group.always_run.len(),
            |i: int| query_outputs(group.always_run[i], document@),
        );
        let mut k: usize = 0;
        while k < always_run.len()
            invariant
                k <= always_run@.len(),
                output_batch@ == candidates + concatenated(parts.take(k as int)),
            decreases always_run@.len() - k,
        {
            proof {
                assert(parts.take(k + 1).drop_last() =~= parts.take(k as int));
            }
            let found = always_run[k].scan_single(document);
            output_batch.merge_with(found);
            k = k + 1;
        }
        assert(parts.take(k as int) =~= parts);
        output_batch
    }

    fn scan_batch(&self, documents: &CompiledDocumentBatch) -> (r: OutputBatch) {
        let mut batch = OutputBatch::new();
        let ghost parts = Seq::new(
            documents.documents@.len(),
            |i: int| self.outputs(documents.documents@[i]@),
        );
        let mut i: usize = 0;
        while i < documents.documents.len()
            invariant
                i <= documents.documents@.len(),
                parts == Seq::new(
                    documents.documents@.len(),
                    |i: int| self.outputs(documents.documents@[i]@),
                ),
                batch@ == concatenated(parts.take(i as int)),
            decreases documents.documents@.len() - i,
        {
            let found = self.scan_single(&documents.documents[i]);
            proof {
                assert(parts.take(i + 1).drop_last() =~= parts.take(i as int));
            }
            batch.merge_with(found);
            i = i + 1;
        }
        assert(parts.take(i as int) =~= parts);
        batch
    }
}

} // verus!
