//! What holds of every scan.

use crate::common::matcher::regex_matches;
use crate::input::document::CompiledDocumentView;
use crate::output::output::OutputView;
use crate::query::group::{
    group_owners, group_patterns, lemma_group_shape, lemma_planned_is_well_formed, participating,
    planned, prefiltered, residual, CompiledQueryGroupView,
};
use crate::query::query::{CompiledQueryView, QueryView};
use crate::query::threshold::{law_dangling_reference_fails, law_untainted_needs_a_hit};
use crate::query::trigger::CompiledTriggerView;
use crate::scan::scanner::{
    all_outputs, candidate_outputs, concatenated, group_outputs, is_candidate, query_outputs,
    trigger_hits,
};
use vstd::prelude::*;

verus! {

/// The triggers that have a result are those that were run, and a trigger
/// with a hit has a pattern that matches.
pub proof fn lemma_hits(triggers: Seq<CompiledTriggerView>, n: nat, text: Seq<char>, id: Seq<char>)
    requires
        n <= triggers.len(),
    ensures
        trigger_hits(triggers, n, text).contains_key(id) <==> exists|i: int|
            0 <= i < n && (#[trigger] triggers[i]).id == id,
        trigger_hits(triggers, n, text).contains_key(id) && trigger_hits(triggers, n, text)[id]
            ==> exists|i: int|
            0 <= i < n && (#[trigger] triggers[i]).id == id && regex_matches(
                triggers[i].pattern,
                text,
            ),
    decreases n,
{
    if n > 0 {
        lemma_hits(triggers, (n - 1) as nat, text, id);
        let last = triggers[n - 1];
        if last.id == id {
            assert(triggers[n - 1].id == id);
        }
    }
}

/// The scope gate: a query whose scope pattern does not match the URL of
/// the document gives no output for it. A document without a URL is gated
/// by the empty text.
pub proof fn law_scope_gate(query: CompiledQueryView, document: CompiledDocumentView)
    requires
        !regex_matches(query.scope.pattern, document.url_or_empty()),
    ensures
        query_outputs(query, document) == Seq::<OutputView>::empty(),
        document.url is None ==> document.url_or_empty() == Seq::<char>::empty(),
{
}

/// A query that is not inversion-tainted gives no output for a document
/// in which none of the triggers that its threshold refers to matches.
pub proof fn law_prefilter_is_safe(query: CompiledQueryView, document: CompiledDocumentView)
    requires
        !query.threshold.is_tainted(),
        forall|i: int|
            0 <= i < query.triggers.len() && query.threshold.references().contains(
                (#[trigger] query.triggers[i]).id,
            ) ==> !regex_matches(query.triggers[i].pattern, document.content(query.scope.content)),
    ensures
        query_outputs(query, document) == Seq::<OutputView>::empty(),
{
    let text = document.content(query.scope.content);
    let hits = trigger_hits(query.triggers, query.triggers.len(), text);
    assert forall|id: Seq<char>| #[trigger]
        query.threshold.references().contains(id) implies !(hits.contains_key(id) && hits[id]) by {
        lemma_hits(query.triggers, query.triggers.len(), text, id);
    }
    law_untainted_needs_a_hit(query.threshold, hits);
}

/// A query that is not inversion-tainted gives no output for a document
/// whose content channel has no occurrence of any of its trigger
/// patterns.
pub proof fn law_no_occurrence_no_output(query: CompiledQueryView, document: CompiledDocumentView)
    requires
        !query.threshold.is_tainted(),
        forall|i: int|
            0 <= i < query.triggers.len() ==> !regex_matches(
                (#[trigger] query.triggers[i]).pattern,
                document.content(query.scope.content),
            ),
    ensures
        query_outputs(query, document) == Seq::<OutputView>::empty(),
{
    law_prefilter_is_safe(query, document);
}

/// A query without triggers whose threshold refers to one gives no
/// output: every reference dangles.
pub proof fn law_no_triggers_no_output(query: CompiledQueryView, document: CompiledDocumentView)
    requires
        query.triggers.len() == 0,
        query.threshold.references().len() > 0,
    ensures
        query_outputs(query, document) == Seq::<OutputView>::empty(),
{
    let text = document.content(query.scope.content);
    let hits = trigger_hits(query.triggers, 0, text);
    let id = query.threshold.references()[0];
    assert(query.threshold.references().contains(id));
    law_dangling_reference_fails(query.threshold, hits, id);
}

/// The pattern of a trigger whose name is referred to takes part in the
/// shared matcher.
pub proof fn lemma_participating(
    triggers: Seq<CompiledTriggerView>,
    references: Seq<Seq<char>>,
    i: int,
)
    requires
        0 <= i < triggers.len(),
        references.contains(triggers[i].id),
    ensures
        participating(triggers, references).contains(triggers[i].pattern),
    decreases triggers.len(),
{
    let all = participating(triggers, references);
    if i == triggers.len() - 1 {
        assert(all[all.len() - 1] == triggers[i].pattern);
    } else {
        let rest = participating(triggers.drop_last(), references);
        lemma_participating(triggers.drop_last(), references, i);
        assert(triggers.drop_last()[i] == triggers[i]);
        let j = choose|j: int| 0 <= j < rest.len() && rest[j] == triggers[i].pattern;
        assert(all[j] == triggers[i].pattern);
    }
}

/// A pattern that a query adds to the shared matcher stands in it under
/// the position of that query.
pub proof fn lemma_owned(queries: Seq<CompiledQueryView>, k: int, pattern: Seq<char>)
    requires
        queries.len() <= usize::MAX,
        0 <= k < queries.len(),
        queries[k].prefilter_patterns().contains(pattern),
    ensures
        exists|p: int|
            0 <= p < group_patterns(queries).len() && p < group_owners(queries).len()
                && #[trigger] group_patterns(queries)[p] == pattern && group_owners(queries)[p]
                == k,
    decreases queries.len(),
{
    let rest = queries.drop_last();
    lemma_group_shape(rest);
    lemma_group_shape(queries);
    if k == queries.len() - 1 {
        let own = queries[k].prefilter_patterns();
        let j = choose|j: int| 0 <= j < own.len() && own[j] == pattern;
        let p = group_patterns(rest).len() + j;
        assert(group_patterns(queries)[p] == pattern);
        assert(group_owners(queries)[p] == k);
    } else {
        assert(rest[k] == queries[k]);
        lemma_owned(rest, k, pattern);
        let p = choose|p: int|
            0 <= p < group_patterns(rest).len() && p < group_owners(rest).len()
                && #[trigger] group_patterns(rest)[p] == pattern && group_owners(rest)[p] == k;
        assert(group_patterns(queries)[p] == pattern);
        assert(group_owners(queries)[p] == k);
    }
}

/// A prefiltered query that is no candidate gives no output.
pub proof fn lemma_not_candidate(
    group: CompiledQueryGroupView,
    k: int,
    document: CompiledDocumentView,
)
    requires
        group.well_formed(),
        0 <= k < group.queries.len(),
        !is_candidate(group, k, document.content(group.feed)),
    ensures
        query_outputs(group.queries[k], document) == Seq::<OutputView>::empty(),
{
    let query = group.queries[k];
    let text = document.content(group.feed);
    assert(!query.is_always_run(group.feed));
    assert forall|i: int|
        0 <= i < query.triggers.len() && query.threshold.references().contains(
            (#[trigger] query.triggers[i]).id,
        ) implies !regex_matches(query.triggers[i].pattern, text) by {
        lemma_participating(query.triggers, query.threshold.references(), i);
        lemma_owned(group.queries, k, query.triggers[i].pattern);
        let p = choose|p: int|
            0 <= p < group_patterns(group.queries).len() && p < group_owners(group.queries).len()
                && #[trigger] group_patterns(group.queries)[p] == query.triggers[i].pattern
                && group_owners(group.queries)[p] == k;
        if regex_matches(query.triggers[i].pattern, text) {
            assert(regex_matches(group.patterns[p], text));
            assert(is_candidate(group, k, text));
        }
    }
    law_prefilter_is_safe(query, document);
}

/// The outputs of the candidates among the first `n` prefiltered queries
/// are the outputs of all of the first `n`.
pub proof fn lemma_candidates_are_all(
    group: CompiledQueryGroupView,
    n: nat,
    document: CompiledDocumentView,
)
    requires
        group.well_formed(),
        n <= group.queries.len(),
    ensures
        candidate_outputs(group, n, document) == concatenated(
            Seq::new(
                group.queries.len(),
                |i: int| query_outputs(group.queries[i], document),
            ).take(n as int),
        ),
    decreases n,
{
    let parts = Seq::new(group.queries.len(), |i: int| query_outputs(group.queries[i], document));
    if n > 0 {
        lemma_candidates_are_all(group, (n - 1) as nat, document);
        assert(parts.take(n as int).drop_last() =~= parts.take(n - 1));
        assert(parts.take(n as int).last() == query_outputs(group.queries[n - 1], document));
        if !is_candidate(group, n - 1, document.content(group.feed)) {
            lemma_not_candidate(group, n - 1, document);
            assert(concatenated(parts.take(n as int)) =~= concatenated(parts.take(n - 1)));
        }
    } else {
        assert(parts.take(0) =~= Seq::<Seq<OutputView>>::empty());
    }
}

/// The optimizer changes nothing but the cost: a group gives, for every
/// document, the outputs of each of its prefiltered queries scanned on
/// its own, followed by those of each of its always-run queries.
pub proof fn law_group_is_transparent(
    group: CompiledQueryGroupView,
    document: CompiledDocumentView,
)
    requires
        group.well_formed(),
    ensures
        group_outputs(group, document) == all_outputs(group.queries, document) + all_outputs(
            group.always_run,
            document,
        ),
{
    let parts = Seq::new(group.queries.len(), |i: int| query_outputs(group.queries[i], document));
    lemma_candidates_are_all(group, group.queries.len(), document);
    assert(parts.take(group.queries.len() as int) =~= parts);
}

/// Every query of a group lands in the group once: among the prefiltered
/// queries or among those that are always run.
pub proof fn law_every_query_lands_once(queries: Seq<QueryView>)
    ensures
        prefiltered(queries).len() + residual(queries).len() == queries.len(),
    decreases queries.len(),
{
    if queries.len() > 0 {
        law_every_query_lands_once(queries.drop_last());
    }
}

/// The group that queries compile to gives, for every document, the
/// outputs of each query that can be prefiltered, scanned on its own, and
/// then those of each query that cannot.
pub proof fn law_compiled_group_is_transparent(
    queries: Seq<QueryView>,
    document: CompiledDocumentView,
)
    requires
        queries.len() <= usize::MAX,
    ensures
        group_outputs(planned(queries), document) == all_outputs(prefiltered(queries), document)
            + all_outputs(residual(queries), document),
{
    lemma_planned_is_well_formed(queries);
    law_group_is_transparent(planned(queries), document);
}

/// The joined length of batches of at most one output each is at most
/// their number.
pub proof fn lemma_concatenated_length(parts: Seq<Seq<OutputView>>)
    requires
        forall|i: int| 0 <= i < parts.len() ==> (#[trigger] parts[i]).len() <= 1,
    ensures
        concatenated(parts).len() <= parts.len(),
    decreases parts.len(),
{
    if parts.len() > 0 {
        assert forall|i: int| 0 <= i < parts.drop_last().len() implies (
        #[trigger] parts.drop_last()[i]).len() <= 1 by {
            assert(parts.drop_last()[i] == parts[i]);
        }
        lemma_concatenated_length(parts.drop_last());
    }
}

/// A document gives at most one output for each query: one query gives
/// at most one, and a group gives at most as many as it has queries.
pub proof fn law_one_output_per_query(
    group: CompiledQueryGroupView,
    query: CompiledQueryView,
    document: CompiledDocumentView,
)
    requires
        group.well_formed(),
    ensures
        query_outputs(query, document).len() <= 1,
        group_outputs(group, document).len() <= group.queries.len() + group.always_run.len(),
{
    law_group_is_transparent(group, document);
    lemma_concatenated_length(
        Seq::new(group.queries.len(), |i: int| query_outputs(group.queries[i], document)),
    );
    lemma_concatenated_length(
        Seq::new(group.always_run.len(), |i: int| query_outputs(group.always_run[i], document)),
    );
}

} // verus!
