//! Compiled groups of queries, and the optimizer that builds them.
//!
//! A group runs one shared multi-pattern matcher over a document and
//! evaluates only the queries that own a pattern that fired, together with
//! the queries that cannot be prefiltered.

use crate::common::compilation::CompilableTo;
use crate::common::matcher::{
    compile_regex_set, empty_regex_set, lists, regex_matches, regex_set_compiles,
    regex_set_patterns, set_matches,
};
use crate::common::text::{lemma_views_push, views};
use crate::common::validation::{Issue, IssueView};
use crate::query::query::{CompiledQuery, CompiledQueryView, Query, QueryGroup, QueryView};
use crate::query::scope::ScopeContent;
use crate::query::trigger::CompiledTriggerView;
use vstd::prelude::*;

verus! {

/// The content channel that the shared matcher of a compiled group of
/// queries is fed with.
pub open spec fn feed_channel() -> ScopeContent {
    ScopeContent::Text
}

/// The patterns of those of `triggers` whose name is among `references`,
/// in the order of the triggers.
pub open spec fn participating(
    triggers: Seq<CompiledTriggerView>,
    references: Seq<Seq<char>>,
) -> Seq<Seq<char>>
    decreases triggers.len(),
{
    if triggers.len() == 0 {
        Seq::empty()
    } else if references.contains(triggers.last().id) {
        participating(triggers.drop_last(), references).push(triggers.last().pattern)
    } else {
        participating(triggers.drop_last(), references)
    }
}

impl CompiledQueryView {
    /// The patterns that the query adds to the shared matcher of a group:
    /// those of the triggers that its threshold refers to.
    pub open spec fn prefilter_patterns(self) -> Seq<Seq<char>> {
        participating(self.triggers, self.threshold.references())
    }

    /// Whether the query cannot be prefiltered by a matcher fed with
    /// `feed`: its threshold is inversion-tainted, or its triggers run on
    /// another channel.
    pub open spec fn is_always_run(self, feed: ScopeContent) -> bool {
        self.threshold.is_tainted() || self.scope.content != feed
    }
}

/// The patterns of the shared matcher of `queries`: those of the first
/// query, then those of the second, and so on.
pub open spec fn group_patterns(queries: Seq<CompiledQueryView>) -> Seq<Seq<char>>
    decreases queries.len(),
{
    if queries.len() == 0 {
        Seq::empty()
    } else {
        group_patterns(queries.drop_last()) + queries.last().prefilter_patterns()
    }
}

/// For each pattern of the shared matcher of `queries`, the position of
/// the query that owns it.
pub open spec fn group_owners(queries: Seq<CompiledQueryView>) -> Seq<usize>
    decreases queries.len(),
{
    if queries.len() == 0 {
        Seq::empty()
    } else {
        group_owners(queries.drop_last()) + Seq::new(
            queries.last().prefilter_patterns().len(),
            |i: int| (queries.len() - 1) as usize,
        )
    }
}

/// The mathematical value of a [`CompiledQueryGroup`].
pub struct CompiledQueryGroupView {
    /// The queries that the shared matcher prefilters.
    pub queries: Seq<CompiledQueryView>,
    /// The patterns of the shared matcher.
    pub patterns: Seq<Seq<char>>,
    /// For each pattern, the position in `queries` of its owner.
    pub owners: Seq<usize>,
    /// The queries that are run on every document.
    pub always_run: Seq<CompiledQueryView>,
    /// The content channel that the shared matcher is fed with.
    pub feed: ScopeContent,
}

impl CompiledQueryGroupView {
    /// A group is well formed when its shared matcher holds exactly the
    /// patterns of its prefiltered queries, each with its owner, and every
    /// prefiltered query can be prefiltered.
    pub open spec fn well_formed(self) -> bool {
        &&& self.patterns == group_patterns(self.queries)
        &&& self.owners == group_owners(self.queries)
        &&& self.queries.len() <= usize::MAX
        &&& forall|k: int|
            0 <= k < self.queries.len() ==> !(#[trigger] self.queries[k]).is_always_run(self.feed)
    }
}

/// The compiled forms of those of `queries` that can be prefiltered, in
/// order.
pub open spec fn prefiltered(queries: Seq<QueryView>) -> Seq<CompiledQueryView>
    decreases queries.len(),
{
    if queries.len() == 0 {
        Seq::empty()
    } else if queries.last().compiled().is_always_run(feed_channel()) {
        prefiltered(queries.drop_last())
    } else {
        prefiltered(queries.drop_last()).push(queries.last().compiled())
    }
}

/// The compiled forms of those of `queries` that cannot be prefiltered, in
/// order.
pub open spec fn residual(queries: Seq<QueryView>) -> Seq<CompiledQueryView>
    decreases queries.len(),
{
    if queries.len() == 0 {
        Seq::empty()
    } else if queries.last().compiled().is_always_run(feed_channel()) {
        residual(queries.drop_last()).push(queries.last().compiled())
    } else {
        residual(queries.drop_last())
    }
}

/// The message of the first query of `queries` that does not compile, if
/// there is one.
pub open spec fn query_failure(queries: Seq<QueryView>) -> Option<Seq<char>>
    decreases queries.len(),
{
    if queries.len() == 0 {
        None
    } else {
        match query_failure(queries.drop_last()) {
            Some(message) => Some(message),
            None => queries.last().failure(),
        }
    }
}

/// The message of the error that building the shared matcher fails with.
pub open spec fn master_failure_message() -> Seq<char> {
    "unable to compile master regex set"@
}

/// The group that `queries` compile to, where they do.
pub open spec fn planned(queries: Seq<QueryView>) -> CompiledQueryGroupView {
    CompiledQueryGroupView {
        queries: prefiltered(queries),
        patterns: group_patterns(prefiltered(queries)),
        owners: group_owners(prefiltered(queries)),
        always_run: residual(queries),
        feed: feed_channel(),
    }
}

/// The message of the error that compiling `queries` as a group fails
/// with: that of the first query that does not compile, else that of the
/// shared matcher where it cannot be built; nothing where the group
/// compiles.
pub open spec fn group_failure(queries: Seq<QueryView>) -> Option<Seq<char>> {
    match query_failure(queries) {
        Some(message) => Some(message),
        None => if regex_set_compiles(planned(queries).patterns) {
            None
        } else {
            Some(master_failure_message())
        },
    }
}

/// A group of compiled queries with a shared matcher over their
/// triggers. A group does not change once it is built.
pub struct CompiledQueryGroup {
    /// The queries that the shared matcher prefilters. The matcher refers
    /// to them by position.
    pub(crate) queries: Vec<CompiledQuery>,
    /// The shared matcher: the patterns of the triggers that the
    /// prefiltered queries refer to.
    pub(crate) regex_collected: regex::RegexSet,
    /// For each pattern of the shared matcher, the position in `queries`
    /// of the query that owns it.
    pub(crate) regex_collected_query_index: Vec<usize>,
    /// The queries that cannot be prefiltered and are run on every
    /// document: those that may match although none of their triggers
    /// does, and those whose triggers run on another channel.
    pub(crate) always_run_queries: Vec<CompiledQuery>,
    /// The content channel that the shared matcher is fed with.
    pub(crate) regex_feed: ScopeContent,
}

impl View for CompiledQueryGroup {
    type V = CompiledQueryGroupView;

    closed spec fn view(&self) -> CompiledQueryGroupView {
        CompiledQueryGroupView {
            queries: views(self.queries@),
            patterns: regex_set_patterns(self.regex_collected),
            owners: self.regex_collected_query_index@,
            always_run: views(self.always_run_queries@),
            feed: self.regex_feed,
        }
    }
}

/// The shared matcher of `queries` has one owner for each pattern; the
/// owners are positions in `queries`, and they do not decrease.
pub proof fn lemma_group_shape(queries: Seq<CompiledQueryView>)
    requires
        queries.len() <= usize::MAX,
    ensures
        group_owners(queries).len() == group_patterns(queries).len(),
        forall|p: int|
            0 <= p < group_owners(queries).len() ==> (#[trigger] group_owners(queries)[p])
                < queries.len(),
        forall|p: int, q: int|
            0 <= p <= q < group_owners(queries).len() ==> group_owners(queries)[p] <= group_owners(
                queries,
            )[q],
    decreases queries.len(),
{
    if queries.len() > 0 {
        lemma_group_shape(queries.drop_last());
    }
}

/// Every query among the prefiltered can be prefiltered.
pub proof fn lemma_prefiltered(queries: Seq<QueryView>)
    ensures
        forall|k: int|
            0 <= k < prefiltered(queries).len() ==> !(#[trigger] prefiltered(
                queries,
            )[k]).is_always_run(feed_channel()),
        prefiltered(queries).len() <= queries.len(),
    decreases queries.len(),
{
    if queries.len() > 0 {
        lemma_prefiltered(queries.drop_last());
    }
}

/// The group that queries are planned to compile to is well formed.
pub proof fn lemma_planned_is_well_formed(queries: Seq<QueryView>)
    requires
        queries.len() <= usize::MAX,
    ensures
        planned(queries).well_formed(),
{
    lemma_prefiltered(queries);
}

/// A failure among the first queries is the failure of them all.
pub proof fn lemma_query_failure_prefix(queries: Seq<QueryView>, n: int)
    requires
        0 <= n <= queries.len(),
        query_failure(queries.take(n)) is Some,
    ensures
        query_failure(queries) == query_failure(queries.take(n)),
    decreases queries.len() - n,
{
    if n < queries.len() {
        assert(queries.take(n + 1).drop_last() =~= queries.take(n));
        lemma_query_failure_prefix(queries, n + 1);
    } else {
        assert(queries.take(n) =~= queries);
    }
}

/// Whether `id` is among `ids`.
fn contains_id(ids: &Vec<&String>, id: &String) -> (r: bool)
    ensures
        r == views(ids@).contains(id@),
{
    let mut i: usize = 0;
    while i < ids.len()
        invariant
            i <= ids@.len(),
            forall|j: int| 0 <= j < i ==> views(ids@)[j] != id@,
        decreases ids@.len() - i,
    {
        if *ids[i] == *id {
            assert(views(ids@)[i as int] == id@);
            return true;
        }
        i = i + 1;
    }
    false
}

impl CompiledQueryGroup {
    #[verifier::type_invariant]
    spec fn sound(self) -> bool {
        self@.well_formed()
    }

    /// The queries that the shared matcher prefilters.
    pub fn queries(&self) -> (r: &Vec<CompiledQuery>)
        ensures
            views(r@) == self@.queries,
            self@.well_formed(),
    {
        proof {
            use_type_invariant(self);
        }
        &self.queries
    }

    /// The queries that are run on every document.
    pub fn always_run_queries(&self) -> (r: &Vec<CompiledQuery>)
        ensures
            views(r@) == self@.always_run,
            self@.well_formed(),
    {
        proof {
            use_type_invariant(self);
        }
        &self.always_run_queries
    }

    /// For each pattern of the shared matcher, the position of the query
    /// that owns it.
    pub fn regex_collected_query_index(&self) -> (r: &Vec<usize>)
        ensures
            r@ == self@.owners,
            self@.well_formed(),
    {
        proof {
            use_type_invariant(self);
        }
        &self.regex_collected_query_index
    }

    /// The content channel that the shared matcher is fed with.
    pub fn regex_feed(&self) -> (r: ScopeContent)
        ensures
            r == self@.feed,
    {
        self.regex_feed
    }

    /// Runs the shared matcher over `text`: in ascending order, the
    /// position of each of its patterns that matches in `text`, and no
    /// other.
    pub fn fired_patterns(&self, text: &String) -> (r: Vec<usize>)
        ensures
            forall|i: int, j: int| 0 <= i < j < r@.len() ==> r@[i] < r@[j],
            forall|k: int| 0 <= k < r@.len() ==> (#[trigger] r@[k]) < self@.patterns.len(),
            forall|p: int|
                0 <= p < self@.patterns.len() ==> (lists(r@, p) <==> #[trigger] regex_matches(
                    self@.patterns[p],
                    text@,
                )),
    {
        set_matches(&self.regex_collected, text.as_str())
    }
}

impl Clone for CompiledQueryGroup {
    fn clone(&self) -> (r: CompiledQueryGroup)
        ensures
            r@ == self@,
    {
        proof {
            use_type_invariant(self);
        }
        CompiledQueryGroup {
            queries: clone_queries(&self.queries),
            regex_collected: self.regex_collected.clone(),
            regex_collected_query_index: self.regex_collected_query_index.clone(),
            always_run_queries: clone_queries(&self.always_run_queries),
            regex_feed: self.regex_feed,
        }
    }
}

/// Clones a list of compiled queries.
fn clone_queries(queries: &Vec<CompiledQuery>) -> (r: Vec<CompiledQuery>)
    ensures
        views(r@) == views(queries@),
{
    let mut cloned: Vec<CompiledQuery> = Vec::new();
    let mut i: usize = 0;
    while i < queries.len()
        invariant
            i <= queries@.len(),
            views(cloned@) == views(queries@).take(i as int),
        decreases queries@.len() - i,
    {
        let copy = queries[i].clone();
        proof {
            lemma_views_push(cloned@, copy);
        }
        cloned.push(copy);
        i = i + 1;
    }
    cloned
}

impl CompilableTo<CompiledQueryGroup> for QueryGroup {
    /// Compiles every query, sets aside those that cannot be prefiltered,
    /// and builds the shared matcher over the triggers that the others
    /// refer to. Fails with the error of the first query that does not
    /// compile, or with that of the shared matcher: no group is built for
    /// a part of the queries.
    fn compile(&self) -> (r: Result<CompiledQueryGroup, Issue>)
        ensures
            r is Ok <==> group_failure(self@) is None,
            r matches Ok(group) ==> group@ == planned(self@) && group@.well_formed(),
            r matches Err(issue) ==> group_failure(self@) == Some(issue@.message())
                && issue@.is_error(),
    {
        let optimized_content = ScopeContent::Text;
        let mut queries: Vec<CompiledQuery> = Vec::new();
        let mut sub_regexes: Vec<String> = Vec::new();
        let mut sub_regexes_index: Vec<usize> = Vec::new();
        let mut always_runs: Vec<CompiledQuery> = Vec::new();
        let mut qi: usize = 0;
        while qi < self.queries.len()
            invariant
                qi <= self.queries@.len(),
                optimized_content == feed_channel(),
                query_failure(self@.take(qi as int)) is None,
                views(queries@) == prefiltered(self@.take(qi as int)),
                views(always_runs@) == residual(self@.take(qi as int)),
                views(sub_regexes@) == group_patterns(prefiltered(self@.take(qi as int))),
                sub_regexes_index@ == group_owners(prefiltered(self@.take(qi as int))),
            decreases self.queries@.len() - qi,
        {
            let query = &self.queries[qi];
            proof {
                assert(self@.take(qi + 1).drop_last() =~= self@.take(qi as int));
            }
            let compiled_query = match query.compile() {
                Ok(compiled_query) => compiled_query,
                Err(issue) => {
                    proof {
                        lemma_query_failure_prefix(self@, qi + 1);
                    }
                    return Err(issue);
                },
            };
            let (relevant_trigger_ids, is_inverse) = query.threshold.analyze();
            if is_inverse || query.scope.content != optimized_content {
                proof {
                    lemma_views_push(always_runs@, compiled_query);
                }
                always_runs.push(compiled_query);
            } else {
                let query_index = queries.len();
                let ghost before_patterns = views(sub_regexes@);
                let ghost before_owners = sub_regexes_index@;
                let ghost compiled = compiled_query@;
                let ghost before = prefiltered(self@.take(qi as int));
                let mut ti: usize = 0;
                while ti < query.triggers.len()
                    invariant
                        ti <= query.triggers@.len(),
                        compiled == query@.compiled(),
                        views(relevant_trigger_ids@) == query@.threshold.references(),
                        views(sub_regexes@) == before_patterns + participating(
                            compiled.triggers.take(ti as int),
                            compiled.threshold.references(),
                        ),
                        sub_regexes_index@ == before_owners + Seq::new(
                            participating(
                                compiled.triggers.take(ti as int),
                                compiled.threshold.references(),
                            ).len(),
                            |i: int| query_index,
                        ),
                    decreases query.triggers@.len() - ti,
                {
                    let trigger = &query.triggers[ti];
                    proof {
                        assert(compiled.triggers.take(ti + 1).drop_last()
                            =~= compiled.triggers.take(ti as int));
                    }
                    if contains_id(&relevant_trigger_ids, &trigger.id) {
                        let regex_smart = trigger.pattern.get_as_safe_regex();
                        proof {
                            lemma_views_push(sub_regexes@, regex_smart);
                        }
                        sub_regexes.push(regex_smart);
                        sub_regexes_index.push(query_index);
                    }
                    ti = ti + 1;
                }
                proof {
                    assert(compiled.triggers.take(ti as int) =~= compiled.triggers);
                    lemma_views_push(queries@, compiled_query);
                    lemma_prefiltered(self@.take(qi as int));
                    assert(before.push(compiled).drop_last() =~= before);
                }
                queries.push(compiled_query);
            }
            qi = qi + 1;
        }
        proof {
            assert(self@.take(qi as int) =~= self@);
            lemma_planned_is_well_formed(self@);
        }
        let regex_set = match compile_regex_set(&sub_regexes) {
            Ok(set) => set,
            Err(_) => {
                return Err(Issue::error("unable to compile master regex set"));
            },
        };
        Ok(
            CompiledQueryGroup {
                queries,
                regex_collected: regex_set,
                regex_collected_query_index: sub_regexes_index,
                always_run_queries: always_runs,
                regex_feed: optimized_content,
            },
        )
    }
}

/// The group that lifts one compiled query: it has no shared matcher, and
/// the query is run on every document.
pub open spec fn lifted(query: CompiledQueryView) -> CompiledQueryGroupView {
    CompiledQueryGroupView {
        queries: Seq::empty(),
        patterns: Seq::empty(),
        owners: Seq::empty(),
        always_run: seq![query],
        feed: ScopeContent::Raw,
    }
}

impl From<CompiledQuery> for CompiledQueryGroup {
    /// Lifts one compiled query into a group. Running the query is always
    /// faster than prefiltering for it alone.
    fn from(query: CompiledQuery) -> (r: CompiledQueryGroup)
        ensures
            r@ == lifted(query@),
    {
        let always_run_queries = vec![query];
        let queries: Vec<CompiledQuery> = Vec::new();
        let regex_collected_query_index: Vec<usize> = Vec::new();
        proof {
            assert(views(always_run_queries@) =~= seq![query@]);
            assert(views(queries@) =~= Seq::<CompiledQueryView>::empty());
        }
        CompiledQueryGroup {
            queries,
            regex_collected: empty_regex_set(),
            regex_collected_query_index,
            always_run_queries,
            regex_feed: ScopeContent::Raw,
        }
    }
}

impl vstd::std_specs::convert::FromSpecImpl<CompiledQuery> for CompiledQueryGroup {
    open spec fn obeys_from_spec() -> bool {
        false
    }

    open spec fn from_spec(query: CompiledQuery) -> CompiledQueryGroup {
        arbitrary()
    }
}

} // verus!
