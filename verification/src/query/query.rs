//! Queries, groups of queries, and their compiled forms.

use crate::common::compilation::CompilableTo;
use crate::common::text::{lemma_views_concat, lemma_views_push, opt_text, views};
use crate::common::validation::{has_error, Issue, IssueView, Validatable};
use crate::output::output::string_clone_helper;
use crate::query::response::{lemma_irreducible_issues_are_errors, Response, ResponseView};
use crate::query::scope::{CompiledScope, CompiledScopeView, Scope, ScopeView};
use crate::query::threshold::{unknown_trigger_message, Threshold, ThresholdView, TriggerResults};
use crate::query::trigger::{CompiledTrigger, CompiledTriggerView, Trigger, TriggerView};
use vstd::prelude::*;

verus! {

/// An uncompiled query. It cannot scan; it is there to be validated and
/// compiled into a [`CompiledQuery`].
#[derive(Debug, PartialEq)]
pub struct Query {
    /// What the outputs of the query are to hold.
    pub response: Response,
    /// The documents that the query applies to, and the text of them that
    /// its triggers are run on.
    pub scope: Scope,
    /// The composition of trigger matches that makes a match of the query.
    pub threshold: Threshold,
    /// The triggers that are checked against a document.
    pub triggers: Vec<Trigger>,
    /// The name of the query, copied to its outputs.
    pub id: Option<String>,
}

/// The mathematical value of a [`Query`].
pub struct QueryView {
    pub response: ResponseView,
    pub scope: ScopeView,
    pub threshold: ThresholdView,
    pub triggers: Seq<TriggerView>,
    pub id: Option<Seq<char>>,
}

impl View for Query {
    type V = QueryView;

    open spec fn view(&self) -> QueryView {
        QueryView {
            response: self.response@,
            scope: self.scope@,
            threshold: self.threshold@,
            triggers: views(self.triggers@),
            id: opt_text(self.id),
        }
    }
}

/// A collection of queries that are compiled together.
#[derive(Debug, PartialEq)]
pub struct QueryGroup {
    pub queries: Vec<Query>,
}

impl View for QueryGroup {
    type V = Seq<QueryView>;

    open spec fn view(&self) -> Seq<QueryView> {
        views(self.queries@)
    }
}

/// A query that is ready to scan compiled documents.
pub struct CompiledQuery {
    pub response: Response,
    pub scope: CompiledScope,
    pub threshold: Threshold,
    pub triggers: Vec<CompiledTrigger>,
    pub id: Option<String>,
}

/// The mathematical value of a [`CompiledQuery`].
pub struct CompiledQueryView {
    pub response: ResponseView,
    pub scope: CompiledScopeView,
    pub threshold: ThresholdView,
    pub triggers: Seq<CompiledTriggerView>,
    pub id: Option<Seq<char>>,
}

impl View for CompiledQuery {
    type V = CompiledQueryView;

    open spec fn view(&self) -> CompiledQueryView {
        CompiledQueryView {
            response: self.response@,
            scope: self.scope@,
            threshold: self.threshold@,
            triggers: views(self.triggers@),
            id: opt_text(self.id),
        }
    }
}

/// The message of the first trigger of `triggers` that does not compile,
/// if there is one.
pub open spec fn trigger_failure(triggers: Seq<TriggerView>) -> Option<Seq<char>>
    decreases triggers.len(),
{
    if triggers.len() == 0 {
        None
    } else {
        match trigger_failure(triggers.drop_last()) {
            Some(message) => Some(message),
            None => if triggers.last().pattern.compiles() {
                None
            } else {
                Some(triggers.last().pattern.failure_message())
            },
        }
    }
}

/// The results in which every trigger of `triggers` has one, and none
/// matched.
pub open spec fn unmatched(triggers: Seq<TriggerView>) -> Map<Seq<char>, bool> {
    Map::new(
        |id: Seq<char>| exists|i: int| 0 <= i < triggers.len() && (#[trigger] triggers[i]).id == id,
        |id: Seq<char>| false,
    )
}

/// Whether two triggers of `triggers` have the same name.
pub open spec fn has_duplicate_ids(triggers: Seq<TriggerView>) -> bool {
    exists|i: int, j: int|
        0 <= i < j < triggers.len() && (#[trigger] triggers[i]).id == (#[trigger] triggers[j]).id
}

/// The message of the error that validation gives for two triggers with
/// one name.
pub open spec fn duplicate_id_message() -> Seq<char> {
    "duplicate trigger id"@
}

/// The message of the warning that validation gives for a query that
/// matches where none of its triggers does.
pub open spec fn matches_without_triggers_message() -> Seq<char> {
    "query will match if all triggers do not match; this can be dangerous in certain situations"@
}

impl QueryView {
    /// The message of the error that compilation fails with: that of the
    /// scope pattern, else that of the first trigger that does not
    /// compile; nothing where everything compiles.
    pub open spec fn failure(self) -> Option<Seq<char>> {
        if !self.scope.pattern.compiles() {
            Some(self.scope.pattern.failure_message())
        } else {
            trigger_failure(self.triggers)
        }
    }

    /// Whether the query compiles.
    pub open spec fn compiles(self) -> bool {
        self.failure() is None
    }

    /// What the query compiles to, where it compiles.
    pub open spec fn compiled(self) -> CompiledQueryView {
        CompiledQueryView {
            response: self.response,
            scope: self.scope.compiled(),
            threshold: self.threshold,
            triggers: Seq::new(self.triggers.len(), |i: int| self.triggers[i].compiled()),
            id: self.id,
        }
    }

    /// The issue that compilation adds to validation.
    pub open spec fn compilation_issues(self) -> Seq<IssueView> {
        match self.failure() {
            Some(message) => seq![IssueView::Error(message)],
            None => Seq::empty(),
        }
    }

    /// The issue that the names of the triggers add to validation.
    pub open spec fn naming_issues(self) -> Seq<IssueView> {
        if has_duplicate_ids(self.triggers) {
            seq![IssueView::Error(duplicate_id_message())]
        } else {
            Seq::empty()
        }
    }

    /// The issue that the threshold adds to validation: an error where it
    /// names a trigger that the query does not have, a warning where it
    /// holds although no trigger matched.
    pub open spec fn threshold_issues(self) -> Seq<IssueView> {
        match self.threshold.evaluation(unmatched(self.triggers)) {
            Some(true) => seq![IssueView::Warning(matches_without_triggers_message())],
            Some(false) => Seq::empty(),
            None => seq![IssueView::Error(unknown_trigger_message())],
        }
    }

    /// The issues that validation finds, in order: of compilation, of the
    /// response, of the trigger names, of the threshold.
    pub open spec fn issues(self) -> Seq<IssueView> {
        self.compilation_issues() + self.response.issues() + self.naming_issues()
            + self.threshold_issues()
    }
}

/// None of the triggers fails exactly when every one of them compiles.
pub proof fn lemma_trigger_failure(triggers: Seq<TriggerView>)
    ensures
        trigger_failure(triggers) is None <==> forall|i: int|
            0 <= i < triggers.len() ==> (#[trigger] triggers[i]).pattern.compiles(),
    decreases triggers.len(),
{
    if triggers.len() > 0 {
        lemma_trigger_failure(triggers.drop_last());
        if trigger_failure(triggers) is None {
            assert forall|i: int| 0 <= i < triggers.len() implies (
            #[trigger] triggers[i]).pattern.compiles() by {
                if i < triggers.len() - 1 {
                    assert(triggers.drop_last()[i] == triggers[i]);
                }
            }
        } else if trigger_failure(triggers.drop_last()) is Some {
            let i = choose|i: int|
                0 <= i < triggers.drop_last().len() && !(#[trigger] triggers.drop_last()[i])
                    .pattern.compiles();
            assert(triggers[i] == triggers.drop_last()[i]);
        }
    }
}

/// A query compiles exactly when the pattern of its scope and the
/// pattern of each of its triggers compile.
pub proof fn law_query_compiles_with_its_patterns(q: QueryView)
    ensures
        q.compiles() <==> q.scope.pattern.compiles() && forall|i: int|
            0 <= i < q.triggers.len() ==> (#[trigger] q.triggers[i]).pattern.compiles(),
{
    lemma_trigger_failure(q.triggers);
}

/// A failure among the first triggers is the failure of them all.
pub proof fn lemma_trigger_failure_prefix(triggers: Seq<TriggerView>, n: int)
    requires
        0 <= n <= triggers.len(),
        trigger_failure(triggers.take(n)) is Some,
    ensures
        trigger_failure(triggers) == trigger_failure(triggers.take(n)),
    decreases triggers.len() - n,
{
    if n < triggers.len() {
        assert(triggers.take(n + 1).drop_last() =~= triggers.take(n));
        lemma_trigger_failure_prefix(triggers, n + 1);
    } else {
        assert(triggers.take(n) =~= triggers);
    }
}

impl Clone for CompiledQuery {
    fn clone(&self) -> (r: CompiledQuery)
        ensures
            r@ == self@,
    {
        let mut triggers: Vec<CompiledTrigger> = Vec::new();
        let mut i: usize = 0;
        while i < self.triggers.len()
            invariant
                i <= self.triggers@.len(),
                views(triggers@) == views(self.triggers@).take(i as int),
            decreases self.triggers@.len() - i,
        {
            let trigger = self.triggers[i].clone();
            proof {
                lemma_views_push(triggers@, trigger);
            }
            triggers.push(trigger);
            i = i + 1;
        }
        assert(views(self.triggers@).take(i as int) =~= views(self.triggers@));
        CompiledQuery {
            response: self.response.clone(),
            scope: self.scope.clone(),
            threshold: self.threshold.clone(),
            triggers,
            id: string_clone_helper(&self.id),
        }
    }
}

impl CompilableTo<CompiledQuery> for Query {
    /// Compiles the scope and then each trigger, in order; the response,
    /// the threshold and the name are copied. Fails with the error of the
    /// first pattern that does not compile.
    fn compile(&self) -> (r: Result<CompiledQuery, Issue>)
        ensures
            r is Ok <==> self@.compiles(),
            r matches Ok(compiled) ==> compiled@ == self@.compiled(),
            r matches Err(issue) ==> self@.failure() == Some(issue@.message()) && issue@.is_error(),
    {
        let scope = match self.scope.compile() {
            Ok(compiled) => compiled,
            Err(issue) => return Err(issue),
        };
        let mut triggers: Vec<CompiledTrigger> = Vec::new();
        let mut i: usize = 0;
        while i < self.triggers.len()
            invariant
                i <= self.triggers@.len(),
                self@.scope.pattern.compiles(),
                trigger_failure(self@.triggers.take(i as int)) is None,
                views(triggers@) == self@.compiled().triggers.take(i as int),
            decreases self.triggers@.len() - i,
        {
            proof {
                assert(self@.triggers.take(i + 1).drop_last() =~= self@.triggers.take(i as int));
            }
            let compiled_trigger = match self.triggers[i].compile() {
                Ok(compiled) => compiled,
                Err(issue) => {
                    proof {
                        lemma_trigger_failure_prefix(self@.triggers, i + 1);
                    }
                    return Err(issue);
                },
            };
            proof {
                lemma_views_push(triggers@, compiled_trigger);
            }
            triggers.push(compiled_trigger);
            i = i + 1;
        }
        proof {
            assert(self@.triggers.take(i as int) =~= self@.triggers);
            assert(self@.compiled().triggers.take(i as int) =~= self@.compiled().triggers);
        }
        Ok(
            CompiledQuery {
                response: self.response.clone(),
                scope,
                threshold: self.threshold.clone(),
                triggers,
                id: string_clone_helper(&self.id),
            },
        )
    }
}

/// Adding a trigger adds a duplicate exactly when its name is taken
/// already.
pub proof fn lemma_duplicate_step(triggers: Seq<TriggerView>, n: int)
    requires
        0 <= n < triggers.len(),
    ensures
        has_duplicate_ids(triggers.take(n + 1)) <==> has_duplicate_ids(triggers.take(n))
            || unmatched(triggers.take(n)).contains_key(triggers[n].id),
        unmatched(triggers.take(n + 1)) == unmatched(triggers.take(n)).insert(
            triggers[n].id,
            false,
        ),
{
    let before = triggers.take(n);
    let after = triggers.take(n + 1);
    if has_duplicate_ids(after) {
        let (i, j) = choose|i: int, j: int|
            0 <= i < j < after.len() && (#[trigger] after[i]).id == (#[trigger] after[j]).id;
        if j < n {
            assert(before[i].id == before[j].id);
        } else {
            assert(before[i].id == triggers[n].id);
        }
    }
    if has_duplicate_ids(before) {
        let (i, j) = choose|i: int, j: int|
            0 <= i < j < before.len() && (#[trigger] before[i]).id == (#[trigger] before[j]).id;
        assert(after[i].id == after[j].id);
    }
    if unmatched(before).contains_key(triggers[n].id) {
        let i = choose|i: int| 0 <= i < before.len() && (#[trigger] before[i]).id == triggers[n].id;
        assert(after[i].id == after[n].id);
    }
    assert forall|id: Seq<char>|
        unmatched(after).contains_key(id) <==> unmatched(before).insert(
            triggers[n].id,
            false,
        ).contains_key(id) by {
        if unmatched(after).contains_key(id) {
            let i = choose|i: int| 0 <= i < after.len() && (#[trigger] after[i]).id == id;
            if i < n {
                assert(before[i].id == id);
            }
        }
        if unmatched(before).contains_key(id) {
            let i = choose|i: int| 0 <= i < before.len() && (#[trigger] before[i]).id == id;
            assert(after[i].id == id);
        }
        if id == triggers[n].id {
            assert(after[n].id == id);
        }
    }
    assert(unmatched(after) =~= unmatched(before).insert(triggers[n].id, false));
}

impl Validatable for Query {
    /// Validates the query and its parts: it must compile, its response
    /// must be valid, the names of its triggers must differ, and its
    /// threshold must refer to triggers that the query has. A threshold
    /// that holds although no trigger matched gives a warning.
    fn validate(&self) -> (r: Option<Vec<Issue>>)
        ensures
            r is None <==> self@.issues().len() == 0,
            r matches Some(issues) ==> views(issues@) == self@.issues(),
    {
        let mut issues: Vec<Issue> = Vec::new();
        match self.compile() {
            Ok(_) => (),
            Err(issue) => {
                proof {
                    lemma_views_push(issues@, issue);
                }
                issues.push(issue);
            },
        }
        match self.response.validate() {
            Some(mut problems) => {
                proof {
                    lemma_views_concat(issues@, problems@);
                }
                issues.append(&mut problems);
            },
            None => (),
        }
        let mut trigger_responses = TriggerResults::new();
        let mut duplicate = false;
        let mut i: usize = 0;
        while i < self.triggers.len()
            invariant
                i <= self.triggers@.len(),
                trigger_responses@ == unmatched(self@.triggers.take(i as int)),
                duplicate == has_duplicate_ids(self@.triggers.take(i as int)),
            decreases self.triggers@.len() - i,
        {
            proof {
                lemma_duplicate_step(self@.triggers, i as int);
            }
            let id = &self.triggers[i].id;
            if trigger_responses.get(id.as_str()).is_some() {
                duplicate = true;
            }
            trigger_responses.insert(id.clone(), false);
            i = i + 1;
        }
        assert(self@.triggers.take(i as int) =~= self@.triggers);
        if duplicate {
            let issue = Issue::error("duplicate trigger id");
            proof {
                lemma_views_push(issues@, issue);
            }
            issues.push(issue);
        }
        match self.threshold.evaluate(&trigger_responses) {
            Ok(value) => {
                if value {
                    let issue = Issue::warning(
                        "query will match if all triggers do not match; this can be dangerous in certain situations",
                    );
                    proof {
                        lemma_views_push(issues@, issue);
                    }
                    issues.push(issue);
                }
            },
            Err(issue) => {
                proof {
                    lemma_views_push(issues@, issue);
                }
                issues.push(issue);
            },
        };
        if issues.len() > 0 {
            Some(issues)
        } else {
            None
        }
    }
}

/// Validation finds an error exactly when the query does not compile, its
/// response is not valid, two of its triggers share a name, or its
/// threshold names a trigger that it does not have.
pub proof fn law_validation_errors(q: QueryView)
    ensures
        has_error(q.issues()) <==> !q.compiles() || !q.response.is_valid() || has_duplicate_ids(
            q.triggers,
        ) || !q.threshold.resolves(unmatched(q.triggers)),
{
    let a = q.compilation_issues();
    let b = q.response.issues();
    let c = q.naming_issues();
    let d = q.threshold_issues();
    let all = q.issues();
    let ab: int = (a.len() + b.len()) as int;
    let abc: int = (a.len() + b.len() + c.len()) as int;
    lemma_irreducible_issues_are_errors(q.response.includes);
    if has_error(all) {
        let i = choose|i: int| 0 <= i < all.len() && (#[trigger] all[i]).is_error();
        if i < a.len() {
        } else if i < a.len() + b.len() {
        } else if i < a.len() + b.len() + c.len() {
        } else {
            assert(all[i] == d[i - a.len() - b.len() - c.len()]);
        }
    }
    if !q.compiles() {
        assert(all[0] == a[0]);
        assert(all[0].is_error());
    } else if !q.response.is_valid() {
        assert(all[a.len() as int] == b[0]);
        assert(b[0].is_error());
        assert(all[a.len() as int].is_error());
    } else if has_duplicate_ids(q.triggers) {
        assert(all[ab] == c[0]);
        assert(all[ab].is_error());
    } else if !q.threshold.resolves(unmatched(q.triggers)) {
        assert(all[abc] == d[0]);
        assert(all[abc].is_error());
    }
}

/// A query compiles exactly when validation finds no error, among the
/// queries whose response, trigger names and threshold references are in
/// order whenever they compile.
pub proof fn law_compilation_agrees_with_validation(q: QueryView)
    requires
        q.compiles() ==> q.response.is_valid() && !has_duplicate_ids(q.triggers)
            && q.threshold.resolves(unmatched(q.triggers)),
    ensures
        q.compiles() <==> !has_error(q.issues()),
{
    law_validation_errors(q);
}

/// Two triggers with one name are an error of validation.
pub proof fn law_duplicate_ids_are_an_error(q: QueryView)
    requires
        has_duplicate_ids(q.triggers),
    ensures
        has_error(q.issues()),
{
    law_validation_errors(q);
}

} // verus!
