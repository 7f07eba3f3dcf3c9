//! Thresholds: boolean compositions of triggers.

use crate::common::text::{lemma_views_concat, views};
use crate::common::validation::{Issue, IssueView};
use vstd::hash_map::StringHashMap;
use vstd::prelude::*;

verus! {

/// A boolean expression over the triggers of a query: at least `requires`
/// of the `considers` must hold, and `inverse` negates the outcome.
#[derive(Debug, PartialEq)]
pub struct Threshold {
    pub considers: Vec<ThresholdConsideration>,
    pub requires: usize,
    pub inverse: bool,
}

/// Something that a threshold counts: a trigger, or a threshold of its own.
#[derive(Debug, PartialEq)]
pub enum ThresholdConsideration {
    /// A trigger of the query, by its name.
    Trigger(String),
    /// A threshold that is evaluated on its own.
    NestedThreshold(Threshold),
}

/// The mathematical value of a [`Threshold`].
pub struct ThresholdView {
    pub considers: Seq<ConsiderationView>,
    pub requires: nat,
    pub inverse: bool,
}

/// The mathematical value of a [`ThresholdConsideration`].
pub enum ConsiderationView {
    Trigger(Seq<char>),
    NestedThreshold(ThresholdView),
}

impl View for Threshold {
    type V = ThresholdView;

    open spec fn view(&self) -> ThresholdView
        decreases self,
    {
        ThresholdView {
            considers: Seq::new(
                self.considers@.len(),
                |i: int| consideration_view_at(self.considers@, i),
            ),
            requires: self.requires as nat,
            inverse: self.inverse,
        }
    }
}

/// The value of the consideration at position `i` of `s`.
pub open spec fn consideration_view_at(s: Seq<ThresholdConsideration>, i: int) -> ConsiderationView
    decreases s,
{
    if 0 <= i < s.len() {
        match s[i] {
            ThresholdConsideration::Trigger(id) => ConsiderationView::Trigger(id@),
            ThresholdConsideration::NestedThreshold(t) => ConsiderationView::NestedThreshold(t@),
        }
    } else {
        arbitrary()
    }
}

impl View for ThresholdConsideration {
    type V = ConsiderationView;

    open spec fn view(&self) -> ConsiderationView {
        match self {
            ThresholdConsideration::Trigger(id) => ConsiderationView::Trigger(id@),
            ThresholdConsideration::NestedThreshold(t) => ConsiderationView::NestedThreshold(t@),
        }
    }
}

/// Which triggers matched: a map from trigger names to hits.
pub struct TriggerResults {
    hits: StringHashMap<bool>,
}

impl View for TriggerResults {
    type V = Map<Seq<char>, bool>;

    closed spec fn view(&self) -> Map<Seq<char>, bool> {
        self.hits@
    }
}

impl TriggerResults {
    /// No trigger has a result yet.
    pub fn new() -> (r: TriggerResults)
        ensures
            r@ == Map::<Seq<char>, bool>::empty(),
    {
        TriggerResults { hits: StringHashMap::new() }
    }

    /// Records the result of the trigger `id`, replacing an earlier one.
    pub fn insert(&mut self, id: String, hit: bool)
        ensures
            final(self)@ == old(self)@.insert(id@, hit),
    {
        self.hits.insert(id, hit);
    }

    /// The recorded result of the trigger `id`, if there is one.
    pub fn get(&self, id: &str) -> (r: Option<bool>)
        ensures
            r is Some <==> self@.contains_key(id@),
            r matches Some(hit) ==> hit == self@[id@],
    {
        match self.hits.get(id) {
            Some(hit) => Some(*hit),
            None => None,
        }
    }
}

/// Whether a consideration holds under `results`. A trigger without a
/// result does not hold.
pub open spec fn consideration_holds(c: ConsiderationView, results: Map<Seq<char>, bool>) -> bool
    decreases c,
{
    match c {
        ConsiderationView::Trigger(id) => results.contains_key(id) && results[id],
        ConsiderationView::NestedThreshold(t) => t.holds(results),
    }
}

/// How many of the first `n` considerations hold under `results`.
pub open spec fn count_holding(
    considers: Seq<ConsiderationView>,
    n: nat,
    results: Map<Seq<char>, bool>,
) -> nat
    decreases considers, n,
{
    if n == 0 || n > considers.len() {
        0
    } else if consideration_holds(considers[n - 1], results) {
        count_holding(considers, (n - 1) as nat, results) + 1
    } else {
        count_holding(considers, (n - 1) as nat, results)
    }
}

/// Whether every trigger that a consideration names, at any depth, has a
/// result.
pub open spec fn consideration_resolves(
    c: ConsiderationView,
    results: Map<Seq<char>, bool>,
) -> bool
    decreases c,
{
    match c {
        ConsiderationView::Trigger(id) => results.contains_key(id),
        ConsiderationView::NestedThreshold(t) => t.resolves(results),
    }
}

/// Whether a consideration, at any depth, makes its query unfit for
/// prefiltering.
pub open spec fn consideration_tainted(c: ConsiderationView) -> bool
    decreases c,
{
    match c {
        ConsiderationView::Trigger(_) => false,
        ConsiderationView::NestedThreshold(t) => t.is_tainted(),
    }
}

/// The trigger names that a consideration refers to, depth first.
pub open spec fn consideration_references(c: ConsiderationView) -> Seq<Seq<char>>
    decreases c,
{
    match c {
        ConsiderationView::Trigger(id) => seq![id],
        ConsiderationView::NestedThreshold(t) => t.references(),
    }
}

/// The trigger names that the first `n` considerations refer to, depth
/// first and in order.
pub open spec fn references_upto(considers: Seq<ConsiderationView>, n: nat) -> Seq<Seq<char>>
    decreases considers, n,
{
    if n == 0 || n > considers.len() {
        Seq::empty()
    } else {
        references_upto(considers, (n - 1) as nat) + consideration_references(considers[n - 1])
    }
}

impl ThresholdView {
    /// Whether the threshold holds under `results`: at least `requires` of
    /// its considerations hold, negated if `inverse`.
    pub open spec fn holds(self, results: Map<Seq<char>, bool>) -> bool
        decreases self,
    {
        (count_holding(self.considers, self.considers.len(), results) >= self.requires)
            != self.inverse
    }

    /// Whether every trigger that the threshold names, at any depth, has a
    /// result.
    pub open spec fn resolves(self, results: Map<Seq<char>, bool>) -> bool
        decreases self,
    {
        forall|i: int|
            0 <= i < self.considers.len() ==> consideration_resolves(
                #[trigger] self.considers[i],
                results,
            )
    }

    /// The outcome of evaluating the threshold: whether it holds, or
    /// nothing where a trigger that it names has no result.
    pub open spec fn evaluation(self, results: Map<Seq<char>, bool>) -> Option<bool> {
        if self.resolves(results) {
            Some(self.holds(results))
        } else {
            None
        }
    }

    /// A threshold is inversion-tainted when it is inverted, requires
    /// nothing, or nests a tainted threshold. Such a threshold may hold
    /// although no trigger matched.
    pub open spec fn is_tainted(self) -> bool
        decreases self,
    {
        self.inverse || self.requires == 0 || exists|i: int|
            0 <= i < self.considers.len() && consideration_tainted(#[trigger] self.considers[i])
    }

    /// The trigger names that the threshold refers to, depth first and in
    /// order, with repetitions.
    pub open spec fn references(self) -> Seq<Seq<char>>
        decreases self,
    {
        references_upto(self.considers, self.considers.len())
    }

    /// The same threshold with `inverse` flipped.
    pub open spec fn inverted(self) -> ThresholdView {
        ThresholdView { considers: self.considers, requires: self.requires, inverse: !self.inverse }
    }
}

/// The message of the error that evaluation gives for a trigger without a
/// result.
pub open spec fn unknown_trigger_message() -> Seq<char> {
    "unknown trigger id"@
}

impl Clone for ThresholdConsideration {
    fn clone(&self) -> (r: ThresholdConsideration)
        ensures
            r@ == self@,
        decreases self,
    {
        match self {
            ThresholdConsideration::Trigger(id) => ThresholdConsideration::Trigger(id.clone()),
            ThresholdConsideration::NestedThreshold(t) => ThresholdConsideration::NestedThreshold(
                t.clone(),
            ),
        }
    }
}

impl Clone for Threshold {
    fn clone(&self) -> (r: Threshold)
        ensures
            r@ == self@,
        decreases self,
    {
        let mut considers: Vec<ThresholdConsideration> = Vec::new();
        let mut i: usize = 0;
        while i < self.considers.len()
            invariant
                i <= self.considers@.len(),
                considers@.len() == i,
                forall|j: int| 0 <= j < i ==> (#[trigger] considers@[j])@ == self.considers@[j]@,
            decreases self.considers@.len() - i,
        {
            considers.push(self.considers[i].clone());
            i = i + 1;
        }
        let r = Threshold { considers, requires: self.requires, inverse: self.inverse };
        assert(r@.considers =~= self@.considers);
        r
    }
}

impl Threshold {
    /// Evaluates the threshold on the results of the triggers, depth
    /// first. A trigger that the threshold names and that has no result
    /// makes the evaluation fail.
    pub fn evaluate(&self, triggers: &TriggerResults) -> (r: Result<bool, Issue>)
        ensures
            match r {
                Ok(outcome) => self@.evaluation(triggers@) == Some(outcome),
                Err(issue) => self@.evaluation(triggers@) is None && issue@ == IssueView::Error(
                    unknown_trigger_message(),
                ),
            },
        decreases self,
    {
        let mut matched: usize = 0;
        let mut i: usize = 0;
        while i < self.considers.len()
            invariant
                i <= self.considers@.len(),
                self@.considers.len() == self.considers@.len(),
                matched <= i,
                matched == count_holding(self@.considers, i as nat, triggers@),
                forall|j: int|
                    0 <= j < i ==> consideration_resolves(
                        #[trigger] self@.considers[j],
                        triggers@,
                    ),
            decreases self.considers@.len() - i,
        {
            assert(self@.considers[i as int] == self.considers@[i as int]@);
            let holds = match &self.considers[i] {
                ThresholdConsideration::Trigger(id) => match triggers.get(id.as_str()) {
                    Some(hit) => hit,
                    None => {
                        return Err(Issue::error("unknown trigger id"));
                    },
                },
                ThresholdConsideration::NestedThreshold(threshold) => match threshold.evaluate(
                    triggers,
                ) {
                    Ok(outcome) => outcome,
                    Err(issue) => {
                        return Err(issue);
                    },
                },
            };
            assert(holds == consideration_holds(self@.considers[i as int], triggers@));
            if holds {
                matched = matched + 1;
            }
            i = i + 1;
        }
        let mut does_match = matched >= self.requires;
        if self.inverse {
            does_match = !does_match;
        }
        Ok(does_match)
    }

    /// Collects the names of the triggers that the threshold refers to, at
    /// any depth, and tells whether the threshold is inversion-tainted.
    pub fn analyze<'a>(&'a self) -> (r: (Vec<&'a String>, bool))
        ensures
            views(r.0@) == self@.references(),
            r.1 == self@.is_tainted(),
        decreases self,
    {
        let mut relevant: Vec<&'a String> = Vec::new();
        let mut nested_taint = false;
        let mut i: usize = 0;
        while i < self.considers.len()
            invariant
                i <= self.considers@.len(),
                self@.considers.len() == self.considers@.len(),
                views(relevant@) == references_upto(self@.considers, i as nat),
                nested_taint == (exists|j: int|
                    0 <= j < i && consideration_tainted(#[trigger] self@.considers[j])),
            decreases self.considers@.len() - i,
        {
            let ghost before = relevant@;
            match &self.considers[i] {
                ThresholdConsideration::NestedThreshold(threshold) => {
                    let (mut nested, tainted) = threshold.analyze();
                    if tainted {
                        nested_taint = true;
                    }
                    proof {
                        lemma_views_concat(before, nested@);
                    }
                    relevant.append(&mut nested);
                    assert(consideration_references(self@.considers[i as int])
                        == threshold@.references());
                },
                ThresholdConsideration::Trigger(id) => {
                    relevant.push(id);
                    assert(consideration_references(self@.considers[i as int]) == seq![id@]);
                },
            }
            i = i + 1;
        }
        let tainted = nested_taint || self.inverse || self.requires == 0;
        (relevant, tainted)
    }
}

/// An element stands in a concatenation exactly when it stands in one of
/// the two parts.
pub proof fn lemma_concat_contains<A>(a: Seq<A>, b: Seq<A>, x: A)
    ensures
        (a + b).contains(x) <==> a.contains(x) || b.contains(x),
{
    if (a + b).contains(x) {
        let k = choose|k: int| 0 <= k < (a + b).len() && (a + b)[k] == x;
        if k < a.len() {
            assert(a[k] == x);
        } else {
            assert(b[k - a.len()] == x);
        }
    }
    if a.contains(x) {
        let k = choose|k: int| 0 <= k < a.len() && a[k] == x;
        assert((a + b)[k] == x);
    }
    if b.contains(x) {
        let k = choose|k: int| 0 <= k < b.len() && b[k] == x;
        assert((a + b)[a.len() + k] == x);
    }
}

/// A name is referred to by the first `n` considerations exactly when one
/// of them refers to it.
pub proof fn lemma_references_upto_contains(
    considers: Seq<ConsiderationView>,
    n: nat,
    id: Seq<char>,
)
    requires
        n <= considers.len(),
    ensures
        references_upto(considers, n).contains(id) <==> exists|j: int|
            0 <= j < n && consideration_references(#[trigger] considers[j]).contains(id),
    decreases n,
{
    if n > 0 {
        let before = references_upto(considers, (n - 1) as nat);
        let last = consideration_references(considers[n - 1]);
        lemma_references_upto_contains(considers, (n - 1) as nat, id);
        lemma_concat_contains(before, last, id);
        if last.contains(id) {
            assert(consideration_references(considers[n - 1]).contains(id));
        }
    }
}

/// No more than `n` of the first `n` considerations hold.
pub proof fn lemma_count_bounded(
    considers: Seq<ConsiderationView>,
    n: nat,
    results: Map<Seq<char>, bool>,
)
    ensures
        count_holding(considers, n, results) <= n,
    decreases n,
{
    if n > 0 && n <= considers.len() {
        lemma_count_bounded(considers, (n - 1) as nat, results);
    }
}

/// A consideration resolves exactly when every trigger that it refers to
/// has a result.
pub proof fn lemma_consideration_resolves(c: ConsiderationView, results: Map<Seq<char>, bool>)
    ensures
        consideration_resolves(c, results) <==> forall|id: Seq<char>|
            #[trigger] consideration_references(c).contains(id) ==> results.contains_key(id),
    decreases c,
{
    match c {
        ConsiderationView::Trigger(name) => {
            assert(seq![name][0] == name);
            assert(consideration_references(c).contains(name));
            assert forall|id: Seq<char>| #[trigger]
                consideration_references(c).contains(id) implies id == name by {
                let k = choose|k: int| 0 <= k < seq![name].len() && seq![name][k] == id;
                assert(k == 0);
            }
        },
        ConsiderationView::NestedThreshold(t) => {
            lemma_threshold_resolves(t, results);
            assert(consideration_references(c) == t.references());
        },
    }
}

/// A threshold resolves exactly when every trigger that it refers to, at
/// any depth, has a result.
pub proof fn lemma_threshold_resolves(t: ThresholdView, results: Map<Seq<char>, bool>)
    ensures
        t.resolves(results) <==> forall|id: Seq<char>| #[trigger]
            t.references().contains(id) ==> results.contains_key(id),
    decreases t,
{
    let n = t.considers.len();
    if t.resolves(results) {
        assert forall|id: Seq<char>| #[trigger]
            t.references().contains(id) implies results.contains_key(id) by {
            lemma_references_upto_contains(t.considers, n, id);
            let j = choose|j: int|
                0 <= j < n && consideration_references(#[trigger] t.considers[j]).contains(id);
            lemma_consideration_resolves(t.considers[j], results);
        }
    }
    if forall|id: Seq<char>| #[trigger] t.references().contains(id) ==> results.contains_key(id) {
        assert forall|i: int| 0 <= i < n implies consideration_resolves(
            #[trigger] t.considers[i],
            results,
        ) by {
            lemma_consideration_resolves(t.considers[i], results);
            assert forall|id: Seq<char>| #[trigger]
                consideration_references(t.considers[i]).contains(id) implies results.contains_key(
                id,
            ) by {
                lemma_references_upto_contains(t.considers, n, id);
                assert(t.references().contains(id));
            }
        }
    }
}

/// Flipping `inverse` negates the outcome, for results that resolve every
/// trigger that the threshold refers to.
pub proof fn law_inversion_negates(t: ThresholdView, results: Map<Seq<char>, bool>)
    requires
        t.resolves(results),
    ensures
        t.evaluation(results) == Some(t.holds(results)),
        t.inverted().evaluation(results) == Some(!t.holds(results)),
{
    assert(t.inverted().resolves(results));
}

/// A threshold that requires nothing and is not inverted always holds, and
/// is inversion-tainted.
pub proof fn law_requiring_nothing_holds(t: ThresholdView, results: Map<Seq<char>, bool>)
    requires
        t.requires == 0,
        !t.inverse,
    ensures
        t.holds(results),
        t.resolves(results) ==> t.evaluation(results) == Some(true),
        t.is_tainted(),
{
}

/// A threshold that requires more than it considers never holds, unless it
/// is inverted.
pub proof fn law_requiring_too_many_fails(t: ThresholdView, results: Map<Seq<char>, bool>)
    requires
        t.requires > t.considers.len(),
        !t.inverse,
    ensures
        !t.holds(results),
        t.evaluation(results) != Some(true),
{
    lemma_count_bounded(t.considers, t.considers.len(), results);
}

/// A threshold that refers to a trigger without a result does not
/// evaluate.
pub proof fn law_dangling_reference_fails(
    t: ThresholdView,
    results: Map<Seq<char>, bool>,
    id: Seq<char>,
)
    requires
        t.references().contains(id),
        !results.contains_key(id),
    ensures
        t.evaluation(results) is None,
{
    lemma_threshold_resolves(t, results);
}

/// A consideration that is not tainted and none of whose triggers matched
/// does not hold.
pub proof fn lemma_untainted_consideration(c: ConsiderationView, results: Map<Seq<char>, bool>)
    requires
        !consideration_tainted(c),
        forall|id: Seq<char>| #[trigger]
            consideration_references(c).contains(id) ==> !(results.contains_key(id)
                && results[id]),
    ensures
        !consideration_holds(c, results),
    decreases c,
{
    match c {
        ConsiderationView::Trigger(name) => {
            assert(seq![name][0] == name);
            assert(consideration_references(c).contains(name));
        },
        ConsiderationView::NestedThreshold(t) => {
            assert(consideration_references(c) == t.references());
            law_untainted_needs_a_hit(t, results);
        },
    }
}

/// Of considerations that are not tainted and none of whose triggers
/// matched, none holds.
pub proof fn lemma_untainted_count(
    considers: Seq<ConsiderationView>,
    n: nat,
    results: Map<Seq<char>, bool>,
)
    requires
        n <= considers.len(),
        forall|j: int| 0 <= j < n ==> !consideration_tainted(#[trigger] considers[j]),
        forall|j: int, id: Seq<char>|
            0 <= j < n && #[trigger] consideration_references(considers[j]).contains(id) ==> !(
            results.contains_key(id) && results[id]),
    ensures
        count_holding(considers, n, results) == 0,
    decreases considers, n,
{
    if n > 0 {
        lemma_untainted_count(considers, (n - 1) as nat, results);
        lemma_untainted_consideration(considers[n - 1], results);
    }
}

/// A threshold that is not inversion-tainted does not hold unless one of
/// the triggers that it refers to matched.
pub proof fn law_untainted_needs_a_hit(t: ThresholdView, results: Map<Seq<char>, bool>)
    requires
        !t.is_tainted(),
        forall|id: Seq<char>| #[trigger]
            t.references().contains(id) ==> !(results.contains_key(id) && results[id]),
    ensures
        !t.holds(results),
        t.evaluation(results) != Some(true),
    decreases t,
{
    let n = t.considers.len();
    assert forall|j: int, id: Seq<char>|
        0 <= j < n && #[trigger] consideration_references(t.considers[j]).contains(
            id,
        ) implies !(results.contains_key(id) && results[id]) by {
        lemma_references_upto_contains(t.considers, n, id);
        assert(t.references().contains(id));
    }
    lemma_untainted_count(t.considers, n, results);
}

} // verus!
