use ieql::common::compilation::CompilableTo;
use ieql::common::pattern::{Pattern, PatternKind};
use ieql::common::validation::{Issue, Validatable};
use ieql::query::query::Query;
use ieql::query::response::{Response, ResponseItem, ResponseKind};
use ieql::query::scope::{Scope, ScopeContent};
use ieql::query::threshold::{Threshold, ThresholdConsideration};
use ieql::query::trigger::Trigger;

fn pattern(content: &str, kind: PatternKind) -> Pattern {
    Pattern {
        content: String::from(content),
        kind,
    }
}

fn trigger(id: &str, content: &str) -> Trigger {
    Trigger {
        pattern: pattern(content, PatternKind::RegEx),
        id: String::from(id),
    }
}

fn query(triggers: Vec<Trigger>, considers: Vec<&str>, requires: usize, inverse: bool) -> Query {
    Query {
        response: Response {
            kind: ResponseKind::Full,
            includes: vec![ResponseItem::Url],
        },
        scope: Scope {
            pattern: pattern(".*", PatternKind::RegEx),
            content: ScopeContent::Text,
        },
        threshold: Threshold {
            considers: considers
                .into_iter()
                .map(|id| ThresholdConsideration::Trigger(String::from(id)))
                .collect(),
            requires,
            inverse,
        },
        triggers,
        id: None,
    }
}

fn has_error(issues: &Option<Vec<Issue>>) -> bool {
    match issues {
        Some(issues) => issues.iter().any(|issue| issue.is_error()),
        None => false,
    }
}

#[test]
fn valid_query_has_no_issue() {
    let q = query(vec![trigger("A", "a")], vec!["A"], 1, false);
    assert_eq!(q.validate(), None);
    assert!(q.compile().is_ok());
}

#[test]
fn compile_keeps_the_parts() {
    let mut q = query(vec![trigger("A", "a"), trigger("B", "b")], vec!["A", "B"], 2, false);
    q.id = Some(String::from("named"));
    let compiled = q.compile().unwrap();
    assert_eq!(compiled.id, Some(String::from("named")));
    assert_eq!(compiled.response, q.response);
    assert_eq!(compiled.threshold, q.threshold);
    assert_eq!(compiled.triggers.len(), 2);
    assert_eq!(compiled.triggers[0].id, "A");
    assert_eq!(compiled.triggers[1].id, "B");
    assert!(compiled.triggers[1].quick_check(&String::from("xbx")));
    assert!(!compiled.triggers[1].quick_check(&String::from("xax")));
    assert_eq!(compiled.scope.content, ScopeContent::Text);
}

#[test]
fn compile_fails_with_the_first_error() {
    let mut q = query(
        vec![trigger("A", "a"), trigger("B", "(b"), trigger("C", "(c")],
        vec!["A"],
        1,
        false,
    );
    assert_eq!(
        q.compile().err(),
        Some(Issue::Error(String::from("regex could not compile")))
    );
    q.scope.pattern = pattern("(", PatternKind::RegEx);
    assert_eq!(
        q.compile().err(),
        Some(Issue::Error(String::from("regex could not compile")))
    );
}

#[test]
fn validation_reports_what_compilation_reports() {
    let q = query(vec![trigger("A", "(a")], vec!["A"], 1, false);
    assert_eq!(
        q.validate(),
        Some(vec![Issue::Error(String::from("regex could not compile"))])
    );
    assert!(q.compile().is_err());
}

#[test]
fn duplicate_trigger_ids_are_an_error() {
    let q = query(
        vec![trigger("A", "a"), trigger("B", "b"), trigger("A", "c")],
        vec!["A", "B"],
        1,
        false,
    );
    assert_eq!(
        q.validate(),
        Some(vec![Issue::Error(String::from("duplicate trigger id"))])
    );
    assert!(has_error(&q.validate()));
}

#[test]
fn dangling_reference_is_an_error() {
    let q = query(vec![trigger("A", "a")], vec!["A", "Z"], 1, false);
    assert_eq!(
        q.validate(),
        Some(vec![Issue::Error(String::from("unknown trigger id"))])
    );
    let empty = query(vec![], vec!["A"], 1, false);
    assert_eq!(
        empty.validate(),
        Some(vec![Issue::Error(String::from("unknown trigger id"))])
    );
}

#[test]
fn matching_without_triggers_is_a_warning() {
    let expected = Some(vec![Issue::Warning(String::from(
        "query will match if all triggers do not match; this can be dangerous in certain situations",
    ))]);
    let inverted = query(vec![trigger("A", "a")], vec!["A"], 1, true);
    assert_eq!(inverted.validate(), expected);
    assert!(!has_error(&inverted.validate()));
    let nothing_required = query(vec![trigger("A", "a")], vec!["A"], 0, false);
    assert_eq!(nothing_required.validate(), expected);
}

#[test]
fn partial_response_may_not_hold_excerpt_or_url() {
    let partial = Response {
        kind: ResponseKind::Partial,
        includes: vec![
            ResponseItem::Mime,
            ResponseItem::Excerpt,
            ResponseItem::Domain,
            ResponseItem::Url,
            ResponseItem::FullContent,
        ],
    };
    assert_eq!(
        partial.validate(),
        Some(vec![
            Issue::Error(String::from("`Excerpt` is not allowed in partial responses")),
            Issue::Error(String::from("`Url` is not allowed in partial responses")),
        ])
    );
    let reducible = Response {
        kind: ResponseKind::Partial,
        includes: vec![ResponseItem::Mime, ResponseItem::Domain],
    };
    assert_eq!(reducible.validate(), None);
    let full = Response {
        kind: ResponseKind::Full,
        includes: vec![ResponseItem::Excerpt, ResponseItem::Url],
    };
    assert_eq!(full.validate(), None);
}

#[test]
fn issues_come_in_order() {
    let mut q = query(
        vec![trigger("A", "(a"), trigger("A", "b")],
        vec!["Z"],
        1,
        false,
    );
    q.response = Response {
        kind: ResponseKind::Partial,
        includes: vec![ResponseItem::Url],
    };
    assert_eq!(
        q.validate(),
        Some(vec![
            Issue::Error(String::from("regex could not compile")),
            Issue::Error(String::from("`Url` is not allowed in partial responses")),
            Issue::Error(String::from("duplicate trigger id")),
            Issue::Error(String::from("unknown trigger id")),
        ])
    );
}

#[test]
fn compilation_agrees_with_validation() {
    let queries = vec![
        query(vec![trigger("A", "a")], vec!["A"], 1, false),
        query(vec![trigger("A", "(a")], vec!["A"], 1, false),
        query(vec![trigger("A", "a")], vec!["A"], 1, true),
        query(vec![trigger("A", "a"), trigger("B", "[")], vec!["A", "B"], 2, false),
        query(vec![], vec![], 0, false),
    ];
    for q in queries.iter() {
        assert_eq!(q.compile().is_ok(), !has_error(&q.validate()));
    }
}

#[test]
fn clones_keep_the_parts() {
    let q = query(vec![trigger("A", "a")], vec!["A"], 1, false);
    assert_eq!(q.scope.clone(), q.scope);
    assert_eq!(q.response.clone(), q.response);
    assert_eq!(q.triggers[0].clone(), q.triggers[0]);
    let compiled = q.compile().unwrap();
    let copy = compiled.clone();
    assert_eq!(copy.threshold, compiled.threshold);
    assert_eq!(copy.response, compiled.response);
    assert_eq!(copy.triggers.len(), 1);
    assert_eq!(copy.triggers[0].id, "A");
    assert!(copy.scope.pattern.quick_check(&String::from("anything")));
}
