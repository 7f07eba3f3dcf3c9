use ieql::common::compilation::CompilableTo;
use ieql::common::pattern::{Pattern, PatternKind};
use ieql::query::query::{Query, QueryGroup};
use ieql::query::response::{Response, ResponseItem, ResponseKind};
use ieql::query::scope::{Scope, ScopeContent};
use ieql::query::threshold::{Threshold, ThresholdConsideration};
use ieql::query::trigger::Trigger;

fn get_basic_query() -> Query {
    Query {
        response: Response {
            kind: ResponseKind::Full,
            includes: vec![ResponseItem::Excerpt, ResponseItem::Url],
        },
        scope: Scope {
            pattern: Pattern {
                content: String::from(".+"),
                kind: PatternKind::RegEx,
            },
            content: ScopeContent::Raw,
        },
        threshold: Threshold {
            considers: vec![
                ThresholdConsideration::Trigger(String::from("A")),
                ThresholdConsideration::NestedThreshold(Threshold {
                    considers: vec![
                        ThresholdConsideration::Trigger(String::from("B")),
                        ThresholdConsideration::Trigger(String::from("C")),
                    ],
                    inverse: false,
                    requires: 1,
                }),
            ],
            inverse: false,
            requires: 2,
        },
        triggers: vec![
            Trigger {
                pattern: Pattern {
                    content: String::from("hello"),
                    kind: PatternKind::RegEx,
                },
                id: String::from("A"),
            },
            Trigger {
                pattern: Pattern {
                    content: String::from("everyone"),
                    kind: PatternKind::RegEx,
                },
                id: String::from("B"),
            },
            Trigger {
                pattern: Pattern {
                    content: String::from("around"),
                    kind: PatternKind::RegEx,
                },
                id: String::from("C"),
            },
        ],
        id: Some(String::from("Test Trigger #1")),
    }
}

#[test]
fn test_basic_compilation() {
    let basic_query = get_basic_query();
    assert!(basic_query.compile().is_ok());
}

#[test]
fn test_group_compilation() {
    let mut queries: Vec<Query> = Vec::new();
    for _i in 0..20 {
        queries.push(get_basic_query());
    }
    let _special_query = Query {
        response: Response {
            kind: ResponseKind::Full,
            includes: vec![ResponseItem::Excerpt, ResponseItem::Url],
        },
        scope: Scope {
            pattern: Pattern {
                content: String::from(".+"),
                kind: PatternKind::RegEx,
            },
            content: ScopeContent::Raw,
        },
        threshold: Threshold {
            considers: vec![
                ThresholdConsideration::Trigger(String::from("A")),
                ThresholdConsideration::NestedThreshold(Threshold {
                    considers: vec![
                        ThresholdConsideration::Trigger(String::from("B")),
                        ThresholdConsideration::Trigger(String::from("C")),
                    ],
                    inverse: true,
                    requires: 1,
                }),
            ],
            inverse: false,
            requires: 2,
        },
        triggers: vec![
            Trigger {
                pattern: Pattern {
                    content: String::from("hello"),
                    kind: PatternKind::RegEx,
                },
                id: String::from("A"),
            },
            Trigger {
                pattern: Pattern {
                    content: String::from("everyone"),
                    kind: PatternKind::RegEx,
                },
                id: String::from("B"),
            },
            Trigger {
                pattern: Pattern {
                    content: String::from("around"),
                    kind: PatternKind::RegEx,
                },
                id: String::from("C"),
            },
        ],
        id: Some(String::from("Test Trigger #2 (inverse)")),
    };
    let group = QueryGroup { queries: queries };
    assert!(group.compile().is_ok());
}
