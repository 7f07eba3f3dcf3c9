use ieql::common::compilation::CompilableTo;
use ieql::common::pattern::{Pattern, PatternKind, PatternMatch};
use ieql::common::validation::Issue;
use ieql::input::document::{CompiledDocument, CompiledDocumentBatch, Document};
use ieql::output::output::{Output, OutputBatch, OutputItem, OutputKind};
use ieql::query::group::CompiledQueryGroup;
use ieql::query::query::{CompiledQuery, Query, QueryGroup};
use ieql::query::response::{Response, ResponseItem, ResponseKind};
use ieql::query::scope::{Scope, ScopeContent};
use ieql::query::threshold::{Threshold, ThresholdConsideration};
use ieql::query::trigger::Trigger;
use ieql::scan::scanner::Scanner;

fn pattern(content: &str, kind: PatternKind) -> Pattern {
    Pattern {
        content: String::from(content),
        kind,
    }
}

fn literal_trigger(id: &str, content: &str) -> Trigger {
    Trigger {
        pattern: pattern(content, PatternKind::Raw),
        id: String::from(id),
    }
}

fn refer(id: &str) -> ThresholdConsideration {
    ThresholdConsideration::Trigger(String::from(id))
}

fn simple_query(
    id: &str,
    triggers: Vec<Trigger>,
    threshold: Threshold,
    scope: &str,
    content: ScopeContent,
    includes: Vec<ResponseItem>,
) -> Query {
    Query {
        response: Response {
            kind: ResponseKind::Full,
            includes,
        },
        scope: Scope {
            pattern: pattern(scope, PatternKind::RegEx),
            content,
        },
        threshold,
        triggers,
        id: Some(String::from(id)),
    }
}

fn html(url: Option<&str>, data: &str) -> CompiledDocument {
    Document {
        url: url.map(String::from),
        data: data.as_bytes().to_vec(),
        mime: Some(String::from("text/html")),
    }
    .compile()
    .unwrap()
}

fn plain(url: Option<&str>, data: &str) -> CompiledDocument {
    Document {
        url: url.map(String::from),
        data: data.as_bytes().to_vec(),
        mime: None,
    }
    .compile()
    .unwrap()
}

fn hello_query() -> Query {
    simple_query(
        "hello",
        vec![literal_trigger("T", "hello")],
        Threshold {
            considers: vec![refer("T")],
            requires: 1,
            inverse: false,
        },
        ".*",
        ScopeContent::Text,
        vec![ResponseItem::Url, ResponseItem::Excerpt],
    )
}

#[test]
fn literal_hit() {
    let query = hello_query().compile().unwrap();
    let document = html(Some("http://a/x.html"), "<p>hello world</p>");
    let found = query.scan_single(&document);
    assert_eq!(
        found,
        OutputBatch::from(vec![Output {
            items: vec![
                OutputItem::Url(Some(String::from("http://a/x.html"))),
                OutputItem::Excerpt(vec![PatternMatch {
                    excerpt: String::from(" hello world "),
                    relevant: (1, 6),
                }]),
            ],
            kind: OutputKind::Full,
            id: None,
            query_id: Some(String::from("hello")),
        }])
    );
    let excerpt = &found.outputs[0].items[1];
    match excerpt {
        OutputItem::Excerpt(matches) => {
            let (start, end) = matches[0].relevant;
            assert_eq!(&matches[0].excerpt[start..end], "hello");
        }
        _ => panic!("the second item is the excerpt"),
    }
}

fn multi_trigger_query() -> CompiledQuery {
    simple_query(
        "multi",
        vec![
            literal_trigger("A", "foo"),
            literal_trigger("B", "bar"),
            literal_trigger("C", "baz"),
        ],
        Threshold {
            considers: vec![
                refer("A"),
                ThresholdConsideration::NestedThreshold(Threshold {
                    considers: vec![refer("B"), refer("C")],
                    requires: 1,
                    inverse: false,
                }),
            ],
            requires: 2,
            inverse: false,
        },
        ".*",
        ScopeContent::Text,
        vec![ResponseItem::Excerpt],
    )
    .compile()
    .unwrap()
}

#[test]
fn multi_trigger_threshold() {
    let query = multi_trigger_query();
    let found = query.scan_single(&plain(None, "foo and bar"));
    assert_eq!(
        found.outputs,
        vec![Output {
            items: vec![OutputItem::Excerpt(vec![
                PatternMatch {
                    excerpt: String::from("foo and bar"),
                    relevant: (0, 3),
                },
                PatternMatch {
                    excerpt: String::from("foo and bar"),
                    relevant: (8, 11),
                },
            ])],
            kind: OutputKind::Full,
            id: None,
            query_id: Some(String::from("multi")),
        }]
    );
    assert_eq!(query.scan_single(&plain(None, "foo")), OutputBatch::new());
    assert_eq!(query.scan_single(&plain(None, "bar baz")), OutputBatch::new());
}

fn inverted_query() -> Query {
    simple_query(
        "inverted",
        vec![literal_trigger("X", "X")],
        Threshold {
            considers: vec![refer("X")],
            requires: 1,
            inverse: true,
        },
        ".*",
        ScopeContent::Text,
        vec![ResponseItem::Excerpt, ResponseItem::Mime],
    )
}

#[test]
fn inversion_taint() {
    let group = QueryGroup {
        queries: vec![hello_query(), inverted_query()],
    }
    .compile()
    .unwrap();
    assert_eq!(group.queries().len(), 1);
    assert_eq!(group.queries()[0].id, Some(String::from("hello")));
    assert_eq!(group.always_run_queries().len(), 1);
    assert_eq!(
        group.always_run_queries()[0].id,
        Some(String::from("inverted"))
    );
    assert_eq!(group.regex_collected_query_index(), &vec![0]);
    assert_eq!(group.regex_feed(), ScopeContent::Text);
    let document = plain(None, "nothing of interest");
    assert_eq!(group.fired_patterns(&document.text), Vec::<usize>::new());
    assert_eq!(
        group.scan_single(&document).outputs,
        vec![Output {
            items: vec![OutputItem::Excerpt(vec![]), OutputItem::Mime(None)],
            kind: OutputKind::Full,
            id: None,
            query_id: Some(String::from("inverted")),
        }]
    );
    assert_eq!(
        group.scan_single(&plain(None, "an X appears")),
        OutputBatch::new()
    );
}

#[test]
fn requiring_nothing_is_always_run() {
    let mut query = hello_query();
    query.threshold.requires = 0;
    let group = QueryGroup {
        queries: vec![query],
    }
    .compile()
    .unwrap();
    assert_eq!(group.queries().len(), 0);
    assert_eq!(group.always_run_queries().len(), 1);
    assert_eq!(group.scan_single(&plain(None, "nothing")).outputs.len(), 1);
}

#[test]
fn other_channel_is_always_run() {
    let mut query = hello_query();
    query.scope.content = ScopeContent::Raw;
    let group = QueryGroup {
        queries: vec![query],
    }
    .compile()
    .unwrap();
    assert_eq!(group.queries().len(), 0);
    assert_eq!(group.always_run_queries().len(), 1);
    assert_eq!(
        group.scan_single(&html(None, "<hello>x</hello>")).outputs.len(),
        1
    );
}

#[test]
fn scope_exclusion() {
    let mut query = hello_query();
    query.scope.pattern = pattern("^https://a\\.example/", PatternKind::RegEx);
    let compiled = query.compile().unwrap();
    assert_eq!(
        compiled.scan_single(&plain(Some("https://b.example/foo"), "hello")),
        OutputBatch::new()
    );
    assert_eq!(
        compiled
            .scan_single(&plain(Some("https://a.example/foo"), "hello"))
            .outputs
            .len(),
        1
    );
    let group = QueryGroup {
        queries: vec![query],
    }
    .compile()
    .unwrap();
    assert_eq!(
        group.scan_single(&plain(Some("https://b.example/foo"), "hello")),
        OutputBatch::new()
    );
}

#[test]
fn missing_url_is_the_empty_text() {
    let open = hello_query().compile().unwrap();
    assert_eq!(open.scan_single(&plain(None, "hello")).outputs.len(), 1);
    let mut needs_text = hello_query();
    needs_text.scope.pattern = pattern(".+", PatternKind::RegEx);
    let closed = needs_text.compile().unwrap();
    assert_eq!(closed.scan_single(&plain(None, "hello")), OutputBatch::new());
    let mut wants_empty = hello_query();
    wants_empty.scope.pattern = pattern("^$", PatternKind::RegEx);
    let empty_only = wants_empty.compile().unwrap();
    assert_eq!(empty_only.scan_single(&plain(None, "hello")).outputs.len(), 1);
    assert_eq!(
        empty_only.scan_single(&plain(Some("u"), "hello")),
        OutputBatch::new()
    );
}

#[test]
fn html_extraction_decides_the_channel() {
    let data = "<html><body>hello <b>there</b></body></html>";
    let mut on_text = hello_query();
    on_text.triggers = vec![literal_trigger("T", "hello there")];
    let mut on_raw = hello_query();
    on_raw.triggers = vec![literal_trigger("T", "hello there")];
    on_raw.scope.content = ScopeContent::Raw;
    let document = html(None, data);
    assert_eq!(
        on_text.compile().unwrap().scan_single(&document).outputs.len(),
        1
    );
    assert_eq!(
        on_raw.compile().unwrap().scan_single(&document),
        OutputBatch::new()
    );
}

#[test]
fn empty_document_matches_only_the_empty_pattern() {
    let document = plain(None, "");
    assert_eq!(
        hello_query().compile().unwrap().scan_single(&document),
        OutputBatch::new()
    );
    let mut empty_pattern = hello_query();
    empty_pattern.triggers = vec![literal_trigger("T", "")];
    let found = empty_pattern.compile().unwrap().scan_single(&document);
    assert_eq!(
        found.outputs[0].items[1],
        OutputItem::Excerpt(vec![PatternMatch {
            excerpt: String::new(),
            relevant: (0, 0),
        }])
    );
}

#[test]
fn dangling_reference_is_silent() {
    let mut query = hello_query();
    query.triggers = vec![];
    let compiled = query.compile().unwrap();
    assert_eq!(compiled.scan_single(&plain(None, "hello")), OutputBatch::new());
    let group = QueryGroup {
        queries: vec![query],
    }
    .compile()
    .unwrap();
    assert_eq!(group.scan_single(&plain(None, "hello")), OutputBatch::new());
}

#[test]
fn later_trigger_of_a_name_decides() {
    let mut query = hello_query();
    query.triggers = vec![literal_trigger("T", "hello"), literal_trigger("T", "absent")];
    let compiled = query.compile().unwrap();
    assert_eq!(compiled.scan_single(&plain(None, "hello")), OutputBatch::new());
    let mut other = hello_query();
    other.triggers = vec![literal_trigger("T", "absent"), literal_trigger("T", "hello")];
    assert_eq!(
        other
            .compile()
            .unwrap()
            .scan_single(&plain(None, "hello"))
            .outputs
            .len(),
        1
    );
}

#[test]
fn unreferenced_triggers_stay_out_of_the_matcher() {
    let mut query = hello_query();
    query.triggers = vec![
        literal_trigger("unused", "world"),
        literal_trigger("T", "hello"),
    ];
    let group = QueryGroup {
        queries: vec![query, multi_trigger_query_source()],
    }
    .compile()
    .unwrap();
    assert_eq!(group.regex_collected_query_index(), &vec![0, 1, 1, 1]);
    let document = plain(None, "world of baz and hello");
    assert_eq!(group.fired_patterns(&document.text), vec![0, 3]);
    let found = group.scan_single(&document);
    assert_eq!(found.outputs.len(), 1);
    assert_eq!(found.outputs[0].query_id, Some(String::from("hello")));
}

fn multi_trigger_query_source() -> Query {
    simple_query(
        "multi",
        vec![
            literal_trigger("A", "foo"),
            literal_trigger("B", "bar"),
            literal_trigger("C", "baz"),
        ],
        Threshold {
            considers: vec![
                refer("A"),
                ThresholdConsideration::NestedThreshold(Threshold {
                    considers: vec![refer("B"), refer("C")],
                    requires: 1,
                    inverse: false,
                }),
            ],
            requires: 2,
            inverse: false,
        },
        ".*",
        ScopeContent::Text,
        vec![ResponseItem::Excerpt],
    )
}

#[test]
fn candidates_come_before_always_runs() {
    let group = QueryGroup {
        queries: vec![inverted_query(), multi_trigger_query_source(), hello_query()],
    }
    .compile()
    .unwrap();
    let found = group.scan_single(&plain(None, "hello foo bar"));
    let ids: Vec<Option<String>> = found.outputs.iter().map(|o| o.query_id.clone()).collect();
    assert_eq!(
        ids,
        vec![
            Some(String::from("multi")),
            Some(String::from("hello")),
            Some(String::from("inverted")),
        ]
    );
}

#[test]
fn lifted_query_is_always_run() {
    let group = CompiledQueryGroup::from(hello_query().compile().unwrap());
    assert_eq!(group.queries().len(), 0);
    assert_eq!(group.always_run_queries().len(), 1);
    assert_eq!(group.regex_feed(), ScopeContent::Raw);
    assert_eq!(group.fired_patterns(&String::from("")), Vec::<usize>::new());
    assert_eq!(group.scan_single(&plain(None, "hello")).outputs.len(), 1);
    assert_eq!(group.scan_single(&plain(None, "bye")), OutputBatch::new());
}

#[test]
fn group_rejects_a_query_that_does_not_compile() {
    let mut broken = hello_query();
    broken.triggers = vec![Trigger {
        pattern: pattern("(", PatternKind::RegEx),
        id: String::from("T"),
    }];
    let group = QueryGroup {
        queries: vec![hello_query(), broken, hello_query()],
    };
    assert_eq!(
        group.compile().err(),
        Some(Issue::Error(String::from("regex could not compile")))
    );
}

#[test]
fn group_rejects_an_oversized_matcher() {
    let mut queries = Vec::new();
    for _ in 0..20 {
        let mut query = hello_query();
        query.triggers = vec![Trigger {
            pattern: pattern("[ab]{20000}", PatternKind::RegEx),
            id: String::from("T"),
        }];
        assert!(query.compile().is_ok());
        queries.push(query);
    }
    assert_eq!(
        QueryGroup { queries }.compile().err(),
        Some(Issue::Error(String::from(
            "unable to compile master regex set"
        )))
    );
}

#[test]
fn batch_scan_joins_the_documents() {
    let query = hello_query().compile().unwrap();
    let batch = CompiledDocumentBatch {
        documents: vec![
            plain(Some("1"), "hello"),
            plain(Some("2"), "bye"),
            plain(Some("3"), "hello again"),
        ],
    };
    let found = query.scan_batch(&batch);
    let urls: Vec<&OutputItem> = found.outputs.iter().map(|o| &o.items[0]).collect();
    assert_eq!(
        urls,
        vec![
            &OutputItem::Url(Some(String::from("1"))),
            &OutputItem::Url(Some(String::from("3"))),
        ]
    );
    let group = CompiledQueryGroup::from(hello_query().compile().unwrap());
    assert_eq!(group.scan_batch(&batch), found);
}

#[test]
fn cloned_group_scans_the_same() {
    let group = QueryGroup {
        queries: vec![inverted_query(), multi_trigger_query_source(), hello_query()],
    }
    .compile()
    .unwrap();
    let copy = group.clone();
    let document = plain(None, "hello foo bar");
    assert_eq!(copy.scan_single(&document), group.scan_single(&document));
    assert_eq!(
        copy.regex_collected_query_index(),
        group.regex_collected_query_index()
    );
    assert_eq!(
        copy.fired_patterns(&document.text),
        group.fired_patterns(&document.text)
    );
}

struct Generator {
    state: u64,
}

impl Generator {
    fn next(&mut self, bound: usize) -> usize {
        self.state = self
            .state
            .wrapping_mul(6364136223846793005)
            .wrapping_add(1442695040888963407);
        ((self.state >> 33) as usize) % bound
    }
}

const WORDS: [&str; 8] = [
    "alpha", "beta", "gamma", "delta", "epsilon", "zeta", "eta", "theta",
];

fn random_threshold(generator: &mut Generator, depth: usize, names: &[String]) -> Threshold {
    let count = generator.next(4);
    let mut considers = Vec::new();
    for _ in 0..count {
        if depth < 2 && generator.next(4) == 0 {
            considers.push(ThresholdConsideration::NestedThreshold(random_threshold(
                generator,
                depth + 1,
                names,
            )));
        } else {
            considers.push(refer(&names[generator.next(names.len())]));
        }
    }
    Threshold {
        considers,
        requires: generator.next(3),
        inverse: generator.next(5) == 0,
    }
}

fn random_query(generator: &mut Generator, number: usize) -> Query {
    let mut names: Vec<String> = Vec::new();
    let mut triggers = Vec::new();
    for t in 0..(1 + generator.next(3)) {
        let name = format!("t{}", t);
        triggers.push(literal_trigger(&name, WORDS[generator.next(WORDS.len())]));
        names.push(name);
    }
    if generator.next(6) == 0 {
        names.push(String::from("dangling"));
    }
    let threshold = random_threshold(generator, 0, &names);
    let scope = if generator.next(4) == 0 { "^https://a\\." } else { ".*" };
    let content = if generator.next(3) == 0 {
        ScopeContent::Raw
    } else {
        ScopeContent::Text
    };
    simple_query(
        &format!("q{}", number),
        triggers,
        threshold,
        scope,
        content,
        vec![ResponseItem::Url, ResponseItem::Excerpt],
    )
}

fn random_document(generator: &mut Generator, number: usize) -> CompiledDocument {
    let mut data = String::new();
    for _ in 0..generator.next(6) {
        if generator.next(3) == 0 {
            data.push_str("<b>");
        }
        data.push_str(WORDS[generator.next(WORDS.len())]);
        data.push(' ');
    }
    let host = if generator.next(2) == 0 { "a" } else { "b" };
    let url = format!("https://{}.example/{}", host, number);
    if generator.next(2) == 0 {
        html(Some(&url), &data)
    } else {
        plain(if generator.next(5) == 0 { None } else { Some(&url) }, &data)
    }
}

#[test]
fn group_equivalence() {
    let mut generator = Generator { state: 20 };
    let mut sources = Vec::new();
    let mut singles = Vec::new();
    for number in 0..20 {
        let query = random_query(&mut generator, number);
        singles.push(query.compile().unwrap());
        sources.push(query);
    }
    let group = QueryGroup { queries: sources }.compile().unwrap();
    assert_eq!(group.queries().len() + group.always_run_queries().len(), 20);
    assert!(group.queries().len() > 0);
    assert!(group.always_run_queries().len() > 0);
    let mut total = 0;
    for number in 0..200 {
        let document = random_document(&mut generator, number);
        let from_group = group.scan_single(&document);
        let mut in_group_order = OutputBatch::new();
        for query in group.queries() {
            in_group_order.merge_with(query.scan_single(&document));
        }
        for query in group.always_run_queries() {
            in_group_order.merge_with(query.scan_single(&document));
        }
        assert_eq!(from_group, in_group_order);
        let mut one_by_one: Vec<String> = Vec::new();
        for query in singles.iter() {
            for output in query.scan_single(&document).outputs {
                one_by_one.push(format!("{:?}", output));
            }
        }
        let mut grouped: Vec<String> = from_group
            .outputs
            .iter()
            .map(|output| format!("{:?}", output))
            .collect();
        one_by_one.sort();
        grouped.sort();
        assert_eq!(grouped, one_by_one);
        total += grouped.len();
    }
    assert!(total > 200);
}

#[test]
fn no_occurrence_no_output() {
    let query = multi_trigger_query();
    assert_eq!(
        query.scan_single(&plain(Some("https://a.example/"), "nothing that any trigger names")),
        OutputBatch::new()
    );
    let group = QueryGroup {
        queries: vec![multi_trigger_query_source(), hello_query()],
    }
    .compile()
    .unwrap();
    assert_eq!(group.always_run_queries().len(), 0);
    assert_eq!(
        group.scan_single(&html(None, "<p>nothing that any trigger names</p>")),
        OutputBatch::new()
    );
}
