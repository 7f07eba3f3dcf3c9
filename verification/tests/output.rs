use ieql::common::compilation::CompilableTo;
use ieql::common::pattern::{Pattern, PatternKind, PatternMatch};
use ieql::input::document::CompiledDocument;
use ieql::output::output::{string_clone_helper, Output, OutputBatch, OutputItem, OutputKind};
use ieql::query::query::{CompiledQuery, Query};
use ieql::query::response::{Response, ResponseItem, ResponseKind};
use ieql::query::scope::{Scope, ScopeContent};
use ieql::query::threshold::Threshold;

fn query(kind: ResponseKind, includes: Vec<ResponseItem>, id: Option<&str>) -> CompiledQuery {
    Query {
        response: Response { kind, includes },
        scope: Scope {
            pattern: Pattern {
                content: String::from(".*"),
                kind: PatternKind::RegEx,
            },
            content: ScopeContent::Raw,
        },
        threshold: Threshold {
            considers: vec![],
            requires: 0,
            inverse: false,
        },
        triggers: vec![],
        id: id.map(String::from),
    }
    .compile()
    .unwrap()
}

fn document() -> CompiledDocument {
    CompiledDocument {
        url: Some(String::from("https://a.example/x")),
        raw: String::from("<p>raw</p>"),
        mime: None,
        text: String::from(" raw "),
        domain: Some(String::from("a.example")),
    }
}

fn excerpt() -> PatternMatch {
    PatternMatch {
        excerpt: String::from(" raw "),
        relevant: (1, 4),
    }
}

#[test]
fn output_follows_the_response() {
    let q = query(
        ResponseKind::Full,
        vec![
            ResponseItem::FullContent,
            ResponseItem::Domain,
            ResponseItem::Excerpt,
            ResponseItem::Mime,
            ResponseItem::Url,
            ResponseItem::Domain,
        ],
        Some("q"),
    );
    let output = Output::new(&document(), &q, vec![excerpt()], Some(String::from("o")));
    assert_eq!(
        output,
        Output {
            items: vec![
                OutputItem::FullContent(Some(String::from("<p>raw</p>"))),
                OutputItem::Domain(Some(String::from("a.example"))),
                OutputItem::Excerpt(vec![excerpt()]),
                OutputItem::Mime(None),
                OutputItem::Url(Some(String::from("https://a.example/x"))),
                OutputItem::Domain(Some(String::from("a.example"))),
            ],
            kind: OutputKind::Full,
            id: Some(String::from("o")),
            query_id: Some(String::from("q")),
        }
    );
}

#[test]
fn output_kind_mirrors_the_response() {
    let q = query(ResponseKind::Partial, vec![], None);
    let output = Output::new(&document(), &q, vec![], None);
    assert_eq!(
        output,
        Output {
            items: vec![],
            kind: OutputKind::Partial,
            id: None,
            query_id: None,
        }
    );
}

fn named(id: &str) -> Output {
    Output {
        items: vec![],
        kind: OutputKind::Full,
        id: Some(String::from(id)),
        query_id: None,
    }
}

fn batch(ids: &[&str]) -> OutputBatch {
    OutputBatch::from(ids.iter().map(|id| named(id)).collect::<Vec<Output>>())
}

fn ids(batch: &OutputBatch) -> Vec<String> {
    batch.outputs.iter().map(|o| o.id.clone().unwrap()).collect()
}

#[test]
fn merge_appends_in_order() {
    let mut first = batch(&["a", "b"]);
    first.merge_with(batch(&["c", "d", "e"]));
    assert_eq!(ids(&first), vec!["a", "b", "c", "d", "e"]);
    first.merge_with(OutputBatch::new());
    assert_eq!(ids(&first), vec!["a", "b", "c", "d", "e"]);
    let mut empty = OutputBatch::new();
    empty.merge_with(batch(&["x"]));
    assert_eq!(ids(&empty), vec!["x"]);
}

#[test]
fn merge_is_associative() {
    let mut left = batch(&["a", "b"]);
    left.merge_with(batch(&["c"]));
    left.merge_with(batch(&["d", "e"]));
    let mut tail = batch(&["c"]);
    tail.merge_with(batch(&["d", "e"]));
    let mut right = batch(&["a", "b"]);
    right.merge_with(tail);
    assert_eq!(left, right);
}

#[test]
fn new_batch_is_empty() {
    assert!(OutputBatch::new().outputs.is_empty());
    assert_eq!(OutputBatch::new(), OutputBatch::from(vec![]));
}

#[test]
fn optional_string_is_cloned() {
    assert_eq!(
        string_clone_helper(&Some(String::from("x"))),
        Some(String::from("x"))
    );
    assert_eq!(string_clone_helper(&None), None);
}

#[test]
fn file_name_uses_the_names_or_their_stand_ins() {
    let mut output = named("7");
    output.query_id = Some(String::from("q"));
    assert_eq!(output.file_name("123"), "output-7-q.ieqlo");
    output.id = None;
    assert_eq!(output.file_name("123"), "output-123-q.ieqlo");
    output.query_id = None;
    assert_eq!(output.file_name("123"), "output-123-unknown_query.ieqlo");
    assert_eq!(named("x").file_name(""), "output-x-unknown_query.ieqlo");
}
