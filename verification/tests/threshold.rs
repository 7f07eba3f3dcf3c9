use ieql::common::validation::Issue;
use ieql::query::threshold::{Threshold, ThresholdConsideration, TriggerResults};

fn trigger(id: &str) -> ThresholdConsideration {
    ThresholdConsideration::Trigger(String::from(id))
}

fn results(entries: &[(&str, bool)]) -> TriggerResults {
    let mut results = TriggerResults::new();
    for (id, hit) in entries {
        results.insert(String::from(*id), *hit);
    }
    results
}

fn nested_example(inverse: bool) -> Threshold {
    Threshold {
        considers: vec![
            trigger("A"),
            ThresholdConsideration::NestedThreshold(Threshold {
                considers: vec![trigger("B"), trigger("C")],
                requires: 1,
                inverse: false,
            }),
        ],
        requires: 2,
        inverse,
    }
}

#[test]
fn evaluate_counts_considerations() {
    let threshold = nested_example(false);
    assert_eq!(
        threshold.evaluate(&results(&[("A", true), ("B", true), ("C", false)])),
        Ok(true)
    );
    assert_eq!(
        threshold.evaluate(&results(&[("A", true), ("B", false), ("C", false)])),
        Ok(false)
    );
    assert_eq!(
        threshold.evaluate(&results(&[("A", false), ("B", true), ("C", true)])),
        Ok(false)
    );
}

#[test]
fn evaluate_reports_unknown_trigger() {
    let threshold = nested_example(false);
    assert_eq!(
        threshold.evaluate(&results(&[("A", true), ("B", true)])),
        Err(Issue::Error(String::from("unknown trigger id")))
    );
    assert_eq!(
        threshold.evaluate(&TriggerResults::new()),
        Err(Issue::Error(String::from("unknown trigger id")))
    );
}

#[test]
fn flipping_inverse_negates_the_outcome() {
    let all = [
        [("A", false), ("B", false), ("C", false)],
        [("A", true), ("B", false), ("C", false)],
        [("A", true), ("B", true), ("C", false)],
        [("A", false), ("B", true), ("C", true)],
        [("A", true), ("B", true), ("C", true)],
    ];
    for entries in all.iter() {
        let plain = nested_example(false).evaluate(&results(entries)).unwrap();
        let flipped = nested_example(true).evaluate(&results(entries)).unwrap();
        assert_eq!(plain, !flipped);
    }
}

#[test]
fn requiring_nothing_always_holds() {
    let threshold = Threshold {
        considers: vec![trigger("A")],
        requires: 0,
        inverse: false,
    };
    assert_eq!(threshold.evaluate(&results(&[("A", false)])), Ok(true));
    assert_eq!(threshold.evaluate(&results(&[("A", true)])), Ok(true));
    let (_, tainted) = threshold.analyze();
    assert!(tainted);
}

#[test]
fn empty_considers() {
    let nothing_required = Threshold {
        considers: vec![],
        requires: 0,
        inverse: false,
    };
    assert_eq!(nothing_required.evaluate(&TriggerResults::new()), Ok(true));
    let something_required = Threshold {
        considers: vec![],
        requires: 1,
        inverse: false,
    };
    assert_eq!(something_required.evaluate(&TriggerResults::new()), Ok(false));
}

#[test]
fn requiring_too_many_never_holds() {
    let threshold = Threshold {
        considers: vec![trigger("A"), trigger("B")],
        requires: 3,
        inverse: false,
    };
    assert_eq!(
        threshold.evaluate(&results(&[("A", true), ("B", true)])),
        Ok(false)
    );
    let inverted = Threshold {
        considers: vec![trigger("A"), trigger("B")],
        requires: 3,
        inverse: true,
    };
    assert_eq!(
        inverted.evaluate(&results(&[("A", true), ("B", true)])),
        Ok(true)
    );
}

#[test]
fn analyze_collects_references_depth_first() {
    let threshold = nested_example(false);
    let (references, tainted) = threshold.analyze();
    let names: Vec<&str> = references.iter().map(|s| s.as_str()).collect();
    assert_eq!(names, vec!["A", "B", "C"]);
    assert!(!tainted);
}

#[test]
fn analyze_finds_nested_taint() {
    let threshold = Threshold {
        considers: vec![
            trigger("A"),
            ThresholdConsideration::NestedThreshold(Threshold {
                considers: vec![trigger("B")],
                requires: 1,
                inverse: true,
            }),
        ],
        requires: 1,
        inverse: false,
    };
    let (_, tainted) = threshold.analyze();
    assert!(tainted);
    let (_, top_tainted) = nested_example(true).analyze();
    assert!(top_tainted);
}

#[test]
fn later_result_replaces_earlier() {
    let mut results = TriggerResults::new();
    results.insert(String::from("A"), true);
    results.insert(String::from("A"), false);
    assert_eq!(results.get("A"), Some(false));
    assert_eq!(results.get("B"), None);
}

#[test]
fn clone_keeps_the_threshold() {
    let threshold = nested_example(true);
    assert_eq!(threshold.clone(), threshold);
}
