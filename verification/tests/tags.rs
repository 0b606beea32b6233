use parlab::tags::{
    count_tags, merge_maps, run_sequential, try_merge_maps, try_run_sequential, TagCounts,
    TagPattern,
};

fn pattern() -> TagPattern {
    TagPattern::new().expect("the tag pattern compiles")
}

#[test]
fn counts_start_tags_case_insensitively() {
    let counts = count_tags(&pattern(), "<div class=\"a\"><P>x</p><br/><Div>");
    assert_eq!(counts.len(), 3);
    assert_eq!(counts.get(&"div".to_string()), 2);
    assert_eq!(counts.get(&"p".to_string()), 1);
    assert_eq!(counts.get(&"br".to_string()), 1);
    assert_eq!(counts.get(&"span".to_string()), 0);
}

#[test]
fn closing_tags_and_text_are_not_counted() {
    let counts = count_tags(&pattern(), "plain </a> text < b> <>");
    assert_eq!(counts.len(), 0);
}

#[test]
fn attributes_may_span_lines() {
    let counts = count_tags(&pattern(), "<img\n src=\"x\"\n alt=\"y\"><h1>t</h1>");
    assert_eq!(counts.get(&"img".to_string()), 1);
    assert_eq!(counts.get(&"h1".to_string()), 1);
}

#[test]
fn merge_adds_counts() {
    let a = count_tags(&pattern(), "<a><a><b>");
    let b = count_tags(&pattern(), "<b><c>");
    let m = merge_maps(a, b);
    assert_eq!(m.len(), 3);
    assert_eq!(m.get(&"a".to_string()), 2);
    assert_eq!(m.get(&"b".to_string()), 2);
    assert_eq!(m.get(&"c".to_string()), 1);
}

#[test]
fn merge_with_empty_is_identity() {
    let a = count_tags(&pattern(), "<x><y><x>");
    let m = merge_maps(TagCounts::new(), a);
    assert_eq!(m.get(&"x".to_string()), 2);
    assert_eq!(m.len(), 2);
}

#[test]
fn sequential_run_equals_merging_halves() {
    let p = pattern();
    let docs: Vec<String> =
        vec!["<html><body>".into(), "<p><p>".into(), "<BODY><b>".into(), "none".into()];
    let whole = run_sequential(&p, &docs);
    let left = run_sequential(&p, &docs[..2].to_vec());
    let right = run_sequential(&p, &docs[2..].to_vec());
    let joined = merge_maps(right, left);
    assert_eq!(whole.len(), joined.len());
    for tag in ["html", "body", "p", "b"] {
        let t = tag.to_string();
        assert_eq!(whole.get(&t), joined.get(&t));
    }
    assert_eq!(whole.get(&"body".to_string()), 2);
    assert_eq!(whole.len(), 4);
}

#[test]
fn try_merge_adds_counts_that_fit() {
    let a = count_tags(&pattern(), "<a><a><b>");
    let b = count_tags(&pattern(), "<b><c>");
    let m = try_merge_maps(a, b).expect("small counts fit");
    assert_eq!(m.len(), 3);
    assert_eq!(m.get(&"a".to_string()), 2);
    assert_eq!(m.get(&"b".to_string()), 2);
    assert_eq!(m.get(&"c".to_string()), 1);
}

#[test]
fn try_merge_refuses_an_overflowing_sum() {
    let mut a = TagCounts::new();
    a.add("div".to_string(), usize::MAX);
    let mut b = TagCounts::new();
    b.add("p".to_string(), 3);
    b.add("div".to_string(), 1);
    assert!(try_merge_maps(a, b).is_none());
}

#[test]
fn try_merge_accepts_a_sum_of_exactly_the_maximum() {
    let mut a = TagCounts::new();
    a.add("div".to_string(), usize::MAX - 1);
    let mut b = TagCounts::new();
    b.add("div".to_string(), 1);
    b.add("span".to_string(), usize::MAX);
    let m = try_merge_maps(a, b).unwrap();
    assert_eq!(m.get(&"div".to_string()), usize::MAX);
    assert_eq!(m.get(&"span".to_string()), usize::MAX);
}

#[test]
fn try_run_sequential_tallies_the_corpus() {
    let docs = vec!["<a><b>".to_string(), "<B><i>".to_string(), String::new()];
    let m = try_run_sequential(&pattern(), &docs).expect("small counts fit");
    assert_eq!(m.len(), 3);
    assert_eq!(m.get(&"a".to_string()), 1);
    assert_eq!(m.get(&"b".to_string()), 2);
    assert_eq!(m.get(&"i".to_string()), 1);
    let empty = try_run_sequential(&pattern(), &vec![]).unwrap();
    assert_eq!(empty.len(), 0);
}

#[test]
fn a_tag_runs_to_the_first_closing_bracket() {
    let counts = count_tags(&pattern(), "<a <b>");
    assert_eq!(counts.len(), 1);
    assert_eq!(counts.get(&"a".to_string()), 1);
    let counts = count_tags(&pattern(), "<<b>x<c");
    assert_eq!(counts.len(), 1);
    assert_eq!(counts.get(&"b".to_string()), 1);
    let counts = count_tags(&pattern(), "<h2-x y>");
    assert_eq!(counts.get(&"h2".to_string()), 1);
    let counts = count_tags(&pattern(), "<\u{e9}t\u{e9}><ÉT>");
    assert_eq!(counts.len(), 0);
}
