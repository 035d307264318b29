use ac::catalog::flat_change_types;
use ac::error::AcError;
use ac::message::{make_commit_message, CollectedInput};

fn label(slug: &str) -> String {
    flat_change_types()
        .into_iter()
        .find(|l| l.split(':').next() == Some(slug))
        .unwrap()
}

fn input(slug: &str, summary: &str) -> CollectedInput {
    CollectedInput {
        selected_label: label(slug),
        scope: None,
        summary: summary.to_string(),
        body: None,
        breaking: false,
        footer: None,
    }
}

#[test]
fn plain_message_has_type_and_summary_only() {
    let m = make_commit_message(input("feat", "add x")).unwrap();
    assert_eq!(m, "feat: add x");
}

#[test]
fn breaking_mark_comes_before_scope() {
    let mut p = input("fix", "null check");
    p.breaking = true;
    p.scope = Some("core".to_string());
    assert_eq!(make_commit_message(p).unwrap(), "fix!(core): null check");
}

#[test]
fn scope_without_breaking() {
    let mut p = input("docs", "explain setup");
    p.scope = Some("readme".to_string());
    assert_eq!(make_commit_message(p).unwrap(), "docs(readme): explain setup");
}

#[test]
fn body_and_footer_follow_blank_lines() {
    let mut p = input("refactor", "split parser");
    p.body = Some("first line\nsecond line".to_string());
    p.footer = Some("Closes #7.".to_string());
    assert_eq!(
        make_commit_message(p).unwrap(),
        "refactor: split parser\n\nfirst line\nsecond line\n\nCloses #7."
    );
}

#[test]
fn body_alone_follows_one_blank_line() {
    let mut p = input("perf", "cache lookups");
    p.body = Some("details".to_string());
    assert_eq!(make_commit_message(p).unwrap(), "perf: cache lookups\n\ndetails");
}

#[test]
fn footer_alone_follows_one_blank_line() {
    let mut p = input("ci", "pin toolchain");
    p.footer = Some("Refs #12.".to_string());
    assert_eq!(make_commit_message(p).unwrap(), "ci: pin toolchain\n\nRefs #12.");
}

#[test]
fn same_input_gives_same_message() {
    let make = || {
        let mut p = input("build", "bump deps");
        p.scope = Some("cargo".to_string());
        p.body = Some("b".to_string());
        make_commit_message(p).unwrap()
    };
    let a = make();
    let b = make();
    assert_eq!(a, b);
    assert_eq!(a, "build(cargo): bump deps\n\nb");
}

#[test]
fn slug_stops_at_first_separator() {
    let p = CollectedInput {
        selected_label: "chore:x:y".to_string(),
        scope: None,
        summary: "tidy".to_string(),
        body: None,
        breaking: false,
        footer: None,
    };
    assert_eq!(make_commit_message(p).unwrap(), "chore: tidy");
}

#[test]
fn label_without_separator_is_malformed() {
    let p = CollectedInput {
        selected_label: "feat add".to_string(),
        scope: None,
        summary: "x".to_string(),
        body: None,
        breaking: false,
        footer: None,
    };
    assert_eq!(
        make_commit_message(p),
        Err(AcError::MalformedLabel("feat add".to_string()))
    );
}
