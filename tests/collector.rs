use ac::catalog::flat_change_types;
use ac::collector::{Collector, Progress, Reply, Request};
use ac::error::AcError;
use ac::message::CollectedInput;

fn step(c: Collector, r: Reply) -> Collector {
    match c.answer(r) {
        Ok(Progress::Next(n)) => n,
        other => panic!("unexpected {:?}", other),
    }
}

fn text(s: &str) -> Reply {
    Reply::Text(s.to_string())
}

fn full_session() -> Vec<Reply> {
    vec![
        text(&flat_change_types()[1]),
        text("core"),
        text("add x"),
        Reply::Skipped,
        Reply::Flag(true),
        text("Closes #1."),
    ]
}

#[test]
fn session_asks_six_requests_in_order() {
    let mut c = Collector::new();
    let order = [
        Request::ChangeType,
        Request::Scope,
        Request::Summary,
        Request::Body,
        Request::Breaking,
        Request::Footer,
    ];
    let replies = full_session();
    for (i, r) in replies.into_iter().enumerate() {
        assert_eq!(c.request(), order[i]);
        match c.answer(r).unwrap() {
            Progress::Next(n) => c = n,
            Progress::Done(input) => {
                assert_eq!(i, 5);
                assert_eq!(
                    input,
                    CollectedInput {
                        selected_label: flat_change_types()[1].clone(),
                        scope: Some("core".to_string()),
                        summary: "add x".to_string(),
                        body: None,
                        breaking: true,
                        footer: Some("Closes #1.".to_string()),
                    }
                );
                return;
            }
        }
    }
    panic!("session did not finish");
}

#[test]
fn cancelling_any_request_aborts_the_session() {
    for k in 0..6 {
        let mut c = Collector::new();
        let replies = full_session();
        for r in replies.into_iter().take(k) {
            c = step(c, r);
        }
        match c.answer(Reply::Cancelled("interrupted".to_string())) {
            Err(AcError::PromptCancelled(m)) => assert_eq!(m, "interrupted"),
            other => panic!("step {} gave {:?}", k, other),
        }
    }
}

#[test]
fn unknown_label_is_asked_again() {
    let c = step(Collector::new(), text("feat"));
    assert_eq!(c.request(), Request::ChangeType);
    let c = step(c, Reply::Flag(true));
    assert_eq!(c.request(), Request::ChangeType);
}

#[test]
fn empty_summary_is_asked_again() {
    let c = step(Collector::new(), text(&flat_change_types()[0]));
    let c = step(c, Reply::Skipped);
    let c = step(c, text(""));
    assert_eq!(c.request(), Request::Summary);
    let c = step(c, Reply::Skipped);
    assert_eq!(c.request(), Request::Summary);
    let c = step(c, text("null check"));
    assert_eq!(c.request(), Request::Body);
    assert_eq!(c.summary, "null check");
}

#[test]
fn skips_and_empty_texts_give_no_value() {
    let c = step(Collector::new(), text(&flat_change_types()[2]));
    let c = step(c, text(""));
    assert_eq!(c.scope, None);
    let c = step(c, text("s"));
    let c = step(c, text("multi\nline"));
    assert_eq!(c.body, Some("multi\nline".to_string()));
    let c = step(c, Reply::Skipped);
    assert!(!c.breaking);
    assert_eq!(c.request(), Request::Footer);
    match c.answer(Reply::Skipped).unwrap() {
        Progress::Done(input) => assert_eq!(input.footer, None),
        other => panic!("unexpected {:?}", other),
    }
}
