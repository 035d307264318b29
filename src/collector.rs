use vstd::prelude::*;

use crate::catalog::{flat_change_types, labels};
use crate::error::AcError;
use crate::message::CollectedInput;

verus! {

/// The six requests of a session, in the order they are made.
#[derive(Debug, Clone, Copy, PartialEq, Eq, Structural)]
pub enum Request {
    /// Pick one catalog label.
    ChangeType,
    /// Optional free text.
    Scope,
    /// Required, non-empty free text.
    Summary,
    /// Optional free text, newlines kept.
    Body,
    /// Yes or no; accepting the default means no.
    Breaking,
    /// Optional free text.
    Footer,
}

/// What the terminal handed back for a request.
#[derive(Debug)]
pub enum Reply {
    /// The user aborted the request; the text says how.
    Cancelled(String),
    /// The user skipped an optional request, or accepted a default.
    Skipped,
    /// A text, or the chosen label.
    Text(String),
    /// A yes-or-no answer.
    Flag(bool),
}

/// A session in progress: the request to make next and the answers so far.
#[derive(Debug)]
pub struct Collector {
    pub step: Request,
    pub selected_label: String,
    pub scope: Option<String>,
    pub summary: String,
    pub body: Option<String>,
    pub breaking: bool,
}

/// Where a session stands after a reply.
#[derive(Debug)]
pub enum Progress {
    /// More requests to make (the same one again if the reply did not fit).
    Next(Collector),
    /// All six answers are in.
    Done(CollectedInput),
}

/// An optional text as a reply gives it: `Some(None)` for a skip or an empty
/// text, `Some(Some(s))` for a text, `None` for a reply that does not fit.
pub open spec fn optional_text(reply: Reply) -> Option<Option<String>> {
    match reply {
        Reply::Skipped => Some(None),
        Reply::Text(s) => if s@.len() == 0 {
            Some(None)
        } else {
            Some(Some(s))
        },
        _ => None,
    }
}

/// The state a reply leads to from `c`.
pub open spec fn answer_spec(c: Collector, reply: Reply) -> Result<Progress, AcError> {
    match reply {
        Reply::Cancelled(m) => Err(AcError::PromptCancelled(m)),
        _ => Ok(
            match c.step {
                Request::ChangeType => match reply {
                    Reply::Text(s) => if labels().contains(s@) {
                        Progress::Next(Collector { step: Request::Scope, selected_label: s, ..c })
                    } else {
                        Progress::Next(c)
                    },
                    _ => Progress::Next(c),
                },
                Request::Scope => match optional_text(reply) {
                    Some(v) => Progress::Next(Collector { step: Request::Summary, scope: v, ..c }),
                    None => Progress::Next(c),
                },
                Request::Summary => match reply {
                    Reply::Text(s) => if s@.len() > 0 {
                        Progress::Next(Collector { step: Request::Body, summary: s, ..c })
                    } else {
                        Progress::Next(c)
                    },
                    _ => Progress::Next(c),
                },
                Request::Body => match optional_text(reply) {
                    Some(v) => Progress::Next(Collector { step: Request::Breaking, body: v, ..c }),
                    None => Progress::Next(c),
                },
                Request::Breaking => match reply {
                    Reply::Flag(b) => Progress::Next(
                        Collector { step: Request::Footer, breaking: b, ..c },
                    ),
                    Reply::Skipped => Progress::Next(
                        Collector { step: Request::Footer, breaking: false, ..c },
                    ),
                    _ => Progress::Next(c),
                },
                Request::Footer => match optional_text(reply) {
                    Some(v) => Progress::Done(
                        CollectedInput {
                            selected_label: c.selected_label,
                            scope: c.scope,
                            summary: c.summary,
                            body: c.body,
                            breaking: c.breaking,
                            footer: v,
                        },
                    ),
                    None => Progress::Next(c),
                },
            },
        ),
    }
}

/// A session from `c` fed `replies` in turn; it stops at the first reply that
/// finishes or aborts it.
pub open spec fn drive(c: Collector, replies: Seq<Reply>) -> Result<Progress, AcError>
    decreases replies.len(),
{
    if replies.len() == 0 {
        Ok(Progress::Next(c))
    } else {
        match answer_spec(c, replies[0]) {
            Ok(Progress::Next(n)) => drive(n, replies.drop_first()),
            other => other,
        }
    }
}

/// Whether `s` is one of the catalog's labels.
fn is_catalog_label(s: &String) -> (r: bool)
    ensures
        r == labels().contains(s@),
{
    let ls = flat_change_types();
    let mut i: usize = 0;
    while i < ls.len()
        invariant
            i <= ls@.len(),
            ls@.len() == labels().len(),
            forall|k: int| 0 <= k < ls@.len() ==> (#[trigger] ls@[k])@ == labels()[k],
            forall|k: int| 0 <= k < i ==> labels()[k] != s@,
        decreases ls@.len() - i,
    {
        if ls[i] == *s {
            assert(labels()[i as int] == s@);
            return true;
        }
        i = i + 1;
    }
    proof {
        if labels().contains(s@) {
            let k = choose|k: int| 0 <= k < labels().len() && labels()[k] == s@;
            assert(labels()[k] == s@);
        }
    }
    false
}

/// An optional text from a reply, as `optional_text` says.
fn take_optional(reply: Reply) -> (r: Option<Option<String>>)
    ensures
        r == optional_text(reply),
{
    match reply {
        Reply::Skipped => Some(None),
        Reply::Text(s) => {
            if s.as_str().unicode_len() == 0 {
                Some(None)
            } else {
                Some(Some(s))
            }
        },
        _ => None,
    }
}

impl Collector {
    /// A fresh session, about to ask for the change type.
    pub fn new() -> (r: Collector)
        ensures
            r.step == Request::ChangeType,
            r.selected_label@.len() == 0,
            r.scope is None,
            r.summary@.len() == 0,
            r.body is None,
            !r.breaking,
    {
        Collector {
            step: Request::ChangeType,
            selected_label: String::new(),
            scope: None,
            summary: String::new(),
            body: None,
            breaking: false,
        }
    }

    /// The request to make next.
    pub fn request(&self) -> (r: Request)
        ensures
            r == self.step,
    {
        self.step
    }

    /// Takes the reply to the current request. A cancellation ends the session
    /// with `PromptCancelled`; a reply that does not fit the request leaves the
    /// session where it was; the reply to the footer request finishes it.
    pub fn answer(self, reply: Reply) -> (r: Result<Progress, AcError>)
        ensures
            r == answer_spec(self, reply),
    {
        if let Reply::Cancelled(m) = reply {
            return Err(AcError::PromptCancelled(m));
        }
        let ghost c = self;
        let ghost rep = reply;
        let next = match self.step {
            Request::ChangeType => match reply {
                Reply::Text(s) => {
                    if is_catalog_label(&s) {
                        Progress::Next(Collector { step: Request::Scope, selected_label: s, ..self })
                    } else {
                        Progress::Next(self)
                    }
                },
                _ => Progress::Next(self),
            },
            Request::Scope => match take_optional(reply) {
                Some(v) => Progress::Next(Collector { step: Request::Summary, scope: v, ..self }),
                None => Progress::Next(self),
            },
            Request::Summary => match reply {
                Reply::Text(s) => {
                    if s.as_str().unicode_len() > 0 {
                        Progress::Next(Collector { step: Request::Body, summary: s, ..self })
                    } else {
                        Progress::Next(self)
                    }
                },
                _ => Progress::Next(self),
            },
            Request::Body => match take_optional(reply) {
                Some(v) => Progress::Next(Collector { step: Request::Breaking, body: v, ..self }),
                None => Progress::Next(self),
            },
            Request::Breaking => match reply {
                Reply::Flag(b) => Progress::Next(
                    Collector { step: Request::Footer, breaking: b, ..self },
                ),
                Reply::Skipped => Progress::Next(
                    Collector { step: Request::Footer, breaking: false, ..self },
                ),
                _ => Progress::Next(self),
            },
            Request::Footer => match take_optional(reply) {
                Some(v) => Progress::Done(
                    CollectedInput {
                        selected_label: self.selected_label,
                        scope: self.scope,
                        summary: self.summary,
                        body: self.body,
                        breaking: self.breaking,
                        footer: v,
                    },
                ),
                None => Progress::Next(self),
            },
        };
        assert(Ok::<Progress, AcError>(next) == answer_spec(c, rep));
        Ok(next)
    }
}

/// A cancellation ends a session before it yields any input: if the replies
/// before the first cancelled one have not finished the session, the whole
/// run ends in `PromptCancelled`, carrying that reply's text.
pub proof fn law_cancel_aborts(c: Collector, replies: Seq<Reply>, k: int)
    requires
        0 <= k < replies.len(),
        replies[k] is Cancelled,
        drive(c, replies.take(k)) matches Ok(Progress::Next(_)),
    ensures
        drive(c, replies) == Err::<Progress, AcError>(
            AcError::PromptCancelled(replies[k]->Cancelled_0),
        ),
    decreases k,
{
    if k > 0 {
        let head = replies.take(k);
        assert(head[0] == replies[0]);
        match answer_spec(c, replies[0]) {
            Ok(Progress::Next(n)) => {
                assert(head.drop_first() =~= replies.drop_first().take(k - 1));
                law_cancel_aborts(n, replies.drop_first(), k - 1);
            },
            _ => {},
        }
    }
}

} // verus!
