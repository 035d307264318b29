use vstd::prelude::*;

use crate::error::AcError;

verus! {

/// Everything one interactive session gathers for a commit message.
#[derive(Debug, PartialEq, Eq)]
pub struct CollectedInput {
    /// A rendered catalog label: slug, separator, padding, description.
    pub selected_label: String,
    pub scope: Option<String>,
    pub summary: String,
    pub body: Option<String>,
    pub breaking: bool,
    pub footer: Option<String>,
}

/// Position of the first `':'` in `s` at or after `i`, or -1 when there is none.
pub open spec fn sep_from(s: Seq<char>, i: int) -> int
    decreases s.len() - i,
{
    if i < 0 || i >= s.len() {
        -1
    } else if s[i] == ':' {
        i
    } else {
        sep_from(s, i + 1)
    }
}

/// Position of the first separator in `s`, or -1 when there is none.
pub open spec fn first_sep(s: Seq<char>) -> int {
    sep_from(s, 0)
}

/// The type slug of a label: everything before its first separator.
pub open spec fn slug_of(label: Seq<char>) -> Seq<char> {
    label.take(first_sep(label))
}

/// `type[!][(scope)]: summary`, then the body and the footer, each after a blank line.
pub open spec fn conventional_message(
    slug: Seq<char>,
    breaking: bool,
    scope: Option<Seq<char>>,
    summary: Seq<char>,
    body: Option<Seq<char>>,
    footer: Option<Seq<char>>,
) -> Seq<char> {
    let head = if breaking {
        slug.push('!')
    } else {
        slug
    };
    let head = match scope {
        Some(s) => head + seq!['('] + s + seq![')'],
        None => head,
    };
    let text = head + seq![':', ' '] + summary;
    let text = match body {
        Some(b) => text + seq!['\n', '\n'] + b,
        None => text,
    };
    match footer {
        Some(f) => text + seq!['\n', '\n'] + f,
        None => text,
    }
}

impl CollectedInput {
    /// The message this input formats to, when its label has a separator.
    pub open spec fn message(&self) -> Seq<char> {
        conventional_message(
            slug_of(self.selected_label@),
            self.breaking,
            self.scope.deep_view(),
            self.summary@,
            self.body.deep_view(),
            self.footer.deep_view(),
        )
    }
}

/// What `sep_from` finds: a separator with none before it, or none at all.
pub proof fn lemma_sep_from(s: Seq<char>, i: int)
    requires
        0 <= i <= s.len(),
    ensures
        -1 <= sep_from(s, i) < s.len(),
        sep_from(s, i) >= 0 ==> i <= sep_from(s, i) && s[sep_from(s, i)] == ':',
        forall|j: int|
            i <= j < s.len() && (sep_from(s, i) < 0 || j < sep_from(s, i)) ==> s[j] != ':',
    decreases s.len() - i,
{
    if i < s.len() && s[i] != ':' {
        lemma_sep_from(s, i + 1);
    }
}

/// Scans `s` for its first separator.
fn find_separator(s: &str) -> (r: Option<usize>)
    ensures
        match r {
            Some(k) => k as int == first_sep(s@),
            None => first_sep(s@) == -1,
        },
{
    let n = s.unicode_len();
    let mut i: usize = 0;
    while i < n
        invariant
            i <= n,
            n == s@.len(),
            sep_from(s@, i as int) == first_sep(s@),
        decreases n - i,
    {
        if s.get_char(i) == ':' {
            return Some(i);
        }
        i = i + 1;
    }
    None
}

/// Formats collected input as a conventional-commit message.
///
/// The slug is the label's text before its first `':'`; a label without one is
/// reported as `MalformedLabel`, carrying the label.
pub fn make_commit_message(p: CollectedInput) -> (r: Result<String, AcError>)
    ensures
        first_sep(p.selected_label@) >= 0 ==> (r matches Ok(m) && m@ == p.message()),
        first_sep(p.selected_label@) < 0 ==> r == Err::<String, AcError>(
            AcError::MalformedLabel(p.selected_label),
        ),
{
    let k = find_separator(p.selected_label.as_str());
    match k {
        None => Err(AcError::MalformedLabel(p.selected_label)),
        Some(k) => {
            proof {
                lemma_sep_from(p.selected_label@, 0);
                reveal_strlit("!");
                reveal_strlit("(");
                reveal_strlit(")");
                reveal_strlit(": ");
                reveal_strlit("\n\n");
            }
            let slug = p.selected_label.as_str().substring_char(0, k);
            let mut m = String::from_str(slug);
            let ghost head = slug@;
            if p.breaking {
                m.append("!");
            }
            let ghost head = if p.breaking { head.push('!') } else { head };
            assert(m@ == head);
            match &p.scope {
                Some(s) => {
                    m.append("(");
                    m.append(s.as_str());
                    m.append(")");
                },
                None => {},
            }
            let ghost head = match p.scope.deep_view() {
                Some(s) => head + seq!['('] + s + seq![')'],
                None => head,
            };
            assert(m@ =~= head);
            m.append(": ");
            m.append(p.summary.as_str());
            let ghost text = head + seq![':', ' '] + p.summary@;
            assert(m@ =~= text);
            match &p.body {
                Some(b) => {
                    m.append("\n\n");
                    m.append(b.as_str());
                },
                None => {},
            }
            let ghost text = match p.body.deep_view() {
                Some(b) => text + seq!['\n', '\n'] + b,
                None => text,
            };
            assert(m@ =~= text);
            match &p.footer {
                Some(f) => {
                    m.append("\n\n");
                    m.append(f.as_str());
                },
                None => {},
            }
            assert(m@ =~= p.message());
            Ok(m)
        },
    }
}

/// Body and footer each follow what comes before them after exactly one blank
/// line: the message is the header line, then `"\n\n" + body` when there is a
/// body, then `"\n\n" + footer` when there is a footer, with nothing else added.
pub proof fn law_sections_blank_line(p: CollectedInput)
    ensures
        ({
            let header = conventional_message(
                slug_of(p.selected_label@),
                p.breaking,
                p.scope.deep_view(),
                p.summary@,
                None,
                None,
            );
            let blank = seq!['\n', '\n'];
            match (p.body.deep_view(), p.footer.deep_view()) {
                (Some(b), Some(f)) => p.message() == header + blank + b + blank + f,
                (Some(b), None) => p.message() == header + blank + b,
                (None, Some(f)) => p.message() == header + blank + f,
                (None, None) => p.message() == header,
            }
        }),
{
    let blank = seq!['\n', '\n'];
    match (p.body.deep_view(), p.footer.deep_view()) {
        (Some(b), Some(f)) => {
            let header = conventional_message(
                slug_of(p.selected_label@),
                p.breaking,
                p.scope.deep_view(),
                p.summary@,
                None,
                None,
            );
            assert(p.message() =~= header + blank + b + blank + f);
        },
        _ => {},
    }
}

/// Formatting depends on the input's value alone: two inputs with the same
/// texts and flag give the same outcome, the same message or the same kind of
/// failure.
pub proof fn law_formatter_pure(a: CollectedInput, b: CollectedInput)
    requires
        a.selected_label@ == b.selected_label@,
        a.scope.deep_view() == b.scope.deep_view(),
        a.summary@ == b.summary@,
        a.body.deep_view() == b.body.deep_view(),
        a.breaking == b.breaking,
        a.footer.deep_view() == b.footer.deep_view(),
    ensures
        first_sep(a.selected_label@) == first_sep(b.selected_label@),
        a.message() == b.message(),
{
}

} // verus!
