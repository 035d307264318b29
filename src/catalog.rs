use vstd::prelude::*;

use crate::message::{first_sep, lemma_sep_from, slug_of};

verus! {

/// One conventional-commit change type: its slug and what it means.
pub struct ChangeType {
    pub slug: &'static str,
    pub desc: &'static str,
}

/// Width of the column that holds a slug and its padding in a rendered label.
pub const SLUG_WIDTH: usize = 11;

/// The change types, as (slug, description) pairs, in display order.
pub open spec fn catalog() -> Seq<(Seq<char>, Seq<char>)> {
    seq![
        ("fix"@, "Fix a bug. \"PATCH\" in SemVer"@),
        ("feat"@, "Add a feature. \"MINOR\" in SemVer"@),
        ("docs"@, "Change documentation"@),
        ("style"@, "Format the code, lint, semi-colons, white spaces, EOF, etc"@),
        ("refactor"@, "Doesn't fix a bug or add a feature"@),
        ("perf"@, "Improve performance"@),
        ("test"@, "Change tests or the test system"@),
        ("build"@, "Change the build system"@),
        ("ci"@, "Change the continuous integration system"@),
        ("chore"@, "Repetitive task"@),
    ]
}

/// `n` spaces.
pub open spec fn padding(n: int) -> Seq<char> {
    Seq::new(n as nat, |_i: int| ' ')
}

/// A rendered label: slug, `':'`, padding up to the slug column's width, description.
pub open spec fn label_of(slug: Seq<char>, desc: Seq<char>) -> Seq<char> {
    slug + seq![':'] + padding(SLUG_WIDTH - slug.len()) + desc
}

/// The rendered labels of the catalog, in display order.
pub open spec fn labels() -> Seq<Seq<char>> {
    catalog().map_values(|e: (Seq<char>, Seq<char>)| label_of(e.0, e.1))
}

/// `s` holds no separator.
pub open spec fn no_sep(s: Seq<char>) -> bool {
    forall|j: int| 0 <= j < s.len() ==> s[j] != ':'
}

/// What the catalog's literals hold: short slugs, and no separator in any text.
proof fn lemma_catalog_texts()
    ensures
        catalog().len() == 10,
        forall|i: int|
            0 <= i < catalog().len() ==> {
                &&& 0 < #[trigger] catalog()[i].0.len() <= SLUG_WIDTH
                &&& no_sep(catalog()[i].0)
                &&& no_sep(catalog()[i].1)
            },
{
    reveal_strlit("fix");
    reveal_strlit("Fix a bug. \"PATCH\" in SemVer");
    reveal_strlit("feat");
    reveal_strlit("Add a feature. \"MINOR\" in SemVer");
    reveal_strlit("docs");
    reveal_strlit("Change documentation");
    reveal_strlit("style");
    reveal_strlit("Format the code, lint, semi-colons, white spaces, EOF, etc");
    reveal_strlit("refactor");
    reveal_strlit("Doesn't fix a bug or add a feature");
    reveal_strlit("perf");
    reveal_strlit("Improve performance");
    reveal_strlit("test");
    reveal_strlit("Change tests or the test system");
    reveal_strlit("build");
    reveal_strlit("Change the build system");
    reveal_strlit("ci");
    reveal_strlit("Change the continuous integration system");
    reveal_strlit("chore");
    reveal_strlit("Repetitive task");
}

/// The catalog, as values.
pub fn change_types() -> (r: Vec<ChangeType>)
    ensures
        r@.len() == catalog().len(),
        forall|i: int|
            0 <= i < r@.len() ==> (#[trigger] r@[i]).slug@ == catalog()[i].0 && r@[i].desc@
                == catalog()[i].1,
{
    let r = vec![
        ChangeType { slug: "fix", desc: "Fix a bug. \"PATCH\" in SemVer" },
        ChangeType { slug: "feat", desc: "Add a feature. \"MINOR\" in SemVer" },
        ChangeType { slug: "docs", desc: "Change documentation" },
        ChangeType { slug: "style", desc: "Format the code, lint, semi-colons, white spaces, EOF, etc" },
        ChangeType { slug: "refactor", desc: "Doesn't fix a bug or add a feature" },
        ChangeType { slug: "perf", desc: "Improve performance" },
        ChangeType { slug: "test", desc: "Change tests or the test system" },
        ChangeType { slug: "build", desc: "Change the build system" },
        ChangeType { slug: "ci", desc: "Change the continuous integration system" },
        ChangeType { slug: "chore", desc: "Repetitive task" },
    ];
    assert(r@.len() == catalog().len());
    r
}

/// Renders one change type as its label.
fn render_label(t: &ChangeType) -> (r: String)
    requires
        t.slug@.len() <= SLUG_WIDTH,
    ensures
        r@ == label_of(t.slug@, t.desc@),
{
    proof {
        reveal_strlit(":");
        reveal_strlit(" ");
    }
    let mut r = String::from_str(t.slug);
    r.append(":");
    let pad = SLUG_WIDTH - t.slug.unicode_len();
    let mut j: usize = 0;
    while j < pad
        invariant
            j <= pad,
            r@ == t.slug@ + seq![':'] + padding(j as int),
        decreases pad - j,
    {
        proof {
            reveal_strlit(" ");
        }
        r.append(" ");
        j = j + 1;
        assert(r@ =~= t.slug@ + seq![':'] + padding(j as int));
    }
    r.append(t.desc);
    r
}

/// The catalog rendered as display labels, descriptions aligned in one column.
pub fn flat_change_types() -> (r: Vec<String>)
    ensures
        r@.len() == labels().len(),
        forall|i: int| 0 <= i < r@.len() ==> (#[trigger] r@[i])@ == labels()[i],
{
    proof {
        lemma_catalog_texts();
    }
    let types = change_types();
    let mut r: Vec<String> = Vec::new();
    let mut i: usize = 0;
    while i < types.len()
        invariant
            i <= types@.len(),
            types@.len() == catalog().len(),
            forall|k: int|
                0 <= k < types@.len() ==> (#[trigger] types@[k]).slug@ == catalog()[k].0
                    && types@[k].desc@ == catalog()[k].1,
            r@.len() == i,
            forall|k: int| 0 <= k < i ==> (#[trigger] r@[k])@ == labels()[k],
        decreases types@.len() - i,
    {
        proof {
            lemma_catalog_texts();
        }
        let label = render_label(&types[i]);
        r.push(label);
        i = i + 1;
    }
    r
}

/// A label built from separator-free texts holds exactly one separator, right
/// after the slug.
proof fn lemma_label_sep(slug: Seq<char>, desc: Seq<char>)
    requires
        slug.len() <= SLUG_WIDTH,
        no_sep(slug),
        no_sep(desc),
    ensures
        forall|j: int|
            0 <= j < label_of(slug, desc).len() ==> (#[trigger] label_of(slug, desc)[j] == ':'
                <==> j == slug.len()),
        first_sep(label_of(slug, desc)) == slug.len(),
        slug_of(label_of(slug, desc)) == slug,
{
    let l = label_of(slug, desc);
    let p = padding(SLUG_WIDTH - slug.len());
    assert forall|j: int| 0 <= j < l.len() implies (#[trigger] l[j] == ':' <==> j == slug.len()) by {
        if j < slug.len() {
            assert(l[j] == slug[j]);
        } else if j == slug.len() {
        } else if j < slug.len() + 1 + p.len() {
            assert(l[j] == p[j - slug.len() - 1]);
        } else {
            assert(l[j] == desc[j - slug.len() - 1 - p.len()]);
        }
    }
    lemma_sep_from(l, 0);
    assert(l[slug.len() as int] == ':');
    assert(slug_of(l) =~= slug);
}

/// The catalog has ten entries with distinct slugs, and every label holds
/// exactly one separator, directly after its slug, so the slug is what a label
/// yields back.
pub proof fn law_catalog()
    ensures
        catalog().len() == 10,
        labels().len() == 10,
        forall|i: int, k: int|
            0 <= i < k < catalog().len() ==> #[trigger] catalog()[i].0 != #[trigger] catalog()[k].0,
        forall|i: int, j: int|
            0 <= i < labels().len() && 0 <= j < labels()[i].len() ==> (#[trigger] labels()[i][j]
                == ':' <==> j == catalog()[i].0.len()),
        forall|i: int|
            0 <= i < labels().len() ==> #[trigger] slug_of(labels()[i]) == catalog()[i].0,
{
    lemma_catalog_texts();
    assert forall|i: int| 0 <= i < labels().len() implies {
        &&& forall|j: int|
            0 <= j < labels()[i].len() ==> (#[trigger] labels()[i][j] == ':' <==> j
                == catalog()[i].0.len())
        &&& slug_of(labels()[i]) == catalog()[i].0
    } by {
        lemma_label_sep(catalog()[i].0, catalog()[i].1);
    }
    reveal_strlit("fix");
    reveal_strlit("feat");
    reveal_strlit("docs");
    reveal_strlit("style");
    reveal_strlit("refactor");
    reveal_strlit("perf");
    reveal_strlit("test");
    reveal_strlit("build");
    reveal_strlit("ci");
    reveal_strlit("chore");
}

} // verus!
