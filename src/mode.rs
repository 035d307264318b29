use vstd::prelude::*;

verus! {

/// What an invocation asks for.
#[derive(Debug, Clone, Copy, PartialEq, Eq, Structural)]
pub enum Mode {
    /// Stage every change, then collect input and commit.
    AddAndCommit,
    /// Collect input and commit what is already staged.
    CommitOnly,
    /// Print a shell completion script; the repository is not touched.
    Completion,
}

/// The mode a subcommand name selects: `c` commits only, `completion` prints a
/// completion script, and anything else, or no subcommand, adds and commits.
pub open spec fn mode_spec(sub: Option<Seq<char>>) -> Mode {
    match sub {
        Some(s) => if s == "c"@ {
            Mode::CommitOnly
        } else if s == "completion"@ {
            Mode::Completion
        } else {
            Mode::AddAndCommit
        },
        None => Mode::AddAndCommit,
    }
}

/// Whether two texts are equal, character by character.
fn same_text(a: &str, b: &str) -> (r: bool)
    ensures
        r == (a@ == b@),
{
    let n = a.unicode_len();
    if n != b.unicode_len() {
        return false;
    }
    let mut i: usize = 0;
    while i < n
        invariant
            i <= n,
            n == a@.len(),
            n == b@.len(),
            a@.take(i as int) == b@.take(i as int),
        decreases n - i,
    {
        if a.get_char(i) != b.get_char(i) {
            assert(a@[i as int] != b@[i as int]);
            return false;
        }
        assert(a@.take(i + 1) =~= a@.take(i as int).push(a@[i as int]));
        assert(b@.take(i + 1) =~= b@.take(i as int).push(b@[i as int]));
        i = i + 1;
    }
    assert(a@ =~= a@.take(n as int));
    assert(b@ =~= b@.take(n as int));
    true
}

/// Picks the mode for the given subcommand name.
pub fn mode_for(sub: Option<&str>) -> (r: Mode)
    ensures
        r == mode_spec(
            match sub {
                Some(s) => Some(s@),
                None => None,
            },
        ),
{
    match sub {
        Some(s) => {
            if same_text(s, "c") {
                Mode::CommitOnly
            } else if same_text(s, "completion") {
                Mode::Completion
            } else {
                Mode::AddAndCommit
            }
        },
        None => Mode::AddAndCommit,
    }
}

} // verus!
