use vstd::prelude::*;

use crate::error::AcError;
use crate::message::{first_sep, make_commit_message, CollectedInput};

verus! {

#[verifier::external_type_specification]
#[verifier::external_body]
pub struct ExRepository(git2::Repository);

#[verifier::external_type_specification]
#[verifier::external_body]
pub struct ExIndex(git2::Index);

#[verifier::external_type_specification]
#[verifier::external_body]
pub struct ExGitError(git2::Error);

#[verifier::external_type_specification]
#[verifier::external_body]
pub struct ExOid(git2::Oid);

#[verifier::external_type_specification]
#[verifier::external_body]
pub struct ExSignature<'a>(git2::Signature<'a>);

#[verifier::external_type_specification]
#[verifier::external_body]
pub struct ExTree<'repo>(git2::Tree<'repo>);

#[verifier::external_type_specification]
#[verifier::external_body]
pub struct ExCommit<'repo>(git2::Commit<'repo>);

#[verifier::external_type_specification]
#[verifier::external_body]
pub struct ExReference<'repo>(git2::Reference<'repo>);

/// Relies on git2::Repository::index: opens the repository's staging area.
#[verifier::external_body]
fn open_index(repo: &git2::Repository) -> Result<git2::Index, git2::Error> {
    repo.index()
}

/// Relies on git2::Index::add_all: stages every working-directory change that
/// `pathspec` matches, with the default options and no callback.
#[verifier::external_body]
fn add_matching(index: &mut git2::Index, pathspec: &str) -> Result<(), git2::Error> {
    index.add_all([pathspec].iter(), git2::IndexAddOption::DEFAULT, None)
}

/// Relies on git2::Index::write: saves the staging area to disk.
#[verifier::external_body]
fn write_index(index: &mut git2::Index) -> Result<(), git2::Error> {
    index.write()
}

/// Relies on git2::Index::write_tree: snapshots the staging area as a tree object.
#[verifier::external_body]
fn write_tree(index: &mut git2::Index) -> Result<git2::Oid, git2::Error> {
    index.write_tree()
}

/// Relies on git2::Repository::find_tree: looks a tree object up by id.
#[verifier::external_body]
fn find_tree<'r>(repo: &'r git2::Repository, id: git2::Oid) -> Result<git2::Tree<'r>, git2::Error> {
    repo.find_tree(id)
}

/// Relies on git2::Repository::signature: the configured identity, stamped now;
/// fails when user.name or user.email is unset.
#[verifier::external_body]
fn signature(repo: &git2::Repository) -> Result<git2::Signature<'static>, git2::Error> {
    repo.signature()
}

/// Relies on git2::Repository::head: the reference HEAD resolves to; fails with
/// the unborn-branch code when the branch has no commit yet.
#[verifier::external_body]
fn head<'r>(repo: &'r git2::Repository) -> Result<git2::Reference<'r>, git2::Error> {
    repo.head()
}

/// Relies on git2::Reference::peel_to_commit: the commit a reference leads to.
#[verifier::external_body]
fn peel_to_commit<'r>(reference: &git2::Reference<'r>) -> Result<git2::Commit<'r>, git2::Error> {
    reference.peel_to_commit()
}

/// Relies on git2::Repository::commit: writes a commit object with these
/// parents and moves `update_ref` to it.
#[verifier::external_body]
fn write_commit<'r>(
    repo: &'r git2::Repository,
    update_ref: &str,
    author: &git2::Signature<'static>,
    committer: &git2::Signature<'static>,
    message: &str,
    tree: &git2::Tree<'r>,
    parents: &Vec<git2::Commit<'r>>,
) -> Result<git2::Oid, git2::Error> {
    let refs: Vec<&git2::Commit<'r>> = parents.iter().collect();
    repo.commit(Some(update_ref), author, committer, message, tree, &refs)
}

/// Relies on git2::Error::code: whether the failure is the unborn-branch code.
#[verifier::external_body]
fn is_unborn_branch(e: &git2::Error) -> bool {
    e.code() == git2::ErrorCode::UnbornBranch
}

/// Relies on git2::Error::message: the failure's text.
#[verifier::external_body]
fn error_message(e: &git2::Error) -> String {
    e.message().to_string()
}

/// What reading the current branch tip found.
#[derive(Debug)]
pub enum HeadLookup<C> {
    /// The branch points at this commit.
    Tip(C),
    /// The branch has no commit yet.
    NoParentCommit,
    /// The tip could not be read; the text says why.
    Failed(String),
}

/// The parents of the next commit: the tip, or none on an unborn branch.
pub fn parents_from_head<C>(head: HeadLookup<C>) -> (r: Result<Vec<C>, AcError>)
    ensures
        match head {
            HeadLookup::Tip(c) => r matches Ok(v) && v@ == seq![c],
            HeadLookup::NoParentCommit => r matches Ok(v) && v@.len() == 0,
            HeadLookup::Failed(m) => r == Err::<Vec<C>, AcError>(
                AcError::RepositoryAccessFailure(m),
            ),
        },
{
    match head {
        HeadLookup::Tip(c) => {
            let mut v: Vec<C> = Vec::new();
            v.push(c);
            assert(v@ =~= seq![c]);
            Ok(v)
        },
        HeadLookup::NoParentCommit => Ok(Vec::new()),
        HeadLookup::Failed(m) => Err(AcError::RepositoryAccessFailure(m)),
    }
}

/// A repository failure as the library reports it.
fn repo_failure(e: git2::Error) -> (r: AcError)
    ensures
        r is RepositoryAccessFailure,
{
    AcError::RepositoryAccessFailure(error_message(&e))
}

/// Reads the current branch tip; an unborn branch is not a failure.
fn lookup_head<'r>(repo: &'r git2::Repository) -> HeadLookup<git2::Commit<'r>> {
    match head(repo) {
        Ok(reference) => match peel_to_commit(&reference) {
            Ok(c) => HeadLookup::Tip(c),
            Err(e) => HeadLookup::Failed(error_message(&e)),
        },
        Err(e) => {
            if is_unborn_branch(&e) {
                HeadLookup::NoParentCommit
            } else {
                HeadLookup::Failed(error_message(&e))
            }
        },
    }
}

/// Stages every change under the working directory and saves the staging
/// area. With nothing changed it stages nothing and succeeds.
pub fn add(repo: &git2::Repository) -> (r: Result<(), AcError>)
    ensures
        r matches Err(e) ==> e is RepositoryAccessFailure,
{
    let mut index = match open_index(repo) {
        Ok(i) => i,
        Err(e) => return Err(repo_failure(e)),
    };
    if let Err(e) = add_matching(&mut index, ".") {
        return Err(repo_failure(e));
    }
    match write_index(&mut index) {
        Ok(()) => Ok(()),
        Err(e) => Err(repo_failure(e)),
    }
}

/// Formats `input` and commits the staged snapshot with that message on the
/// current branch, author and committer being the configured identity. The
/// new commit's parent is the branch tip, or there is none when the branch has
/// no commit yet; the branch is moved to the new commit, whose id is returned.
///
/// A label without a separator fails with `MalformedLabel` before the
/// repository is touched; the identity is read before anything is written.
pub fn commit(repo: &git2::Repository, input: CollectedInput) -> (r: Result<git2::Oid, AcError>)
    ensures
        first_sep(input.selected_label@) < 0 ==> r == Err::<git2::Oid, AcError>(
            AcError::MalformedLabel(input.selected_label),
        ),
        first_sep(input.selected_label@) >= 0 ==> (r matches Err(e)
            ==> e is RepositoryAccessFailure),
{
    let message = match make_commit_message(input) {
        Ok(m) => m,
        Err(e) => return Err(e),
    };
    let sig = match signature(repo) {
        Ok(s) => s,
        Err(e) => return Err(repo_failure(e)),
    };
    let parents = match parents_from_head(lookup_head(repo)) {
        Ok(p) => p,
        Err(e) => return Err(e),
    };
    let mut index = match open_index(repo) {
        Ok(i) => i,
        Err(e) => return Err(repo_failure(e)),
    };
    let tree_id = match write_tree(&mut index) {
        Ok(id) => id,
        Err(e) => return Err(repo_failure(e)),
    };
    let tree = match find_tree(repo, tree_id) {
        Ok(t) => t,
        Err(e) => return Err(repo_failure(e)),
    };
    match write_commit(repo, "HEAD", &sig, &sig, message.as_str(), &tree, &parents) {
        Ok(id) => Ok(id),
        Err(e) => Err(repo_failure(e)),
    }
}

} // verus!
