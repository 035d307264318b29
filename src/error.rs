use vstd::prelude::*;

verus! {

/// Every failure the core can report; each carries a human-readable detail.
#[derive(Debug, PartialEq, Eq)]
pub enum AcError {
    /// The working directory or another file could not be accessed.
    IoFailure(String),
    /// The repository could not be opened, read or written, or has no identity.
    RepositoryAccessFailure(String),
    /// The user aborted an interactive step.
    PromptCancelled(String),
    /// A change-type label carried no separator between slug and description.
    MalformedLabel(String),
}

} // verus!
