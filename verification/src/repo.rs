//! The state of a repository as the dispatcher sees it: its root and whether
//! it holds one package or many.

use vstd::prelude::*;

verus! {

/// Whether the root governs a single package or a workspace of many.
#[derive(Debug, Clone, Copy, PartialEq, Eq, Structural)]
pub enum RepoMode {
    SinglePackage,
    MultiPackage,
}

/// The repository that a command applies to.
#[derive(Debug, Clone, PartialEq, Eq)]
pub struct RepoState {
    /// The root directory.
    pub root: String,
    pub mode: RepoMode,
}

/// The mathematical form of [`RepoState`].
pub struct RepoStateView {
    pub root: Seq<char>,
    pub mode: RepoMode,
}

impl View for RepoState {
    type V = RepoStateView;

    open spec fn view(&self) -> RepoStateView {
        RepoStateView { root: self.root@, mode: self.mode }
    }
}

/// Why no repository could be made out.
#[derive(Debug, Clone, Copy, PartialEq, Eq, Structural)]
pub enum InferError {
    /// Neither a project marker nor a package descriptor lies in the
    /// directory or in any of its ancestors.
    NoProjectFound,
}

impl InferError {
    /// The text shown to the user for this error.
    pub fn message(&self) -> (text: String)
        ensures
            text@ == "Unable to find `turbo.json` or `package.json` in current path"@,
    {
        "Unable to find `turbo.json` or `package.json` in current path".to_owned()
    }
}

/// The view of an inference result.
pub open spec fn inferred_view(r: Result<RepoState, InferError>) -> Result<
    RepoStateView,
    InferError,
> {
    match r {
        Ok(repo) => Ok(repo@),
        Err(e) => Err(e),
    }
}

} // verus!
