//! Locating the repository root: what is looked for in a directory and its
//! ancestors, and what the findings amount to.

use vstd::prelude::*;
use crate::repo::{InferError, RepoMode, RepoStateView};

verus! {

/// The file whose presence marks a directory as a project root.
pub open spec fn marker_file() -> Seq<char> {
    "turbo.json"@
}

/// The file that describes a single package.
pub open spec fn descriptor_file() -> Seq<char> {
    "package.json"@
}

/// The package managers whose workspace declarations are recognised, in the
/// order in which they are asked.
#[derive(Debug, Clone, Copy, PartialEq, Eq, Structural)]
pub enum PackageManager {
    Pnpm,
    Npm,
}

/// What was found in one directory.
#[derive(Debug, Clone, PartialEq, Eq)]
pub struct DirFacts {
    /// The directory.
    pub path: String,
    /// The project marker lies in it.
    pub has_marker: bool,
    /// A package descriptor lies in it.
    pub has_descriptor: bool,
    /// It declares a workspace in the way of pnpm.
    pub pnpm_workspace: bool,
    /// It declares a workspace in the way of npm.
    pub npm_workspace: bool,
}

/// The mathematical form of [`DirFacts`].
pub struct DirFactsView {
    pub path: Seq<char>,
    pub has_marker: bool,
    pub has_descriptor: bool,
    pub pnpm_workspace: bool,
    pub npm_workspace: bool,
}

impl View for DirFacts {
    type V = DirFactsView;

    open spec fn view(&self) -> DirFactsView {
        DirFactsView {
            path: self.path@,
            has_marker: self.has_marker,
            has_descriptor: self.has_descriptor,
            pnpm_workspace: self.pnpm_workspace,
            npm_workspace: self.npm_workspace,
        }
    }
}

/// The findings for a directory and its ancestors, closest first.
pub type Findings = Seq<DirFactsView>;

/// The findings that a vector of facts stands for.
pub open spec fn findings_of(v: Seq<DirFacts>) -> Findings {
    Seq::new(v.len(), |i: int| v[i]@)
}

impl DirFactsView {
    /// Some recognised package manager has a workspace declared here.
    pub open spec fn is_workspace(self) -> bool {
        self.pnpm_workspace || self.npm_workspace
    }

    /// A package descriptor lies here and a workspace is declared.
    pub open spec fn is_workspace_root(self) -> bool {
        self.has_descriptor && self.is_workspace()
    }
}

/// The directories that hold the project marker.
pub open spec fn with_marker() -> spec_fn(DirFactsView) -> bool {
    |d: DirFactsView| d.has_marker
}

/// The directories that hold a package descriptor.
pub open spec fn with_descriptor() -> spec_fn(DirFactsView) -> bool {
    |d: DirFactsView| d.has_descriptor
}

/// The directories that hold a package descriptor and declare a workspace.
pub open spec fn workspace_roots() -> spec_fn(DirFactsView) -> bool {
    |d: DirFactsView| d.is_workspace_root()
}

/// The position of the closest directory, at `from` or farther, of which
/// `wanted` holds; the number of directories if there is none.
pub open spec fn closest(dirs: Findings, wanted: spec_fn(DirFactsView) -> bool, from: int) -> int
    decreases dirs.len() - from,
{
    if from < 0 || from >= dirs.len() {
        dirs.len() as int
    } else if wanted(dirs[from]) {
        from
    } else {
        closest(dirs, wanted, from + 1)
    }
}

/// The repository rooted at `dir` in the given mode.
pub open spec fn rooted_at(dir: DirFactsView, mode: RepoMode) -> Result<RepoStateView, InferError> {
    Ok(RepoStateView { root: dir.path, mode })
}

/// The mode of a root found by its marker: only the root itself is consulted.
pub open spec fn marker_mode(dir: DirFactsView) -> RepoMode {
    if dir.is_workspace() {
        RepoMode::MultiPackage
    } else {
        RepoMode::SinglePackage
    }
}

/// What the package descriptors at `from` and farther decide, given the
/// closest descriptor met before `from`, if any: the closest workspace root
/// wins; failing that, the closest descriptor of all.
pub open spec fn by_descriptor(dirs: Findings, from: int, fallback: Option<int>) -> Result<
    RepoStateView,
    InferError,
> {
    let workspace = closest(dirs, workspace_roots(), from);
    let descriptor = closest(dirs, with_descriptor(), from);
    if workspace < dirs.len() {
        rooted_at(dirs[workspace], RepoMode::MultiPackage)
    } else if fallback is Some {
        rooted_at(dirs[fallback->Some_0], RepoMode::SinglePackage)
    } else if descriptor < dirs.len() {
        rooted_at(dirs[descriptor], RepoMode::SinglePackage)
    } else {
        Err(InferError::NoProjectFound)
    }
}

/// What the markers at `from` and farther decide: the closest one is the
/// root; where there is none, the package descriptors decide.
pub open spec fn by_marker(dirs: Findings, from: int) -> Result<RepoStateView, InferError> {
    let marker = closest(dirs, with_marker(), from);
    if marker < dirs.len() {
        rooted_at(dirs[marker], marker_mode(dirs[marker]))
    } else {
        by_descriptor(dirs, 0, None)
    }
}

/// The repository that the findings for a directory and its ancestors,
/// closest first, amount to.
pub open spec fn infer_from(dirs: Findings) -> Result<RepoStateView, InferError> {
    by_marker(dirs, 0)
}

/// `closest` gives a position at `from` or farther, before which (from
/// `from` on) `wanted` holds nowhere and at which, if it is a position of
/// the findings, it holds.
pub proof fn lemma_closest(dirs: Findings, wanted: spec_fn(DirFactsView) -> bool, from: int)
    requires
        0 <= from <= dirs.len(),
    ensures
        from <= closest(dirs, wanted, from) <= dirs.len(),
        forall|j: int| from <= j < closest(dirs, wanted, from) ==> !wanted(#[trigger] dirs[j]),
        closest(dirs, wanted, from) < dirs.len() ==> wanted(dirs[closest(dirs, wanted, from)]),
    decreases dirs.len() - from,
{
    if from < dirs.len() && !wanted(dirs[from]) {
        lemma_closest(dirs, wanted, from + 1);
    }
}

} // verus!
