//! Inference of the repository from findings, and why the walk, answered
//! truthfully, arrives at the same repository.

use vstd::prelude::*;
use crate::locate::{
    by_descriptor, by_marker, findings_of, infer_from, lemma_closest, rooted_at, with_descriptor,
    with_marker, workspace_roots, DirFacts, DirFactsView, Findings, PackageManager,
};
use crate::repo::{inferred_view, InferError, RepoMode, RepoState, RepoStateView};
use crate::text::texts_of;
use crate::walk::{begun, Phase, Probe, Step, StepView, Walk, WalkView};

verus! {

/// The paths of the findings, in order.
pub open spec fn paths_of(dirs: Findings) -> Seq<Seq<char>> {
    Seq::new(dirs.len(), |i: int| dirs[i].path)
}

/// The true answer to a question about a directory.
pub open spec fn truth(dir: DirFactsView, probe: Probe) -> bool {
    match probe {
        Probe::Marker => dir.has_marker,
        Probe::Descriptor => dir.has_descriptor,
        Probe::Workspace(PackageManager::Pnpm) => dir.pnpm_workspace,
        Probe::Workspace(PackageManager::Npm) => dir.npm_workspace,
    }
}

/// Whether a workspace will be found declared in a directory when `manager`
/// is the next to be asked, every manager before it having said no.
pub open spec fn workspace_left(dir: DirFactsView, manager: PackageManager) -> bool {
    match manager {
        PackageManager::Pnpm => dir.is_workspace(),
        PackageManager::Npm => dir.npm_workspace,
    }
}

/// What a pending walk arrives at if every answer from now on is the truth
/// about `dirs`.
pub open spec fn destination(w: WalkView, dirs: Findings) -> Result<RepoStateView, InferError> {
    match w.phase {
        Phase::Marker => by_marker(dirs, w.at),
        Phase::MarkerWorkspace(manager) => rooted_at(
            dirs[w.at],
            if workspace_left(dirs[w.at], manager) {
                RepoMode::MultiPackage
            } else {
                RepoMode::SinglePackage
            },
        ),
        Phase::Descriptor => by_descriptor(dirs, w.at, w.fallback),
        Phase::DescriptorWorkspace(manager) => if workspace_left(dirs[w.at], manager) {
            rooted_at(dirs[w.at], RepoMode::MultiPackage)
        } else {
            by_descriptor(dirs, w.at + 1, w.fallback)
        },
    }
}

/// What a step arrives at if every answer from now on is the truth about `dirs`.
pub open spec fn step_destination(step: StepView, dirs: Findings) -> Result<
    RepoStateView,
    InferError,
> {
    match step {
        StepView::Ask(w) => destination(w, dirs),
        StepView::Done(r) => r,
    }
}

/// A walk over the directories of the findings begins where inference from
/// the findings ends.
pub proof fn lemma_walk_begins_right(dirs: Findings)
    ensures
        step_destination(begun(paths_of(dirs)), dirs) == infer_from(dirs),
        begun(paths_of(dirs)).wf(),
{
    if dirs.len() == 0 {
        lemma_closest(dirs, with_marker(), 0);
        lemma_closest(dirs, with_descriptor(), 0);
        lemma_closest(dirs, workspace_roots(), 0);
    }
}

/// A truthful answer does not change where the walk arrives.
pub proof fn lemma_truth_keeps_destination(w: WalkView, dirs: Findings)
    requires
        w.wf(),
        w.dirs == paths_of(dirs),
    ensures
        step_destination(w.answered(truth(dirs[w.at], w.probe())), dirs) == destination(w, dirs),
{
    let at = w.at;
    lemma_closest(dirs, with_marker(), at);
    lemma_closest(dirs, with_marker(), at + 1);
    lemma_closest(dirs, with_marker(), 0);
    lemma_closest(dirs, with_descriptor(), at);
    lemma_closest(dirs, with_descriptor(), at + 1);
    lemma_closest(dirs, workspace_roots(), at);
    lemma_closest(dirs, workspace_roots(), at + 1);
    lemma_closest(dirs, with_descriptor(), 0);
    lemma_closest(dirs, workspace_roots(), 0);
}

fn true_answer(facts: &DirFacts, probe: Probe) -> (yes: bool)
    ensures
        yes == truth(facts@, probe),
{
    match probe {
        Probe::Marker => facts.has_marker,
        Probe::Descriptor => facts.has_descriptor,
        Probe::Workspace(PackageManager::Pnpm) => facts.pnpm_workspace,
        Probe::Workspace(PackageManager::Npm) => facts.npm_workspace,
    }
}

fn paths(ancestors: &Vec<DirFacts>) -> (dirs: Vec<String>)
    ensures
        texts_of(dirs@) == paths_of(findings_of(ancestors@)),
{
    let mut dirs: Vec<String> = Vec::new();
    let mut i: usize = 0;
    while i < ancestors.len()
        invariant
            i <= ancestors.len(),
            dirs@.len() == i,
            forall|j: int| 0 <= j < i ==> (#[trigger] dirs@[j])@ == ancestors@[j].path@,
        decreases ancestors.len() - i,
    {
        dirs.push(ancestors[i].path.clone());
        i += 1;
    }
    assert(texts_of(dirs@) =~= paths_of(findings_of(ancestors@)));
    dirs
}

impl RepoState {
    /// Infers the repository from what was found in a directory and its
    /// ancestors, closest first.
    ///
    /// The closest directory with the project marker is the root, in
    /// multi-package mode if it declares a workspace. Without any marker, the
    /// closest directory that holds a package descriptor and declares a
    /// workspace is the root, in multi-package mode; failing that, the closest
    /// directory with a package descriptor, in single-package mode. With
    /// neither marker nor descriptor anywhere, inference fails.
    pub fn infer(ancestors: &Vec<DirFacts>) -> (r: Result<RepoState, InferError>)
        ensures
            inferred_view(r) == infer_from(findings_of(ancestors@)),
    {
        let ghost dirs = findings_of(ancestors@);
        proof {
            lemma_walk_begins_right(dirs);
        }
        let mut step = Walk::begin(paths(ancestors));
        loop
            invariant
                dirs == findings_of(ancestors@),
                step@.wf(),
                step@ matches StepView::Ask(w) ==> w.dirs == paths_of(dirs),
                step_destination(step@, dirs) == infer_from(dirs),
            decreases step@.questions_left(),
        {
            match step {
                Step::Done(r) => {
                    return r;
                },
                Step::Ask(walk) => {
                    proof {
                        lemma_truth_keeps_destination(walk@, dirs);
                    }
                    let yes = true_answer(&ancestors[walk.position()], walk.probe());
                    step = walk.answer(yes);
                },
            }
        }
    }
}

} // verus!
