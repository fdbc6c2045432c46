//! What holds of every inference: which directory decides, that a walk
//! answered truthfully arrives where inference from the findings does, and
//! that inference over unchanged findings repeats itself.

use vstd::prelude::*;
use crate::infer::{
    lemma_truth_keeps_destination, lemma_walk_begins_right, paths_of, step_destination, truth,
};
use crate::locate::{
    closest, findings_of, infer_from, lemma_closest, marker_mode, rooted_at, with_descriptor,
    with_marker, workspace_roots, DirFacts, DirFactsView, Findings,
};
use crate::repo::{inferred_view, InferError, RepoMode, RepoState, RepoStateView};
use crate::walk::{begun, StepView, WalkView};

verus! {

/// The closest directory of which `wanted` holds is the one before which it
/// holds nowhere.
pub proof fn lemma_closest_is(
    dirs: Findings,
    wanted: spec_fn(DirFactsView) -> bool,
    from: int,
    at: int,
)
    requires
        0 <= from <= at < dirs.len(),
        wanted(dirs[at]),
        forall|j: int| from <= j < at ==> !wanted(#[trigger] dirs[j]),
    ensures
        closest(dirs, wanted, from) == at,
    decreases at - from,
{
    if from < at {
        assert(!wanted(dirs[from]));
        lemma_closest_is(dirs, wanted, from + 1, at);
    }
}

/// Where `wanted` holds nowhere, there is no closest directory.
pub proof fn lemma_closest_none(dirs: Findings, wanted: spec_fn(DirFactsView) -> bool, from: int)
    requires
        0 <= from <= dirs.len(),
        forall|j: int| from <= j < dirs.len() ==> !wanted(#[trigger] dirs[j]),
    ensures
        closest(dirs, wanted, from) == dirs.len(),
    decreases dirs.len() - from,
{
    if from < dirs.len() {
        assert(!wanted(dirs[from]));
        lemma_closest_none(dirs, wanted, from + 1);
    }
}

/// The closest directory with the project marker is the root, whatever lies
/// closer or farther; its mode depends on that directory alone.
pub proof fn lemma_marker_decides(dirs: Findings, at: int)
    requires
        0 <= at < dirs.len(),
        dirs[at].has_marker,
        forall|j: int| 0 <= j < at ==> !(#[trigger] dirs[j]).has_marker,
    ensures
        infer_from(dirs) == rooted_at(dirs[at], marker_mode(dirs[at])),
{
    lemma_closest_is(dirs, with_marker(), 0, at);
}

/// Without a marker anywhere, the closest directory that holds a package
/// descriptor and declares a workspace is the root of a multi-package
/// repository, even where a descriptor without a workspace lies closer.
pub proof fn lemma_workspace_root_decides(dirs: Findings, at: int)
    requires
        0 <= at < dirs.len(),
        forall|j: int| 0 <= j < dirs.len() ==> !(#[trigger] dirs[j]).has_marker,
        dirs[at].is_workspace_root(),
        forall|j: int| 0 <= j < at ==> !(#[trigger] dirs[j]).is_workspace_root(),
    ensures
        infer_from(dirs) == rooted_at(dirs[at], RepoMode::MultiPackage),
{
    lemma_closest_none(dirs, with_marker(), 0);
    lemma_closest_is(dirs, workspace_roots(), 0, at);
}

/// Without a marker and without a workspace root anywhere, the closest
/// directory with a package descriptor is the root of a single package.
pub proof fn lemma_descriptor_decides(dirs: Findings, at: int)
    requires
        0 <= at < dirs.len(),
        forall|j: int| 0 <= j < dirs.len() ==> !(#[trigger] dirs[j]).has_marker,
        forall|j: int| 0 <= j < dirs.len() ==> !(#[trigger] dirs[j]).is_workspace_root(),
        dirs[at].has_descriptor,
        forall|j: int| 0 <= j < at ==> !(#[trigger] dirs[j]).has_descriptor,
    ensures
        infer_from(dirs) == rooted_at(dirs[at], RepoMode::SinglePackage),
{
    lemma_closest_none(dirs, with_marker(), 0);
    lemma_closest_none(dirs, workspace_roots(), 0);
    lemma_closest_is(dirs, with_descriptor(), 0, at);
}

/// Inference fails exactly where neither a marker nor a package descriptor
/// lies in any of the directories.
pub proof fn lemma_fails_only_on_nothing(dirs: Findings)
    ensures
        infer_from(dirs) is Err <==> forall|j: int|
            0 <= j < dirs.len() ==> !(#[trigger] dirs[j]).has_marker && !dirs[j].has_descriptor,
{
    lemma_closest(dirs, with_marker(), 0);
    lemma_closest(dirs, with_descriptor(), 0);
    lemma_closest(dirs, workspace_roots(), 0);
    let m = closest(dirs, with_marker(), 0);
    let d = closest(dirs, with_descriptor(), 0);
    if m < dirs.len() {
        assert(dirs[m].has_marker);
    } else if d < dirs.len() {
        assert(dirs[d].has_descriptor);
    } else {
        assert forall|j: int| 0 <= j < dirs.len() implies !(#[trigger] dirs[j]).has_marker
            && !dirs[j].has_descriptor by {
            assert(!with_marker()(dirs[j]));
            assert(!with_descriptor()(dirs[j]));
        }
    }
}

/// The root is one of the directories.
pub proof fn lemma_root_is_a_directory(dirs: Findings)
    ensures
        infer_from(dirs) matches Ok(repo) ==> exists|j: int|
            0 <= j < dirs.len() && (#[trigger] dirs[j]).path == repo.root,
{
    lemma_closest(dirs, with_marker(), 0);
    lemma_closest(dirs, with_descriptor(), 0);
    lemma_closest(dirs, workspace_roots(), 0);
}

/// An answer brings the walk closer to its end.
pub proof fn lemma_answer_makes_progress(w: WalkView, yes: bool)
    requires
        w.wf(),
    ensures
        w.answered(yes).wf(),
        0 <= w.answered(yes).questions_left() < w.questions_left(),
        w.answered(yes) matches StepView::Ask(next) ==> next.dirs == w.dirs,
{
}

/// Where a step ends when every pending question is answered with the truth
/// about `dirs`.
pub open spec fn walked(step: StepView, dirs: Findings) -> Result<RepoStateView, InferError>
    decreases step.questions_left(),
{
    match step {
        StepView::Done(r) => r,
        StepView::Ask(w) => if w.wf() {
            walked(w.answered(truth(dirs[w.at], w.probe())), dirs)
        } else {
            Err(InferError::NoProjectFound)
        },
    }
}

/// A walk answered truthfully ends where it is bound for.
pub proof fn lemma_walk_arrives(step: StepView, dirs: Findings)
    requires
        step.wf(),
        step matches StepView::Ask(w) ==> w.dirs == paths_of(dirs),
    ensures
        walked(step, dirs) == step_destination(step, dirs),
    decreases step.questions_left(),
{
    match step {
        StepView::Done(_) => {},
        StepView::Ask(w) => {
            let yes = truth(dirs[w.at], w.probe());
            lemma_answer_makes_progress(w, yes);
            lemma_truth_keeps_destination(w, dirs);
            lemma_walk_arrives(w.answered(yes), dirs);
        },
    }
}

/// A walk over a directory and its ancestors, answered truthfully one
/// question at a time, makes out the repository that inference from all the
/// findings at once makes out.
pub proof fn lemma_walk_infers(dirs: Findings)
    ensures
        walked(begun(paths_of(dirs)), dirs) == infer_from(dirs),
{
    lemma_walk_begins_right(dirs);
    lemma_walk_arrives(begun(paths_of(dirs)), dirs);
}

/// Inference keeps no memory: over unchanged findings a second inference
/// makes out the repository that the first one did.
pub proof fn lemma_inference_repeats(
    first_findings: Seq<DirFacts>,
    first: Result<RepoState, InferError>,
    second_findings: Seq<DirFacts>,
    second: Result<RepoState, InferError>,
)
    requires
        findings_of(first_findings) == findings_of(second_findings),
        inferred_view(first) == infer_from(findings_of(first_findings)),
        inferred_view(second) == infer_from(findings_of(second_findings)),
    ensures
        inferred_view(first) == inferred_view(second),
{
}

} // verus!
