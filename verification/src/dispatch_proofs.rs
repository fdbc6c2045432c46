//! What holds of every dispatch: when the running binary goes on, and what
//! has to have happened before a process is started.

use vstd::prelude::*;
use crate::args::ShimArgsView;
use crate::dispatch::{
    begins, resumes, runs_current, ActionView, Config, DispatchError, EventView, StateView,
};
use crate::local::LocalBinaryView;
use crate::repo::{InferError, RepoStateView};

verus! {

/// With the skip flag no inference takes place: the running binary carries
/// the command out at once, without a repository.
pub proof fn lemma_skip_flag_bypasses_inference(args: ShimArgsView, config: Config)
    requires
        args.skip_infer,
    ensures
        begins(args, config) == runs_current(None),
{
}

/// Without the skip flag inference starts from the working directory.
pub proof fn lemma_inference_starts_at_cwd(args: ShimArgsView, config: Config)
    requires
        !args.skip_infer,
    ensures
        begins(args, config) == (
            StateView::Start { args, config },
            ActionView::Infer { cwd: args.cwd },
        ),
{
}

/// Where nothing lies at the path of the local binary, the running binary
/// carries the command out, with the repository that was made out.
pub proof fn lemma_missing_binary_runs_current(repo: RepoStateView, args: ShimArgsView)
    ensures
        resumes(StateView::Inferred { repo, args }, EventView::LocalBinary(LocalBinaryView::Missing))
            == Ok::<(StateView, ActionView), DispatchError>(runs_current(Some(repo))),
{
}

/// Where the local binary is the running binary, the running binary carries
/// the command out.
pub proof fn lemma_own_binary_runs_current(
    repo: RepoStateView,
    args: ShimArgsView,
    canonical: Seq<char>,
)
    ensures
        resumes(
            StateView::Inferred { repo, args },
            EventView::LocalBinary(LocalBinaryView::Found { canonical, running: canonical }),
        ) == Ok::<(StateView, ActionView), DispatchError>(runs_current(Some(repo))),
{
}

/// Once the running binary carries the command out, the dispatch is over:
/// no event leads to a further action.
pub proof fn lemma_run_current_is_final(event: EventView)
    ensures
        resumes(StateView::RunCurrent, event) == Err::<(StateView, ActionView), DispatchError>(
            DispatchError::UnexpectedEvent,
        ),
{
}

/// A local binary takes over only after one was found that is not the
/// running binary.
pub proof fn lemma_delegation_needs_other_binary(state: StateView, event: EventView)
    requires
        !(state is DelegateLocal),
        resumes(state, event) matches Ok(turn) && turn.0 is DelegateLocal,
    ensures
        state is Inferred,
        event matches EventView::LocalBinary(LocalBinaryView::Found { canonical, running })
            && canonical != running,
{
}

/// A process is started only by a dispatch in which a local binary has taken
/// over, and only once its installation has been inspected.
pub proof fn lemma_spawn_needs_delegation(state: StateView, event: EventView)
    requires
        resumes(state, event) matches Ok(turn) && turn.1 is Spawn,
    ensures
        state matches StateView::DelegateLocal { pending: Some(_), .. },
        event is LocalInstall,
{
}

/// With a binary named by the environment, inference leads to the running
/// binary or to the diagnostic, never to a look at a local binary.
pub proof fn lemma_binary_override_never_delegates(
    args: ShimArgsView,
    config: Config,
    inferred: Result<RepoStateView, InferError>,
)
    requires
        config.binary_path_set,
    ensures
        resumes(StateView::Start { args, config }, EventView::Inference(inferred)) matches Ok(turn)
            && (turn.0 is RunCurrent || turn.0 is Failed),
{
}

/// A failed inference never ends the dispatch: a diagnostic is given, and
/// then the running binary carries the command out without a repository.
pub proof fn lemma_failed_inference_recovers(args: ShimArgsView, config: Config, error: InferError)
    requires
        !args.skip_infer,
    ensures
        resumes(StateView::Start { args, config }, EventView::Inference(Err(error))) == Ok::<
            (StateView, ActionView),
            DispatchError,
        >((StateView::Failed { error }, ActionView::Warn { error })),
        resumes(StateView::Failed { error }, EventView::Reported) == Ok::<
            (StateView, ActionView),
            DispatchError,
        >(runs_current(None)),
{
}

} // verus!
