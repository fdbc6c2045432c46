//! The dispatcher: one invocation as a sequence of states. The dispatcher
//! decides; whatever has to be found out or done outside (inference on disk,
//! a look at the local binary, starting a process) it names as an action, and
//! it goes on when told the outcome as an event.

use vstd::prelude::*;
use crate::args::{ShimArgs, ShimArgsView};
use crate::local::{
    child_command, exit_code, exit_code_of, local_binary, local_manifest, should_run_current_turbo,
    Command, CommandView, LocalBinary, LocalBinaryView, Platform,
};
use crate::repo::{InferError, RepoState, RepoStateView};
use crate::version::{gate, skip_infer_minimum, VersionError};

verus! {

/// What is read from the process's surroundings once, at startup.
#[derive(Debug, Clone, Copy, PartialEq, Eq, Structural)]
pub struct Config {
    /// The environment names a binary of its own. Inference then still
    /// takes place, but no local binary is ever started.
    pub binary_path_set: bool,
    pub platform: Platform,
}

/// Where an invocation stands.
#[derive(Debug, PartialEq, Eq)]
pub enum State {
    /// Inference is under way.
    Start { args: ShimArgs, config: Config },
    /// The repository is made out; the local binary is being looked at.
    Inferred { repo: RepoState, args: ShimArgs },
    /// The local binary `program` takes over. While arguments are pending
    /// its installation is being inspected; after that it runs.
    DelegateLocal { repo: RepoState, program: String, pending: Option<ShimArgs> },
    /// The running binary carries the command out.
    RunCurrent,
    /// Inference failed; a diagnostic is being given.
    Failed { error: InferError },
}

/// What the outside world reports back.
#[derive(Debug, PartialEq, Eq)]
pub enum Event {
    /// Inference has ended.
    Inference(Result<RepoState, InferError>),
    /// The diagnostic has been given.
    Reported,
    /// The path of the local binary has been looked at.
    LocalBinary(LocalBinary),
    /// The local installation has been inspected: `root` is the canonical
    /// path of the repository's root, `version` the version that the
    /// installed tool's manifest declares.
    LocalInstall { root: String, version: String },
    /// The local binary has run; `None` where it left no exit code.
    ChildExited(Option<i32>),
}

/// What the dispatcher needs done.
#[derive(Debug, PartialEq, Eq)]
pub enum Action {
    /// Infer the repository from `cwd`; answer with [`Event::Inference`].
    Infer { cwd: String },
    /// Tell the user that inference failed and that the command runs
    /// without a repository; answer with [`Event::Reported`].
    Warn { error: InferError },
    /// Look at `path`; answer with [`Event::LocalBinary`].
    ProbeLocalBinary { path: String },
    /// Canonicalize `root` and read the version from `manifest`; answer with
    /// [`Event::LocalInstall`].
    InspectLocalInstall { root: String, manifest: String },
    /// Start the process, let it inherit the standard streams, and wait for
    /// it; answer with [`Event::ChildExited`].
    Spawn(Command),
    /// Hand over to the execution engine of the running binary. This ends
    /// the dispatch.
    RunCurrent { repo: Option<RepoState> },
    /// Exit with `code`. This ends the dispatch.
    Exit { code: i32 },
}

/// Why a dispatch was broken off.
#[derive(Debug, Clone, Copy, PartialEq, Eq, Structural)]
pub enum DispatchError {
    /// The local installation's version could not be judged.
    Version(VersionError),
    /// The event is not the answer to what the dispatcher asked for.
    UnexpectedEvent,
}

/// The mathematical form of [`State`].
pub enum StateView {
    Start { args: ShimArgsView, config: Config },
    Inferred { repo: RepoStateView, args: ShimArgsView },
    DelegateLocal { repo: RepoStateView, program: Seq<char>, pending: Option<ShimArgsView> },
    RunCurrent,
    Failed { error: InferError },
}

/// The mathematical form of [`Event`].
pub enum EventView {
    Inference(Result<RepoStateView, InferError>),
    Reported,
    LocalBinary(LocalBinaryView),
    LocalInstall { root: Seq<char>, version: Seq<char> },
    ChildExited(Option<i32>),
}

/// The mathematical form of [`Action`].
pub enum ActionView {
    Infer { cwd: Seq<char> },
    Warn { error: InferError },
    ProbeLocalBinary { path: Seq<char> },
    InspectLocalInstall { root: Seq<char>, manifest: Seq<char> },
    Spawn(CommandView),
    RunCurrent { repo: Option<RepoStateView> },
    Exit { code: i32 },
}

impl View for State {
    type V = StateView;

    open spec fn view(&self) -> StateView {
        match *self {
            State::Start { args, config } => StateView::Start { args: args@, config },
            State::Inferred { repo, args } => StateView::Inferred { repo: repo@, args: args@ },
            State::DelegateLocal { repo, program, pending } => StateView::DelegateLocal {
                repo: repo@,
                program: program@,
                pending: match pending {
                    Some(a) => Some(a@),
                    None => None,
                },
            },
            State::RunCurrent => StateView::RunCurrent,
            State::Failed { error } => StateView::Failed { error },
        }
    }
}

impl View for Event {
    type V = EventView;

    open spec fn view(&self) -> EventView {
        match *self {
            Event::Inference(Ok(repo)) => EventView::Inference(Ok(repo@)),
            Event::Inference(Err(e)) => EventView::Inference(Err(e)),
            Event::Reported => EventView::Reported,
            Event::LocalBinary(local) => EventView::LocalBinary(local@),
            Event::LocalInstall { root, version } => EventView::LocalInstall {
                root: root@,
                version: version@,
            },
            Event::ChildExited(code) => EventView::ChildExited(code),
        }
    }
}

impl View for Action {
    type V = ActionView;

    open spec fn view(&self) -> ActionView {
        match *self {
            Action::Infer { cwd } => ActionView::Infer { cwd: cwd@ },
            Action::Warn { error } => ActionView::Warn { error },
            Action::ProbeLocalBinary { path } => ActionView::ProbeLocalBinary { path: path@ },
            Action::InspectLocalInstall { root, manifest } => ActionView::InspectLocalInstall {
                root: root@,
                manifest: manifest@,
            },
            Action::Spawn(command) => ActionView::Spawn(command@),
            Action::RunCurrent { repo: Some(r) } => ActionView::RunCurrent { repo: Some(r@) },
            Action::RunCurrent { repo: None } => ActionView::RunCurrent { repo: None },
            Action::Exit { code } => ActionView::Exit { code },
        }
    }
}

/// The running binary carries the command out, with the repository if one
/// is made out.
pub open spec fn runs_current(repo: Option<RepoStateView>) -> (StateView, ActionView) {
    (StateView::RunCurrent, ActionView::RunCurrent { repo })
}

/// How an invocation begins: with the skip flag the running binary carries
/// the command out at once, without a repository; otherwise inference starts
/// from the working directory.
pub open spec fn begins(args: ShimArgsView, config: Config) -> (StateView, ActionView) {
    if args.skip_infer {
        runs_current(None)
    } else {
        (StateView::Start { args, config }, ActionView::Infer { cwd: args.cwd })
    }
}

/// What the look at the local binary decides: without one, or where it is
/// the running binary itself, the running binary goes on; any other local
/// binary takes over, and its installation is inspected first.
pub open spec fn chooses_binary(repo: RepoStateView, args: ShimArgsView, local: LocalBinaryView) -> (
    StateView,
    ActionView,
) {
    match local {
        LocalBinaryView::Found { canonical, running } if canonical != running => (
            StateView::DelegateLocal { repo, program: canonical, pending: Some(args) },
            ActionView::InspectLocalInstall {
                root: repo.root,
                manifest: local_manifest(repo.root),
            },
        ),
        _ => runs_current(Some(repo)),
    }
}

/// How an invocation goes on when `event` arrives in `state`.
pub open spec fn resumes(state: StateView, event: EventView) -> Result<
    (StateView, ActionView),
    DispatchError,
> {
    match (state, event) {
        (StateView::Start { args, config }, EventView::Inference(inferred)) => Ok(
            if args.skip_infer {
                runs_current(None)
            } else {
                match inferred {
                    Err(error) => (StateView::Failed { error }, ActionView::Warn { error }),
                    Ok(repo) => if config.binary_path_set {
                        runs_current(Some(repo))
                    } else {
                        (
                            StateView::Inferred { repo, args },
                            ActionView::ProbeLocalBinary {
                                path: local_binary(repo.root, config.platform),
                            },
                        )
                    },
                }
            },
        ),
        (StateView::Failed { error }, EventView::Reported) => Ok(runs_current(None)),
        (StateView::Inferred { repo, args }, EventView::LocalBinary(local)) => Ok(
            chooses_binary(repo, args, local),
        ),
        (
            StateView::DelegateLocal { repo, program, pending: Some(args) },
            EventView::LocalInstall { root, version },
        ) => match gate(skip_infer_minimum(), version) {
            Err(e) => Err(DispatchError::Version(e)),
            Ok(supports_skip_infer) => Ok(
                (
                    StateView::DelegateLocal { repo, program, pending: None },
                    ActionView::Spawn(
                        child_command(repo, program, args, root, supports_skip_infer),
                    ),
                ),
            ),
        },
        (StateView::DelegateLocal { repo, program, pending: None }, EventView::ChildExited(code)) => Ok(
            (state, ActionView::Exit { code: exit_code_of(code) }),
        ),
        _ => Err(DispatchError::UnexpectedEvent),
    }
}

/// The view of a state and an action.
pub open spec fn turn_view(turn: (State, Action)) -> (StateView, ActionView) {
    (turn.0@, turn.1@)
}

/// The view of the outcome of an event.
pub open spec fn outcome_view(r: Result<(State, Action), DispatchError>) -> Result<
    (StateView, ActionView),
    DispatchError,
> {
    match r {
        Ok(turn) => Ok(turn_view(turn)),
        Err(e) => Err(e),
    }
}

impl RepoState {
    /// Decides, from what was found at the path of the local binary, which
    /// binary carries the command out.
    pub fn run_correct_turbo(self, shim_args: ShimArgs, local: LocalBinary) -> (turn: (
        State,
        Action,
    ))
        ensures
            turn_view(turn) == chooses_binary(self@, shim_args@, local@),
    {
        if should_run_current_turbo(&local) {
            (State::RunCurrent, Action::RunCurrent { repo: Some(self) })
        } else {
            match local {
                LocalBinary::Found { canonical, running: _ } => {
                    let action = Action::InspectLocalInstall {
                        root: self.root.clone(),
                        manifest: self.local_turbo_manifest(),
                    };
                    (
                        State::DelegateLocal {
                            repo: self,
                            program: canonical,
                            pending: Some(shim_args),
                        },
                        action,
                    )
                },
                LocalBinary::Missing => (
                    State::RunCurrent,
                    Action::RunCurrent { repo: Some(self) },
                ),
            }
        }
    }
}

/// Begins the dispatch of an invocation.
pub fn run(args: ShimArgs, config: Config) -> (turn: (State, Action))
    ensures
        turn_view(turn) == begins(args@, config),
{
    if args.skip_infer {
        (State::RunCurrent, Action::RunCurrent { repo: None })
    } else {
        let action = Action::Infer { cwd: args.cwd.clone() };
        (State::Start { args, config }, action)
    }
}

impl State {
    /// Goes on with the dispatch when `event` arrives.
    pub fn resume(self, event: Event) -> (r: Result<(State, Action), DispatchError>)
        ensures
            outcome_view(r) == resumes(self@, event@),
    {
        match self {
            State::Start { args, config } => match event {
                Event::Inference(inferred) => {
                    if args.skip_infer {
                        Ok((State::RunCurrent, Action::RunCurrent { repo: None }))
                    } else {
                        match inferred {
                            Err(error) => Ok((State::Failed { error }, Action::Warn { error })),
                            Ok(repo) => if config.binary_path_set {
                                Ok((State::RunCurrent, Action::RunCurrent { repo: Some(repo) }))
                            } else {
                                let path = repo.local_turbo_path(config.platform);
                                Ok(
                                    (
                                        State::Inferred { repo, args },
                                        Action::ProbeLocalBinary { path },
                                    ),
                                )
                            },
                        }
                    }
                },
                _ => Err(DispatchError::UnexpectedEvent),
            },
            State::Failed { error: _ } => match event {
                Event::Reported => Ok((State::RunCurrent, Action::RunCurrent { repo: None })),
                _ => Err(DispatchError::UnexpectedEvent),
            },
            State::Inferred { repo, args } => match event {
                Event::LocalBinary(local) => Ok(repo.run_correct_turbo(args, local)),
                _ => Err(DispatchError::UnexpectedEvent),
            },
            State::DelegateLocal { repo, program, pending: Some(args) } => match event {
                Event::LocalInstall { root, version } => {
                    match RepoState::local_turbo_supports_skip_infer(version.as_str()) {
                        Err(e) => Err(DispatchError::Version(e)),
                        Ok(supports_skip_infer) => {
                            let command = repo.spawn_local_turbo(
                                program.clone(),
                                args,
                                root,
                                supports_skip_infer,
                            );
                            Ok(
                                (
                                    State::DelegateLocal { repo, program, pending: None },
                                    Action::Spawn(command),
                                ),
                            )
                        },
                    }
                },
                _ => Err(DispatchError::UnexpectedEvent),
            },
            State::DelegateLocal { repo, program, pending: None } => match event {
                Event::ChildExited(code) => Ok(
                    (
                        State::DelegateLocal { repo, program, pending: None },
                        Action::Exit { code: exit_code(code) },
                    ),
                ),
                _ => Err(DispatchError::UnexpectedEvent),
            },
            State::RunCurrent => Err(DispatchError::UnexpectedEvent),
        }
    }
}

} // verus!
