//! The walk up the ancestors, one question at a time: the walk says what it
//! needs to know of which directory, the caller finds out and answers, until
//! the repository is made out or the ancestors are exhausted.

use vstd::prelude::*;
use crate::locate::{descriptor_file, marker_file, PackageManager};
use crate::paths::{ancestors, ancestors_of, join_path, joined};
use crate::repo::{InferError, RepoMode, RepoState, RepoStateView};
use crate::text::texts_of;

verus! {

/// What the walk is doing at its current directory.
#[derive(Debug, Clone, Copy, PartialEq, Eq, Structural)]
pub enum Phase {
    /// Looking for the project marker.
    Marker,
    /// The marker lies here; asking the package managers for a workspace.
    MarkerWorkspace(PackageManager),
    /// No marker anywhere; looking for a package descriptor.
    Descriptor,
    /// A descriptor lies here; asking the package managers for a workspace.
    DescriptorWorkspace(PackageManager),
}

/// A question about one directory.
#[derive(Debug, Clone, Copy, PartialEq, Eq, Structural)]
pub enum Probe {
    /// Does the project marker lie in it?
    Marker,
    /// Does a package descriptor lie in it?
    Descriptor,
    /// Does it declare a workspace in the way of this package manager?
    Workspace(PackageManager),
}

/// A walk that waits for an answer.
#[derive(Debug)]
pub struct Walk {
    dirs: Vec<String>,
    phase: Phase,
    at: usize,
    fallback: Option<usize>,
}

/// The mathematical form of [`Walk`].
pub struct WalkView {
    /// The directory the walk started in and its ancestors, closest first.
    pub dirs: Seq<Seq<char>>,
    pub phase: Phase,
    /// The position of the directory that the pending question is about.
    pub at: int,
    /// The position of the closest directory known to hold a package
    /// descriptor.
    pub fallback: Option<int>,
}

/// What comes of an answer: the next question, or the result.
#[derive(Debug)]
pub enum Step {
    Ask(Walk),
    Done(Result<RepoState, InferError>),
}

/// The mathematical form of [`Step`].
pub enum StepView {
    Ask(WalkView),
    Done(Result<RepoStateView, InferError>),
}

impl WalkView {
    /// The pending question is about one of the directories, and so is the
    /// fallback, which the walk has passed or stands at; while a workspace is
    /// asked for after a descriptor, there is a fallback.
    pub open spec fn wf(self) -> bool {
        &&& 0 <= self.at < self.dirs.len()
        &&& self.fallback matches Some(f) ==> 0 <= f <= self.at
        &&& self.fallback is Some ==> self.phase is Descriptor || self.phase is DescriptorWorkspace
        &&& self.phase is DescriptorWorkspace ==> self.fallback is Some
    }

    /// The pending question.
    pub open spec fn probe(self) -> Probe {
        match self.phase {
            Phase::Marker => Probe::Marker,
            Phase::MarkerWorkspace(manager) => Probe::Workspace(manager),
            Phase::Descriptor => Probe::Descriptor,
            Phase::DescriptorWorkspace(manager) => Probe::Workspace(manager),
        }
    }

    /// The file whose presence answers the pending question, where the
    /// question is about a file.
    pub open spec fn file(self) -> Option<Seq<char>> {
        match self.phase {
            Phase::Marker => Some(joined(self.dirs[self.at], marker_file())),
            Phase::Descriptor => Some(joined(self.dirs[self.at], descriptor_file())),
            _ => None,
        }
    }

    /// The repository rooted at the current directory.
    pub open spec fn here(self, mode: RepoMode) -> StepView {
        StepView::Done(Ok(RepoStateView { root: self.dirs[self.at], mode }))
    }

    /// What follows once the current directory is settled not to be a
    /// workspace root: the next ancestor is asked for a descriptor; after the
    /// last one the closest descriptor is the root of a single package, and
    /// without any the walk fails.
    pub open spec fn past_descriptor(self) -> StepView {
        if self.at + 1 < self.dirs.len() {
            StepView::Ask(WalkView { phase: Phase::Descriptor, at: self.at + 1, ..self })
        } else {
            match self.fallback {
                Some(f) => StepView::Done(
                    Ok(RepoStateView { root: self.dirs[f], mode: RepoMode::SinglePackage }),
                ),
                None => StepView::Done(Err(InferError::NoProjectFound)),
            }
        }
    }

    /// What follows from the answer to the pending question.
    pub open spec fn answered(self, yes: bool) -> StepView {
        match self.phase {
            Phase::Marker => if yes {
                StepView::Ask(
                    WalkView { phase: Phase::MarkerWorkspace(PackageManager::Pnpm), ..self },
                )
            } else if self.at + 1 < self.dirs.len() {
                StepView::Ask(WalkView { at: self.at + 1, ..self })
            } else {
                StepView::Ask(WalkView { phase: Phase::Descriptor, at: 0, ..self })
            },
            Phase::MarkerWorkspace(PackageManager::Pnpm) => if yes {
                self.here(RepoMode::MultiPackage)
            } else {
                StepView::Ask(
                    WalkView { phase: Phase::MarkerWorkspace(PackageManager::Npm), ..self },
                )
            },
            Phase::MarkerWorkspace(PackageManager::Npm) => if yes {
                self.here(RepoMode::MultiPackage)
            } else {
                self.here(RepoMode::SinglePackage)
            },
            Phase::Descriptor => if yes {
                StepView::Ask(
                    WalkView {
                        phase: Phase::DescriptorWorkspace(PackageManager::Pnpm),
                        fallback: if self.fallback is Some {
                            self.fallback
                        } else {
                            Some(self.at)
                        },
                        ..self
                    },
                )
            } else {
                self.past_descriptor()
            },
            Phase::DescriptorWorkspace(PackageManager::Pnpm) => if yes {
                self.here(RepoMode::MultiPackage)
            } else {
                StepView::Ask(
                    WalkView { phase: Phase::DescriptorWorkspace(PackageManager::Npm), ..self },
                )
            },
            Phase::DescriptorWorkspace(PackageManager::Npm) => if yes {
                self.here(RepoMode::MultiPackage)
            } else {
                self.past_descriptor()
            },
        }
    }

    /// An upper bound on the number of questions still to be asked, the
    /// pending one included.
    pub open spec fn questions_left(self) -> int {
        let n = self.dirs.len() as int;
        match self.phase {
            Phase::Marker => 3 * n + 3 + (n - self.at),
            Phase::MarkerWorkspace(PackageManager::Pnpm) => 2,
            Phase::MarkerWorkspace(PackageManager::Npm) => 1,
            Phase::Descriptor => 3 * (n - self.at),
            Phase::DescriptorWorkspace(PackageManager::Pnpm) => 3 * (n - self.at) - 1,
            Phase::DescriptorWorkspace(PackageManager::Npm) => 3 * (n - self.at) - 2,
        }
    }
}

/// What a walk begins with: the marker is looked for in the closest
/// directory; with no directory at all the walk fails at once.
pub open spec fn begun(dirs: Seq<Seq<char>>) -> StepView {
    if dirs.len() == 0 {
        StepView::Done(Err(InferError::NoProjectFound))
    } else {
        StepView::Ask(WalkView { dirs, phase: Phase::Marker, at: 0, fallback: None })
    }
}

impl StepView {
    /// A pending walk is well formed.
    pub open spec fn wf(self) -> bool {
        self matches StepView::Ask(w) ==> w.wf()
    }

    /// An upper bound on the number of questions still to be asked.
    pub open spec fn questions_left(self) -> int {
        match self {
            StepView::Ask(w) => w.questions_left(),
            StepView::Done(_) => 0,
        }
    }
}

impl View for Walk {
    type V = WalkView;

    closed spec fn view(&self) -> WalkView {
        WalkView {
            dirs: texts_of(self.dirs@),
            phase: self.phase,
            at: self.at as int,
            fallback: match self.fallback {
                Some(f) => Some(f as int),
                None => None,
            },
        }
    }
}

impl View for Step {
    type V = StepView;

    open spec fn view(&self) -> StepView {
        match *self {
            Step::Ask(w) => StepView::Ask(w@),
            Step::Done(Ok(repo)) => StepView::Done(Ok(repo@)),
            Step::Done(Err(e)) => StepView::Done(Err(e)),
        }
    }
}

impl Walk {
    #[verifier::type_invariant]
    spec fn well_formed(self) -> bool {
        self@.wf()
    }

    /// Begins a walk over a directory and its ancestors, closest first.
    pub fn begin(dirs: Vec<String>) -> (step: Step)
        ensures
            step@ == begun(texts_of(dirs@)),
            step@.wf(),
    {
        if dirs.len() == 0 {
            Step::Done(Err(InferError::NoProjectFound))
        } else {
            Step::Ask(Walk { dirs, phase: Phase::Marker, at: 0, fallback: None })
        }
    }

    /// Begins a walk at `current_dir`: over it and its ancestors.
    pub fn start(current_dir: &str) -> (step: Step)
        ensures
            step@ == begun(ancestors_of(current_dir@)),
            step@.wf(),
    {
        Walk::begin(ancestors(current_dir))
    }

    /// The path of the file whose presence answers the pending question;
    /// `None` where the question is about a workspace.
    pub fn file(&self) -> (path: Option<String>)
        ensures
            self@.wf(),
            crate::text::opt_text(path) == self@.file(),
    {
        proof {
            use_type_invariant(self);
        }
        match self.phase {
            Phase::Marker => Some(join_path(self.dirs[self.at].as_str(), "turbo.json")),
            Phase::Descriptor => Some(join_path(self.dirs[self.at].as_str(), "package.json")),
            _ => None,
        }
    }

    /// The pending question.
    pub fn probe(&self) -> (probe: Probe)
        ensures
            self@.wf(),
            probe == self@.probe(),
    {
        proof {
            use_type_invariant(self);
        }
        match self.phase {
            Phase::Marker => Probe::Marker,
            Phase::MarkerWorkspace(manager) => Probe::Workspace(manager),
            Phase::Descriptor => Probe::Descriptor,
            Phase::DescriptorWorkspace(manager) => Probe::Workspace(manager),
        }
    }

    /// The position, among the directories of the walk, of the one that the
    /// pending question is about.
    pub fn position(&self) -> (at: usize)
        ensures
            self@.wf(),
            at == self@.at,
    {
        proof {
            use_type_invariant(self);
        }
        self.at
    }

    /// The directory that the pending question is about.
    pub fn dir(&self) -> (dir: &String)
        ensures
            self@.wf(),
            dir@ == self@.dirs[self@.at],
    {
        proof {
            use_type_invariant(self);
        }
        &self.dirs[self.at]
    }

    fn rooted(&self, at: usize, mode: RepoMode) -> (step: Step)
        requires
            at < self.dirs.len(),
        ensures
            step@ == StepView::Done(Ok(RepoStateView { root: self@.dirs[at as int], mode })),
    {
        Step::Done(Ok(RepoState { root: self.dirs[at].clone(), mode }))
    }

    fn past_descriptor(self) -> (step: Step)
        ensures
            step@ == self@.past_descriptor(),
    {
        proof {
            use_type_invariant(&self);
        }
        if self.at < self.dirs.len() - 1 {
            Step::Ask(Walk { phase: Phase::Descriptor, at: self.at + 1, ..self })
        } else {
            match self.fallback {
                Some(f) => self.rooted(f, RepoMode::SinglePackage),
                None => Step::Done(Err(InferError::NoProjectFound)),
            }
        }
    }

    /// Takes the answer to the pending question and says what follows.
    pub fn answer(self, yes: bool) -> (step: Step)
        ensures
            self@.wf(),
            step@ == self@.answered(yes),
            step@.wf(),
            step@.questions_left() < self@.questions_left(),
    {
        proof {
            use_type_invariant(&self);
        }
        match self.phase {
            Phase::Marker => if yes {
                Step::Ask(Walk { phase: Phase::MarkerWorkspace(PackageManager::Pnpm), ..self })
            } else if self.at < self.dirs.len() - 1 {
                Step::Ask(Walk { at: self.at + 1, ..self })
            } else {
                Step::Ask(Walk { phase: Phase::Descriptor, at: 0, ..self })
            },
            Phase::MarkerWorkspace(PackageManager::Pnpm) => if yes {
                self.rooted(self.at, RepoMode::MultiPackage)
            } else {
                Step::Ask(Walk { phase: Phase::MarkerWorkspace(PackageManager::Npm), ..self })
            },
            Phase::MarkerWorkspace(PackageManager::Npm) => if yes {
                self.rooted(self.at, RepoMode::MultiPackage)
            } else {
                self.rooted(self.at, RepoMode::SinglePackage)
            },
            Phase::Descriptor => if yes {
                let fallback = if self.fallback.is_some() {
                    self.fallback
                } else {
                    Some(self.at)
                };
                Step::Ask(
                    Walk {
                        phase: Phase::DescriptorWorkspace(PackageManager::Pnpm),
                        fallback,
                        ..self
                    },
                )
            } else {
                self.past_descriptor()
            },
            Phase::DescriptorWorkspace(PackageManager::Pnpm) => if yes {
                self.rooted(self.at, RepoMode::MultiPackage)
            } else {
                Step::Ask(Walk { phase: Phase::DescriptorWorkspace(PackageManager::Npm), ..self })
            },
            Phase::DescriptorWorkspace(PackageManager::Npm) => if yes {
                self.rooted(self.at, RepoMode::MultiPackage)
            } else {
                self.past_descriptor()
            },
        }
    }
}

} // verus!
