//! The copy of the tool installed in the repository: where it lies, whether
//! it is the running binary, and the command line it is started with.

use vstd::prelude::*;
use crate::args::{separator, skip_infer_flag, ShimArgs, ShimArgsView, Tokens};
use crate::paths::{join_path, joined};
use crate::repo::{RepoMode, RepoState, RepoStateView};
use crate::text::{lemma_texts_add, lemma_texts_push, text_is, texts_of};
use crate::version::{gate, skip_infer_minimum, version_at_least, VersionError};

verus! {

/// The kind of platform the tool runs on, as far as file names go.
#[derive(Debug, Clone, Copy, PartialEq, Eq, Structural)]
pub enum Platform {
    Windows,
    Other,
}

/// The file name of the tool's binary.
pub open spec fn binary_name(platform: Platform) -> Seq<char> {
    match platform {
        Platform::Windows => "turbo.cmd"@,
        Platform::Other => "turbo"@,
    }
}

/// The path of the local binary of the repository rooted at `root`.
pub open spec fn local_binary(root: Seq<char>, platform: Platform) -> Seq<char> {
    joined(joined(joined(root, "node_modules"@), ".bin"@), binary_name(platform))
}

/// The path of the manifest of the tool installed in the repository rooted
/// at `root`.
pub open spec fn local_manifest(root: Seq<char>) -> Seq<char> {
    joined(joined(joined(root, "node_modules"@), "turbo"@), "package.json"@)
}

/// The flag that tells the tool that the repository holds a single package.
pub open spec fn single_package_flag() -> Seq<char> {
    "--single-package"@
}

/// What was found at the path of the local binary.
#[derive(Debug, Clone, PartialEq, Eq)]
pub enum LocalBinary {
    /// Nothing lies there.
    Missing,
    /// A file lies there.
    Found {
        /// Its canonical path.
        canonical: String,
        /// The canonical path of the running binary.
        running: String,
    },
}

/// The mathematical form of [`LocalBinary`].
pub enum LocalBinaryView {
    Missing,
    Found { canonical: Seq<char>, running: Seq<char> },
}

impl View for LocalBinary {
    type V = LocalBinaryView;

    open spec fn view(&self) -> LocalBinaryView {
        match *self {
            LocalBinary::Missing => LocalBinaryView::Missing,
            LocalBinary::Found { canonical, running } => LocalBinaryView::Found {
                canonical: canonical@,
                running: running@,
            },
        }
    }
}

impl LocalBinaryView {
    /// The running binary is the one to go on with: there is no local
    /// binary, or the local binary is the running one.
    pub open spec fn keeps_current(self) -> bool {
        match self {
            LocalBinaryView::Missing => true,
            LocalBinaryView::Found { canonical, running } => canonical == running,
        }
    }
}

/// A process to start.
#[derive(Debug, Clone, PartialEq, Eq)]
pub struct Command {
    /// The binary.
    pub program: String,
    /// Its arguments.
    pub args: Vec<String>,
    /// Its working directory.
    pub cwd: String,
}

/// The mathematical form of [`Command`].
pub struct CommandView {
    pub program: Seq<char>,
    pub args: Tokens,
    pub cwd: Seq<char>,
}

impl View for Command {
    type V = CommandView;

    open spec fn view(&self) -> CommandView {
        CommandView { program: self.program@, args: texts_of(self.args@), cwd: self.cwd@ }
    }
}

/// The arguments that the local binary is started with: the skip flag where
/// it understands it; the dispatcher's arguments as given; the
/// single-package flag where the repository holds a single package and the
/// flag is not among them already; the separator; the forwarded arguments as
/// given.
pub open spec fn child_args(mode: RepoMode, args: ShimArgsView, supports_skip_infer: bool) -> Tokens {
    let skip = if supports_skip_infer {
        seq![skip_infer_flag()]
    } else {
        Seq::empty()
    };
    let single = if mode == RepoMode::SinglePackage && !args.remaining_turbo_args.contains(
        single_package_flag(),
    ) {
        seq![single_package_flag()]
    } else {
        Seq::empty()
    };
    skip + args.remaining_turbo_args + single + seq![separator()] + args.forwarded_args
}

/// The command that starts the local binary `program` in the repository
/// `repo`, whose root has the canonical path `root`.
pub open spec fn child_command(
    repo: RepoStateView,
    program: Seq<char>,
    args: ShimArgsView,
    root: Seq<char>,
    supports_skip_infer: bool,
) -> CommandView {
    CommandView { program, args: child_args(repo.mode, args, supports_skip_infer), cwd: root }
}

/// The exit code of the dispatcher after the local binary has run: the
/// child's, or 2 where the child left none.
pub open spec fn exit_code_of(child: Option<i32>) -> i32 {
    match child {
        Some(code) => code,
        None => 2,
    }
}

/// The exit code of the dispatcher after the local binary has run.
pub fn exit_code(child: Option<i32>) -> (code: i32)
    ensures
        code == exit_code_of(child),
{
    match child {
        Some(code) => code,
        None => 2,
    }
}

/// Whether the running binary is the one to go on with.
pub fn should_run_current_turbo(local: &LocalBinary) -> (yes: bool)
    ensures
        yes == local@.keeps_current(),
{
    match local {
        LocalBinary::Missing => true,
        LocalBinary::Found { canonical, running } => *canonical == *running,
    }
}

fn has_token(tokens: &Vec<String>, literal: &str) -> (yes: bool)
    ensures
        yes == texts_of(tokens@).contains(literal@),
{
    let mut i: usize = 0;
    while i < tokens.len()
        invariant
            i <= tokens.len(),
            forall|j: int| 0 <= j < i ==> #[trigger] texts_of(tokens@)[j] != literal@,
        decreases tokens.len() - i,
    {
        if text_is(&tokens[i], literal) {
            assert(texts_of(tokens@)[i as int] == literal@);
            return true;
        }
        i += 1;
    }
    false
}

impl RepoState {
    /// The path at which the repository's own copy of the tool would lie.
    pub fn local_turbo_path(&self, platform: Platform) -> (path: String)
        ensures
            path@ == local_binary(self@.root, platform),
    {
        let modules = join_path(self.root.as_str(), "node_modules");
        let bin = join_path(modules.as_str(), ".bin");
        match platform {
            Platform::Windows => join_path(bin.as_str(), "turbo.cmd"),
            Platform::Other => join_path(bin.as_str(), "turbo"),
        }
    }

    /// The path of the manifest that declares the version of the
    /// repository's own copy of the tool.
    pub fn local_turbo_manifest(&self) -> (path: String)
        ensures
            path@ == local_manifest(self@.root),
    {
        let modules = join_path(self.root.as_str(), "node_modules");
        let package = join_path(modules.as_str(), "turbo");
        join_path(package.as_str(), "package.json")
    }

    /// Whether the local copy of the tool, whose manifest declares
    /// `version`, understands the skip flag: whether that version is at
    /// least `1.7.0-canary.0` in precedence.
    pub fn local_turbo_supports_skip_infer(version: &str) -> (r: Result<bool, VersionError>)
        ensures
            r == gate(skip_infer_minimum(), version@),
    {
        version_at_least("1.7.0-canary.0", version)
    }

    /// The command that hands the invocation over to the local binary at
    /// `local_turbo_path`, to run in `root`, the canonical path of the
    /// repository's root.
    pub fn spawn_local_turbo(
        &self,
        local_turbo_path: String,
        shim_args: ShimArgs,
        root: String,
        supports_skip_infer: bool,
    ) -> (command: Command)
        ensures
            command@ == child_command(
                self@,
                local_turbo_path@,
                shim_args@,
                root@,
                supports_skip_infer,
            ),
    {
        let mut shim_args = shim_args;
        let ghost given = shim_args@;
        let mut raw_args: Vec<String> = Vec::new();
        assert(texts_of(raw_args@) =~= Seq::<Seq<char>>::empty());
        if supports_skip_infer {
            let flag = "--skip-infer".to_owned();
            proof {
                lemma_texts_push(raw_args@, flag);
            }
            raw_args.push(flag);
        }
        let has_single_package_flag = has_token(&shim_args.remaining_turbo_args, "--single-package");
        proof {
            lemma_texts_add(raw_args@, shim_args.remaining_turbo_args@);
        }
        raw_args.append(&mut shim_args.remaining_turbo_args);
        if self.mode == RepoMode::SinglePackage && !has_single_package_flag {
            let flag = "--single-package".to_owned();
            proof {
                lemma_texts_push(raw_args@, flag);
            }
            raw_args.push(flag);
        }
        let sep = "--".to_owned();
        proof {
            lemma_texts_push(raw_args@, sep);
            lemma_texts_add(raw_args@.push(sep), shim_args.forwarded_args@);
        }
        raw_args.push(sep);
        raw_args.append(&mut shim_args.forwarded_args);
        assert(texts_of(raw_args@) =~= child_args(self.mode, given, supports_skip_infer));
        Command { program: local_turbo_path, args: raw_args, cwd: root }
    }
}

} // verus!
