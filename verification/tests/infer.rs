use turbo_dispatch::locate::{DirFacts, PackageManager};
use turbo_dispatch::paths::ancestors;
use turbo_dispatch::repo::{InferError, RepoMode, RepoState};
use turbo_dispatch::walk::{Probe, Step, Walk};

fn dir(path: &str) -> DirFacts {
    DirFacts {
        path: path.to_string(),
        has_marker: false,
        has_descriptor: false,
        pnpm_workspace: false,
        npm_workspace: false,
    }
}

fn repo(root: &str, mode: RepoMode) -> Result<RepoState, InferError> {
    Ok(RepoState { root: root.to_string(), mode })
}

fn pending(step: Step) -> Walk {
    match step {
        Step::Ask(walk) => walk,
        Step::Done(_) => panic!("the walk has ended"),
    }
}

/// Answers every question of a walk from `facts`, and counts the questions.
fn drive(start: &str, facts: &[DirFacts]) -> (Result<RepoState, InferError>, Vec<(String, Probe)>) {
    let mut asked = Vec::new();
    let mut step = Walk::start(start);
    loop {
        match step {
            Step::Done(r) => return (r, asked),
            Step::Ask(walk) => {
                let here = walk.dir().clone();
                let found = facts.iter().find(|d| d.path == here).cloned().unwrap_or(dir(&here));
                let probe = walk.probe();
                asked.push((here, probe));
                let yes = match probe {
                    Probe::Marker => found.has_marker,
                    Probe::Descriptor => found.has_descriptor,
                    Probe::Workspace(PackageManager::Pnpm) => found.pnpm_workspace,
                    Probe::Workspace(PackageManager::Npm) => found.npm_workspace,
                };
                step = walk.answer(yes);
            }
        }
    }
}

#[test]
fn marker_without_workspace_is_single_package() {
    let tree = vec![
        dir("/root/sub/dir"),
        dir("/root/sub"),
        DirFacts { has_marker: true, ..dir("/root") },
        dir("/"),
    ];
    assert_eq!(RepoState::infer(&tree), repo("/root", RepoMode::SinglePackage));
}

#[test]
fn marker_with_workspace_is_multi_package() {
    let npm = vec![
        dir("/root/sub/dir"),
        dir("/root/sub"),
        DirFacts { has_marker: true, has_descriptor: true, npm_workspace: true, ..dir("/root") },
        dir("/"),
    ];
    assert_eq!(RepoState::infer(&npm), repo("/root", RepoMode::MultiPackage));
    let pnpm = vec![
        dir("/root/sub/dir"),
        dir("/root/sub"),
        DirFacts { has_marker: true, pnpm_workspace: true, ..dir("/root") },
        dir("/"),
    ];
    assert_eq!(RepoState::infer(&pnpm), repo("/root", RepoMode::MultiPackage));
}

#[test]
fn closest_workspace_wins_over_farther_descriptor() {
    let tree = vec![
        dir("/root/pkgs/a/sub"),
        DirFacts { has_descriptor: true, npm_workspace: true, ..dir("/root/pkgs/a") },
        dir("/root/pkgs"),
        DirFacts { has_descriptor: true, ..dir("/root") },
        dir("/"),
    ];
    assert_eq!(RepoState::infer(&tree), repo("/root/pkgs/a", RepoMode::MultiPackage));
}

#[test]
fn farther_workspace_wins_over_closer_descriptor() {
    let tree = vec![
        dir("/root/pkgs/a/sub"),
        DirFacts { has_descriptor: true, ..dir("/root/pkgs/a") },
        dir("/root/pkgs"),
        DirFacts { has_descriptor: true, pnpm_workspace: true, ..dir("/root") },
        dir("/"),
    ];
    assert_eq!(RepoState::infer(&tree), repo("/root", RepoMode::MultiPackage));
}

#[test]
fn closest_descriptor_is_the_fallback() {
    let tree = vec![
        dir("/root/pkgs/a/sub"),
        DirFacts { has_descriptor: true, ..dir("/root/pkgs/a") },
        dir("/root/pkgs"),
        DirFacts { has_descriptor: true, ..dir("/root") },
        dir("/"),
    ];
    assert_eq!(RepoState::infer(&tree), repo("/root/pkgs/a", RepoMode::SinglePackage));
}

#[test]
fn marker_wins_over_closer_workspace() {
    let tree = vec![
        DirFacts { has_descriptor: true, npm_workspace: true, ..dir("/root/pkgs/a") },
        dir("/root/pkgs"),
        DirFacts { has_marker: true, ..dir("/root") },
        dir("/"),
    ];
    assert_eq!(RepoState::infer(&tree), repo("/root", RepoMode::SinglePackage));
}

#[test]
fn closest_marker_wins_over_farther_marker() {
    let tree = vec![
        DirFacts { has_marker: true, ..dir("/root/pkgs/a") },
        DirFacts { has_marker: true, has_descriptor: true, npm_workspace: true, ..dir("/root") },
    ];
    assert_eq!(RepoState::infer(&tree), repo("/root/pkgs/a", RepoMode::SinglePackage));
}

#[test]
fn workspace_without_descriptor_does_not_count() {
    let tree = vec![
        DirFacts { npm_workspace: true, pnpm_workspace: true, ..dir("/root/a") },
        DirFacts { has_descriptor: true, ..dir("/root") },
    ];
    assert_eq!(RepoState::infer(&tree), repo("/root", RepoMode::SinglePackage));
}

#[test]
fn nothing_found_fails() {
    let tree = vec![dir("/root/sub"), dir("/root"), dir("/")];
    assert_eq!(RepoState::infer(&tree), Err(InferError::NoProjectFound));
    assert_eq!(RepoState::infer(&Vec::new()), Err(InferError::NoProjectFound));
    let stray = vec![DirFacts { npm_workspace: true, ..dir("/root") }];
    assert_eq!(RepoState::infer(&stray), Err(InferError::NoProjectFound));
}

#[test]
fn infer_error_message() {
    assert_eq!(
        InferError::NoProjectFound.message(),
        "Unable to find `turbo.json` or `package.json` in current path"
    );
}

#[test]
fn inference_repeats_itself() {
    let tree = vec![
        dir("/root/pkgs/a/sub"),
        DirFacts { has_descriptor: true, npm_workspace: true, ..dir("/root/pkgs/a") },
        DirFacts { has_descriptor: true, ..dir("/root") },
    ];
    let first = RepoState::infer(&tree);
    let second = RepoState::infer(&tree);
    assert_eq!(first, second);
    assert_eq!(first, repo("/root/pkgs/a", RepoMode::MultiPackage));
}

#[test]
fn ancestors_are_listed_closest_first() {
    assert_eq!(
        ancestors("/root/sub/dir"),
        vec!["/root/sub/dir", "/root/sub", "/root", "/"]
    );
    assert_eq!(ancestors("a/b"), vec!["a/b", "a", ""]);
    assert_eq!(ancestors("/"), vec!["/"]);
    assert_eq!(ancestors(""), vec![""]);
}

#[test]
fn walk_agrees_with_inference_and_stops_early() {
    let facts = vec![
        dir("/root/sub/dir"),
        dir("/root/sub"),
        DirFacts { has_marker: true, ..dir("/root") },
        DirFacts { has_marker: true, npm_workspace: true, ..dir("/") },
    ];
    let (result, asked) = drive("/root/sub/dir", &facts);
    assert_eq!(result, RepoState::infer(&facts));
    assert_eq!(result, repo("/root", RepoMode::SinglePackage));
    assert_eq!(
        asked,
        vec![
            ("/root/sub/dir".to_string(), Probe::Marker),
            ("/root/sub".to_string(), Probe::Marker),
            ("/root".to_string(), Probe::Marker),
            ("/root".to_string(), Probe::Workspace(PackageManager::Pnpm)),
            ("/root".to_string(), Probe::Workspace(PackageManager::Npm)),
        ]
    );
}

#[test]
fn walk_asks_for_workspaces_only_beside_descriptors() {
    let facts = vec![
        DirFacts { npm_workspace: true, ..dir("/r/a/b") },
        DirFacts { has_descriptor: true, ..dir("/r/a") },
        DirFacts { has_descriptor: true, npm_workspace: true, ..dir("/r") },
        DirFacts { has_descriptor: true, pnpm_workspace: true, ..dir("/") },
    ];
    let (result, asked) = drive("/r/a/b", &facts);
    assert_eq!(result, repo("/r", RepoMode::MultiPackage));
    assert_eq!(result, RepoState::infer(&facts));
    assert_eq!(
        asked,
        vec![
            ("/r/a/b".to_string(), Probe::Marker),
            ("/r/a".to_string(), Probe::Marker),
            ("/r".to_string(), Probe::Marker),
            ("/".to_string(), Probe::Marker),
            ("/r/a/b".to_string(), Probe::Descriptor),
            ("/r/a".to_string(), Probe::Descriptor),
            ("/r/a".to_string(), Probe::Workspace(PackageManager::Pnpm)),
            ("/r/a".to_string(), Probe::Workspace(PackageManager::Npm)),
            ("/r".to_string(), Probe::Descriptor),
            ("/r".to_string(), Probe::Workspace(PackageManager::Pnpm)),
            ("/r".to_string(), Probe::Workspace(PackageManager::Npm)),
        ]
    );
}

#[test]
fn walk_falls_back_and_fails() {
    let facts = vec![dir("/r/a"), DirFacts { has_descriptor: true, ..dir("/r") }, dir("/")];
    let (result, _) = drive("/r/a", &facts);
    assert_eq!(result, repo("/r", RepoMode::SinglePackage));
    let (nothing, asked) = drive("/r/a", &[]);
    assert_eq!(nothing, Err(InferError::NoProjectFound));
    assert_eq!(asked.len(), 6);
}

#[test]
fn walk_names_the_file_it_looks_for() {
    let walk = pending(Walk::start("/r/a"));
    assert_eq!(walk.position(), 0);
    assert_eq!(walk.file(), Some("/r/a/turbo.json".to_string()));
    let walk = pending(walk.answer(false));
    assert_eq!(walk.position(), 1);
    let walk = pending(pending(walk.answer(false)).answer(false));
    assert_eq!(walk.position(), 0);
    assert_eq!(walk.probe(), Probe::Descriptor);
    assert_eq!(walk.file(), Some("/r/a/package.json".to_string()));
    let walk = pending(walk.answer(true));
    assert_eq!(walk.probe(), Probe::Workspace(PackageManager::Pnpm));
    assert_eq!(walk.file(), None);
}

#[test]
fn walk_over_no_directory_fails_at_once() {
    match Walk::begin(Vec::new()) {
        Step::Done(r) => assert_eq!(r, Err(InferError::NoProjectFound)),
        Step::Ask(_) => panic!("nothing to ask about"),
    }
}
