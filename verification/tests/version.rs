use turbo_dispatch::repo::RepoState;
use turbo_dispatch::version::{version_at_least, VersionError};

#[test]
fn test_skip_infer_version_constraint() {
    let canary = RepoState::local_turbo_supports_skip_infer("1.7.0-canary.0");
    let release = RepoState::local_turbo_supports_skip_infer("1.7.0");
    let old = RepoState::local_turbo_supports_skip_infer("1.6.3");
    let new = RepoState::local_turbo_supports_skip_infer("1.8.0");
    assert!(release.unwrap());
    assert!(canary.unwrap());
    assert!(new.unwrap());
    assert!(!old.unwrap());
}

#[test]
fn gate_agrees_with_precedence() {
    let minimum = semver::Version::parse("1.7.0-canary.0").unwrap();
    for text in [
        "1.7.0-canary.0",
        "1.7.0",
        "1.6.3",
        "1.8.0",
        "1.7.0-alpha",
        "1.8.0-beta.1",
        "2.0.0",
        "0.0.1",
        "1.7.0-canary.0+build.5",
    ] {
        let version = semver::Version::parse(text).unwrap();
        assert_eq!(
            RepoState::local_turbo_supports_skip_infer(text),
            Ok(version.cmp_precedence(&minimum) != std::cmp::Ordering::Less)
        );
    }
}

#[test]
fn prerelease_of_a_later_version_meets_the_minimum() {
    assert_eq!(RepoState::local_turbo_supports_skip_infer("1.8.0-canary.1"), Ok(true));
    assert_eq!(RepoState::local_turbo_supports_skip_infer("2.0.0-alpha"), Ok(true));
    assert_eq!(RepoState::local_turbo_supports_skip_infer("1.7.1-rc.1"), Ok(true));
}

#[test]
fn prereleases_of_the_minimum_are_ordered_by_tag() {
    assert_eq!(RepoState::local_turbo_supports_skip_infer("1.7.0-alpha"), Ok(false));
    assert_eq!(RepoState::local_turbo_supports_skip_infer("1.7.0-canary"), Ok(false));
    assert_eq!(RepoState::local_turbo_supports_skip_infer("1.7.0-canary.1"), Ok(true));
    assert_eq!(RepoState::local_turbo_supports_skip_infer("1.7.0-canary.0.1"), Ok(true));
    assert_eq!(RepoState::local_turbo_supports_skip_infer("1.6.9-zeta"), Ok(false));
}

#[test]
fn build_metadata_does_not_count() {
    assert_eq!(version_at_least("1.7.0+a", "1.7.0+b"), Ok(true));
    assert_eq!(version_at_least("1.7.0+b", "1.7.0+a"), Ok(true));
    assert_eq!(version_at_least("1.7.0", "1.7.0"), Ok(true));
}

#[test]
fn invalid_version_is_refused() {
    for text in ["", "1.7", "one", "1.7.0.0", "v1.7.0", "01.7.0", " 1.7.0", ">=1.7.0"] {
        assert_eq!(
            RepoState::local_turbo_supports_skip_infer(text),
            Err(VersionError::InvalidVersion)
        );
    }
}

#[test]
fn invalid_minimum_is_refused_after_the_version() {
    assert_eq!(version_at_least(">=1.7.0", "1.7.0"), Err(VersionError::InvalidMinimum));
    assert_eq!(version_at_least("", "1.7.0"), Err(VersionError::InvalidMinimum));
    assert_eq!(version_at_least("", "nope"), Err(VersionError::InvalidVersion));
}

#[test]
fn release_stands_above_its_prereleases() {
    assert_eq!(version_at_least("1.7.0", "1.7.0-canary.0"), Ok(false));
    assert_eq!(version_at_least("1.7.0-canary.0", "1.7.0"), Ok(true));
    assert_eq!(version_at_least("1.10.0", "1.9.0"), Ok(false));
    assert_eq!(version_at_least("1.9.0", "1.10.0"), Ok(true));
}

#[test]
fn version_error_messages() {
    assert_eq!(
        VersionError::InvalidVersion.message(),
        "the version is not a valid semantic version"
    );
    assert_eq!(
        VersionError::InvalidMinimum.message(),
        "the minimum version is not a valid semantic version"
    );
}
