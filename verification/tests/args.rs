use turbo_dispatch::args::{ParseError, ShimArgs};

fn strings(tokens: &[&str]) -> Vec<String> {
    tokens.iter().map(|t| t.to_string()).collect()
}

fn parse(tokens: &[&str]) -> Result<ShimArgs, ParseError> {
    ShimArgs::parse(strings(tokens), Some("/home/user".to_string()))
}

#[test]
fn empty_command_line_uses_current_dir() {
    let args = parse(&[]).unwrap();
    assert_eq!(args.cwd, "/home/user");
    assert!(!args.skip_infer);
    assert!(args.remaining_turbo_args.is_empty());
    assert!(args.forwarded_args.is_empty());
}

#[test]
fn single_cwd_is_the_working_directory() {
    let args = parse(&["build", "--cwd", "/repo/app", "--filter=web"]).unwrap();
    assert_eq!(args.cwd, "/repo/app");
    assert_eq!(args.remaining_turbo_args, strings(&["build", "--filter=web"]));
    assert!(args.forwarded_args.is_empty());
    assert!(!args.skip_infer);
}

#[test]
fn two_cwd_flags_are_refused() {
    assert_eq!(
        parse(&["--cwd", "/a", "build", "--cwd", "/b"]),
        Err(ParseError::MultipleCwd)
    );
    assert_eq!(parse(&["--cwd", "/a", "--cwd"]), Err(ParseError::MultipleCwd));
}

#[test]
fn second_cwd_is_refused_whatever_follows() {
    assert_eq!(
        parse(&["--cwd", "/a", "--cwd", "/b", "--", "x"]),
        Err(ParseError::MultipleCwd)
    );
}

#[test]
fn cwd_without_value_is_refused() {
    assert_eq!(parse(&["build", "--cwd"]), Err(ParseError::MissingCwdValue));
    assert_eq!(parse(&["--cwd"]), Err(ParseError::MissingCwdValue));
}

#[test]
fn separator_does_not_serve_as_cwd_value() {
    assert_eq!(parse(&["--cwd", "--", "/a"]), Err(ParseError::MissingCwdValue));
}

#[test]
fn skip_flag_after_cwd_is_its_value() {
    let args = parse(&["--cwd", "--skip-infer"]).unwrap();
    assert_eq!(args.cwd, "--skip-infer");
    assert!(!args.skip_infer);
    assert!(args.remaining_turbo_args.is_empty());
    assert!(args.forwarded_args.is_empty());
    let more = parse(&["--cwd", "--skip-infer", "/a", "build", "--skip-infer"]).unwrap();
    assert_eq!(more.cwd, "--skip-infer");
    assert!(more.skip_infer);
    assert_eq!(more.remaining_turbo_args, strings(&["/a", "build"]));
}

#[test]
fn flag_like_tokens_after_cwd_are_its_value() {
    let args = parse(&["--cwd", "--json", "build"]).unwrap();
    assert_eq!(args.cwd, "--json");
    assert_eq!(args.remaining_turbo_args, strings(&["build"]));
    assert!(!args.has_json_flags());
}

#[test]
fn cwd_flag_can_be_its_own_value() {
    let args = parse(&["--cwd", "--cwd"]).unwrap();
    assert_eq!(args.cwd, "--cwd");
    assert!(args.remaining_turbo_args.is_empty());
}

#[test]
fn missing_current_dir_matters_only_without_cwd() {
    assert_eq!(
        ShimArgs::parse(strings(&["build"]), None),
        Err(ParseError::NoCurrentDir)
    );
    let args = ShimArgs::parse(strings(&["--cwd", "/a"]), None).unwrap();
    assert_eq!(args.cwd, "/a");
    assert_eq!(
        ShimArgs::parse(strings(&["--cwd"]), None),
        Err(ParseError::MissingCwdValue)
    );
}

#[test]
fn skip_infer_is_noted_and_taken_out() {
    let args = parse(&["--skip-infer", "build", "--skip-infer", "test"]).unwrap();
    assert!(args.skip_infer);
    assert_eq!(args.remaining_turbo_args, strings(&["build", "test"]));
}

#[test]
fn separator_partitions_the_command_line() {
    let args = parse(&["run", "build", "--", "--watch", "x"]).unwrap();
    assert_eq!(args.remaining_turbo_args, strings(&["run", "build"]));
    assert_eq!(args.forwarded_args, strings(&["--watch", "x"]));
}

#[test]
fn tokens_after_separator_are_not_read() {
    let args = parse(&["build", "--", "--cwd", "/x", "--skip-infer", "--", "--cwd"]).unwrap();
    assert_eq!(args.cwd, "/home/user");
    assert!(!args.skip_infer);
    assert_eq!(args.remaining_turbo_args, strings(&["build"]));
    assert_eq!(
        args.forwarded_args,
        strings(&["--cwd", "/x", "--skip-infer", "--", "--cwd"])
    );
}

#[test]
fn separator_last_forwards_nothing() {
    let args = parse(&["build", "--"]).unwrap();
    assert_eq!(args.remaining_turbo_args, strings(&["build"]));
    assert!(args.forwarded_args.is_empty());
}

#[test]
fn order_of_dispatcher_tokens_is_kept() {
    let args = parse(&["c", "--cwd", "/d", "a", "--skip-infer", "b", "a"]).unwrap();
    assert_eq!(args.remaining_turbo_args, strings(&["c", "a", "b", "a"]));
    assert_eq!(args.cwd, "/d");
    assert!(args.skip_infer);
}

#[test]
fn parse_error_messages() {
    assert_eq!(
        ParseError::MultipleCwd.message(),
        "cannot have multiple `--cwd` flags in command"
    );
    assert_eq!(
        ParseError::MissingCwdValue.message(),
        "No value assigned to `--cwd` argument"
    );
    assert_eq!(
        ParseError::NoCurrentDir.message(),
        "the current directory cannot be determined"
    );
}

#[test]
fn json_flags_are_recognised() {
    for flag in ["--json", "--dry", "--dry-run", "--dry=json", "--graph", "--dry-run=json"] {
        let args = parse(&["run", "build", flag]).unwrap();
        assert!(args.has_json_flags());
    }
}

#[test]
fn other_flags_are_no_json_flags() {
    assert!(!parse(&[]).unwrap().has_json_flags());
    assert!(!parse(&["run", "build", "--graphs", "-json", "--dry-run=text"]).unwrap().has_json_flags());
}

#[test]
fn forwarded_json_flag_does_not_count() {
    let args = parse(&["run", "build", "--", "--json"]).unwrap();
    assert!(!args.has_json_flags());
}
