use sandman::args::{Args, CliError, ExecuteArgs};

fn s(x: &str) -> String {
    String::from(x)
}

fn strings(xs: &[&str]) -> Vec<String> {
    xs.iter().map(|x| s(x)).collect()
}

#[test]
fn two_positionals_parse() {
    let a = Args::cli_args(&strings(&["run", "demo"])).unwrap();
    assert_eq!(a.action, s("run"));
    assert_eq!(a.container_name, s("demo"));
    assert!(!a.verbose);
    assert!(!a.keep);
    assert!(!a.cache);
    assert!(a.env.is_empty());
    assert!(a.execute.is_none());
}

#[test]
fn short_flags_parse() {
    let a = Args::cli_args(&strings(&["-v", "-k", "-c", "build", "demo"])).unwrap();
    assert!(a.verbose);
    assert!(a.keep);
    assert!(a.cache);
    assert_eq!(a.action, s("build"));
    assert_eq!(a.container_name, s("demo"));
}

#[test]
fn long_flags_parse() {
    let a = Args::cli_args(&strings(&["--verbose", "--keep", "--cache", "run", "demo"])).unwrap();
    assert!(a.verbose && a.keep && a.cache);
}

#[test]
fn env_values_in_all_three_forms() {
    let a = Args::cli_args(&strings(&["-e", "A=1", "--env", "B=2", "--env=C=3", "run", "demo"]))
        .unwrap();
    assert_eq!(a.env, strings(&["A=1", "B=2", "C=3"]));
}

#[test]
fn flags_may_follow_a_positional() {
    let a = Args::cli_args(&strings(&["run", "-v", "demo"])).unwrap();
    assert!(a.verbose);
    assert_eq!(a.action, s("run"));
    assert_eq!(a.container_name, s("demo"));
}

#[test]
fn everything_after_the_positionals_is_the_command() {
    let a = Args::cli_args(&strings(&["run", "demo", "bash", "-c", "ls"])).unwrap();
    match a.execute {
        Some(ExecuteArgs::Other(extra)) => assert_eq!(extra, strings(&["bash", "-c", "ls"])),
        None => panic!("expected trailing arguments"),
    }
}

#[test]
fn unknown_flag_is_rejected() {
    let e = Args::cli_args(&strings(&["-x", "run", "demo"])).unwrap_err();
    assert_eq!(e, CliError::UnknownFlag);
}

#[test]
fn dangling_env_option_is_rejected() {
    let e = Args::cli_args(&strings(&["run", "-e"])).unwrap_err();
    assert_eq!(e, CliError::MissingEnvValue);
}

#[test]
fn missing_positionals_are_rejected() {
    assert_eq!(Args::cli_args(&strings(&[])).unwrap_err(), CliError::MissingPositionals);
    assert_eq!(Args::cli_args(&strings(&["run"])).unwrap_err(), CliError::MissingPositionals);
}

#[test]
fn env_value_may_look_like_a_flag() {
    let a = Args::cli_args(&strings(&["-e", "-weird", "run", "demo"])).unwrap();
    assert_eq!(a.env, strings(&["-weird"]));
}

#[test]
fn context_carries_the_overrides() {
    let a = Args::cli_args(&strings(&["-k", "-c", "-e", "A=1", "run", "demo", "true"])).unwrap();
    let ctx = a.to_context();
    assert!(ctx.keep_after_exit);
    assert!(ctx.use_build_cache);
    assert_eq!(ctx.env_overrides, strings(&["A=1"]));
    assert_eq!(ctx.extra_trailing_args, strings(&["true"]));
}
