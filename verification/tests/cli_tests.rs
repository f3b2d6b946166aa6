use aether::cli::{Cli, CliOutcome};

fn args(a: &[&str]) -> Vec<String> {
    a.iter().map(|s| s.to_string()).collect()
}

fn run(a: &[&str]) -> Cli {
    match Cli::parse_args(&args(a)) {
        CliOutcome::Run(c) => c,
        other => panic!("expected options, got {:?}", matches!(other, CliOutcome::Help)),
    }
}

#[test]
fn no_arguments_give_no_options() {
    let c = run(&[]);
    assert!(c.bind.is_none() && c.mode.is_none() && c.scan.is_none() && c.config.is_none());
    assert!(c.ip.is_none() && c.noize.is_none() && c.aethernoize.is_none() && c.peer.is_none());
    assert!(c.ech.is_none() && c.wg_keepalive.is_none() && c.auth.is_none());
    assert!(!c.verbose && !c.gui && !c.cli && !c.tun && !c.allow_lan && !c.wg_no_profile_retry);
}

#[test]
fn readme_example_bind_mode_scan() {
    let c = run(&["--bind", "0.0.0.0:9011", "--mode", "masq", "--scan", "turbo"]);
    assert_eq!(c.bind.as_deref(), Some("0.0.0.0:9011"));
    assert_eq!(c.mode.as_deref(), Some("masq"));
    assert_eq!(c.scan.as_deref(), Some("turbo"));
}

#[test]
fn short_flags_and_peer() {
    let c = run(&["-m", "wg", "-s", "thorough", "--peer", "162.159.193.1:443"]);
    assert_eq!(c.mode.as_deref(), Some("wg"));
    assert_eq!(c.scan.as_deref(), Some("thorough"));
    assert_eq!(c.peer.as_deref(), Some("162.159.193.1:443"));
}

#[test]
fn switches() {
    let c = run(&["--mode", "gool", "--verbose", "--gui", "--cli", "--tun", "--allow-lan", "--wg-no-profile-retry"]);
    assert!(c.verbose && c.gui && c.cli && c.tun && c.allow_lan && c.wg_no_profile_retry);
    let c = run(&["-v", "-c", "x.toml", "--ip", "v6", "--noize", "gfw", "--aethernoize", "light", "--ech", "auto"]);
    assert!(c.verbose);
    assert_eq!(c.config.as_deref(), Some("x.toml"));
    assert_eq!(c.ip.as_deref(), Some("v6"));
    assert_eq!(c.noize.as_deref(), Some("gfw"));
    assert_eq!(c.aethernoize.as_deref(), Some("light"));
    assert_eq!(c.ech.as_deref(), Some("auto"));
}

#[test]
fn auth_splits_at_first_colon() {
    let c = run(&["--allow-lan", "--auth", "admin:secret"]);
    assert_eq!(c.auth, Some(("admin".to_string(), "secret".to_string())));
    let c = run(&["--auth", "a:b:c"]);
    assert_eq!(c.auth, Some(("a".to_string(), "b:c".to_string())));
    let c = run(&["--auth", ":"]);
    assert_eq!(c.auth, Some((String::new(), String::new())));
}

#[test]
fn auth_without_colon_or_value_is_ignored() {
    let c = run(&["--auth", "admin"]);
    assert_eq!(c.auth, None);
    let c = run(&["--auth", "u:p", "--auth", "nocolon"]);
    assert_eq!(c.auth, Some(("u".to_string(), "p".to_string())));
    let c = run(&["--auth", "u:p", "--auth"]);
    assert_eq!(c.auth, Some(("u".to_string(), "p".to_string())));
}

#[test]
fn keepalive_parses_as_u16() {
    assert_eq!(run(&["--wg-keepalive", "42"]).wg_keepalive, Some(42));
    assert_eq!(run(&["--wg-keepalive", "+7"]).wg_keepalive, Some(7));
    assert_eq!(run(&["--wg-keepalive", "007"]).wg_keepalive, Some(7));
    assert_eq!(run(&["--wg-keepalive", "65535"]).wg_keepalive, Some(65535));
    assert_eq!(run(&["--wg-keepalive", "65536"]).wg_keepalive, None);
    assert_eq!(run(&["--wg-keepalive", "-1"]).wg_keepalive, None);
    assert_eq!(run(&["--wg-keepalive", "ten"]).wg_keepalive, None);
    assert_eq!(run(&["--wg-keepalive", ""]).wg_keepalive, None);
    assert_eq!(run(&["--wg-keepalive", " 5"]).wg_keepalive, None);
    assert_eq!(run(&["--wg-keepalive"]).wg_keepalive, None);
}

#[test]
fn later_value_wins_and_missing_value_clears() {
    let c = run(&["--bind", "a", "--bind", "b"]);
    assert_eq!(c.bind.as_deref(), Some("b"));
    let c = run(&["--bind", "a", "--bind"]);
    assert_eq!(c.bind, None);
    let c = run(&["--wg-keepalive", "9", "--wg-keepalive", "x"]);
    assert_eq!(c.wg_keepalive, None);
}

#[test]
fn value_flag_consumes_next_argument() {
    let c = run(&["--bind", "--help"]);
    assert_eq!(c.bind.as_deref(), Some("--help"));
    let c = run(&["--peer", "-v"]);
    assert_eq!(c.peer.as_deref(), Some("-v"));
    assert!(!c.verbose);
}

#[test]
fn help_stops_reading() {
    assert!(matches!(Cli::parse_args(&args(&["-h"])), CliOutcome::Help));
    assert!(matches!(Cli::parse_args(&args(&["-v", "--help", "--bogus"])), CliOutcome::Help));
}

#[test]
fn unknown_flag_is_reported() {
    match Cli::parse_args(&args(&["-v", "--bogus", "--help"])) {
        CliOutcome::UnknownFlag(f) => assert_eq!(f, "--bogus"),
        _ => panic!("expected an unknown flag"),
    }
    match Cli::parse_args(&args(&["masq"])) {
        CliOutcome::UnknownFlag(f) => assert_eq!(f, "masq"),
        _ => panic!("expected an unknown flag"),
    }
}

#[test]
fn first_unknown_argument_wins_over_later_help() {
    match Cli::parse_args(&args(&["--mode", "wg", "--bogus", "-h"])) {
        CliOutcome::UnknownFlag(f) => assert_eq!(f, "--bogus"),
        _ => panic!("expected an unknown flag"),
    }
}

#[test]
fn skipped_values_are_not_read_as_flags() {
    assert!(matches!(Cli::parse_args(&args(&["--ech", "--bogus"])), CliOutcome::Run(_)));
    assert!(matches!(Cli::parse_args(&args(&["--auth", "-h", "-v"])), CliOutcome::Run(_)));
}
