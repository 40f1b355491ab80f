//! The command line: flags, sizes, and what each command line asks for.

use clonedir::cli::{command, parse, parse_size, Command, USAGE};
use clonedir::options::DEFAULT_MIN_FREE_BYTES;
use clonedir::Fallback;
use std::path::PathBuf;

fn argv(items: &[&str]) -> Vec<String> {
    items.iter().map(|s| s.to_string()).collect()
}

fn paths(a: &clonedir::cli::Args) -> Vec<PathBuf> {
    a.paths.iter().map(PathBuf::from).collect()
}

#[test]
fn parses_paths_and_flags() {
    let a = parse(&argv(&[
        "-vn",
        "--json",
        "--min-free",
        "1G",
        "/src",
        "/dst",
    ]))
    .unwrap();
    assert!(a.verbose && a.dry_run && a.json && !a.quiet && !a.allow_copy);
    assert_eq!(a.min_free, Some(1 << 30));
    assert_eq!(paths(&a), vec![PathBuf::from("/src"), PathBuf::from("/dst")]);
}

#[test]
fn force_is_refused_with_a_reason() {
    assert!(
        parse(&argv(&["-f", "/a", "/b"]))
            .unwrap_err()
            .contains("never overwrites")
    );
    assert!(parse(&argv(&["--force", "/a", "/b"])).is_err());
}

#[test]
fn double_dash_ends_options() {
    let a = parse(&argv(&["--", "-odd", "/dst"])).unwrap();
    assert_eq!(paths(&a), vec![PathBuf::from("-odd"), PathBuf::from("/dst")]);
}

#[test]
fn every_long_flag_sets_its_switch() {
    let a = parse(&argv(&[
        "--verbose",
        "--dry-run",
        "--quiet",
        "--json",
        "--allow-copy",
        "--keep-failed",
        "--sweep",
        "--measure",
    ]))
    .unwrap();
    assert!(a.verbose && a.dry_run && a.quiet && a.json);
    assert!(a.allow_copy && a.keep_failed && a.sweep && a.measure);
    assert!(a.paths.is_empty());
    assert_eq!(a.min_free, None);
}

#[test]
fn a_lone_dash_is_a_path() {
    let a = parse(&argv(&["-", "x"])).unwrap();
    assert_eq!(a.paths, vec!["-".to_string(), "x".to_string()]);
}

#[test]
fn unknown_options_are_named() {
    assert_eq!(parse(&argv(&["--bogus"])).unwrap_err(), "unknown option: --bogus");
    assert_eq!(parse(&argv(&["-x"])).unwrap_err(), "unknown option: -x");
    assert_eq!(parse(&argv(&["-vx"])).unwrap_err(), "unknown option: -x");
    assert_eq!(parse(&argv(&["-é"])).unwrap_err(), "unknown option: -é");
}

#[test]
fn a_combined_short_force_is_refused() {
    let e = parse(&argv(&["-vf", "/a", "/b"])).unwrap_err();
    assert!(e.starts_with("--force was removed"));
}

#[test]
fn min_free_needs_a_valid_size() {
    assert_eq!(
        parse(&argv(&["a", "--min-free"])).unwrap_err(),
        "--min-free needs a size"
    );
    assert_eq!(
        parse(&argv(&["--min-free", "lots", "a"])).unwrap_err(),
        "invalid size: lots"
    );
    let a = parse(&argv(&["--min-free", "0", "a", "b"])).unwrap();
    assert_eq!(a.min_free, Some(0));
    assert_eq!(a.paths.len(), 2);
}

#[test]
fn the_argument_after_min_free_is_its_value() {
    // "--min-free -v" reads "-v" as the size, which is not one.
    assert_eq!(
        parse(&argv(&["--min-free", "-v"])).unwrap_err(),
        "invalid size: -v"
    );
}

#[test]
fn sizes_take_k_m_g_suffixes_in_either_case() {
    assert_eq!(parse_size("0"), Some(0));
    assert_eq!(parse_size("512"), Some(512));
    assert_eq!(parse_size("1K"), Some(1024));
    assert_eq!(parse_size("1k"), Some(1024));
    assert_eq!(parse_size("256M"), Some(256 << 20));
    assert_eq!(parse_size("3g"), Some(3 << 30));
    assert_eq!(parse_size("+7"), Some(7));
    assert_eq!(parse_size("18446744073709551615"), Some(u64::MAX));
}

#[test]
fn sizes_that_are_not_numbers_or_overflow_are_refused() {
    assert_eq!(parse_size(""), None);
    assert_eq!(parse_size("K"), None);
    assert_eq!(parse_size("-1"), None);
    assert_eq!(parse_size("+"), None);
    assert_eq!(parse_size("1T"), None);
    assert_eq!(parse_size("1.5G"), None);
    assert_eq!(parse_size("18446744073709551616"), None);
    assert_eq!(parse_size("17179869184G"), None);
    assert_eq!(parse_size("1000000G"), Some(1000000 << 30));
}

#[test]
fn help_and_version_win_over_everything() {
    assert!(matches!(command(&argv(&["--bogus", "-h"])), Command::Help));
    assert!(matches!(command(&argv(&["--help"])), Command::Help));
    assert!(matches!(command(&argv(&["-V", "--bogus"])), Command::Version));
    assert!(matches!(command(&argv(&["--", "--version"])), Command::Version));
}

#[test]
fn refused_command_lines_carry_their_message() {
    match command(&argv(&["--bogus"])) {
        Command::Refused(m) => {
            assert!(m.starts_with("Error: unknown option: --bogus\n\n"));
            assert!(m.ends_with(USAGE));
        }
        other => panic!("{other:?}"),
    }
    match command(&argv(&["--measure"])) {
        Command::Refused(m) => assert_eq!(m, "Error: --measure needs at least one PATH"),
        other => panic!("{other:?}"),
    }
    match command(&argv(&["--sweep", "a", "b"])) {
        Command::Refused(m) => assert_eq!(m, "Error: --sweep needs exactly one PARENT"),
        other => panic!("{other:?}"),
    }
    match command(&argv(&["only-one"])) {
        Command::Refused(m) => {
            assert!(m.starts_with("Error: expected SOURCE and DESTINATION\n\n"))
        }
        other => panic!("{other:?}"),
    }
}

#[test]
fn commands_are_chosen_by_their_flags() {
    assert!(matches!(command(&argv(&["--measure", "a", "b"])), Command::Measure(_)));
    assert!(matches!(command(&argv(&["--sweep", "p"])), Command::Sweep(_)));
    assert!(matches!(command(&argv(&["s", "d"])), Command::Clone(_)));
    // --measure wins over --sweep.
    assert!(matches!(command(&argv(&["--sweep", "--measure", "p"])), Command::Measure(_)));
}

#[test]
fn options_follow_the_flags() {
    let a = parse(&argv(&["s", "d"])).unwrap();
    let o = a.options();
    assert_eq!(o.fallback, Fallback::Fail);
    assert_eq!(o.min_free_bytes, DEFAULT_MIN_FREE_BYTES);
    assert_eq!(o.min_free_bytes, 256 << 20);
    assert!(!o.keep_failed_stage);
    let a = parse(&argv(&["--allow-copy", "--keep-failed", "--min-free", "1M", "s", "d"])).unwrap();
    let o = a.options();
    assert_eq!(o.fallback, Fallback::Copy);
    assert_eq!(o.min_free_bytes, 1 << 20);
    assert!(o.keep_failed_stage);
}

#[test]
fn quiet_overrides_verbose_and_json_silences_lines() {
    let a = parse(&argv(&["-vq", "s", "d"])).unwrap();
    assert!(!a.speaks() && !a.reports_progress());
    let a = parse(&argv(&["-v", "--json", "s", "d"])).unwrap();
    assert!(!a.speaks() && !a.reports_progress());
    let a = parse(&argv(&["-v", "s", "d"])).unwrap();
    assert!(a.speaks() && a.reports_progress());
    let a = parse(&argv(&["s", "d"])).unwrap();
    assert!(a.speaks() && !a.reports_progress());
}
