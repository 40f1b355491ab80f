//! The preflight's order: the first failing check decides.

use clonedir::plan::{NodeFacts, TargetFacts};
use clonedir::preflight::{Preflight, PreflightAction, PreflightEvent};
use clonedir::{Error, ErrorKind, Fallback, Filesystem, IoErrorKind, IoFailure, Options, Plan};

fn options() -> Options {
    Options { fallback: Fallback::Fail, min_free_bytes: 100, keep_failed_stage: false }
}

fn not_found() -> IoFailure {
    IoFailure { kind: IoErrorKind::NotFound, raw_os_error: Some(2), message: "No such file or directory (os error 2)".to_string() }
}

fn dir(dev: u64, ino: u64) -> NodeFacts {
    NodeFacts { is_dir: true, dev, ino }
}

fn done(a: PreflightAction) -> Result<Plan, Error> {
    match a {
        PreflightAction::Done(r) => r,
        _ => panic!("the preflight is not done"),
    }
}

#[test]
fn a_missing_source_wins_over_a_bad_destination() {
    let mut p = Preflight::new("/nope".to_string(), "..".to_string(), &options());
    let e = done(p.step(PreflightEvent::Resolved(Err(not_found())))).unwrap_err();
    assert_eq!(e.kind, ErrorKind::InvalidSource);
    assert_eq!(e.detail, "source directory does not exist");
}

#[test]
fn the_destination_is_checked_once_the_source_is_a_directory() {
    let mut p = Preflight::new("src".to_string(), "..".to_string(), &options());
    assert!(matches!(p.step(PreflightEvent::Resolved(Ok("/abs/src".to_string()))), PreflightAction::InspectSource));
    let e = done(p.step(PreflightEvent::Inspected(Ok(dir(1, 5))))).unwrap_err();
    assert_eq!(e.kind, ErrorKind::InvalidDestination);

    let mut p = Preflight::new("src".to_string(), "..".to_string(), &options());
    p.step(PreflightEvent::Resolved(Ok("/abs/src".to_string())));
    let file = NodeFacts { is_dir: false, dev: 1, ino: 5 };
    let e = done(p.step(PreflightEvent::Inspected(Ok(file)))).unwrap_err();
    assert_eq!(e.kind, ErrorKind::InvalidSource);
    assert_eq!(e.detail, "source is not a directory");
}

#[test]
fn a_preflight_reads_in_order_and_makes_the_plan() {
    let mut p = Preflight::new("src".to_string(), "out/dst".to_string(), &options());
    assert!(matches!(p.step(PreflightEvent::Resolved(Ok("/abs/src".to_string()))), PreflightAction::InspectSource));
    assert_eq!(p.source(), "/abs/src");
    assert!(matches!(p.step(PreflightEvent::Inspected(Ok(dir(1, 5)))), PreflightAction::ResolveParent));
    assert_eq!(p.parent_given(), "out");
    assert!(matches!(p.step(PreflightEvent::Resolved(Ok("/abs/out".to_string()))), PreflightAction::InspectParent));
    assert!(matches!(p.step(PreflightEvent::Inspected(Ok(dir(1, 9)))), PreflightAction::InspectTarget));
    assert_eq!(p.target(), "/abs/out/dst");
    let facts = TargetFacts {
        exists: false,
        under_source: false,
        ancestors: vec![(1, 9), (1, 2)],
        filesystem: Ok(Filesystem { available_bytes: 1000, fs_type: String::new() }),
    };
    let plan = done(p.step(PreflightEvent::TargetRead(facts))).unwrap();
    assert_eq!((plan.source.as_str(), plan.destination.as_str()), ("/abs/src", "/abs/out/dst"));
    assert!(!plan.cross_filesystem);
}

#[test]
fn a_missing_parent_is_an_invalid_destination() {
    let mut p = Preflight::new("src".to_string(), "no/dst".to_string(), &options());
    p.step(PreflightEvent::Resolved(Ok("/abs/src".to_string())));
    p.step(PreflightEvent::Inspected(Ok(dir(1, 5))));
    let e = done(p.step(PreflightEvent::Resolved(Err(not_found())))).unwrap_err();
    assert_eq!(e.kind, ErrorKind::InvalidDestination);
    assert_eq!(e.path.as_deref(), Some("no"));
    assert_eq!(e.detail, "parent directory of destination does not exist");
}
