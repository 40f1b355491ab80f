//! A clone after its walk: the check, publication and the stage's end.

use clonedir::run::{CloneAction, CloneEvent, CloneRun, RunPhase};
use clonedir::walk::{EntryKind, EntryMeta, Stamp, Walk};
use clonedir::{Error, ErrorKind, Fallback, IoErrorKind, IoFailure, Options, Platform};

const STAGE: &str = "/p/.clonedir-stage.1.a";

fn stamp(ino: u64) -> Stamp {
    Stamp { ino, size: 3, mode: 0o100644, mtime_sec: 1, mtime_nsec: 2, ctime_sec: 3, ctime_nsec: 4 }
}

/// A finished walk of a source holding one file.
fn walked() -> Walk {
    let options = Options { fallback: Fallback::Fail, min_free_bytes: 0, keep_failed_stage: false };
    let mut w = Walk::new(
        Platform::Linux,
        &options,
        7,
        "/p".to_string(),
        "/p/src".to_string(),
        "/p/dst".to_string(),
        String::new(),
        100,
    );
    w.enter_root("/p/src", stamp(1));
    w.list_directory(vec![b"a".to_vec()]);
    assert_eq!(w.next_name(), Some(b"a".to_vec()));
    w.tick(false).unwrap();
    w.entry("/p/src/a", Ok(EntryMeta { dev: 7, nlink: 1, kind: EntryKind::File, stamp: stamp(2) })).unwrap();
    w.clone_outcome("/p/src/a", Ok(())).unwrap();
    assert_eq!(w.next_name(), None);
    w.finish_directory();
    w
}

/// A clone whose sweep removed nothing and whose stage is created.
fn run(keep: bool) -> CloneRun {
    let mut r = CloneRun::new("/p/dst".to_string(), keep);
    assert!(matches!(r.step(CloneEvent::Swept(Ok(vec![]))), CloneAction::CreateStage));
    assert!(matches!(r.step(CloneEvent::StageCreated(Ok(STAGE.to_string()))), CloneAction::Walk));
    r
}

fn checked(keep: bool) -> CloneRun {
    let mut r = run(keep);
    assert!(matches!(r.step(CloneEvent::Walked(Ok(walked()))), CloneAction::CheckSource));
    assert_eq!(r.record_count(), 2);
    assert!(matches!(r.step(CloneEvent::Observed(vec![Some(stamp(1)), Some(stamp(2))])), CloneAction::Publish));
    r
}

fn failure(kind: IoErrorKind, code: i32, message: &str) -> IoFailure {
    IoFailure { kind, raw_os_error: Some(code), message: message.to_string() }
}

fn failed(action: CloneAction) -> Error {
    match action {
        CloneAction::Fail(e) => e,
        _ => panic!("the clone did not fail"),
    }
}

#[test]
fn a_clone_is_checked_published_and_its_stage_removed() {
    let mut r = checked(false);
    assert_eq!(r.phase(), RunPhase::Publishing);
    assert!(matches!(r.step(CloneEvent::Renamed(Ok(()))), CloneAction::SetMode));
    assert!(matches!(r.step(CloneEvent::ModeSet(Ok(()))), CloneAction::RemoveStage));
    assert!(matches!(r.step(CloneEvent::StageHandled(None)), CloneAction::Succeed));
    let receipt = r.receipt(90);
    assert_eq!((receipt.regular_files, receipt.cloned_files, receipt.directories), (1, 1, 1));
    assert_eq!((receipt.available_before, receipt.available_after), (100, 90));
}

#[test]
fn a_changed_source_is_never_published_and_its_stage_goes() {
    let mut r = run(false);
    r.step(CloneEvent::Walked(Ok(walked())));
    let grown = Stamp { size: 4, ..stamp(2) };
    assert!(matches!(r.step(CloneEvent::Observed(vec![Some(stamp(1)), Some(grown)])), CloneAction::RemoveStage));
    assert_eq!(r.phase(), RunPhase::CleaningUp);
    let e = failed(r.step(CloneEvent::StageHandled(None)));
    assert_eq!(e.kind, ErrorKind::SourceChanged);
    assert_eq!(e.path.as_deref(), Some("/p/src/a"));
    assert_eq!(e.kept_stage, None);
    assert_eq!(r.phase(), RunPhase::Failed);
}

#[test]
fn a_failed_walk_keeps_its_stage_when_asked() {
    let mut r = run(true);
    let walk_error = Error::new(ErrorKind::SpecialFile, Some("/p/src/pipe"), "source contains a FIFO, socket or device".to_string());
    assert!(matches!(r.step(CloneEvent::Walked(Err(walk_error))), CloneAction::MarkKept));
    let e = failed(r.step(CloneEvent::StageHandled(None)));
    assert_eq!(e.kind, ErrorKind::SpecialFile);
    assert_eq!(e.kept_stage.as_deref(), Some(STAGE));
    assert_eq!(e.exit_code(), 1);
}

#[test]
fn a_stage_that_cannot_be_removed_is_named() {
    let mut r = run(false);
    let cancelled = Error::new(ErrorKind::Interrupted, None, "interrupted; the partial copy was discarded".to_string());
    assert!(matches!(r.step(CloneEvent::Walked(Err(cancelled))), CloneAction::RemoveStage));
    let stuck = failure(IoErrorKind::PermissionDenied, 1, "Operation not permitted (os error 1)");
    let e = failed(r.step(CloneEvent::StageHandled(Some(stuck))));
    assert_eq!(e.kind, ErrorKind::Interrupted);
    assert_eq!(e.exit_code(), 130);
    assert_eq!(
        e.detail,
        "interrupted; the partial copy was discarded; and the stage could not be removed (Operation not permitted (os error 1))"
    );
    assert_eq!(e.kept_stage.as_deref(), Some(STAGE));
}

#[test]
fn a_destination_that_appeared_before_publication_is_left_alone() {
    let mut r = checked(false);
    let exists = failure(IoErrorKind::AlreadyExists, 17, "File exists (os error 17)");
    assert!(matches!(r.step(CloneEvent::Renamed(Err(exists))), CloneAction::RemoveStage));
    let e = failed(r.step(CloneEvent::StageHandled(None)));
    assert_eq!(e.kind, ErrorKind::DestinationExists);
    assert_eq!(e.exit_code(), 6);
    assert_eq!(e.detail, "destination appeared while cloning; it was not touched");
}

#[test]
fn failures_after_the_check_clean_up_too() {
    let mut r = checked(false);
    let denied = Error::new(ErrorKind::PermissionDenied, Some("/p/.clonedir-stage.1.a/tree"), "Permission denied".to_string());
    assert!(matches!(r.step(CloneEvent::Failed(denied)), CloneAction::RemoveStage));
    assert_eq!(failed(r.step(CloneEvent::StageHandled(None))).kind, ErrorKind::PermissionDenied);

    let mut r = checked(true);
    r.step(CloneEvent::Renamed(Ok(())));
    let io = failure(IoErrorKind::Other, 5, "Input/output error (os error 5)");
    assert!(matches!(r.step(CloneEvent::ModeSet(Err(io))), CloneAction::MarkKept));
    let e = failed(r.step(CloneEvent::StageHandled(None)));
    assert_eq!((e.kind, e.path.as_deref(), e.kept_stage.as_deref()), (ErrorKind::Io, Some("/p/dst"), Some(STAGE)));
}

#[test]
fn a_published_clone_whose_stage_stays_fails_without_naming_it() {
    let mut r = checked(false);
    r.step(CloneEvent::Renamed(Ok(())));
    r.step(CloneEvent::ModeSet(Ok(())));
    let stuck = failure(IoErrorKind::Other, 16, "Device or resource busy (os error 16)");
    let e = failed(r.step(CloneEvent::StageHandled(Some(stuck))));
    assert_eq!((e.kind, e.path.as_deref(), e.kept_stage), (ErrorKind::Io, Some(STAGE), None));
}

#[test]
fn a_failed_sweep_never_blocks_the_clone() {
    let mut r = CloneRun::new("/p/dst".to_string(), false);
    assert_eq!(r.phase(), RunPhase::Sweeping);
    let denied = failure(IoErrorKind::PermissionDenied, 13, "Permission denied (os error 13)");
    assert!(matches!(r.step(CloneEvent::Swept(Err(denied))), CloneAction::CreateStage));
    assert!(matches!(r.step(CloneEvent::StageCreated(Ok(STAGE.to_string()))), CloneAction::Walk));
    r.step(CloneEvent::Walked(Ok(walked())));
    r.step(CloneEvent::Observed(vec![Some(stamp(1)), Some(stamp(2))]));
    r.step(CloneEvent::Renamed(Ok(())));
    r.step(CloneEvent::ModeSet(Ok(())));
    assert!(matches!(r.step(CloneEvent::StageHandled(None)), CloneAction::Succeed));
    assert!(r.receipt(0).swept_stages.is_empty());
}

#[test]
fn swept_stages_are_reported_in_the_receipt() {
    let mut r = CloneRun::new("/p/dst".to_string(), false);
    r.step(CloneEvent::Swept(Ok(vec!["/p/.clonedir-stage.9.f".to_string()])));
    r.step(CloneEvent::StageCreated(Ok(STAGE.to_string())));
    r.step(CloneEvent::Walked(Ok(walked())));
    r.step(CloneEvent::Observed(vec![Some(stamp(1)), Some(stamp(2))]));
    r.step(CloneEvent::Renamed(Ok(())));
    r.step(CloneEvent::ModeSet(Ok(())));
    r.step(CloneEvent::StageHandled(None));
    assert_eq!(r.receipt(0).swept_stages, vec!["/p/.clonedir-stage.9.f".to_string()]);
}

#[test]
fn a_stage_that_cannot_be_created_fails_the_clone_at_once() {
    let mut r = CloneRun::new("/p/dst".to_string(), true);
    r.step(CloneEvent::Swept(Ok(vec![])));
    let full = Error::new(ErrorKind::Io, Some("/p/.clonedir-stage.1.a"), "No space left on device".to_string());
    let e = failed(r.step(CloneEvent::StageCreated(Err(full))));
    assert_eq!((e.kind, e.kept_stage), (ErrorKind::Io, None));
    assert_eq!(r.phase(), RunPhase::Failed);
}
