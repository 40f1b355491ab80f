//! The clone walk's decisions: refusals, counting, the fallback, the space
//! floor, cancellation and the change check.

use clonedir::run::{CloneAction, CloneEvent, CloneRun};
use clonedir::walk::{EntryAction, EntryKind, EntryMeta, Stamp, Walk};
use clonedir::{ErrorKind, Fallback, IoErrorKind, IoFailure, Options, Platform, Receipt};

const DEV: u64 = 7;

fn options(fallback: Fallback, min_free_bytes: u64) -> Options {
    Options { fallback, min_free_bytes, keep_failed_stage: false }
}

fn stamp(ino: u64, size: u64) -> Stamp {
    Stamp { ino, size, mode: 0o100644, mtime_sec: 1, mtime_nsec: 2, ctime_sec: 3, ctime_nsec: 4 }
}

fn meta(kind: EntryKind, ino: u64, size: u64, nlink: u64) -> EntryMeta {
    EntryMeta { dev: DEV, nlink, kind, stamp: stamp(ino, size) }
}

/// A walk whose root lists `n` entries.
fn walk_of(fallback: Fallback, n: usize) -> Walk {
    let mut w = Walk::new(
        Platform::Linux,
        &options(fallback, 100),
        DEV,
        "/parent".to_string(),
        "/parent/src".to_string(),
        "/parent/dst".to_string(),
        "apfs".to_string(),
        5000,
    );
    w.enter_root("/parent/src", stamp(1, 0));
    w.list_directory((0..n).map(|i| format!("e{i:04}").into_bytes()).collect());
    w
}

/// A walk whose root lists more entries than a test takes.
fn walk(fallback: Fallback) -> Walk {
    walk_of(fallback, 1000)
}

/// Takes the next entry's name and counts it.
fn tick(w: &mut Walk, cancelled: bool) -> Result<bool, clonedir::Error> {
    assert!(w.next_name().is_some());
    w.tick(cancelled)
}

/// Runs a finished walk through an unchanged check and a publication.
fn finish(w: Walk, available_after: u64) -> Receipt {
    assert!(w.is_finished());
    let observed: Vec<Option<Stamp>> = (0..w.record_count()).map(|i| Some(w.record(i).stamp)).collect();
    let mut run = CloneRun::new("/parent/dst".to_string(), false);
    assert!(matches!(run.step(CloneEvent::Swept(Ok(vec![]))), CloneAction::CreateStage));
    assert!(matches!(run.step(CloneEvent::StageCreated(Ok("/parent/.clonedir-stage.1.a".to_string()))), CloneAction::Walk));
    assert!(matches!(run.step(CloneEvent::Walked(Ok(w))), CloneAction::CheckSource));
    assert!(matches!(run.step(CloneEvent::Observed(observed)), CloneAction::Publish));
    assert!(matches!(run.step(CloneEvent::Renamed(Ok(()))), CloneAction::SetMode));
    assert!(matches!(run.step(CloneEvent::ModeSet(Ok(()))), CloneAction::RemoveStage));
    assert!(matches!(run.step(CloneEvent::StageHandled(None)), CloneAction::Succeed));
    run.receipt(available_after)
}

fn failure(kind: IoErrorKind, code: Option<i32>, message: &str) -> IoFailure {
    IoFailure { kind, raw_os_error: code, message: message.to_string() }
}

fn cloned_file(w: &mut Walk, path: &str, ino: u64, size: u64, nlink: u64) {
    assert!(!tick(w, false).unwrap());
    assert_eq!(w.entry(path, Ok(meta(EntryKind::File, ino, size, nlink))).unwrap(), EntryAction::CloneFile);
    assert!(!w.clone_outcome(path, Ok(())).unwrap());
}

#[test]
fn a_small_tree_is_counted_entry_by_entry() {
    let mut w = walk_of(Fallback::Fail, 3);
    tick(&mut w, false).unwrap();
    assert_eq!(w.entry("/parent/src/d", Ok(meta(EntryKind::Directory, 2, 0, 2))).unwrap(), EntryAction::Descend);
    w.list_directory(vec![b"a".to_vec()]);
    cloned_file(&mut w, "/parent/src/d/a", 3, 10, 1);
    w.finish_directory();
    tick(&mut w, false).unwrap();
    assert_eq!(w.entry("/parent/src/link", Ok(meta(EntryKind::Symlink, 4, 3, 1))).unwrap(), EntryAction::RecreateLink);
    cloned_file(&mut w, "/parent/src/top", 5, 32, 1);
    assert_eq!(w.record_count(), 5);
    w.finish_directory();
    let r = finish(w, 4000);
    assert_eq!(
        (r.directories, r.regular_files, r.symlinks, r.cloned_files, r.copied_files),
        (2, 2, 1, 2, 0)
    );
    assert_eq!((r.logical_bytes, r.copied_bytes, r.hardlinked_files), (42, 0, 0));
    assert_eq!((r.available_before, r.available_after), (5000, 4000));
    assert_eq!((r.source.as_str(), r.destination.as_str(), r.filesystem.as_str()), ("/parent/src", "/parent/dst", "apfs"));
}

#[test]
fn unclonable_files_fail_without_the_copy_fallback() {
    let mut w = walk(Fallback::Fail);
    tick(&mut w, false).unwrap();
    w.entry("/parent/src/a", Ok(meta(EntryKind::File, 2, 3, 1))).unwrap();
    let e = w
        .clone_outcome("/parent/src/a", Err(failure(IoErrorKind::Other, Some(18), "Invalid cross-device link (os error 18)")))
        .unwrap_err();
    assert_eq!(e.kind, ErrorKind::NotClonable);
    assert_eq!(e.exit_code(), 4);
    assert_eq!(e.path.as_deref(), Some("/parent/src/a"));
    assert_eq!(
        e.detail,
        "cannot clone on this filesystem (Invalid cross-device link (os error 18)); pass the copy fallback to copy bytes"
    );
}

#[test]
fn the_copy_fallback_counts_files_and_bytes() {
    let mut w = walk_of(Fallback::Copy, 1);
    tick(&mut w, false).unwrap();
    w.entry("/parent/src/d/a", Ok(meta(EntryKind::File, 2, 10_000, 1))).unwrap();
    assert!(w.clone_outcome("/parent/src/d/a", Err(failure(IoErrorKind::Other, Some(95), "Operation not supported"))).unwrap());
    w.ensure_space(1_000_000, 10_000).unwrap();
    w.copy_outcome("/parent/dst/d/a", Ok(())).unwrap();
    w.finish_directory();
    let r = finish(w, 0);
    assert_eq!((r.cloned_files, r.copied_files, r.copied_bytes), (0, 1, 10_000));
    assert_eq!((r.regular_files, r.logical_bytes), (1, 10_000));
}

#[test]
fn a_failed_copy_reports_the_destination() {
    let mut w = walk(Fallback::Copy);
    tick(&mut w, false).unwrap();
    w.entry("/parent/src/a", Ok(meta(EntryKind::File, 2, 5, 1))).unwrap();
    w.clone_outcome("/parent/src/a", Err(failure(IoErrorKind::Other, Some(22), "Invalid argument"))).unwrap();
    w.ensure_space(1_000_000, 5).unwrap();
    let e = w.copy_outcome("/stage/tree/a", Err(failure(IoErrorKind::Other, Some(28), "No space left on device"))).unwrap_err();
    assert_eq!(e.kind, ErrorKind::Io);
    assert_eq!(e.path.as_deref(), Some("/stage/tree/a"));
    assert_eq!(e.detail, "No space left on device");
    assert_eq!(e.io.unwrap().raw_os_error, Some(28));
}

#[test]
fn other_clone_failures_are_not_retried_as_copies() {
    let mut w = walk(Fallback::Copy);
    tick(&mut w, false).unwrap();
    w.entry("/parent/src/z", Ok(meta(EntryKind::File, 2, 5, 1))).unwrap();
    let e = w
        .clone_outcome("/parent/src/z", Err(failure(IoErrorKind::PermissionDenied, Some(13), "Permission denied (os error 13)")))
        .unwrap_err();
    assert_eq!(e.kind, ErrorKind::PermissionDenied);
    assert_eq!(e.exit_code(), 1);
    assert_eq!(e.path.as_deref(), Some("/parent/src/z"));
    assert!(e.kept_stage.is_none());
}

#[test]
fn the_copy_fallback_respects_the_space_floor() {
    let mut w = walk(Fallback::Copy);
    // The floor is 100: room to start, but not for 64 MiB more.
    let e = w.ensure_space(1 << 20, 64 << 20).unwrap_err();
    assert_eq!(e.kind, ErrorKind::InsufficientSpace);
    assert_eq!(e.exit_code(), 5);
    assert_eq!(e.path.as_deref(), Some("/parent"));
    assert_eq!(e.detail, "1048576 bytes available; continuing would pass the 100 byte floor");
    assert!(w.ensure_space(100, 0).is_ok());
    assert!(w.ensure_space(99, 0).is_err());
    // The floor plus the extra saturates instead of wrapping.
    assert!(w.ensure_space(u64::MAX - 1, u64::MAX).is_err());
    assert_eq!(w.space_path(), "/parent");
}

#[test]
fn hard_links_are_counted_once_per_inode() {
    let mut w = walk_of(Fallback::Fail, 3);
    cloned_file(&mut w, "/parent/src/one", 9, 12, 2);
    cloned_file(&mut w, "/parent/src/sub-two", 9, 12, 2);
    cloned_file(&mut w, "/parent/src/three", 10, 1, 1);
    w.finish_directory();
    let r = finish(w, 0);
    assert_eq!((r.regular_files, r.hardlinked_files, r.cloned_files), (3, 1, 3));
}

#[test]
fn special_files_mount_points_and_vanished_entries_are_refused() {
    let mut w = walk(Fallback::Fail);
    tick(&mut w, false).unwrap();
    let e = w.entry("/parent/src/a/pipe", Ok(meta(EntryKind::Other, 3, 0, 1))).unwrap_err();
    assert_eq!(e.kind, ErrorKind::SpecialFile);
    assert_eq!(e.path.as_deref(), Some("/parent/src/a/pipe"));
    assert_eq!(e.detail, "source contains a FIFO, socket or device");

    let e = w
        .entry("/parent/src/mnt", Ok(EntryMeta { dev: DEV + 1, ..meta(EntryKind::Directory, 4, 0, 2) }))
        .unwrap_err();
    assert_eq!(e.kind, ErrorKind::MountPointInside);
    assert_eq!(e.detail, "source contains a mount point");

    let e = w.entry("/parent/src/gone", Err(failure(IoErrorKind::NotFound, Some(2), "No such file"))).unwrap_err();
    assert_eq!(e.kind, ErrorKind::SourceChanged);
    assert_eq!(e.exit_code(), 3);
    assert_eq!(e.detail, "source entry vanished while cloning");

    let e = w.entry("/parent/src/x", Err(failure(IoErrorKind::Other, Some(5), "Input/output error"))).unwrap_err();
    assert_eq!(e.kind, ErrorKind::Io);
    assert_eq!(e.detail, "Input/output error");
}

#[test]
fn cancellation_discards_the_walk() {
    let mut w = walk(Fallback::Fail);
    let e = tick(&mut w, true).unwrap_err();
    assert_eq!(e.kind, ErrorKind::Interrupted);
    assert_eq!(e.exit_code(), 130);
    assert_eq!(e.path, None);
    assert_eq!(e.detail, "interrupted; the partial copy was discarded");
}

#[test]
fn free_space_is_rechecked_every_256_entries() {
    let mut w = walk_of(Fallback::Fail, 600);
    for n in 1..=600u64 {
        let due = tick(&mut w, false).unwrap();
        assert_eq!(due, n % 256 == 0, "entry {n}");
        if due {
            w.ensure_space(1000, 0).unwrap();
        }
        w.entry("/parent/src/l", Ok(meta(EntryKind::Symlink, n + 1, 0, 1))).unwrap();
    }
    w.finish_directory();
    assert_eq!(finish(w, 0).symlinks, 600);
}

#[test]
fn an_unchanged_source_passes_the_check() {
    let mut w = walk(Fallback::Fail);
    cloned_file(&mut w, "/parent/src/a", 2, 3, 1);
    assert!(w.verify_unchanged(&[Some(stamp(1, 0)), Some(stamp(2, 3))]).is_ok());
}

#[test]
fn a_changed_source_is_detected_and_the_changes_listed() {
    let mut w = walk(Fallback::Fail);
    cloned_file(&mut w, "/parent/src/a", 2, 3, 1);
    cloned_file(&mut w, "/parent/src/b", 3, 3, 1);
    let grown = Stamp { size: 4, ..stamp(3, 3) };
    let e = w.verify_unchanged(&[Some(stamp(1, 0)), None, Some(grown)]).unwrap_err();
    assert_eq!(e.kind, ErrorKind::SourceChanged);
    assert_eq!(e.path.as_deref(), Some("/parent/src/a"));
    assert_eq!(
        e.detail,
        "the source changed while it was being cloned, so the copy was discarded (stop its writers and retry); changed: /parent/src/a, /parent/src/b"
    );
    let chmod = Stamp { mode: 0o100700, ..stamp(1, 0) };
    let e = w.verify_unchanged(&[Some(chmod), Some(stamp(2, 3)), Some(stamp(3, 3))]).unwrap_err();
    assert_eq!(e.path.as_deref(), Some("/parent/src"));
}

#[test]
fn at_most_ten_changed_entries_are_listed() {
    let mut w = walk(Fallback::Fail);
    for i in 0..12u64 {
        cloned_file(&mut w, &format!("/s/f{i}"), 10 + i, 1, 1);
    }
    let observed: Vec<Option<Stamp>> = (0..13).map(|_| None).collect();
    let e = w.verify_unchanged(&observed).unwrap_err();
    assert!(e.detail.ends_with("changed: /parent/src, /s/f0, /s/f1, /s/f2, /s/f3, /s/f4, /s/f5, /s/f6, /s/f7, /s/f8"));
}

#[test]
fn records_compare_every_part_of_the_stamp() {
    let r = clonedir::walk::Record { path: "/a".to_string(), stamp: stamp(1, 2) };
    assert!(r.matches(&stamp(1, 2)));
    assert!(!r.matches(&Stamp { ino: 9, ..stamp(1, 2) }));
    assert!(!r.matches(&Stamp { mtime_nsec: 9, ..stamp(1, 2) }));
    assert!(!r.matches(&Stamp { ctime_sec: 9, ..stamp(1, 2) }));
}

#[test]
fn entries_are_taken_in_name_order_and_directories_finish_last() {
    let mut w = walk_of(Fallback::Fail, 0);
    // The root listed nothing: it can be finished at once.
    assert_eq!(w.next_name(), None);
    w.finish_directory();
    assert!(w.is_finished());

    let options = options(Fallback::Fail, 0);
    let mut w = Walk::new(Platform::Linux, &options, DEV, "/p".into(), "/p/s".into(), "/p/d".into(), String::new(), 0);
    w.enter_root("/p/s", stamp(1, 0));
    let listed: Vec<Vec<u8>> = vec![b"b".to_vec(), b"a-long".to_vec(), b"B".to_vec(), b"a".to_vec(), vec![0xff, 1]];
    w.list_directory(listed);
    let mut taken = Vec::new();
    while let Some(name) = w.next_name() {
        taken.push(name.clone());
        w.tick(false).unwrap();
        w.entry("/p/s/x", Ok(meta(EntryKind::Symlink, 9, 0, 1))).unwrap();
    }
    assert_eq!(taken, vec![b"B".to_vec(), b"a".to_vec(), b"a-long".to_vec(), b"b".to_vec(), vec![0xff, 1]]);
    w.finish_directory();
    assert!(w.is_finished());
}
