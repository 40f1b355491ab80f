//! Removing a tree: files, read-only directories, and entries that vanish.

use clonedir::removal::{RemovalEvent, RemovalStep, TreeRemoval};
use clonedir::{IoErrorKind, IoFailure};

fn gone() -> IoFailure {
    IoFailure { kind: IoErrorKind::NotFound, raw_os_error: Some(2), message: "No such file or directory (os error 2)".to_string() }
}

fn busy() -> IoFailure {
    IoFailure { kind: IoErrorKind::Other, raw_os_error: Some(16), message: "Device or resource busy (os error 16)".to_string() }
}

#[test]
fn a_file_is_removed_and_that_is_all() {
    let mut r = TreeRemoval::new();
    assert!(matches!(r.step(RemovalEvent::Inspected(Ok((false, 0o100444)))), RemovalStep::RemoveEntry));
    assert!(matches!(r.step(RemovalEvent::Removed(Ok(()))), RemovalStep::Done(Ok(()))));
}

#[test]
fn a_read_only_directory_regains_access_then_is_emptied_then_removed() {
    let mut r = TreeRemoval::new();
    assert!(matches!(r.step(RemovalEvent::Inspected(Ok((true, 0o40555)))), RemovalStep::RestoreAccess(0o755)));
    assert!(matches!(r.step(RemovalEvent::AccessRestored(Ok(()))), RemovalStep::Open));
    assert!(matches!(r.step(RemovalEvent::Opened(Ok(()))), RemovalStep::NextEntry { ascend: false }));
    match r.step(RemovalEvent::EntryRead(Some(Ok(b"f".to_vec())))) {
        RemovalStep::InspectEntry(name) => assert_eq!(name, b"f".to_vec()),
        _ => panic!("the entry is not inspected"),
    }
    assert_eq!(r.depth(), 1);
    assert!(matches!(r.step(RemovalEvent::Inspected(Ok((false, 0o100644)))), RemovalStep::RemoveEntry));
    assert!(matches!(r.step(RemovalEvent::Removed(Ok(()))), RemovalStep::NextEntry { ascend: true }));
    assert_eq!(r.depth(), 0);
    assert!(matches!(r.step(RemovalEvent::EntryRead(None)), RemovalStep::RemoveDirectory));
    assert!(matches!(r.step(RemovalEvent::Removed(Ok(()))), RemovalStep::Done(Ok(()))));
}

#[test]
fn entries_that_vanish_count_as_removed() {
    let mut r = TreeRemoval::new();
    assert!(matches!(r.step(RemovalEvent::Inspected(Ok((true, 0o40755)))), RemovalStep::Open));
    r.step(RemovalEvent::Opened(Ok(())));
    // An entry that could not be read because it is gone is skipped.
    assert!(matches!(r.step(RemovalEvent::EntryRead(Some(Err(gone())))), RemovalStep::NextEntry { ascend: false }));
    r.step(RemovalEvent::EntryRead(Some(Ok(b"d".to_vec()))));
    // A subdirectory removed by someone else meanwhile.
    assert!(matches!(r.step(RemovalEvent::Inspected(Err(gone()))), RemovalStep::NextEntry { ascend: true }));
    r.step(RemovalEvent::EntryRead(None));
    assert!(matches!(r.step(RemovalEvent::Removed(Err(gone()))), RemovalStep::Done(Ok(()))));
    // A root that is already gone.
    let mut r = TreeRemoval::new();
    assert!(matches!(r.step(RemovalEvent::Inspected(Err(gone()))), RemovalStep::Done(Ok(()))));
}

#[test]
fn other_failures_end_the_removal() {
    let mut r = TreeRemoval::new();
    r.step(RemovalEvent::Inspected(Ok((false, 0o100644))));
    match r.step(RemovalEvent::Removed(Err(busy()))) {
        RemovalStep::Done(Err(f)) => assert_eq!(f.raw_os_error, Some(16)),
        _ => panic!("the removal did not fail"),
    }
}
