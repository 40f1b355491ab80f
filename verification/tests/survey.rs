//! Measuring a tree step by step: each inode once, directories entered once.

use clonedir::survey::{EntryStat, MeasureEvent, MeasureStep, Measurement};
use clonedir::{Platform, Usage};

fn dir(ino: u64) -> EntryStat {
    EntryStat { dev: 1, ino, blocks: 8, size: 4096, is_dir: true, is_file: false }
}

fn file(ino: u64, size: u64) -> EntryStat {
    EntryStat { dev: 1, ino, blocks: 2, size, is_dir: false, is_file: true }
}

fn entry(m: &mut Measurement, name: &str) {
    match m.step(MeasureEvent::EntryRead(Some(Ok(name.as_bytes().to_vec())))) {
        MeasureStep::InspectEntry(n) => assert_eq!(n, name.as_bytes().to_vec()),
        _ => panic!("the entry is not inspected"),
    }
}

#[test]
fn a_tree_is_measured_depth_first_counting_each_inode_once() {
    let mut m = Measurement::new(Platform::Linux);
    assert!(matches!(m.step(MeasureEvent::Inspected(Ok(dir(1)))), MeasureStep::Open));
    assert!(matches!(m.step(MeasureEvent::Opened(Ok(()))), MeasureStep::NextEntry { ascend: false }));
    entry(&mut m, "one");
    assert!(matches!(m.step(MeasureEvent::Inspected(Ok(file(2, 100)))), MeasureStep::ReadSharing));
    assert!(matches!(m.step(MeasureEvent::SharingRead(Ok(vec![]))), MeasureStep::NextEntry { ascend: true }));
    // A second hard link of the same file adds nothing.
    entry(&mut m, "two");
    assert!(matches!(m.step(MeasureEvent::Inspected(Ok(file(2, 100)))), MeasureStep::NextEntry { ascend: true }));
    match m.step(MeasureEvent::EntryRead(None)) {
        MeasureStep::Done(Ok(u)) => {
            assert_eq!(u, Usage { files: 1, logical_bytes: 100, allocated_bytes: (8 + 2) * 512, private_bytes: None })
        }
        _ => panic!("the measurement is not done"),
    }
}

#[test]
fn a_failure_ends_the_measurement() {
    let mut m = Measurement::new(Platform::Linux);
    m.step(MeasureEvent::Inspected(Ok(dir(1))));
    let denied = clonedir::IoFailure {
        kind: clonedir::IoErrorKind::PermissionDenied,
        raw_os_error: Some(13),
        message: "Permission denied (os error 13)".to_string(),
    };
    match m.step(MeasureEvent::Opened(Err(denied))) {
        MeasureStep::Done(Err(f)) => assert_eq!(f.message, "Permission denied (os error 13)"),
        _ => panic!("the measurement did not fail"),
    }
}
