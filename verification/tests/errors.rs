//! Errors, their exit statuses, and the platform's answers.

use clonedir::sys::{alive_after_probe, pid_can_be_probed};
use clonedir::{is_unclonable, Error, ErrorKind, Filesystem, IoErrorKind, IoFailure, Platform};

fn kind_error(kind: ErrorKind) -> Error {
    Error::new(kind, None, String::new())
}

#[test]
fn exit_statuses_are_distinct_where_a_caller_can_act() {
    assert_eq!(kind_error(ErrorKind::SourceChanged).exit_code(), 3);
    assert_eq!(kind_error(ErrorKind::CrossFilesystem).exit_code(), 4);
    assert_eq!(kind_error(ErrorKind::NotClonable).exit_code(), 4);
    assert_eq!(kind_error(ErrorKind::InsufficientSpace).exit_code(), 5);
    assert_eq!(kind_error(ErrorKind::DestinationExists).exit_code(), 6);
    assert_eq!(kind_error(ErrorKind::Interrupted).exit_code(), 130);
    for kind in [
        ErrorKind::InvalidSource,
        ErrorKind::InvalidDestination,
        ErrorKind::Nested,
        ErrorKind::PermissionDenied,
        ErrorKind::MountPointInside,
        ErrorKind::SpecialFile,
        ErrorKind::Io,
    ] {
        assert_eq!(kind_error(kind).exit_code(), 1, "{kind:?}");
    }
}

#[test]
fn an_error_displays_its_detail_and_path() {
    let e = Error::new(ErrorKind::Nested, Some("/s/a/copy"), "destination lies inside the source".to_string());
    assert_eq!(e.message(), "destination lies inside the source: /s/a/copy");
    let e = Error::new(ErrorKind::Interrupted, None, "interrupted".to_string());
    assert_eq!(e.message(), "interrupted");
    assert_eq!(ErrorKind::MountPointInside.name(), "MountPointInside");
}

#[test]
fn operating_system_failures_keep_their_message() {
    let f = IoFailure { kind: IoErrorKind::PermissionDenied, raw_os_error: Some(13), message: "Permission denied (os error 13)".to_string() };
    let e = Error::io("/s/z", f);
    assert_eq!(e.kind, ErrorKind::PermissionDenied);
    assert_eq!(e.path.as_deref(), Some("/s/z"));
    assert_eq!(e.detail, "Permission denied (os error 13)");
    assert_eq!(e.io.as_ref().map(|f| f.raw_os_error), Some(Some(13)));
    let f = IoFailure { kind: IoErrorKind::NotFound, raw_os_error: Some(2), message: "gone".to_string() };
    assert_eq!(Error::io("/x", f).kind, ErrorKind::Io);
}

#[test]
fn unclonable_failures_are_recognised_by_errno() {
    let f = |code: Option<i32>| IoFailure { kind: IoErrorKind::Other, raw_os_error: code, message: String::new() };
    for code in [18, 95, 22, 25] {
        assert!(is_unclonable(Platform::Linux, &f(Some(code))), "{code}");
    }
    for code in [1, 2, 13, 28, 45, 102] {
        assert!(!is_unclonable(Platform::Linux, &f(Some(code))), "{code}");
    }
    for code in [18, 45, 102] {
        assert!(is_unclonable(Platform::MacOs, &f(Some(code))), "{code}");
    }
    for code in [1, 22, 25, 95] {
        assert!(!is_unclonable(Platform::MacOs, &f(Some(code))), "{code}");
    }
    assert!(!is_unclonable(Platform::Linux, &f(None)));
    assert!(!is_unclonable(Platform::MacOs, &f(None)));
}

#[test]
fn process_probes() {
    assert!(!pid_can_be_probed(0));
    assert!(pid_can_be_probed(1));
    assert!(pid_can_be_probed(i32::MAX as u32));
    assert!(!pid_can_be_probed(i32::MAX as u32 + 1));
    assert!(alive_after_probe(0, None));
    assert!(alive_after_probe(-1, Some(1)), "EPERM: someone else's process");
    assert!(!alive_after_probe(-1, Some(3)), "ESRCH: gone");
}

#[test]
fn free_space_is_fragments_times_their_size() {
    let f = Filesystem::from_counts(4096, 1000, "ext4".to_string());
    assert_eq!(f.available_bytes, 4_096_000);
    assert_eq!(f.fs_type, "ext4");
}
