//! Preflight: every check an input must pass, in its order.

use clonedir::plan::{
    check_parent, check_source, check_target, destination_in, destination_parts, resolve_parent,
    resolve_source, split_destination, destination_under, NodeFacts, TargetFacts,
};
use clonedir::{ErrorKind, Fallback, Filesystem, IoErrorKind, IoFailure, Options};

fn not_found() -> IoFailure {
    IoFailure { kind: IoErrorKind::NotFound, raw_os_error: Some(2), message: "No such file or directory (os error 2)".to_string() }
}

fn dir(dev: u64, ino: u64) -> NodeFacts {
    NodeFacts { is_dir: true, dev, ino }
}

fn fs(available: u64) -> Result<Filesystem, IoFailure> {
    Ok(Filesystem { available_bytes: available, fs_type: "apfs".to_string() })
}

fn facts() -> TargetFacts {
    TargetFacts { exists: false, under_source: false, ancestors: vec![(1, 2), (1, 1)], filesystem: fs(1 << 30) }
}

fn opts(fallback: Fallback, min_free_bytes: u64) -> Options {
    Options { fallback, min_free_bytes, keep_failed_stage: false }
}

#[test]
fn a_missing_source_is_an_invalid_source() {
    let e = resolve_source("/nope", Err(not_found())).unwrap_err();
    assert_eq!(e.kind, ErrorKind::InvalidSource);
    assert_eq!(e.exit_code(), 1);
    assert_eq!(e.path.as_deref(), Some("/nope"));
    assert_eq!(e.detail, "source directory does not exist");
    assert_eq!(resolve_source("s", Ok("/abs/s".to_string())).unwrap(), "/abs/s");
    let denied = IoFailure { kind: IoErrorKind::PermissionDenied, raw_os_error: Some(13), message: "Permission denied".to_string() };
    assert_eq!(resolve_source("/x", Err(denied)).unwrap_err().kind, ErrorKind::PermissionDenied);
}

#[test]
fn the_source_must_be_a_directory() {
    let e = check_source("/abs/f", Ok(NodeFacts { is_dir: false, dev: 1, ino: 5 })).unwrap_err();
    assert_eq!(e.kind, ErrorKind::InvalidSource);
    assert_eq!(e.detail, "source is not a directory");
    assert_eq!(check_source("/abs/s", Ok(dir(1, 5))).unwrap(), dir(1, 5));
}

#[test]
fn the_destination_must_name_a_new_entry() {
    let (name, parent) = destination_parts("dst").unwrap();
    assert_eq!((name.as_str(), parent.as_str()), ("dst", "."));
    let (name, parent) = destination_parts("/a/b/dst").unwrap();
    assert_eq!((name.as_str(), parent.as_str()), ("dst", "/a/b"));
    let (name, parent) = destination_parts("/dst").unwrap();
    assert_eq!((name.as_str(), parent.as_str()), ("dst", "/"));
    for bad in ["/", "a/..", "..", ""] {
        let e = destination_parts(bad).unwrap_err();
        assert_eq!(e.kind, ErrorKind::InvalidDestination, "{bad}");
        assert_eq!(e.detail, "destination must name a new entry");
    }
}

#[test]
fn a_name_and_a_parent_make_the_destination_parts() {
    let some = |s: &str| Some(s.to_string());
    assert_eq!(split_destination("a/b", some("b"), some("a")).unwrap(), ("b".to_string(), "a".to_string()));
    assert_eq!(split_destination("b", some("b"), some("")).unwrap(), ("b".to_string(), ".".to_string()));
    assert_eq!(split_destination("b", some("b"), None).unwrap(), ("b".to_string(), ".".to_string()));
    for (path, name) in [("x/.", some(".")), ("x/..", some("..")), ("/", None)] {
        let e = split_destination(path, name, some("x")).unwrap_err();
        assert_eq!(e.kind, ErrorKind::InvalidDestination);
        assert_eq!(e.path.as_deref(), Some(path));
        assert_eq!(e.detail, "destination must name a new entry");
    }
}

#[test]
fn the_parent_must_exist_and_be_a_directory() {
    let e = resolve_parent("/no/such", Err(not_found())).unwrap_err();
    assert_eq!(e.kind, ErrorKind::InvalidDestination);
    assert_eq!(e.detail, "parent directory of destination does not exist");
    let e = check_parent("/abs/file", Ok(NodeFacts { is_dir: false, dev: 1, ino: 9 })).unwrap_err();
    assert_eq!(e.kind, ErrorKind::InvalidDestination);
    assert_eq!(e.detail, "parent of destination is not a directory");
    assert!(check_parent("/abs", Ok(dir(1, 2))).is_ok());
}

#[test]
fn a_plan_resolves_source_and_destination() {
    let p = check_target("/abs/src".to_string(), dir(1, 5), "/abs", dir(1, 2), "/abs/dst".to_string(), facts(), &opts(Fallback::Fail, 100)).unwrap();
    assert_eq!(p.source, "/abs/src");
    assert_eq!(p.destination, "/abs/dst");
    assert!(!p.cross_filesystem);
    assert_eq!(p.filesystem.available_bytes, 1 << 30);
    assert_eq!(destination_in("/abs", "dst"), "/abs/dst");
}

#[test]
fn existing_destinations_are_never_touched() {
    let f = TargetFacts { exists: true, ..facts() };
    let e = check_target("/abs/src".to_string(), dir(1, 5), "/abs", dir(1, 2), "/abs/dst".to_string(), f, &opts(Fallback::Fail, 0)).unwrap_err();
    assert_eq!(e.kind, ErrorKind::DestinationExists);
    assert_eq!(e.exit_code(), 6);
    assert_eq!(e.path.as_deref(), Some("/abs/dst"));
    assert_eq!(e.detail, "destination exists; clonedir never overwrites or merges into it");
}

#[test]
fn a_destination_inside_the_source_is_refused() {
    let f = TargetFacts { under_source: true, ..facts() };
    let e = check_target("/abs/src".to_string(), dir(1, 5), "/abs/src/a", dir(1, 6), "/abs/src/a/copy".to_string(), f, &opts(Fallback::Fail, 0)).unwrap_err();
    assert_eq!(e.kind, ErrorKind::Nested);
    assert_eq!(e.detail, "destination lies inside the source");
    // An alias of the source among the parent's ancestors, though the paths differ.
    let f = TargetFacts { ancestors: vec![(1, 6), (1, 5), (1, 2)], ..facts() };
    let e = check_target("/abs/src".to_string(), dir(1, 5), "/alias/src/a", dir(1, 6), "/alias/src/a/inner".to_string(), f, &opts(Fallback::Fail, 0)).unwrap_err();
    assert_eq!(e.kind, ErrorKind::Nested);
}

#[test]
fn another_filesystem_needs_the_copy_fallback() {
    let e = check_target("/abs/src".to_string(), dir(1, 5), "/mnt", dir(2, 2), "/mnt/dst".to_string(), facts(), &opts(Fallback::Fail, 0)).unwrap_err();
    assert_eq!(e.kind, ErrorKind::CrossFilesystem);
    assert_eq!(e.exit_code(), 4);
    assert_eq!(
        e.detail,
        "source and destination are on different filesystems, so nothing can be cloned; pass the copy fallback to copy bytes"
    );
    let p = check_target("/abs/src".to_string(), dir(1, 5), "/mnt", dir(2, 2), "/mnt/dst".to_string(), facts(), &opts(Fallback::Copy, 0)).unwrap();
    assert!(p.cross_filesystem);
}

#[test]
fn the_space_floor_is_checked_before_anything_is_created() {
    let f = TargetFacts { filesystem: fs(1000), ..facts() };
    let e = check_target("/abs/src".to_string(), dir(1, 5), "/abs", dir(1, 2), "/abs/dst".to_string(), f, &opts(Fallback::Fail, 1001)).unwrap_err();
    assert_eq!(e.kind, ErrorKind::InsufficientSpace);
    assert_eq!(e.exit_code(), 5);
    assert_eq!(e.path.as_deref(), Some("/abs"));
    assert_eq!(e.detail, "1000 bytes available, below the 1001 byte floor");
    let f = TargetFacts { filesystem: fs(1000), ..facts() };
    assert!(check_target("/abs/src".to_string(), dir(1, 5), "/abs", dir(1, 2), "/abs/dst".to_string(), f, &opts(Fallback::Fail, 1000)).is_ok());
}

#[test]
fn checks_come_in_order() {
    // Exists and nested and cross-filesystem and short of space: exists wins.
    let f = TargetFacts { exists: true, under_source: true, ancestors: vec![], filesystem: fs(0) };
    let e = check_target("/abs/src".to_string(), dir(1, 5), "/abs/src", dir(2, 5), "/abs/src/d".to_string(), f, &opts(Fallback::Fail, 10)).unwrap_err();
    assert_eq!(e.kind, ErrorKind::DestinationExists);
    let io = IoFailure { kind: IoErrorKind::Other, raw_os_error: Some(5), message: "Input/output error".to_string() };
    let f = TargetFacts { filesystem: Err(io), ..facts() };
    let e = check_target("/abs/src".to_string(), dir(1, 5), "/abs", dir(1, 2), "/abs/d".to_string(), f, &opts(Fallback::Fail, 0)).unwrap_err();
    assert_eq!(e.kind, ErrorKind::Io);
    assert_eq!(e.path.as_deref(), Some("/abs"));
}

#[test]
fn destinations_join_as_paths_do() {
    assert_eq!(destination_in("/abs", "dst"), "/abs/dst");
    assert_eq!(destination_in("/", "dst"), "/dst");
    assert_eq!(destination_in("/abs/", "dst"), "/abs/dst");
    assert_eq!(destination_in("", "dst"), "dst");
    assert_eq!(destination_in("/abs", "/other"), "/other");
    for (base, name) in [("/a", "b"), ("/", "b"), ("a/", "b"), ("", "b"), ("/a", "/b"), ("a//", "b c")] {
        let want = std::path::Path::new(base).join(name).to_string_lossy().into_owned();
        assert_eq!(destination_in(base, name), want, "{base} {name}");
    }
}

#[test]
fn nesting_by_path_goes_by_whole_components() {
    assert!(destination_under("/abs/src/a/copy", "/abs/src"));
    assert!(destination_under("/abs/src", "/abs/src"));
    assert!(!destination_under("/abs/src2/copy", "/abs/src"));
    assert!(!destination_under("/abs/dst", "/abs/src"));
}
