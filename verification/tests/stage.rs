//! Stages: names, owner records, the sweep's choice, and how a stage ends.

use clonedir::stage::{
    conclude_failure, has_vanished, is_stage_name, removal_action, removal_outcome, RemovalAction, is_stale, owner_access_mode, owner_record, permission_bits,
    publish_outcome, stage_name, stage_owner, StageFacts, GITIGNORE_TEXT, KEPT_FILE, OWNER_FILE,
};
use clonedir::{Error, ErrorKind, IoErrorKind, IoFailure, STAGE_PREFIX};

#[test]
fn stage_names_carry_the_prefix_pid_time_and_serial() {
    assert_eq!(stage_name(4242, 0x1a2b, 0), ".clonedir-stage.4242.1a2b0");
    assert_eq!(stage_name(1, 255, 17), ".clonedir-stage.1.ff11");
    assert!(stage_name(7, 1, 2).starts_with(STAGE_PREFIX));
    assert!(is_stage_name(&stage_name(7, u128::MAX, u64::MAX)));
    assert!(is_stage_name(".clonedir-stage.stale"));
    assert!(!is_stage_name("clonedir-stage.x"));
    assert!(!is_stage_name("unrelated-dir"));
    assert_eq!((OWNER_FILE, KEPT_FILE, GITIGNORE_TEXT), ("owner", "kept", "*\n"));
}

#[test]
fn an_owner_record_names_its_pid() {
    let text = owner_record(31337, 1700000000, "node_modules");
    assert_eq!(
        text,
        "clonedir-stage v1\npid=31337\nstarted=1700000000\ndestination=node_modules\n"
    );
    assert_eq!(stage_owner(&text), Some(31337));
    // A destination name cannot smuggle in another owner.
    let text = owner_record(5, 0, "x\npid=6");
    assert_eq!(stage_owner(&text), Some(5));
}

#[test]
fn only_clonedir_records_name_an_owner() {
    assert_eq!(stage_owner("clonedir-stage v1\npid=12\n"), Some(12));
    assert_eq!(stage_owner("clonedir-stage v1\r\npid=12\r\n"), Some(12));
    assert_eq!(stage_owner("clonedir-stage v1\nother=1\npid=+12"), Some(12));
    assert_eq!(stage_owner("something else\npid=12\n"), None);
    assert_eq!(stage_owner(""), None);
    assert_eq!(stage_owner("clonedir-stage v1\n"), None);
    assert_eq!(stage_owner("clonedir-stage v1\npid=abc\npid=12\n"), None);
    assert_eq!(stage_owner("clonedir-stage v1\npid=4294967296\n"), None);
    assert_eq!(stage_owner("clonedir-stage v1\npid=4294967295\n"), Some(u32::MAX));
}

fn facts() -> StageFacts {
    StageFacts { is_dir: true, uid: 501, kept: false, owner: Some(77), owner_alive: false }
}

#[test]
fn stale_stages_are_swept_only_when_their_owner_is_gone() {
    assert!(is_stale(&facts(), 501));
    assert!(!is_stale(&StageFacts { owner_alive: true, ..facts() }, 501));
    assert!(!is_stale(&StageFacts { owner: None, ..facts() }, 501));
    assert!(!is_stale(&StageFacts { kept: true, ..facts() }, 501));
    assert!(!is_stale(&StageFacts { is_dir: false, ..facts() }, 501));
    assert!(!is_stale(&facts(), 0));
}

#[test]
fn owners_regain_access_to_read_only_directories() {
    assert_eq!(owner_access_mode(0o555), Some(0o755));
    assert_eq!(owner_access_mode(0o40555), Some(0o755));
    assert_eq!(owner_access_mode(0o000), Some(0o700));
    assert_eq!(owner_access_mode(0o1500), Some(0o1700));
    assert_eq!(owner_access_mode(0o755), None);
    assert_eq!(owner_access_mode(0o40700), None);
    assert_eq!(permission_bits(0o40555), 0o555);
    assert_eq!(permission_bits(0o104755), 0o4755);
}

#[test]
fn a_destination_that_appeared_is_not_replaced() {
    assert!(publish_outcome("/p/dst", Ok(())).is_ok());
    let exists = IoFailure { kind: IoErrorKind::AlreadyExists, raw_os_error: Some(17), message: "File exists".to_string() };
    let e = publish_outcome("/p/dst", Err(exists)).unwrap_err();
    assert_eq!(e.kind, ErrorKind::DestinationExists);
    assert_eq!(e.exit_code(), 6);
    assert_eq!(e.detail, "destination appeared while cloning; it was not touched");
    let not_empty = IoFailure { kind: IoErrorKind::Other, raw_os_error: Some(66), message: "Directory not empty".to_string() };
    assert_eq!(publish_outcome("/p/dst", Err(not_empty)).unwrap_err().kind, ErrorKind::DestinationExists);
    let other = IoFailure { kind: IoErrorKind::Other, raw_os_error: Some(18), message: "Cross-device link".to_string() };
    let e = publish_outcome("/p/dst", Err(other)).unwrap_err();
    assert_eq!(e.kind, ErrorKind::Io);
    assert_eq!(e.detail, "Cross-device link");
}

#[test]
fn a_failed_stage_is_named_when_it_stays() {
    let error = || Error::new(ErrorKind::SpecialFile, Some("/s/fifo"), "source contains a FIFO, socket or device".to_string());
    let kept = conclude_failure(error(), "/p/.clonedir-stage.1.a", true, None);
    assert_eq!(kept.kept_stage.as_deref(), Some("/p/.clonedir-stage.1.a"));
    assert_eq!(kept.detail, "source contains a FIFO, socket or device");
    let removed = conclude_failure(error(), "/p/.clonedir-stage.1.a", false, None);
    assert_eq!(removed.kept_stage, None);
    let stuck = IoFailure { kind: IoErrorKind::PermissionDenied, raw_os_error: Some(1), message: "Operation not permitted".to_string() };
    let stuck = conclude_failure(error(), "/p/.clonedir-stage.1.a", false, Some(stuck));
    assert_eq!(stuck.kept_stage.as_deref(), Some("/p/.clonedir-stage.1.a"));
    assert_eq!(
        stuck.detail,
        "source contains a FIFO, socket or device; and the stage could not be removed (Operation not permitted)"
    );
    assert_eq!(stuck.kind, ErrorKind::SpecialFile);
}

#[test]
fn removal_empties_directories_after_restoring_access() {
    assert_eq!(removal_action(false, 0o100444), RemovalAction::RemoveEntry);
    assert_eq!(removal_action(true, 0o40755), RemovalAction::EmptyDirectory { restore_mode: None });
    assert_eq!(removal_action(true, 0o40555), RemovalAction::EmptyDirectory { restore_mode: Some(0o755) });
    assert_eq!(removal_action(true, 0o40000), RemovalAction::EmptyDirectory { restore_mode: Some(0o700) });
}

#[test]
fn entries_that_vanish_during_removal_count_as_removed() {
    let gone = IoFailure { kind: IoErrorKind::NotFound, raw_os_error: Some(2), message: "No such file".to_string() };
    let busy = IoFailure { kind: IoErrorKind::Other, raw_os_error: Some(16), message: "Device busy".to_string() };
    assert!(has_vanished(&gone));
    assert!(!has_vanished(&busy));
    assert!(removal_outcome(Ok(())).is_ok());
    assert!(removal_outcome(Err(gone)).is_ok());
    assert_eq!(removal_outcome(Err(busy)).unwrap_err().raw_os_error, Some(16));
}
