//! What the command prints: JSON documents and their plain-text forms.

use clonedir::measure::Usage;
use clonedir::plan::Plan;
use clonedir::report::{
    cloning_line, completion_line, dry_run_line, error_json, failure_message, json_path,
    json_string, kept_stage_line, plan_json, receipt_json, removed_line, sweep_json, usage_json,
    usage_line,
};
use clonedir::{Error, ErrorKind, Filesystem, IoErrorKind, IoFailure, Receipt};

fn receipt() -> Receipt {
    Receipt {
        source: "/abs/src".to_string(),
        destination: "/abs/dst".to_string(),
        filesystem: "apfs".to_string(),
        directories: 6,
        regular_files: 40,
        symlinks: 1,
        cloned_files: 40,
        copied_files: 0,
        logical_bytes: 307,
        copied_bytes: 0,
        hardlinked_files: 0,
        swept_stages: vec![],
        available_before: 1000,
        available_after: 990,
    }
}

#[test]
fn json_strings_are_escaped() {
    assert_eq!(json_string("a\"b\\c\n\u{1}"), "\"a\\\"b\\\\c\\n\\u0001\"");
}

#[test]
fn every_control_character_is_escaped() {
    assert_eq!(json_string("\r\t\u{1f}\u{0}"), "\"\\r\\t\\u001f\\u0000\"");
    assert_eq!(json_string(""), "\"\"");
    assert_eq!(json_string("plain é ✓"), "\"plain é ✓\"");
    for c in 0u32..0x20 {
        let text = char::from_u32(c).unwrap().to_string();
        let quoted = json_string(&text);
        assert!(quoted.chars().all(|q| q as u32 >= 0x20), "{quoted:?}");
    }
    assert_eq!(json_path("/a \"b\""), "\"/a \\\"b\\\"\"");
}

#[test]
fn a_receipt_is_one_json_object() {
    assert_eq!(
        receipt_json(&receipt()),
        "{\"ok\":true,\"source\":\"/abs/src\",\"destination\":\"/abs/dst\",\"filesystem\":\"apfs\",\
         \"directories\":6,\"regular_files\":40,\"symlinks\":1,\"cloned_files\":40,\"copied_files\":0,\
         \"logical_bytes\":307,\"copied_bytes\":0,\"hardlinked_files\":0,\"swept_stages\":[],\
         \"available_before\":1000,\"available_after\":990}"
    );
    let mut r = receipt();
    r.swept_stages = vec!["/p/.clonedir-stage.1.a".to_string(), "/p/x\"y".to_string()];
    assert!(receipt_json(&r)
        .contains("\"swept_stages\":[\"/p/.clonedir-stage.1.a\",\"/p/x\\\"y\"],"));
}

#[test]
fn an_error_is_one_json_object() {
    let mut e = Error::new(ErrorKind::SourceChanged, Some("/s/a"), "changed".to_string());
    assert_eq!(
        error_json(&e),
        "{\"ok\":false,\"error\":{\"kind\":\"SourceChanged\",\"path\":\"/s/a\",\"message\":\"changed\",\"kept_stage\":null}}"
    );
    e.path = None;
    e.kept_stage = Some("/p/stage".to_string());
    assert_eq!(
        error_json(&e),
        "{\"ok\":false,\"error\":{\"kind\":\"SourceChanged\",\"path\":null,\"message\":\"changed\",\"kept_stage\":\"/p/stage\"}}"
    );
    let e = Error::new(ErrorKind::DestinationExists, None, "x".to_string());
    assert!(error_json(&e).contains("\"kind\":\"DestinationExists\""));
}

#[test]
fn a_measurement_is_one_json_object() {
    let u = Usage { files: 1, logical_bytes: 1048576, allocated_bytes: 1052672, private_bytes: None };
    assert_eq!(
        usage_json("/d", &u),
        "{\"path\":\"/d\",\"files\":1,\"logical_bytes\":1048576,\"allocated_bytes\":1052672,\"private_bytes\":null}"
    );
    let u = Usage { private_bytes: Some(0), ..u };
    assert!(usage_json("/d", &u).ends_with("\"private_bytes\":0}"));
    assert_eq!(
        usage_line("/d", &u),
        "/d: 1 files, 1048576 logical bytes, 1052672 allocated (du), 0 private"
    );
    let u = Usage { private_bytes: None, ..u };
    assert!(usage_line("/d", &u).ends_with("unknown private"));
}

#[test]
fn a_dry_run_reports_its_plan() {
    let p = Plan {
        source: "/s".to_string(),
        destination: "/d".to_string(),
        cross_filesystem: false,
        filesystem: Filesystem { available_bytes: 42, fs_type: String::new() },
    };
    assert_eq!(
        plan_json(&p),
        "{\"ok\":true,\"dry_run\":true,\"source\":\"/s\",\"destination\":\"/d\",\"cross_filesystem\":false,\"filesystem\":\"\",\"available_bytes\":42}"
    );
    assert_eq!(dry_run_line("/s", "/d"), "Dry run: Would clone /s to /d");
}

#[test]
fn a_sweep_lists_what_it_removed() {
    assert_eq!(sweep_json(&[]), "{\"ok\":true,\"removed\":[]}");
    assert_eq!(
        sweep_json(&["/p/a".to_string(), "/p/b".to_string()]),
        "{\"ok\":true,\"removed\":[\"/p/a\",\"/p/b\"]}"
    );
    assert_eq!(removed_line("/p/a"), "Removed stale stage /p/a");
}

#[test]
fn plain_lines_report_progress() {
    assert_eq!(cloning_line("a", "b"), "Cloning a to b");
    assert_eq!(kept_stage_line("/p/s"), "Kept stage: /p/s");
    let mut r = receipt();
    r.copied_files = 2;
    r.cloned_files = 38;
    r.copied_bytes = 7;
    assert_eq!(
        completion_line(&r),
        "Clone completed successfully: 6 directories, 40 files (38 cloned, 2 copied, 7 bytes copied of 307 logical), 1 symlinks"
    );
}

#[test]
fn failures_print_plainly() {
    let e = Error::new(ErrorKind::InvalidSource, Some("/nope"), "source directory does not exist".to_string());
    assert_eq!(failure_message(&e), "Error: Source directory does not exist");
    let e = Error::new(ErrorKind::InvalidSource, Some("/f"), "source is not a directory".to_string());
    assert_eq!(failure_message(&e), "Error: source is not a directory: /f");
    let f = IoFailure { kind: IoErrorKind::PermissionDenied, raw_os_error: Some(13), message: "Permission denied (os error 13)".to_string() };
    let e = Error::io("/s/z", f);
    assert_eq!(failure_message(&e), "Error: Permission denied: /s/z");
    let e = Error::new(ErrorKind::Interrupted, None, "interrupted; the partial copy was discarded".to_string());
    assert_eq!(failure_message(&e), "Error: interrupted; the partial copy was discarded");
}

#[test]
fn plain_text_is_quoted_as_it_is() {
    assert_eq!(clonedir::report::json_string("/tmp/a b/ü"), "\"/tmp/a b/ü\"");
    assert_eq!(clonedir::report::json_string("tab\there"), "\"tab\\there\"");
    assert_eq!(clonedir::report::json_string("\u{1f}"), "\"\\u001f\"");
}

#[test]
fn measure_and_sweep_failures_name_the_path() {
    assert_eq!(
        clonedir::report::path_failure_line("/x", "No such file or directory (os error 2)"),
        "Error: /x: No such file or directory (os error 2)"
    );
}
