//! Measuring a tree: blocks, lengths and files, each inode once.

use clonedir::measure::UsageTally;
use clonedir::sys::sharing_from_attributes;
use clonedir::{sharing, Platform, Sharing, Usage};

#[test]
fn each_inode_is_counted_once() {
    let mut t = UsageTally::new();
    assert!(t.visit(1, 10, 8));
    assert!(t.visit(1, 11, 2048));
    t.count_file(1_048_576, None);
    // A second hard link of the same file counts nothing.
    assert!(!t.visit(1, 11, 2048));
    // The same inode number on another device is another file.
    assert!(t.visit(2, 11, 0));
    t.count_file(0, None);
    let u = t.usage();
    assert_eq!(u, Usage { files: 2, logical_bytes: 1_048_576, allocated_bytes: (8 + 2048) * 512, private_bytes: None });
}

#[test]
fn private_bytes_add_up_while_every_file_reports_them() {
    let mut t = UsageTally::new();
    assert_eq!(t.usage().private_bytes, Some(0));
    t.visit(1, 1, 0);
    t.count_file(10, Some(Sharing { private_bytes: 4096, clone_id: Some(3), clone_refcount: Some(2) }));
    t.visit(1, 2, 0);
    t.count_file(10, Some(Sharing { private_bytes: 1, clone_id: None, clone_refcount: None }));
    assert_eq!(t.usage().private_bytes, Some(4097));
    t.visit(1, 3, 0);
    t.count_file(10, None);
    assert_eq!(t.usage().private_bytes, None);
    t.visit(1, 4, 0);
    t.count_file(10, Some(Sharing { private_bytes: 5, clone_id: None, clone_refcount: None }));
    assert_eq!(t.usage().private_bytes, None, "once unknown, stays unknown");
    assert_eq!(t.usage().files, 4);
}

#[test]
fn linux_reports_no_sharing() {
    assert_eq!(sharing(Platform::Linux, &[]), None);
    assert_eq!(Usage::default(), Usage { files: 0, logical_bytes: 0, allocated_bytes: 0, private_bytes: None });
}

/// A getattrlist buffer: length, five masks (the fifth returned), then values.
fn attributes(mask: u32, values: &[&[u8]]) -> Vec<u8> {
    let mut b = vec![0u8; 20];
    b.extend_from_slice(&mask.to_le_bytes());
    for v in values {
        b.extend_from_slice(v);
        while b.len() % 4 != 0 {
            b.push(0);
        }
    }
    b.resize(256, 0xee);
    b
}

#[test]
fn apfs_attributes_give_private_bytes_clone_id_and_refcount() {
    let all = attributes(0x8 | 0x100 | 0x1000, &[&4096i64.to_le_bytes(), &77u64.to_le_bytes(), &3u32.to_le_bytes()]);
    let want = Some(Sharing { private_bytes: 4096, clone_id: Some(77), clone_refcount: Some(3) });
    assert_eq!(sharing_from_attributes(&all), want);
    assert_eq!(sharing(Platform::MacOs, &all), want);
    // A fresh clone owns nothing.
    let fresh = attributes(0x8 | 0x100, &[&0i64.to_le_bytes(), &(u64::MAX - 1).to_le_bytes()]);
    assert_eq!(
        sharing_from_attributes(&fresh),
        Some(Sharing { private_bytes: 0, clone_id: Some(u64::MAX - 1), clone_refcount: None })
    );
    // Without the clone id, the refcount follows the private size directly.
    let no_id = attributes(0x8 | 0x1000, &[&5i64.to_le_bytes(), &9u32.to_le_bytes()]);
    assert_eq!(sharing_from_attributes(&no_id), Some(Sharing { private_bytes: 5, clone_id: None, clone_refcount: Some(9) }));
    // A negative private size counts as 0.
    let negative = attributes(0x8, &[&(-7i64).to_le_bytes()]);
    assert_eq!(sharing_from_attributes(&negative), Some(Sharing { private_bytes: 0, clone_id: None, clone_refcount: None }));
    // Without a private size the file reports no sharing.
    let none = attributes(0x100, &[&1u64.to_le_bytes()]);
    assert_eq!(sharing_from_attributes(&none), None);
}

#[test]
fn a_fresh_apfs_clone_measures_no_private_bytes() {
    let fresh = attributes(0x8 | 0x100 | 0x1000, &[&0i64.to_le_bytes(), &5u64.to_le_bytes(), &2u32.to_le_bytes()]);
    let mut t = UsageTally::new();
    assert!(t.visit(1, 1, 8));
    t.count_file(4096, sharing(Platform::MacOs, &fresh));
    assert_eq!(t.usage().private_bytes, Some(0));
}
