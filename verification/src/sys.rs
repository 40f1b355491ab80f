//! What the platform reports, as plain values, and the decisions taken on
//! its answers, for Linux and macOS: which failures mean "cannot share
//! extents", what an APFS attribute buffer says of a file's sharing, whether
//! a process probe means "alive", and the free-space arithmetic.
use vstd::prelude::*;
use crate::error::IoFailure;

verus! {

/// Free space and type of the filesystem holding a path.
#[derive(Debug, Clone)]
pub struct Filesystem {
    /// Bytes available to an unprivileged writer (`f_bavail * f_frsize`).
    pub available_bytes: u64,
    /// `f_fstypename`, e.g. `apfs`; empty where the platform does not report it.
    pub fs_type: String,
}

/// Extent-sharing attributes of one file, where the platform reports them.
#[derive(Debug, Clone, Copy, PartialEq, Eq, Structural)]
pub struct Sharing {
    /// Bytes this file does not share with any other file.
    pub private_bytes: u64,
    /// Equal for files that are still full clones of one another.
    pub clone_id: Option<u64>,
    /// Number of files sharing `clone_id`; meaningful for full clones only.
    pub clone_refcount: Option<u32>,
}

/// The platforms clonedir runs on, each with its own way of sharing extents.
#[derive(Clone, Copy, Debug, PartialEq, Eq, Structural)]
pub enum Platform {
    /// Linux: `FICLONE` reflinks; extent sharing is not reported.
    Linux,
    /// macOS: APFS `clonefile`; `getattrlist` reports extent sharing.
    MacOs,
}

/// The `errno` values with which a filesystem pair refuses to share extents:
/// on Linux (`FICLONE`) EXDEV, EOPNOTSUPP, EINVAL and ENOTTY; on macOS
/// (`clonefile`) EXDEV, ENOTSUP and EOPNOTSUPP.
pub open spec fn unclonable_code(platform: Platform, code: i32) -> bool {
    match platform {
        Platform::Linux => code == 18 || code == 95 || code == 22 || code == 25,
        Platform::MacOs => code == 18 || code == 45 || code == 102,
    }
}

/// Whether a failure on `platform` means "this filesystem pair cannot share
/// extents", as opposed to a failure that copying would not fix either.
pub fn is_unclonable(platform: Platform, error: &IoFailure) -> (r: bool)
    ensures
        r == (error.raw_os_error matches Some(code) && unclonable_code(platform, code)),
{
    match error.raw_os_error {
        Some(code) => match platform {
            Platform::Linux => code == 18 || code == 95 || code == 22 || code == 25,
            Platform::MacOs => code == 18 || code == 45 || code == 102,
        },
        None => false,
    }
}

// ------------------------------------------------- extent-sharing attributes

/// The little-endian `u32` at byte `o` of `b` (every Mac is little-endian).
pub open spec fn le_u32(b: Seq<u8>, o: int) -> nat {
    (b[o] + b[o + 1] * 0x100 + b[o + 2] * 0x1_0000 + b[o + 3] * 0x100_0000) as nat
}

/// The little-endian `u64` at byte `o` of `b`.
pub open spec fn le_u64(b: Seq<u8>, o: int) -> nat {
    le_u32(b, o) + le_u32(b, o + 4) * 0x1_0000_0000
}

/// The mask of extended common attributes a `getattrlist` buffer returned:
/// after the `u32` length come five `u32` masks, the fifth at byte 20.
pub open spec fn returned_mask(b: Seq<u8>) -> u32 {
    le_u32(b, 20) as u32
}

/// `ATTR_CMNEXT_PRIVATESIZE`: the private size (an `i64`) was returned.
pub open spec fn has_private_size(mask: u32) -> bool {
    mask & 0x8 != 0
}

/// `ATTR_CMNEXT_CLONEID`: the clone id (a `u64`) was returned.
pub open spec fn has_clone_id(mask: u32) -> bool {
    mask & 0x100 != 0
}

/// `ATTR_CMNEXT_CLONE_REFCNT`: the clone reference count (a `u32`) was returned.
pub open spec fn has_refcount(mask: u32) -> bool {
    mask & 0x1000 != 0
}

/// Where the clone id is: after the private size, when that was returned.
pub open spec fn clone_id_offset(mask: u32) -> int {
    24 + if has_private_size(mask) {
        8int
    } else {
        0int
    }
}

/// Where the reference count is: after the clone id, when that was returned.
pub open spec fn refcount_offset(mask: u32) -> int {
    clone_id_offset(mask) + if has_clone_id(mask) {
        8int
    } else {
        0int
    }
}

/// How many bytes of the buffer the returned values take.
pub open spec fn attributes_len(mask: u32) -> int {
    refcount_offset(mask) + if has_refcount(mask) {
        4int
    } else {
        0int
    }
}

/// An `i64` held in the bits `v`, clamped at 0.
pub open spec fn nonnegative(v: nat) -> u64 {
    if v >= 0x8000_0000_0000_0000 {
        0
    } else {
        v as u64
    }
}

/// The sharing a `getattrlist` buffer reports: the values of the returned
/// attributes follow the masks in ascending bit order (private size, clone
/// id, reference count), each 4-byte aligned; without a private size the
/// file reports no sharing; a negative private size counts as 0.
pub open spec fn attribute_sharing(b: Seq<u8>) -> Option<Sharing> {
    let m = returned_mask(b);
    if !has_private_size(m) {
        None
    } else {
        Some(
            Sharing {
                private_bytes: nonnegative(le_u64(b, 24)),
                clone_id: if has_clone_id(m) {
                    Some(le_u64(b, clone_id_offset(m)) as u64)
                } else {
                    None
                },
                clone_refcount: if has_refcount(m) {
                    Some(le_u32(b, refcount_offset(m)) as u32)
                } else {
                    None
                },
            },
        )
    }
}

/// The sharing a platform reports for a file, from the attribute buffer it
/// returned for it: Linux reports none; macOS reports what the buffer says.
pub open spec fn platform_sharing(platform: Platform, attributes: Seq<u8>) -> Option<Sharing> {
    match platform {
        Platform::Linux => None,
        Platform::MacOs => attribute_sharing(attributes),
    }
}

fn read_u32(b: &[u8], o: usize) -> (r: u32)
    requires
        o + 4 <= b@.len(),
    ensures
        r == le_u32(b@, o as int),
{
    let v: u64 = b[o] as u64 + (b[o + 1] as u64) * 0x100 + (b[o + 2] as u64) * 0x1_0000 + (b[o + 3] as u64)
        * 0x100_0000;
    v as u32
}

fn read_u64(b: &[u8], o: usize) -> (r: u64)
    requires
        o <= 64,
        o + 8 <= b@.len(),
    ensures
        r == le_u64(b@, o as int),
{
    let lo = read_u32(b, o) as u64;
    let hi = read_u32(b, o + 4) as u64;
    assert(hi * 0x1_0000_0000 + lo <= u64::MAX) by (nonlinear_arith)
        requires
            hi <= u32::MAX,
            lo <= u32::MAX,
    ;
    lo + hi * 0x1_0000_0000
}

/// Parses the buffer `getattrlist` filled for a file's extended common
/// attributes (private size, clone id, clone reference count).
pub fn sharing_from_attributes(buf: &[u8]) -> (r: Option<Sharing>)
    requires
        24 <= buf@.len(),
        attributes_len(returned_mask(buf@)) <= buf@.len(),
    ensures
        r == attribute_sharing(buf@),
{
    let mask = read_u32(buf, 20);
    if mask & 0x8 == 0 {
        return None;
    }
    let private = read_u64(buf, 24);
    let mut at: usize = 32;
    let clone_id = if mask & 0x100 != 0 {
        let v = read_u64(buf, at);
        at = at + 8;
        Some(v)
    } else {
        None
    };
    let clone_refcount = if mask & 0x1000 != 0 {
        Some(read_u32(buf, at))
    } else {
        None
    };
    let private_bytes = if private >= 0x8000_0000_0000_0000 {
        0
    } else {
        private
    };
    Some(Sharing { private_bytes, clone_id, clone_refcount })
}

/// Extent-sharing attributes of a file on `platform`, from the attribute
/// buffer the platform returned for it (Linux returns none, so pass an
/// empty one).
pub fn sharing(platform: Platform, attributes: &[u8]) -> (r: Option<Sharing>)
    requires
        platform == Platform::MacOs ==> 24 <= attributes@.len() && attributes_len(returned_mask(attributes@))
            <= attributes@.len(),
    ensures
        r == platform_sharing(platform, attributes@),
{
    match platform {
        Platform::Linux => None,
        Platform::MacOs => sharing_from_attributes(attributes),
    }
}

/// Whether `pid` can name a process at all: `kill(2)` takes a positive
/// `i32`, and 0 would address the whole process group.
pub fn pid_can_be_probed(pid: u32) -> (r: bool)
    ensures
        r == (pid != 0 && pid <= i32::MAX),
{
    pid != 0 && pid <= 2147483647
}

/// What a `kill(pid, 0)` probe says of a process: it exists unless the call
/// failed with ESRCH. EPERM means it exists but belongs to someone else.
pub fn alive_after_probe(ret: i32, errno: Option<i32>) -> (r: bool)
    ensures
        r == (ret == 0 || errno != Some(3i32)),
{
    ret == 0 || match errno {
        Some(e) => e != 3,
        None => true,
    }
}

impl Filesystem {
    /// The filesystem whose fragments are `fragment_size` bytes and of which
    /// `fragments_available` are free to an unprivileged writer.
    pub fn from_counts(fragment_size: u64, fragments_available: u64, fs_type: String) -> (r: Filesystem)
        requires
            fragment_size * fragments_available <= u64::MAX,
        ensures
            r.available_bytes == fragment_size * fragments_available,
            r.fs_type@ == fs_type@,
    {
        Filesystem { available_bytes: fragment_size * fragments_available, fs_type }
    }
}

} // verus!
