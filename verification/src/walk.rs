//! The decisions of a clone walk as a state machine: which entries are
//! refused, how each one is materialized, what the receipt counts, when free
//! space must be rechecked, and whether the source held still.
//!
//! The caller performs the filesystem work (reading directories, cloning,
//! copying) and hands each outcome to [`Walk`], which answers with the next
//! action or the error that ends the walk.
use vstd::prelude::*;
use std::collections::HashSet;
use crate::error::{Error, ErrorKind, ErrorModel, IoFailure, IoFailureModel, IoErrorKind, io_kind};
use crate::options::{Fallback, Options};
use crate::sys::{is_unclonable, unclonable_code, Platform};
use crate::text::{push_decimal, decimal, push_joined, join};
use crate::order::{in_name_order, name_views, sort_names};

verus! {

broadcast use vstd::std_specs::hash::group_hash_axioms;

/// Free space is rechecked after every this many entries.
pub const SPACE_CHECK_EVERY: u64 = 256;

/// The metadata that identifies one state of a source entry: inode, size,
/// mode, modification time and change time.
#[derive(Clone, Copy, Debug, PartialEq, Eq, Structural)]
pub struct Stamp {
    pub ino: u64,
    pub size: u64,
    pub mode: u32,
    pub mtime_sec: i64,
    pub mtime_nsec: i64,
    pub ctime_sec: i64,
    pub ctime_nsec: i64,
}

/// The type of a source entry.
#[derive(Clone, Copy, Debug, PartialEq, Eq, Structural)]
pub enum EntryKind {
    Symlink,
    File,
    Directory,
    /// A FIFO, socket or device.
    Other,
}

/// What the walk reads of a source entry (without following links).
#[derive(Clone, Copy, Debug)]
pub struct EntryMeta {
    pub dev: u64,
    pub nlink: u64,
    pub kind: EntryKind,
    pub stamp: Stamp,
}

/// How an accepted entry is to be materialized.
#[derive(Clone, Copy, Debug, PartialEq, Eq, Structural)]
pub enum EntryAction {
    /// Recreate the symlink verbatim.
    RecreateLink,
    /// Clone the regular file, then report the outcome.
    CloneFile,
    /// Create the directory and walk its entries.
    Descend,
}

/// A source entry as it was when it was copied.
#[derive(Clone, Debug)]
pub struct Record {
    pub path: String,
    pub stamp: Stamp,
}

/// The plain-value model of a [`Record`].
pub struct RecordModel {
    pub path: Seq<char>,
    pub stamp: Stamp,
}

impl View for Record {
    type V = RecordModel;

    open spec fn view(&self) -> RecordModel {
        RecordModel { path: self.path@, stamp: self.stamp }
    }
}

impl Record {
    /// Whether the entry still has the stamp it was copied with.
    pub fn matches(&self, observed: &Stamp) -> (r: bool)
        ensures
            r == (self.stamp == *observed),
    {
        self.stamp == *observed
    }
}

/// Where the walk stands between two events.
#[derive(Clone, Copy, Debug, PartialEq, Eq, Structural)]
pub enum WalkPhase {
    /// Between entries.
    Idle,
    /// A directory was entered; the names of its entries are awaited.
    Listing,
    /// The next entry's name was taken; the entry is to be counted.
    Named,
    /// An entry was counted and its metadata is awaited.
    Ticked,
    /// A regular file of `size` bytes is being cloned.
    Cloning { size: u64 },
    /// A regular file of `size` bytes could not be cloned and is to be
    /// copied, once there is known to be room for it (`room_checked`).
    Copying { size: u64, room_checked: bool },
}

/// The counters of a receipt.
#[derive(Clone, Copy, Debug, PartialEq, Eq, Structural)]
pub struct Tally {
    pub directories: u64,
    pub regular_files: u64,
    pub symlinks: u64,
    pub cloned_files: u64,
    pub copied_files: u64,
    pub logical_bytes: u64,
    pub copied_bytes: u64,
    pub hardlinked_files: u64,
}

/// What a successful clone did.
#[derive(Debug, Clone)]
pub struct Receipt {
    pub source: String,
    pub destination: String,
    pub filesystem: String,
    pub directories: u64,
    pub regular_files: u64,
    pub symlinks: u64,
    /// Regular files materialized by sharing extents.
    pub cloned_files: u64,
    /// Regular files materialized by copying bytes (`Fallback::Copy` only).
    pub copied_files: u64,
    /// Sum of regular file lengths.
    pub logical_bytes: u64,
    /// Bytes actually written as new data. Zero when everything was cloned.
    pub copied_bytes: u64,
    /// Source files with more than one hard link; each is now an independent file.
    pub hardlinked_files: u64,
    /// Stale stages of dead clonedir processes removed before starting.
    pub swept_stages: Vec<String>,
    pub available_before: u64,
    pub available_after: u64,
}

/// The plain-value model of a [`Receipt`].
pub struct ReceiptModel {
    pub source: Seq<char>,
    pub destination: Seq<char>,
    pub filesystem: Seq<char>,
    pub tally: Tally,
    pub swept_stages: Seq<Seq<char>>,
    pub available_before: u64,
    pub available_after: u64,
}

impl View for Receipt {
    type V = ReceiptModel;

    open spec fn view(&self) -> ReceiptModel {
        ReceiptModel {
            source: self.source@,
            destination: self.destination@,
            filesystem: self.filesystem@,
            tally: Tally {
                directories: self.directories,
                regular_files: self.regular_files,
                symlinks: self.symlinks,
                cloned_files: self.cloned_files,
                copied_files: self.copied_files,
                logical_bytes: self.logical_bytes,
                copied_bytes: self.copied_bytes,
                hardlinked_files: self.hardlinked_files,
            },
            swept_stages: self.swept_stages@.map_values(|s: String| s@),
            available_before: self.available_before,
            available_after: self.available_after,
        }
    }
}

/// The receipt's own laws: every regular file was either cloned or copied,
/// copied bytes are part of the logical bytes, and without the copy fallback
/// nothing was copied.
pub open spec fn tally_consistent(t: Tally, fallback: Fallback) -> bool {
    &&& t.regular_files == t.cloned_files + t.copied_files
    &&& t.copied_bytes <= t.logical_bytes
    &&& fallback == Fallback::Fail ==> t.copied_files == 0 && t.copied_bytes == 0
}

/// The state of a clone walk.
pub struct Walk {
    platform: Platform,
    fallback: Fallback,
    min_free_bytes: u64,
    root_dev: u64,
    space_path: String,
    records: Vec<Record>,
    hardlinks: HashSet<u128>,
    entries: u64,
    space_due: bool,
    open_dirs: u64,
    pending: Vec<Vec<Vec<u8>>>,
    phase: WalkPhase,
    tally: Tally,
    source: String,
    destination: String,
    filesystem: String,
    available_before: u64,
}

/// The plain-value model of a [`Walk`].
pub struct WalkModel {
    pub platform: Platform,
    pub fallback: Fallback,
    pub min_free_bytes: u64,
    pub root_dev: u64,
    pub space_path: Seq<char>,
    pub records: Seq<RecordModel>,
    /// The identities (see [`identity_key`]) of hard-linked files met so far.
    pub hardlinks: Set<u128>,
    pub entries: u64,
    /// A free-space check fell due and has not been made yet.
    pub space_due: bool,
    pub open_dirs: u64,
    /// For each open directory whose entries were listed, outermost first,
    /// the names of the entries not taken yet, in the order they are taken.
    pub pending: Seq<Seq<Seq<u8>>>,
    pub phase: WalkPhase,
    pub tally: Tally,
    pub source: Seq<char>,
    pub destination: Seq<char>,
    pub filesystem: Seq<char>,
    pub available_before: u64,
}

/// One number for the identity `(dev, ino)` of a file.
pub open spec fn identity_key(dev: u64, ino: u64) -> u128 {
    (dev * 0x1_0000_0000_0000_0000 + ino) as u128
}

/// Distinct identities have distinct keys.
pub proof fn lemma_identity_key_injective(d1: u64, i1: u64, d2: u64, i2: u64)
    ensures
        identity_key(d1, i1) == identity_key(d2, i2) <==> (d1 == d2 && i1 == i2),
{
    assert(d1 * 0x1_0000_0000_0000_0000 + i1 <= u128::MAX);
    assert(d2 * 0x1_0000_0000_0000_0000 + i2 <= u128::MAX);
    if identity_key(d1, i1) == identity_key(d2, i2) {
        if d1 < d2 {
            assert(d1 * 0x1_0000_0000_0000_0000 + i1 < d2 * 0x1_0000_0000_0000_0000);
        } else if d2 < d1 {
            assert(d2 * 0x1_0000_0000_0000_0000 + i2 < d1 * 0x1_0000_0000_0000_0000);
        }
    }
}

/// Counts the entries a walk has taken charge of: finished and open
/// directories, regular files, symlinks, and a file in flight.
pub open spec fn entries_used(m: WalkModel) -> int {
    m.tally.directories + m.open_dirs + m.tally.regular_files + m.tally.symlinks + match m.phase {
        WalkPhase::Cloning { .. } | WalkPhase::Copying { .. } => 1int,
        _ => 0int,
    }
}

/// 1 while a file is in flight, else 0.
pub open spec fn in_flight(m: WalkModel) -> int {
    match m.phase {
        WalkPhase::Cloning { .. } | WalkPhase::Copying { .. } => 1int,
        _ => 0int,
    }
}

/// The invariant a walk keeps between events.
pub open spec fn walk_inv(m: WalkModel) -> bool {
    &&& tally_consistent(m.tally, m.fallback)
    &&& m.entries < u64::MAX
    &&& entries_used(m) <= m.entries + 1
    &&& m.phase == WalkPhase::Ticked ==> entries_used(m) <= m.entries
    &&& m.hardlinks.finite()
    &&& m.tally.hardlinked_files == m.hardlinks.len()
    &&& m.tally.hardlinked_files <= m.tally.regular_files + in_flight(m)
    &&& (m.phase matches WalkPhase::Copying { .. }) ==> m.fallback == Fallback::Copy
    &&& m.pending.len() + (if m.phase == WalkPhase::Listing {
        1int
    } else {
        0int
    }) == m.open_dirs
}

/// The views of a stack of name lists.
pub open spec fn pending_views(p: Seq<Vec<Vec<u8>>>) -> Seq<Seq<Seq<u8>>> {
    p.map_values(|l: Vec<Vec<u8>>| name_views(l@))
}

/// The error that ends a cancelled walk.
pub open spec fn interrupted_error() -> ErrorModel {
    ErrorModel {
        kind: ErrorKind::Interrupted,
        path: None,
        detail: "interrupted; the partial copy was discarded"@,
        io: None,
        kept_stage: None,
    }
}

/// The error for an operating-system failure at `path`.
pub open spec fn io_error(path: Seq<char>, f: IoFailureModel) -> ErrorModel {
    ErrorModel { kind: io_kind(f), path: Some(path), detail: f.message, io: Some(f), kept_stage: None }
}

/// An error of `kind` about `path` with a fixed explanation.
pub open spec fn plain_error(kind: ErrorKind, path: Seq<char>, detail: Seq<char>) -> ErrorModel {
    ErrorModel { kind, path: Some(path), detail, io: None, kept_stage: None }
}

/// `a + b`, or `u64::MAX` when that does not fit.
pub open spec fn saturating(a: u64, b: u64) -> u64 {
    if a + b > u64::MAX {
        u64::MAX
    } else {
        (a + b) as u64
    }
}

/// The phase after a passed space check for `extra` bytes: a file waiting
/// to be copied has room once the check covered its size.
pub open spec fn room_after(phase: WalkPhase, extra: u64) -> WalkPhase {
    match phase {
        WalkPhase::Copying { size, room_checked } => if size == extra {
            WalkPhase::Copying { size, room_checked: true }
        } else {
            phase
        },
        _ => phase,
    }
}

/// Whether `available` bytes leave room for `extra` more above the floor;
/// the error says how much there is.
pub open spec fn space_verdict(m: WalkModel, available: u64, extra: u64) -> Result<(), ErrorModel> {
    if available < saturating(m.min_free_bytes, extra) {
        Err(
            plain_error(
                ErrorKind::InsufficientSpace,
                m.space_path,
                decimal(available as nat) + " bytes available; continuing would pass the "@
                    + decimal(m.min_free_bytes as nat) + " byte floor"@,
            ),
        )
    } else {
        Ok(())
    }
}

/// The model of a metadata read.
pub open spec fn meta_model(meta: Result<EntryMeta, IoFailure>) -> Result<EntryMeta, IoFailureModel> {
    match meta {
        Ok(m) => Ok(m),
        Err(f) => Err(f@),
    }
}

/// The model of an operation's outcome.
pub open spec fn outcome_model(r: Result<(), IoFailure>) -> Result<(), IoFailureModel> {
    match r {
        Ok(()) => Ok(()),
        Err(f) => Err(f@),
    }
}

/// The model of a decision.
pub open spec fn decision_model<T>(r: Result<T, Error>) -> Result<T, ErrorModel> {
    match r {
        Ok(v) => Ok(v),
        Err(e) => Err(e@),
    }
}

/// The walk after a counted entry at `path` was read as `meta`, and what to
/// do with the entry: vanished entries mean the source changed, entries on
/// another device and special files are refused; symlinks, regular files
/// and directories are recorded and counted.
pub open spec fn entry_step(m: WalkModel, path: Seq<char>, meta: Result<EntryMeta, IoFailureModel>) -> (
    WalkModel,
    Result<EntryAction, ErrorModel>,
) {
    match meta {
        Err(f) => (
            m,
            Err(
                if f.kind == IoErrorKind::NotFound {
                    plain_error(
                        ErrorKind::SourceChanged,
                        path,
                        "source entry vanished while cloning"@,
                    )
                } else {
                    io_error(path, f)
                },
            ),
        ),
        Ok(e) => if e.dev != m.root_dev {
            (
                m,
                Err(
                    plain_error(
                        ErrorKind::MountPointInside,
                        path,
                        "source contains a mount point"@,
                    ),
                ),
            )
        } else {
            let records = m.records.push(RecordModel { path, stamp: e.stamp });
            match e.kind {
                EntryKind::Symlink => (
                    WalkModel {
                        records,
                        phase: WalkPhase::Idle,
                        tally: Tally { symlinks: (m.tally.symlinks + 1) as u64, ..m.tally },
                        ..m
                    },
                    Ok(EntryAction::RecreateLink),
                ),
                EntryKind::File => {
                    let key = identity_key(e.dev, e.stamp.ino);
                    let fresh = e.nlink > 1 && !m.hardlinks.contains(key);
                    (
                        WalkModel {
                            records,
                            hardlinks: if e.nlink > 1 {
                                m.hardlinks.insert(key)
                            } else {
                                m.hardlinks
                            },
                            phase: WalkPhase::Cloning { size: e.stamp.size },
                            tally: Tally {
                                hardlinked_files: if fresh {
                                    (m.tally.hardlinked_files + 1) as u64
                                } else {
                                    m.tally.hardlinked_files
                                },
                                ..m.tally
                            },
                            ..m
                        },
                        Ok(EntryAction::CloneFile),
                    )
                },
                EntryKind::Directory => (
                    WalkModel {
                        records,
                        phase: WalkPhase::Listing,
                        open_dirs: (m.open_dirs + 1) as u64,
                        ..m
                    },
                    Ok(EntryAction::Descend),
                ),
                EntryKind::Other => (
                    m,
                    Err(
                        plain_error(
                            ErrorKind::SpecialFile,
                            path,
                            "source contains a FIFO, socket or device"@,
                        ),
                    ),
                ),
            }
        },
    }
}

/// The detail of a refused clone: the failure's own message, and the way out.
pub open spec fn not_clonable_detail(message: Seq<char>) -> Seq<char> {
    "cannot clone on this filesystem ("@ + message + "); pass the copy fallback to copy bytes"@
}

/// The walk after cloning the in-flight file at `path` ended in `result`, and
/// whether the file must now be copied: a clone counts the file as cloned; a
/// failure that means "cannot share extents" needs the copy fallback, and any
/// other failure ends the walk.
pub open spec fn clone_step(m: WalkModel, path: Seq<char>, result: Result<(), IoFailureModel>) -> (
    WalkModel,
    Result<bool, ErrorModel>,
) {
    let size = m.phase->Cloning_size;
    match result {
        Ok(()) => (
            WalkModel {
                phase: WalkPhase::Idle,
                tally: Tally {
                    regular_files: (m.tally.regular_files + 1) as u64,
                    cloned_files: (m.tally.cloned_files + 1) as u64,
                    logical_bytes: (m.tally.logical_bytes + size) as u64,
                    ..m.tally
                },
                ..m
            },
            Ok(false),
        ),
        Err(f) => if f.raw_os_error matches Some(code) && unclonable_code(m.platform, code) {
            if m.fallback == Fallback::Fail {
                (
                    m,
                    Err(
                        plain_error(
                            ErrorKind::NotClonable,
                            path,
                            not_clonable_detail(f.message),
                        ),
                    ),
                )
            } else {
                (WalkModel { phase: WalkPhase::Copying { size, room_checked: false }, ..m }, Ok(true))
            }
        } else {
            (m, Err(io_error(path, f)))
        },
    }
}

/// The walk after copying the in-flight file to `path` ended in `result`: a
/// copy counts the file and its bytes as copied; a failure ends the walk.
pub open spec fn copy_step(m: WalkModel, path: Seq<char>, result: Result<(), IoFailureModel>) -> (
    WalkModel,
    Result<(), ErrorModel>,
) {
    let size = m.phase->Copying_size;
    match result {
        Ok(()) => (
            WalkModel {
                phase: WalkPhase::Idle,
                tally: Tally {
                    regular_files: (m.tally.regular_files + 1) as u64,
                    copied_files: (m.tally.copied_files + 1) as u64,
                    logical_bytes: (m.tally.logical_bytes + size) as u64,
                    copied_bytes: (m.tally.copied_bytes + size) as u64,
                    ..m.tally
                },
                ..m
            },
            Ok(()),
        ),
        Err(f) => (m, Err(io_error(path, f))),
    }
}

/// Whether a record's entry was observed again with the same stamp.
pub open spec fn unchanged(r: RecordModel, observed: Option<Stamp>) -> bool {
    observed == Some(r.stamp)
}

/// The paths, in order, of the first `n` records whose entries changed.
pub open spec fn changed_upto(records: Seq<RecordModel>, observed: Seq<Option<Stamp>>, n: int) -> Seq<
    Seq<char>,
>
    decreases n,
{
    if n <= 0 {
        seq![]
    } else {
        let before = changed_upto(records, observed, n - 1);
        if unchanged(records[n - 1], observed[n - 1]) {
            before
        } else {
            before.push(records[n - 1].path)
        }
    }
}

/// The first ten paths of `s`, or all of them when there are fewer.
pub open spec fn first_ten(s: Seq<Seq<char>>) -> Seq<Seq<char>> {
    if s.len() <= 10 {
        s
    } else {
        s.take(10)
    }
}

/// The detail of a discarded copy, listing up to ten changed entries.
pub open spec fn source_changed_detail(changed: Seq<Seq<char>>) -> Seq<char> {
    "the source changed while it was being cloned, so the copy was discarded (stop its writers and retry); changed: "@
        + join(first_ten(changed), ", "@)
}

/// Whether every recorded entry is still the one that was copied; if not,
/// the error names the first changed one and lists up to ten.
pub open spec fn change_verdict(records: Seq<RecordModel>, observed: Seq<Option<Stamp>>) -> Result<
    (),
    ErrorModel,
> {
    let changed = changed_upto(records, observed, records.len() as int);
    if changed.len() == 0 {
        Ok(())
    } else {
        Err(
            plain_error(
                ErrorKind::SourceChanged,
                changed[0],
                source_changed_detail(changed),
            ),
        )
    }
}

impl View for Walk {
    type V = WalkModel;

    closed spec fn view(&self) -> WalkModel {
        WalkModel {
            platform: self.platform,
            fallback: self.fallback,
            min_free_bytes: self.min_free_bytes,
            root_dev: self.root_dev,
            space_path: self.space_path@,
            records: self.records@.map_values(|r: Record| r@),
            hardlinks: self.hardlinks@,
            entries: self.entries,
            space_due: self.space_due,
            open_dirs: self.open_dirs,
            pending: pending_views(self.pending@),
            phase: self.phase,
            tally: self.tally,
            source: self.source@,
            destination: self.destination@,
            filesystem: self.filesystem@,
            available_before: self.available_before,
        }
    }
}

impl Walk {
    /// The walk's invariant.
    pub open spec fn wf(&self) -> bool {
        walk_inv(self@)
    }

    /// A walk that has not entered the source yet.
    pub fn new(
        platform: Platform,
        options: &Options,
        root_dev: u64,
        space_path: String,
        source: String,
        destination: String,
        filesystem: String,
        available_before: u64,
    ) -> (r: Walk)
        ensures
            r.wf(),
            r@ == (WalkModel {
                platform,
                fallback: options.fallback,
                min_free_bytes: options.min_free_bytes,
                root_dev,
                space_path: space_path@,
                records: seq![],
                hardlinks: Set::empty(),
                entries: 0,
                space_due: false,
                open_dirs: 0,
                pending: seq![],
                phase: WalkPhase::Idle,
                tally: Tally {
                    directories: 0,
                    regular_files: 0,
                    symlinks: 0,
                    cloned_files: 0,
                    copied_files: 0,
                    logical_bytes: 0,
                    copied_bytes: 0,
                    hardlinked_files: 0,
                },
                source: source@,
                destination: destination@,
                filesystem: filesystem@,
                available_before,
            }),
    {
        let w = Walk {
            platform,
            fallback: options.fallback,
            min_free_bytes: options.min_free_bytes,
            root_dev,
            space_path,
            records: Vec::new(),
            hardlinks: HashSet::new(),
            entries: 0,
            space_due: false,
            open_dirs: 0,
            pending: Vec::new(),
            phase: WalkPhase::Idle,
            tally: Tally {
                directories: 0,
                regular_files: 0,
                symlinks: 0,
                cloned_files: 0,
                copied_files: 0,
                logical_bytes: 0,
                copied_bytes: 0,
                hardlinked_files: 0,
            },
            source,
            destination,
            filesystem,
            available_before,
        };
        assert(w@.records =~= seq![]);
        assert(w@.pending =~= seq![]);
        w
    }

    /// Enters the source root, recorded with `stamp` as an open directory
    /// whose entries are to be listed.
    pub fn enter_root(&mut self, path: &str, stamp: Stamp)
        requires
            old(self).wf(),
            old(self)@.records.len() == 0,
            old(self)@.open_dirs == 0,
            old(self)@.entries == 0,
            old(self)@.phase == WalkPhase::Idle,
            old(self)@.tally.directories == 0,
            old(self)@.tally.regular_files == 0,
            old(self)@.tally.symlinks == 0,
        ensures
            final(self).wf(),
            final(self)@ == (WalkModel {
                records: seq![RecordModel { path: path@, stamp }],
                open_dirs: 1,
                phase: WalkPhase::Listing,
                ..old(self)@
            }),
    {
        let ghost before = self@;
        self.records.push(Record { path: path.to_owned(), stamp });
        self.open_dirs = 1;
        self.phase = WalkPhase::Listing;
        assert(self@.records =~= seq![RecordModel { path: path@, stamp }]);
        assert(self@ == (WalkModel {
            records: seq![RecordModel { path: path@, stamp }],
            open_dirs: 1,
            phase: WalkPhase::Listing,
            ..before
        }));
    }

    /// Takes the names of the entries of the directory just entered; they
    /// are taken in name order ([`in_name_order`]).
    pub fn list_directory(&mut self, names: Vec<Vec<u8>>)
        requires
            old(self).wf(),
            old(self)@.phase == WalkPhase::Listing,
        ensures
            final(self).wf(),
            final(self)@ == (WalkModel {
                pending: old(self)@.pending.push(in_name_order(name_views(names@))),
                phase: WalkPhase::Idle,
                ..old(self)@
            }),
    {
        let ghost before = self@;
        let sorted = sort_names(names);
        self.pending.push(sorted);
        self.phase = WalkPhase::Idle;
        assert(self@.pending =~= before.pending.push(in_name_order(name_views(names@))));
    }

    /// Takes the next entry of the innermost open directory, in name order:
    /// its name, or none when every entry was taken.
    pub fn next_name(&mut self) -> (r: Option<Vec<u8>>)
        requires
            old(self).wf(),
            old(self)@.phase == WalkPhase::Idle,
            old(self)@.open_dirs > 0,
        ensures
            final(self).wf(),
            old(self)@.pending.last().len() == 0 ==> r is None && final(self)@ == old(self)@,
            old(self)@.pending.last().len() > 0 ==> (r matches Some(n) && n@ == old(self)@.pending.last()[0])
                && final(self)@ == (WalkModel {
                pending: old(self)@.pending.update(
                    old(self)@.pending.len() - 1,
                    old(self)@.pending.last().drop_first(),
                ),
                phase: WalkPhase::Named,
                ..old(self)@
            }),
    {
        let ghost before = self@;
        let mut top = self.pending.pop().unwrap();
        assert(name_views(top@) == before.pending.last());
        if top.len() == 0 {
            self.pending.push(top);
            assert(self@.pending =~= before.pending);
            return None;
        }
        let name = top.remove(0);
        assert(name_views(top@) =~= before.pending.last().drop_first());
        self.pending.push(top);
        self.phase = WalkPhase::Named;
        assert(self@.pending =~= before.pending.update(before.pending.len() - 1, before.pending.last().drop_first()));
        Some(name)
    }

    /// Counts the next entry, unless the walk was cancelled; says whether
    /// free space is due for a recheck, which must then be made
    /// ([`Walk::ensure_space`]) before the entry is taken.
    pub fn tick(&mut self, cancelled: bool) -> (r: Result<bool, Error>)
        requires
            old(self).wf(),
            old(self)@.phase == WalkPhase::Named,
            old(self)@.entries + 1 < u64::MAX,
        ensures
            final(self).wf(),
            cancelled ==> final(self)@ == old(self)@ && decision_model(r) == Err::<bool, ErrorModel>(interrupted_error()),
            !cancelled ==> final(self)@ == (WalkModel {
                entries: (old(self)@.entries + 1) as u64,
                space_due: (old(self)@.entries + 1) % (SPACE_CHECK_EVERY as int) == 0,
                phase: WalkPhase::Ticked,
                ..old(self)@
            }) && r == Ok::<bool, Error>((old(self)@.entries + 1) % (SPACE_CHECK_EVERY as int) == 0),
    {
        if cancelled {
            return Err(Error::new(ErrorKind::Interrupted, None, "interrupted; the partial copy was discarded".to_owned()));
        }
        self.entries = self.entries + 1;
        self.phase = WalkPhase::Ticked;
        self.space_due = self.entries % SPACE_CHECK_EVERY == 0;
        Ok(self.space_due)
    }

    /// Whether `available` bytes leave room for `extra` more above the floor.
    /// A passed check clears a due recheck, and, for the file waiting to be
    /// copied when `extra` is its size, records that there is room for it.
    pub fn ensure_space(&mut self, available: u64, extra: u64) -> (r: Result<(), Error>)
        requires
            old(self).wf(),
        ensures
            final(self).wf(),
            decision_model(r) == space_verdict(old(self)@, available, extra),
            r is Err ==> final(self)@ == old(self)@,
            r is Ok ==> final(self)@ == (WalkModel {
                space_due: false,
                phase: room_after(old(self)@.phase, extra),
                ..old(self)@
            }),
    {
        if available < self.min_free_bytes.saturating_add(extra) {
            let mut detail = String::new();
            push_decimal(&mut detail, available);
            detail.append(" bytes available; continuing would pass the ");
            push_decimal(&mut detail, self.min_free_bytes);
            detail.append(" byte floor");
            let r = Error::new(ErrorKind::InsufficientSpace, Some(self.space_path.as_str()), detail);
            assert(r@.detail =~= space_verdict(self@, available, extra)->Err_0.detail);
            return Err(r);
        }
        self.space_due = false;
        match self.phase {
            WalkPhase::Copying { size, .. } => {
                if size == extra {
                    self.phase = WalkPhase::Copying { size, room_checked: true };
                }
            },
            _ => {},
        }
        Ok(())
    }

    /// The path free space is measured at.
    pub fn space_path(&self) -> (r: &str)
        ensures
            r@ == self@.space_path,
    {
        self.space_path.as_str()
    }

    /// Takes the counted entry at `path`, read as `meta`, and says how to
    /// materialize it, or why the walk ends.
    pub fn entry(&mut self, path: &str, meta: Result<EntryMeta, IoFailure>) -> (r: Result<EntryAction, Error>)
        requires
            old(self).wf(),
            old(self)@.phase == WalkPhase::Ticked,
            !old(self)@.space_due,
        ensures
            (r is Ok ==> final(self).wf()),
            (final(self)@, decision_model(r)) == entry_step(old(self)@, path@, meta_model(meta)),
    {
        let e = match meta {
            Err(f) => {
                if f.kind == IoErrorKind::NotFound {
                    return Err(Error::new(ErrorKind::SourceChanged, Some(path), "source entry vanished while cloning".to_owned()));
                }
                return Err(Error::io(path, f));
            },
            Ok(e) => e,
        };
        if e.dev != self.root_dev {
            return Err(Error::new(ErrorKind::MountPointInside, Some(path), "source contains a mount point".to_owned()));
        }
        let ghost m = self@;
        match e.kind {
            EntryKind::Other => {
                return Err(Error::new(ErrorKind::SpecialFile, Some(path), "source contains a FIFO, socket or device".to_owned()));
            },
            _ => {},
        }
        self.records.push(Record { path: path.to_owned(), stamp: e.stamp });
        assert(self.records@.map_values(|r: Record| r@) =~= m.records.push(RecordModel { path: path@, stamp: e.stamp }));
        match e.kind {
            EntryKind::Symlink => {
                let mut t = self.tally;
                t.symlinks = t.symlinks + 1;
                self.tally = t;
                self.phase = WalkPhase::Idle;
                Ok(EntryAction::RecreateLink)
            },
            EntryKind::File => {
                if e.nlink > 1 {
                    let key: u128 = (e.dev as u128) * 0x1_0000_0000_0000_0000u128 + (e.stamp.ino as u128);
                    assert(key == identity_key(e.dev, e.stamp.ino));
                    let fresh = self.hardlinks.insert(key);
                    if fresh {
                        let mut t = self.tally;
                        t.hardlinked_files = t.hardlinked_files + 1;
                        self.tally = t;
                    }
                }
                self.phase = WalkPhase::Cloning { size: e.stamp.size };
                Ok(EntryAction::CloneFile)
            },
            _ => {
                self.open_dirs = self.open_dirs + 1;
                self.phase = WalkPhase::Listing;
                Ok(EntryAction::Descend)
            },
        }
    }

    /// Takes the outcome of cloning the in-flight file from `path`; says
    /// whether it must now be copied.
    pub fn clone_outcome(&mut self, path: &str, result: Result<(), IoFailure>) -> (r: Result<bool, Error>)
        requires
            old(self).wf(),
            old(self)@.phase is Cloning,
            old(self)@.tally.logical_bytes + old(self)@.phase->Cloning_size <= u64::MAX,
        ensures
            (r is Ok ==> final(self).wf()),
            (final(self)@, decision_model(r)) == clone_step(old(self)@, path@, outcome_model(result)),
    {
        let size = match self.phase {
            WalkPhase::Cloning { size } => size,
            _ => 0,
        };
        match result {
            Ok(()) => {
                let mut t = self.tally;
                t.regular_files = t.regular_files + 1;
                t.cloned_files = t.cloned_files + 1;
                t.logical_bytes = t.logical_bytes + size;
                self.tally = t;
                self.phase = WalkPhase::Idle;
                Ok(false)
            },
            Err(f) => {
                if is_unclonable(self.platform, &f) {
                    match self.fallback {
                        Fallback::Fail => {
                            let mut detail = "cannot clone on this filesystem (".to_owned();
                            detail.append(f.message.as_str());
                            detail.append("); pass the copy fallback to copy bytes");
                            Err(Error::new(ErrorKind::NotClonable, Some(path), detail))
                        },
                        Fallback::Copy => {
                            self.phase = WalkPhase::Copying { size, room_checked: false };
                            Ok(true)
                        },
                    }
                } else {
                    Err(Error::io(path, f))
                }
            },
        }
    }

    /// Takes the outcome of copying the in-flight file to `path`.
    pub fn copy_outcome(&mut self, path: &str, result: Result<(), IoFailure>) -> (r: Result<(), Error>)
        requires
            old(self).wf(),
            old(self)@.phase is Copying,
            old(self)@.phase->room_checked,
            old(self)@.tally.logical_bytes + old(self)@.phase->Copying_size <= u64::MAX,
        ensures
            (r is Ok ==> final(self).wf()),
            (final(self)@, decision_model(r)) == copy_step(old(self)@, path@, outcome_model(result)),
    {
        let size = match self.phase {
            WalkPhase::Copying { size, .. } => size,
            _ => 0,
        };
        match result {
            Ok(()) => {
                let mut t = self.tally;
                t.regular_files = t.regular_files + 1;
                t.copied_files = t.copied_files + 1;
                t.logical_bytes = t.logical_bytes + size;
                t.copied_bytes = t.copied_bytes + size;
                self.tally = t;
                self.phase = WalkPhase::Idle;
                Ok(())
            },
            Err(f) => Err(Error::io(path, f)),
        }
    }

    /// Counts the innermost open directory as finished, once its entries are.
    pub fn finish_directory(&mut self)
        requires
            old(self).wf(),
            old(self)@.phase == WalkPhase::Idle,
            old(self)@.open_dirs > 0,
            old(self)@.pending.last().len() == 0,
        ensures
            final(self).wf(),
            final(self)@ == (WalkModel {
                open_dirs: (old(self)@.open_dirs - 1) as u64,
                pending: old(self)@.pending.drop_last(),
                tally: Tally { directories: (old(self)@.tally.directories + 1) as u64, ..old(self)@.tally },
                ..old(self)@
            }),
    {
        let ghost before = self@;
        let mut t = self.tally;
        t.directories = t.directories + 1;
        self.tally = t;
        self.open_dirs = self.open_dirs - 1;
        self.pending.pop();
        assert(self@.pending =~= before.pending.drop_last());
    }

    /// Whether the walk is finished: between entries, with no directory open.
    pub fn is_finished(&self) -> (r: bool)
        ensures
            r == (self@.phase == WalkPhase::Idle && self@.open_dirs == 0),
    {
        self.phase == WalkPhase::Idle && self.open_dirs == 0
    }

    /// The number of entries counted so far (the root excluded).
    pub fn entries(&self) -> (r: u64)
        ensures
            r == self@.entries,
    {
        self.entries
    }

    /// The receipt's counters so far.
    pub fn tally(&self) -> (r: Tally)
        ensures
            r == self@.tally,
    {
        self.tally
    }

    /// The number of recorded entries.
    pub fn record_count(&self) -> (r: usize)
        ensures
            r == self@.records.len(),
    {
        self.records.len()
    }

    /// The `i`-th recorded entry.
    pub fn record(&self, i: usize) -> (r: &Record)
        requires
            i < self@.records.len(),
        ensures
            r@ == self@.records[i as int],
    {
        &self.records[i]
    }

    /// Whether every recorded entry was observed again, in record order, with
    /// the stamp it was copied with.
    pub fn verify_unchanged(&self, observed: &[Option<Stamp>]) -> (r: Result<(), Error>)
        requires
            observed@.len() == self@.records.len(),
        ensures
            decision_model(r) == change_verdict(self@.records, observed@),
    {
        let ghost recs = self@.records;
        let mut firsts: Vec<String> = Vec::new();
        let mut count: usize = 0;
        let mut i: usize = 0;
        assert(firsts@.map_values(|s: String| s@) =~= first_ten(changed_upto(recs, observed@, 0)));
        while i < self.records.len()
            invariant
                i <= self.records@.len(),
                recs == self.records@.map_values(|r: Record| r@),
                observed@.len() == recs.len(),
                count == changed_upto(recs, observed@, i as int).len(),
                firsts@.map_values(|s: String| s@) == first_ten(changed_upto(recs, observed@, i as int)),
                count <= i,
            decreases self.records@.len() - i,
        {
            let rec = &self.records[i];
            let same = match observed[i] {
                Some(s) => rec.matches(&s),
                None => false,
            };
            let ghost prev = changed_upto(recs, observed@, i as int);
            assert(recs[i as int] == rec@);
            if !same {
                if firsts.len() < 10 {
                    firsts.push(rec.path.clone());
                }
                count = count + 1;
            }
            proof {
                let next = changed_upto(recs, observed@, i + 1);
                if prev.len() >= 10 && !same {
                    assert(next.take(10) =~= prev.take(10));
                }
                assert(firsts@.map_values(|s: String| s@) =~= first_ten(next));
            }
            i = i + 1;
        }
        if count == 0 {
            return Ok(());
        }
        let ghost changed = changed_upto(recs, observed@, recs.len() as int);
        assert(first_ten(changed)[0] == changed[0]);
        let mut detail = "the source changed while it was being cloned, so the copy was discarded (stop its writers and retry); changed: ".to_owned();
        push_joined(&mut detail, &firsts, ", ");
        let first = firsts[0].as_str();
        let r = Error::new(ErrorKind::SourceChanged, Some(first), detail);
        assert(r@.detail =~= source_changed_detail(changed));
        Err(r)
    }

    /// The receipt of a finished walk, with the space left afterwards and
    /// the stale stages swept before it began.
    pub(crate) fn finish(self, available_after: u64, swept_stages: Vec<String>) -> (r: Receipt)
        requires
            self.wf(),
            self@.phase == WalkPhase::Idle,
            self@.open_dirs == 0,
        ensures
            r@ == (ReceiptModel {
                source: self@.source,
                destination: self@.destination,
                filesystem: self@.filesystem,
                tally: self@.tally,
                swept_stages: swept_stages@.map_values(|s: String| s@),
                available_before: self@.available_before,
                available_after,
            }),
            tally_consistent(r@.tally, self@.fallback),
            r.hardlinked_files <= r.regular_files,
            r.directories + r.regular_files + r.symlinks <= self@.entries + 1,
    {
        let t = self.tally;
        Receipt {
            source: self.source,
            destination: self.destination,
            filesystem: self.filesystem,
            directories: t.directories,
            regular_files: t.regular_files,
            symlinks: t.symlinks,
            cloned_files: t.cloned_files,
            copied_files: t.copied_files,
            logical_bytes: t.logical_bytes,
            copied_bytes: t.copied_bytes,
            hardlinked_files: t.hardlinked_files,
            swept_stages,
            available_before: self.available_before,
            available_after,
        }
    }
}

/// Every state a walk reaches keeps the receipt's laws: each regular file
/// was cloned or copied, copied bytes never exceed logical bytes, and with
/// `Fallback::Fail` no file and no byte was copied.
pub proof fn lemma_walk_keeps_receipt_laws(w: &Walk)
    requires
        w.wf(),
    ensures
        w@.tally.regular_files == w@.tally.cloned_files + w@.tally.copied_files,
        w@.tally.copied_bytes <= w@.tally.logical_bytes,
        w@.fallback == Fallback::Fail ==> w@.tally.copied_files == 0 && w@.tally.copied_bytes == 0,
{
}

/// No change goes unnoticed: the copy is kept only if every recorded entry
/// was observed again with the stamp it was copied with, and otherwise it
/// is discarded as `SourceChanged`, naming a changed entry.
pub proof fn lemma_any_change_discards_the_copy(records: Seq<RecordModel>, observed: Seq<Option<Stamp>>)
    requires
        observed.len() == records.len(),
    ensures
        change_verdict(records, observed) is Ok <==> forall|i: int|
            0 <= i < records.len() ==> #[trigger] unchanged(records[i], observed[i]),
        change_verdict(records, observed) matches Err(e) ==> e.kind == ErrorKind::SourceChanged && exists|
            i: int,
        |
            0 <= i < records.len() && !unchanged(records[i], observed[i]) && e.path == Some(
                #[trigger] records[i].path,
            ),
{
    lemma_changed_upto(records, observed, records.len() as int);
}

/// The changed entries among the first `n` are exactly those not observed
/// unchanged; each is the path of such an entry.
proof fn lemma_changed_upto(records: Seq<RecordModel>, observed: Seq<Option<Stamp>>, n: int)
    requires
        0 <= n <= records.len(),
        observed.len() == records.len(),
    ensures
        changed_upto(records, observed, n).len() == 0 <==> forall|i: int|
            0 <= i < n ==> #[trigger] unchanged(records[i], observed[i]),
        forall|k: int|
            0 <= k < changed_upto(records, observed, n).len() ==> exists|i: int|
                0 <= i < n && !unchanged(records[i], observed[i]) && #[trigger] changed_upto(
                    records,
                    observed,
                    n,
                )[k] == records[i].path,
    decreases n,
{
    if n > 0 {
        lemma_changed_upto(records, observed, n - 1);
        let before = changed_upto(records, observed, n - 1);
        let now = changed_upto(records, observed, n);
        if !unchanged(records[n - 1], observed[n - 1]) {
            assert(now == before.push(records[n - 1].path));
            assert forall|k: int| 0 <= k < now.len() implies exists|i: int|
                0 <= i < n && !unchanged(records[i], observed[i]) && #[trigger] now[k] == records[i].path by {
                if k < before.len() {
                    assert(now[k] == before[k]);
                } else {
                    assert(now[k] == records[n - 1].path);
                }
            }
        }
    }
}

/// A file met again through another hard link is recorded again but not
/// counted as hard-linked a second time; met first, it is counted once.
pub proof fn lemma_hardlinks_counted_once(m: WalkModel, path: Seq<char>, e: EntryMeta)
    requires
        e.dev == m.root_dev,
        e.kind == EntryKind::File,
        e.nlink > 1,
        m.tally.hardlinked_files < u64::MAX,
    ensures
        entry_step(m, path, Ok(e)).0.hardlinks == m.hardlinks.insert(identity_key(e.dev, e.stamp.ino)),
        entry_step(m, path, Ok(e)).0.tally.hardlinked_files == m.tally.hardlinked_files + (if m.hardlinks.contains(
            identity_key(e.dev, e.stamp.ino),
        ) {
            0int
        } else {
            1int
        }),
{
}

/// Room for a file waiting to be copied is recorded only by a passed space
/// check for exactly its size; copying waits for it (`copy_outcome`), and
/// taking an entry waits for a due recheck (`entry`).
pub proof fn lemma_room_is_checked_for_the_file(size: u64, extra: u64)
    ensures
        room_after(WalkPhase::Copying { size, room_checked: false }, extra) == (WalkPhase::Copying {
            size,
            room_checked: true,
        }) <==> extra == size,
{
}

/// The floor holds through a byte copy: a check for `extra` more bytes
/// passes exactly when `available` covers the floor and `extra` together
/// (where that sum passes `u64::MAX`, only a full `u64::MAX` does), and
/// otherwise fails as insufficient space at the walk's space path.
pub proof fn lemma_room_covers_the_floor_and_the_file(m: WalkModel, available: u64, extra: u64)
    ensures
        space_verdict(m, available, extra) is Ok <==> (available >= m.min_free_bytes + extra || available
            == u64::MAX),
        space_verdict(m, available, extra) matches Err(e) ==> e.kind == ErrorKind::InsufficientSpace && e.path
            == Some(m.space_path),
{
}

/// A symlink is counted once, as a symlink, and nothing else changes in the
/// receipt's counters.
pub proof fn lemma_a_symlink_counts_as_a_symlink(m: WalkModel, path: Seq<char>, e: EntryMeta)
    requires
        e.dev == m.root_dev,
        e.kind == EntryKind::Symlink,
        m.tally.symlinks < u64::MAX,
    ensures
        entry_step(m, path, Ok(e)).1 == Ok::<EntryAction, ErrorModel>(EntryAction::RecreateLink),
        entry_step(m, path, Ok(e)).0.tally == (Tally { symlinks: (m.tally.symlinks + 1) as u64, ..m.tally }),
{
}

/// A regular file that clones is counted once, as a cloned regular file of
/// its own length; nothing is counted as copied.
pub proof fn lemma_a_cloned_file_counts_its_length(m: WalkModel, path: Seq<char>, e: EntryMeta)
    requires
        e.dev == m.root_dev,
        e.kind == EntryKind::File,
        e.nlink == 1,
        m.tally.regular_files < u64::MAX,
        m.tally.cloned_files < u64::MAX,
        m.tally.logical_bytes + e.stamp.size <= u64::MAX,
    ensures
        clone_step(entry_step(m, path, Ok(e)).0, path, Ok(())).1 == Ok::<bool, ErrorModel>(false),
        clone_step(entry_step(m, path, Ok(e)).0, path, Ok(())).0.tally == (Tally {
            regular_files: (m.tally.regular_files + 1) as u64,
            cloned_files: (m.tally.cloned_files + 1) as u64,
            logical_bytes: (m.tally.logical_bytes + e.stamp.size) as u64,
            ..m.tally
        }),
{
}

/// A regular file that cannot share extents is copied only with the copy
/// fallback, after a passed check for room for its whole length, and is
/// then counted once, as a copied regular file whose length counts in both
/// the logical and the copied bytes.
pub proof fn lemma_a_copied_file_counts_its_bytes(
    m: WalkModel,
    path: Seq<char>,
    e: EntryMeta,
    f: IoFailureModel,
    available: u64,
)
    requires
        m.fallback == Fallback::Copy,
        e.dev == m.root_dev,
        e.kind == EntryKind::File,
        e.nlink == 1,
        f.raw_os_error matches Some(code) && unclonable_code(m.platform, code),
        space_verdict(m, available, e.stamp.size) is Ok,
        m.tally.regular_files < u64::MAX,
        m.tally.copied_files < u64::MAX,
        m.tally.logical_bytes + e.stamp.size <= u64::MAX,
        m.tally.copied_bytes + e.stamp.size <= u64::MAX,
    ensures
        ({
            let cloning = entry_step(m, path, Ok(e)).0;
            let (copying, again) = clone_step(cloning, path, Err(f));
            let ready = WalkModel { phase: room_after(copying.phase, e.stamp.size), ..copying };
            &&& again == Ok::<bool, ErrorModel>(true)
            &&& ready.phase == WalkPhase::Copying { size: e.stamp.size, room_checked: true }
            &&& copy_step(ready, path, Ok(())).0.tally == (Tally {
                regular_files: (m.tally.regular_files + 1) as u64,
                copied_files: (m.tally.copied_files + 1) as u64,
                logical_bytes: (m.tally.logical_bytes + e.stamp.size) as u64,
                copied_bytes: (m.tally.copied_bytes + e.stamp.size) as u64,
                ..m.tally
            })
        }),
{
}

} // verus!
