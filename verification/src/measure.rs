//! Space accounting for a tree: what `du` counts, and what removing the
//! tree would free, each hard-linked inode counted once.
use vstd::prelude::*;
use std::collections::HashSet;
use crate::sys::Sharing;
use crate::walk::identity_key;

verus! {

broadcast use vstd::std_specs::hash::group_hash_axioms;

/// Space accounting for a tree.
#[derive(Debug, Clone, Copy, PartialEq, Eq, Structural)]
pub struct Usage {
    /// Regular files, each hard-linked inode counted once.
    pub files: u64,
    /// Sum of file lengths.
    pub logical_bytes: u64,
    /// Allocated blocks of files and directories, as `du` reports them.
    pub allocated_bytes: u64,
    /// Bytes of file data not shared with any other file, i.e. roughly what
    /// deleting the files would free. `None` where the platform does not
    /// report it for some file.
    pub private_bytes: Option<u64>,
}

impl Default for Usage {
    /// Nothing counted.
    fn default() -> (r: Usage)
        ensures
            r == (Usage { files: 0, logical_bytes: 0, allocated_bytes: 0, private_bytes: None }),
    {
        Usage { files: 0, logical_bytes: 0, allocated_bytes: 0, private_bytes: None }
    }
}

/// The running accounting of a measurement.
pub struct UsageTally {
    usage: Usage,
    seen: HashSet<u128>,
    pending: bool,
}

/// The plain-value model of a [`UsageTally`].
pub struct UsageTallyModel {
    pub usage: Usage,
    /// The identities (see [`identity_key`]) of the entries met so far.
    pub seen: Set<u128>,
    /// The last entry met was met for the first time and is not counted as
    /// a file yet.
    pub pending: bool,
}

/// The invariant of a measurement: finitely many entries met, and at most
/// one file counted (or about to be) per entry met.
pub open spec fn tally_inv(m: UsageTallyModel) -> bool {
    &&& m.seen.finite()
    &&& m.usage.files + (if m.pending {
        1int
    } else {
        0int
    }) <= m.seen.len()
}

impl View for UsageTally {
    type V = UsageTallyModel;

    closed spec fn view(&self) -> UsageTallyModel {
        UsageTallyModel { usage: self.usage, seen: self.seen@, pending: self.pending }
    }
}

/// The private bytes after a file that reports `sharing`: known only while
/// every file so far reported them.
pub open spec fn private_after(total: Option<u64>, sharing: Option<Sharing>) -> Option<u64> {
    match (total, sharing) {
        (Some(t), Some(s)) => Some((t + s.private_bytes) as u64),
        _ => None,
    }
}

impl UsageTally {
    /// The measurement's invariant.
    pub open spec fn wf(&self) -> bool {
        tally_inv(self@)
    }

    /// Nothing measured yet; private bytes known (zero) until a file does
    /// not report them.
    pub fn new() -> (r: UsageTally)
        ensures
            r.wf(),
            r@.usage == (Usage { files: 0, logical_bytes: 0, allocated_bytes: 0, private_bytes: Some(0) }),
            r@.seen == Set::<u128>::empty(),
            !r@.pending,
    {
        UsageTally {
            usage: Usage { files: 0, logical_bytes: 0, allocated_bytes: 0, private_bytes: Some(0) },
            seen: HashSet::new(),
            pending: false,
        }
    }

    /// Meets the entry `(dev, ino)` holding `blocks` 512-byte blocks. The
    /// first meeting counts its blocks and says so; a later one (another
    /// hard link, or a loop) counts nothing.
    pub fn visit(&mut self, dev: u64, ino: u64, blocks: u64) -> (first: bool)
        requires
            old(self).wf(),
            !old(self)@.seen.contains(identity_key(dev, ino)) ==> old(self)@.usage.allocated_bytes
                + blocks * 512 <= u64::MAX,
        ensures
            final(self).wf(),
            first == !old(self)@.seen.contains(identity_key(dev, ino)),
            final(self)@.pending == first,
            final(self)@.seen == old(self)@.seen.insert(identity_key(dev, ino)),
            first ==> final(self)@.usage == (Usage {
                allocated_bytes: (old(self)@.usage.allocated_bytes + blocks * 512) as u64,
                ..old(self)@.usage
            }),
            !first ==> final(self)@.usage == old(self)@.usage,
    {
        let key: u128 = (dev as u128) * 0x1_0000_0000_0000_0000u128 + (ino as u128);
        assert(key == identity_key(dev, ino));
        if !self.seen.insert(key) {
            self.pending = false;
            return false;
        }
        self.pending = true;
        self.usage.allocated_bytes = self.usage.allocated_bytes + blocks * 512;
        true
    }

    /// Whether the entry `(dev, ino)` was met before.
    pub fn has_seen(&self, dev: u64, ino: u64) -> (r: bool)
        ensures
            r == self@.seen.contains(identity_key(dev, ino)),
    {
        let key: u128 = (dev as u128) * 0x1_0000_0000_0000_0000u128 + (ino as u128);
        assert(key == identity_key(dev, ino));
        self.seen.contains(&key)
    }

    /// Counts the regular file of `size` bytes that reports `sharing`; it
    /// must be the entry just met, and met for the first time.
    pub fn count_file(&mut self, size: u64, sharing: Option<Sharing>)
        requires
            old(self).wf(),
            old(self)@.pending,
            old(self)@.usage.files < u64::MAX,
            old(self)@.usage.logical_bytes + size <= u64::MAX,
            old(self)@.usage.private_bytes is Some && sharing is Some ==> old(self)@.usage.private_bytes->0
                + sharing->0.private_bytes <= u64::MAX,
        ensures
            final(self).wf(),
            final(self)@.seen == old(self)@.seen,
            !final(self)@.pending,
            final(self)@.usage == (Usage {
                files: (old(self)@.usage.files + 1) as u64,
                logical_bytes: (old(self)@.usage.logical_bytes + size) as u64,
                allocated_bytes: old(self)@.usage.allocated_bytes,
                private_bytes: private_after(old(self)@.usage.private_bytes, sharing),
            }),
    {
        self.pending = false;
        self.usage.files = self.usage.files + 1;
        self.usage.logical_bytes = self.usage.logical_bytes + size;
        self.usage.private_bytes = match (self.usage.private_bytes, sharing) {
            (Some(t), Some(s)) => Some(t + s.private_bytes),
            _ => None,
        };
    }

    /// The accounting so far.
    pub fn usage(&self) -> (r: Usage)
        ensures
            r == self@.usage,
    {
        self.usage
    }
}

/// Each inode is counted once: no more files are counted than distinct
/// entries were met.
pub proof fn lemma_each_inode_counted_once(t: &UsageTally)
    requires
        t.wf(),
    ensures
        t@.usage.files <= t@.seen.len(),
{
}

/// Once one file does not report its private bytes, the total stays unknown.
pub proof fn lemma_private_bytes_stay_unknown(sharing: Option<Sharing>)
    ensures
        private_after(None, sharing) is None,
{
}

} // verus!
