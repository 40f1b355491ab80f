//! Measuring a tree, as a state machine: each entry is inspected without
//! following links and met once ([`UsageTally::visit`]); a directory met for
//! the first time has its entries measured one by one, depth first; a
//! regular file met for the first time is counted with the sharing its
//! platform reports. Any failure ends the measurement.
//!
//! The caller performs each action [`Measurement::step`] answers with and
//! hands back what it ended in.
use vstd::prelude::*;
use crate::error::{IoFailure, IoFailureModel};
use crate::measure::{private_after, tally_inv, Usage, UsageTally, UsageTallyModel};
use crate::sys::{attributes_len, platform_sharing, returned_mask, sharing, Platform};
use crate::walk::{identity_key, outcome_model};

verus! {

/// What is read of an entry, not following links.
#[derive(Clone, Copy, Debug, PartialEq, Eq, Structural)]
pub struct EntryStat {
    pub dev: u64,
    pub ino: u64,
    /// Allocated 512-byte blocks.
    pub blocks: u64,
    /// Length in bytes.
    pub size: u64,
    pub is_dir: bool,
    pub is_file: bool,
}

/// What the measurement waits for.
#[derive(Clone, Copy, Debug, PartialEq, Eq, Structural)]
pub enum MeasurePhase {
    /// The current entry is to be inspected.
    Inspecting,
    /// The current directory is to be opened for reading.
    Opening,
    /// The next entry of the current directory is to be read.
    Reading,
    /// The sharing of the current file, of `size` bytes, is to be read.
    ReadingSharing { size: u64 },
    /// The measurement ended.
    Done,
}

/// What the caller read.
pub enum MeasureEvent {
    /// The current entry, or why it could not be inspected.
    Inspected(Result<EntryStat, IoFailure>),
    /// The outcome of opening the current directory for reading.
    Opened(Result<(), IoFailure>),
    /// The next entry's name, a failure to read it, or none at the end.
    EntryRead(Option<Result<Vec<u8>, IoFailure>>),
    /// The attribute buffer the platform returned for the current file
    /// (empty on Linux), or why it could not.
    SharingRead(Result<Vec<u8>, IoFailure>),
}

/// The plain-value model of a [`MeasureEvent`].
pub enum MeasureEventModel {
    Inspected(Result<EntryStat, IoFailureModel>),
    Opened(Result<(), IoFailureModel>),
    EntryRead(Option<Result<Seq<u8>, IoFailureModel>>),
    SharingRead(Result<Seq<u8>, IoFailureModel>),
}

impl View for MeasureEvent {
    type V = MeasureEventModel;

    open spec fn view(&self) -> MeasureEventModel {
        match self {
            MeasureEvent::Inspected(Ok(s)) => MeasureEventModel::Inspected(Ok(*s)),
            MeasureEvent::Inspected(Err(f)) => MeasureEventModel::Inspected(Err(f@)),
            MeasureEvent::Opened(r) => MeasureEventModel::Opened(outcome_model(*r)),
            MeasureEvent::EntryRead(None) => MeasureEventModel::EntryRead(None),
            MeasureEvent::EntryRead(Some(Ok(n))) => MeasureEventModel::EntryRead(Some(Ok(n@))),
            MeasureEvent::EntryRead(Some(Err(f))) => MeasureEventModel::EntryRead(Some(Err(f@))),
            MeasureEvent::SharingRead(Ok(b)) => MeasureEventModel::SharingRead(Ok(b@)),
            MeasureEvent::SharingRead(Err(f)) => MeasureEventModel::SharingRead(Err(f@)),
        }
    }
}

/// What the caller is to do next.
pub enum MeasureStep {
    /// Open the current directory for reading.
    Open,
    /// Read the next entry of the current directory; with `ascend`, the
    /// current entry is measured and its parent is current again.
    NextEntry { ascend: bool },
    /// Make the entry of this name in the current directory current, and
    /// inspect it.
    InspectEntry(Vec<u8>),
    /// Read the sharing attributes of the current file.
    ReadSharing,
    /// The measurement ended: the usage of the tree, or why there is none.
    Done(Result<Usage, IoFailure>),
}

/// The plain-value model of a [`MeasureStep`].
pub enum MeasureStepModel {
    Open,
    NextEntry { ascend: bool },
    InspectEntry(Seq<u8>),
    ReadSharing,
    Done(Result<Usage, IoFailureModel>),
}

impl View for MeasureStep {
    type V = MeasureStepModel;

    open spec fn view(&self) -> MeasureStepModel {
        match self {
            MeasureStep::Open => MeasureStepModel::Open,
            MeasureStep::NextEntry { ascend } => MeasureStepModel::NextEntry { ascend: *ascend },
            MeasureStep::InspectEntry(n) => MeasureStepModel::InspectEntry(n@),
            MeasureStep::ReadSharing => MeasureStepModel::ReadSharing,
            MeasureStep::Done(Ok(u)) => MeasureStepModel::Done(Ok(*u)),
            MeasureStep::Done(Err(f)) => MeasureStepModel::Done(Err(f@)),
        }
    }
}

/// The state of a measurement.
pub struct Measurement {
    tally: UsageTally,
    platform: Platform,
    depth: u64,
    phase: MeasurePhase,
}

/// The plain-value model of a [`Measurement`].
pub struct MeasurementModel {
    pub tally: UsageTallyModel,
    pub platform: Platform,
    /// How many directories above the current entry are being measured.
    pub depth: u64,
    pub phase: MeasurePhase,
}

impl View for Measurement {
    type V = MeasurementModel;

    closed spec fn view(&self) -> MeasurementModel {
        MeasurementModel { tally: self.tally@, platform: self.platform, depth: self.depth, phase: self.phase }
    }
}

/// The invariant of a measurement: its tally keeps its own, and a file
/// whose sharing is awaited was met for the first time.
pub open spec fn measurement_inv(m: MeasurementModel) -> bool {
    &&& tally_inv(m.tally)
    &&& (m.phase is ReadingSharing ==> m.tally.pending)
}

/// Whether a platform's attribute buffer can be read.
pub open spec fn readable_attributes(platform: Platform, b: Seq<u8>) -> bool {
    platform == Platform::MacOs ==> 24 <= b.len() && attributes_len(returned_mask(b)) <= b.len()
}

/// The events a measurement accepts in each phase, with the counts they
/// add still fitting in a `u64`.
pub open spec fn measure_accepts(m: MeasurementModel, ev: MeasureEventModel) -> bool {
    match ev {
        MeasureEventModel::Inspected(r) => m.phase == MeasurePhase::Inspecting && (r matches Ok(s) ==> (
        !m.tally.seen.contains(identity_key(s.dev, s.ino)) ==> m.tally.usage.allocated_bytes + s.blocks * 512
            <= u64::MAX)),
        MeasureEventModel::Opened(_) => m.phase == MeasurePhase::Opening,
        MeasureEventModel::EntryRead(r) => m.phase == MeasurePhase::Reading && (r is Some && r->0 is Ok
            ==> m.depth < u64::MAX),
        MeasureEventModel::SharingRead(r) => (m.phase is ReadingSharing) && (r matches Ok(b) ==> {
            &&& readable_attributes(m.platform, b)
            &&& m.tally.usage.files < u64::MAX
            &&& m.tally.usage.logical_bytes + m.phase->size <= u64::MAX
            &&& (m.tally.usage.private_bytes is Some && platform_sharing(m.platform, b) is Some)
                ==> m.tally.usage.private_bytes->0 + platform_sharing(m.platform, b)->0.private_bytes
                <= u64::MAX
        }),
    }
}

/// The current entry is measured: the measurement is done at the top, and
/// otherwise goes on with the parent's next entry.
pub open spec fn entry_measured(m: MeasurementModel) -> (MeasurementModel, MeasureStepModel) {
    if m.depth == 0 {
        (MeasurementModel { phase: MeasurePhase::Done, ..m }, MeasureStepModel::Done(Ok(m.tally.usage)))
    } else {
        (
            MeasurementModel { depth: (m.depth - 1) as u64, phase: MeasurePhase::Reading, ..m },
            MeasureStepModel::NextEntry { ascend: true },
        )
    }
}

/// The measurement ends with the failure `f`.
pub open spec fn measure_failed(m: MeasurementModel, f: IoFailureModel) -> (MeasurementModel, MeasureStepModel) {
    (MeasurementModel { phase: MeasurePhase::Done, ..m }, MeasureStepModel::Done(Err(f)))
}

/// The tally after meeting the entry `s`.
pub open spec fn visited(t: UsageTallyModel, s: EntryStat) -> UsageTallyModel {
    let key = identity_key(s.dev, s.ino);
    let first = !t.seen.contains(key);
    UsageTallyModel {
        usage: if first {
            Usage { allocated_bytes: (t.usage.allocated_bytes + s.blocks * 512) as u64, ..t.usage }
        } else {
            t.usage
        },
        seen: t.seen.insert(key),
        pending: first,
    }
}

/// The tally after counting a file of `size` bytes that reports `sharing`.
pub open spec fn counted(t: UsageTallyModel, size: u64, sharing: Option<crate::sys::Sharing>) -> UsageTallyModel {
    UsageTallyModel {
        usage: Usage {
            files: (t.usage.files + 1) as u64,
            logical_bytes: (t.usage.logical_bytes + size) as u64,
            allocated_bytes: t.usage.allocated_bytes,
            private_bytes: private_after(t.usage.private_bytes, sharing),
        },
        seen: t.seen,
        pending: false,
    }
}

/// The measurement after `ev`, and what to do next.
pub open spec fn measure_step(m: MeasurementModel, ev: MeasureEventModel) -> (MeasurementModel, MeasureStepModel) {
    match ev {
        MeasureEventModel::Inspected(Err(f)) => measure_failed(m, f),
        MeasureEventModel::Inspected(Ok(s)) => {
            let first = !m.tally.seen.contains(identity_key(s.dev, s.ino));
            let next = MeasurementModel { tally: visited(m.tally, s), ..m };
            if first && s.is_dir {
                (MeasurementModel { phase: MeasurePhase::Opening, ..next }, MeasureStepModel::Open)
            } else if first && s.is_file {
                (
                    MeasurementModel { phase: MeasurePhase::ReadingSharing { size: s.size }, ..next },
                    MeasureStepModel::ReadSharing,
                )
            } else {
                entry_measured(next)
            }
        },
        MeasureEventModel::Opened(Ok(())) => (
            MeasurementModel { phase: MeasurePhase::Reading, ..m },
            MeasureStepModel::NextEntry { ascend: false },
        ),
        MeasureEventModel::Opened(Err(f)) => measure_failed(m, f),
        MeasureEventModel::EntryRead(None) => entry_measured(m),
        MeasureEventModel::EntryRead(Some(Err(f))) => measure_failed(m, f),
        MeasureEventModel::EntryRead(Some(Ok(name))) => (
            MeasurementModel { depth: (m.depth + 1) as u64, phase: MeasurePhase::Inspecting, ..m },
            MeasureStepModel::InspectEntry(name),
        ),
        MeasureEventModel::SharingRead(Err(f)) => measure_failed(m, f),
        MeasureEventModel::SharingRead(Ok(b)) => entry_measured(
            MeasurementModel {
                tally: counted(m.tally, m.phase->size, platform_sharing(m.platform, b)),
                ..m
            },
        ),
    }
}

impl Measurement {
    /// The measurement's invariant.
    pub open spec fn wf(&self) -> bool {
        measurement_inv(self@)
    }

    /// A measurement of a tree on `platform`; its root is inspected first.
    pub fn new(platform: Platform) -> (r: Measurement)
        ensures
            r.wf(),
            r@.tally.usage == (Usage { files: 0, logical_bytes: 0, allocated_bytes: 0, private_bytes: Some(0) }),
            r@.tally.seen == Set::<u128>::empty(),
            !r@.tally.pending,
            r@.platform == platform,
            r@.depth == 0,
            r@.phase == MeasurePhase::Inspecting,
    {
        Measurement { tally: UsageTally::new(), platform, depth: 0, phase: MeasurePhase::Inspecting }
    }

    /// The accounting so far.
    pub fn usage(&self) -> (r: Usage)
        ensures
            r == self@.tally.usage,
    {
        self.tally.usage()
    }

    /// Whether the entry `(dev, ino)` was met before.
    pub fn has_seen(&self, dev: u64, ino: u64) -> (r: bool)
        ensures
            r == self@.tally.seen.contains(identity_key(dev, ino)),
    {
        self.tally.has_seen(dev, ino)
    }

    /// How many directories above the current entry are being measured.
    pub fn depth(&self) -> (r: u64)
        ensures
            r == self@.depth,
    {
        self.depth
    }

    fn measured(&mut self) -> (a: MeasureStep)
        ensures
            (final(self)@, a@) == entry_measured(old(self)@),
    {
        if self.depth == 0 {
            self.phase = MeasurePhase::Done;
            MeasureStep::Done(Ok(self.tally.usage()))
        } else {
            self.depth = self.depth - 1;
            self.phase = MeasurePhase::Reading;
            MeasureStep::NextEntry { ascend: true }
        }
    }

    fn fail(&mut self, f: IoFailure) -> (a: MeasureStep)
        ensures
            (final(self)@, a@) == measure_failed(old(self)@, f@),
    {
        self.phase = MeasurePhase::Done;
        MeasureStep::Done(Err(f))
    }

    /// Takes what the last action ended in; answers with the next action.
    pub fn step(&mut self, event: MeasureEvent) -> (a: MeasureStep)
        requires
            old(self).wf(),
            measure_accepts(old(self)@, event@),
        ensures
            final(self).wf(),
            (final(self)@, a@) == measure_step(old(self)@, event@),
    {
        match event {
            MeasureEvent::Inspected(Err(f)) => self.fail(f),
            MeasureEvent::Inspected(Ok(s)) => {
                let first = self.tally.visit(s.dev, s.ino, s.blocks);
                if first && s.is_dir {
                    self.phase = MeasurePhase::Opening;
                    MeasureStep::Open
                } else if first && s.is_file {
                    self.phase = MeasurePhase::ReadingSharing { size: s.size };
                    MeasureStep::ReadSharing
                } else {
                    self.measured()
                }
            },
            MeasureEvent::Opened(Ok(())) => {
                self.phase = MeasurePhase::Reading;
                MeasureStep::NextEntry { ascend: false }
            },
            MeasureEvent::Opened(Err(f)) => self.fail(f),
            MeasureEvent::EntryRead(None) => self.measured(),
            MeasureEvent::EntryRead(Some(Err(f))) => self.fail(f),
            MeasureEvent::EntryRead(Some(Ok(name))) => {
                self.depth = self.depth + 1;
                self.phase = MeasurePhase::Inspecting;
                MeasureStep::InspectEntry(name)
            },
            MeasureEvent::SharingRead(Err(f)) => self.fail(f),
            MeasureEvent::SharingRead(Ok(b)) => {
                let size = match self.phase {
                    MeasurePhase::ReadingSharing { size } => size,
                    _ => 0,
                };
                let reported = sharing(self.platform, b.as_slice());
                self.tally.count_file(size, reported);
                self.measured()
            },
        }
    }
}

// ------------------------------------------------------------------- laws

/// Each inode is measured once: an entry met before adds nothing and is not
/// entered again, whether it is a file (another hard link) or a directory.
pub proof fn lemma_a_met_entry_adds_nothing(m: MeasurementModel, s: EntryStat)
    requires
        m.phase == MeasurePhase::Inspecting,
        m.tally.seen.contains(identity_key(s.dev, s.ino)),
    ensures
        measure_step(m, MeasureEventModel::Inspected(Ok(s))) == entry_measured(
            MeasurementModel { tally: UsageTallyModel { pending: false, ..m.tally }, ..m },
        ),
        measure_step(m, MeasureEventModel::Inspected(Ok(s))).0.tally.usage == m.tally.usage,
{
    assert(m.tally.seen.insert(identity_key(s.dev, s.ino)) =~= m.tally.seen);
}

/// Only regular files are counted: an entry that is not a regular file
/// leaves the file count and the logical bytes as they were, and its
/// sharing is never read.
pub proof fn lemma_only_regular_files_count(m: MeasurementModel, s: EntryStat)
    requires
        m.phase == MeasurePhase::Inspecting,
        !s.is_file,
    ensures
        measure_step(m, MeasureEventModel::Inspected(Ok(s))).0.tally.usage.files == m.tally.usage.files,
        measure_step(m, MeasureEventModel::Inspected(Ok(s))).0.tally.usage.logical_bytes
            == m.tally.usage.logical_bytes,
        !(measure_step(m, MeasureEventModel::Inspected(Ok(s))).1 is ReadSharing),
{
}

/// A regular file met for the first time is counted once, with its length:
/// its sharing is read next, and reading it adds one file and exactly the
/// file's length to the logical bytes.
pub proof fn lemma_a_new_regular_file_adds_its_length(m: MeasurementModel, s: EntryStat, b: Seq<u8>)
    requires
        m.phase == MeasurePhase::Inspecting,
        s.is_file,
        !s.is_dir,
        !m.tally.seen.contains(identity_key(s.dev, s.ino)),
        m.tally.usage.files < u64::MAX,
        m.tally.usage.logical_bytes + s.size <= u64::MAX,
    ensures
        measure_step(m, MeasureEventModel::Inspected(Ok(s))).1 is ReadSharing,
        measure_step(
            measure_step(m, MeasureEventModel::Inspected(Ok(s))).0,
            MeasureEventModel::SharingRead(Ok(b)),
        ).0.tally.usage.files == m.tally.usage.files + 1,
        measure_step(
            measure_step(m, MeasureEventModel::Inspected(Ok(s))).0,
            MeasureEventModel::SharingRead(Ok(b)),
        ).0.tally.usage.logical_bytes == m.tally.usage.logical_bytes + s.size,
{
}

/// Sharing is read only for a regular file met for the first time.
pub proof fn lemma_sharing_is_read_only_for_new_files(m: MeasurementModel, ev: MeasureEventModel)
    requires
        measure_accepts(m, ev),
        measure_step(m, ev).1 is ReadSharing,
    ensures
        ev matches MeasureEventModel::Inspected(Ok(s)) && s.is_file && !m.tally.seen.contains(
            identity_key(s.dev, s.ino),
        ),
{
}

/// The blocks of an entry count once, when it is first met: a first
/// meeting adds its blocks (512 bytes each) to the allocated bytes.
pub proof fn lemma_a_new_entry_adds_its_blocks(m: MeasurementModel, s: EntryStat)
    requires
        m.phase == MeasurePhase::Inspecting,
        !m.tally.seen.contains(identity_key(s.dev, s.ino)),
        m.tally.usage.allocated_bytes + s.blocks * 512 <= u64::MAX,
    ensures
        measure_step(m, MeasureEventModel::Inspected(Ok(s))).0.tally.usage.allocated_bytes
            == m.tally.usage.allocated_bytes + s.blocks * 512,
        measure_step(m, MeasureEventModel::Inspected(Ok(s))).0.tally.seen.contains(identity_key(s.dev, s.ino)),
{
}

} // verus!
