//! Removing a tree, as a state machine: each entry is inspected without
//! following links; a file or link is removed; a directory first regains its
//! owner's access where it lacks it, then its entries are removed one by
//! one, depth first, and then the directory itself. An entry that vanishes
//! meanwhile (another removal of the same tree got there first) counts as
//! removed; any other failure ends the removal.
//!
//! The caller performs each action [`TreeRemoval::step`] answers with and
//! hands back what it ended in.
use vstd::prelude::*;
use crate::error::{IoFailure, IoFailureModel};
use crate::stage::{removal_action, removal_outcome, removal_plan, removal_verdict, vanished, RemovalAction};
use crate::walk::outcome_model;

verus! {

/// What the removal waits for.
#[derive(Clone, Copy, Debug, PartialEq, Eq, Structural)]
pub enum RemovalPhase {
    /// The current entry is to be inspected.
    Inspecting,
    /// The current directory is to regain its owner's access.
    RestoringAccess,
    /// The current directory is to be opened for reading.
    Opening,
    /// The next entry of the current directory is to be read.
    Reading,
    /// The current file or link is to be removed.
    RemovingEntry,
    /// The current directory, read to its end, is to be removed.
    RemovingDirectory,
    /// The removal ended.
    Done,
}

/// What the caller did.
pub enum RemovalEvent {
    /// The current entry, not following links: whether it is a directory,
    /// and its mode; or why it could not be inspected.
    Inspected(Result<(bool, u32), IoFailure>),
    /// The outcome of giving the current directory its owner's access.
    AccessRestored(Result<(), IoFailure>),
    /// The outcome of opening the current directory for reading.
    Opened(Result<(), IoFailure>),
    /// The next entry's name, a failure to read it, or none at the end.
    EntryRead(Option<Result<Vec<u8>, IoFailure>>),
    /// The outcome of removing the current entry.
    Removed(Result<(), IoFailure>),
}

/// The plain-value model of a [`RemovalEvent`].
pub enum RemovalEventModel {
    Inspected(Result<(bool, u32), IoFailureModel>),
    AccessRestored(Result<(), IoFailureModel>),
    Opened(Result<(), IoFailureModel>),
    EntryRead(Option<Result<Seq<u8>, IoFailureModel>>),
    Removed(Result<(), IoFailureModel>),
}

impl View for RemovalEvent {
    type V = RemovalEventModel;

    open spec fn view(&self) -> RemovalEventModel {
        match self {
            RemovalEvent::Inspected(Ok(x)) => RemovalEventModel::Inspected(Ok(*x)),
            RemovalEvent::Inspected(Err(f)) => RemovalEventModel::Inspected(Err(f@)),
            RemovalEvent::AccessRestored(r) => RemovalEventModel::AccessRestored(outcome_model(*r)),
            RemovalEvent::Opened(r) => RemovalEventModel::Opened(outcome_model(*r)),
            RemovalEvent::EntryRead(None) => RemovalEventModel::EntryRead(None),
            RemovalEvent::EntryRead(Some(Ok(n))) => RemovalEventModel::EntryRead(Some(Ok(n@))),
            RemovalEvent::EntryRead(Some(Err(f))) => RemovalEventModel::EntryRead(Some(Err(f@))),
            RemovalEvent::Removed(r) => RemovalEventModel::Removed(outcome_model(*r)),
        }
    }
}

/// What the caller is to do next.
pub enum RemovalStep {
    /// Remove the current file or link.
    RemoveEntry,
    /// Give the current directory this mode.
    RestoreAccess(u32),
    /// Open the current directory for reading.
    Open,
    /// Read the next entry of the current directory; with `ascend`, the
    /// current entry was removed and its parent is current again.
    NextEntry { ascend: bool },
    /// Make the entry of this name in the current directory current, and
    /// inspect it.
    InspectEntry(Vec<u8>),
    /// Remove the current directory.
    RemoveDirectory,
    /// The removal ended: the tree is gone, or why not.
    Done(Result<(), IoFailure>),
}

/// The plain-value model of a [`RemovalStep`].
pub enum RemovalStepModel {
    RemoveEntry,
    RestoreAccess(u32),
    Open,
    NextEntry { ascend: bool },
    InspectEntry(Seq<u8>),
    RemoveDirectory,
    Done(Result<(), IoFailureModel>),
}

impl View for RemovalStep {
    type V = RemovalStepModel;

    open spec fn view(&self) -> RemovalStepModel {
        match self {
            RemovalStep::RemoveEntry => RemovalStepModel::RemoveEntry,
            RemovalStep::RestoreAccess(m) => RemovalStepModel::RestoreAccess(*m),
            RemovalStep::Open => RemovalStepModel::Open,
            RemovalStep::NextEntry { ascend } => RemovalStepModel::NextEntry { ascend: *ascend },
            RemovalStep::InspectEntry(n) => RemovalStepModel::InspectEntry(n@),
            RemovalStep::RemoveDirectory => RemovalStepModel::RemoveDirectory,
            RemovalStep::Done(r) => RemovalStepModel::Done(outcome_model(*r)),
        }
    }
}

/// The state of a removal.
pub struct TreeRemoval {
    depth: u64,
    phase: RemovalPhase,
}

/// The plain-value model of a [`TreeRemoval`].
pub struct RemovalModel {
    /// How many directories above the current entry are being emptied.
    pub depth: u64,
    pub phase: RemovalPhase,
}

impl View for TreeRemoval {
    type V = RemovalModel;

    closed spec fn view(&self) -> RemovalModel {
        RemovalModel { depth: self.depth, phase: self.phase }
    }
}

/// The events a removal accepts in each phase.
pub open spec fn removal_accepts(m: RemovalModel, ev: RemovalEventModel) -> bool {
    match ev {
        RemovalEventModel::Inspected(_) => m.phase == RemovalPhase::Inspecting,
        RemovalEventModel::AccessRestored(_) => m.phase == RemovalPhase::RestoringAccess,
        RemovalEventModel::Opened(_) => m.phase == RemovalPhase::Opening,
        RemovalEventModel::EntryRead(r) => m.phase == RemovalPhase::Reading && (r is Some && r->0 is Ok
            ==> m.depth < u64::MAX),
        RemovalEventModel::Removed(_) => m.phase == RemovalPhase::RemovingEntry || m.phase
            == RemovalPhase::RemovingDirectory,
    }
}

/// The current entry is gone: the removal is done at the top, and otherwise
/// goes on with the parent's next entry.
pub open spec fn entry_gone(m: RemovalModel) -> (RemovalModel, RemovalStepModel) {
    if m.depth == 0 {
        (RemovalModel { phase: RemovalPhase::Done, ..m }, RemovalStepModel::Done(Ok(())))
    } else {
        (
            RemovalModel { depth: (m.depth - 1) as u64, phase: RemovalPhase::Reading },
            RemovalStepModel::NextEntry { ascend: true },
        )
    }
}

/// The removal ends with the failure `f`.
pub open spec fn removal_failed(m: RemovalModel, f: IoFailureModel) -> (RemovalModel, RemovalStepModel) {
    (RemovalModel { phase: RemovalPhase::Done, ..m }, RemovalStepModel::Done(Err(f)))
}

/// The removal after `ev`, and what to do next.
pub open spec fn removal_step(m: RemovalModel, ev: RemovalEventModel) -> (RemovalModel, RemovalStepModel) {
    match ev {
        RemovalEventModel::Inspected(Err(f)) => if vanished(f) {
            entry_gone(m)
        } else {
            removal_failed(m, f)
        },
        RemovalEventModel::Inspected(Ok((is_dir, mode))) => match removal_plan(is_dir, mode) {
            RemovalAction::RemoveEntry => (
                RemovalModel { phase: RemovalPhase::RemovingEntry, ..m },
                RemovalStepModel::RemoveEntry,
            ),
            RemovalAction::EmptyDirectory { restore_mode: Some(mode) } => (
                RemovalModel { phase: RemovalPhase::RestoringAccess, ..m },
                RemovalStepModel::RestoreAccess(mode),
            ),
            RemovalAction::EmptyDirectory { restore_mode: None } => (
                RemovalModel { phase: RemovalPhase::Opening, ..m },
                RemovalStepModel::Open,
            ),
        },
        RemovalEventModel::AccessRestored(r) => match removal_verdict(r) {
            Ok(()) => (RemovalModel { phase: RemovalPhase::Opening, ..m }, RemovalStepModel::Open),
            Err(f) => removal_failed(m, f),
        },
        RemovalEventModel::Opened(Ok(())) => (
            RemovalModel { phase: RemovalPhase::Reading, ..m },
            RemovalStepModel::NextEntry { ascend: false },
        ),
        RemovalEventModel::Opened(Err(f)) => if vanished(f) {
            entry_gone(m)
        } else {
            removal_failed(m, f)
        },
        RemovalEventModel::EntryRead(None) => (
            RemovalModel { phase: RemovalPhase::RemovingDirectory, ..m },
            RemovalStepModel::RemoveDirectory,
        ),
        RemovalEventModel::EntryRead(Some(Err(f))) => if vanished(f) {
            (m, RemovalStepModel::NextEntry { ascend: false })
        } else {
            removal_failed(m, f)
        },
        RemovalEventModel::EntryRead(Some(Ok(name))) => (
            RemovalModel { depth: (m.depth + 1) as u64, phase: RemovalPhase::Inspecting },
            RemovalStepModel::InspectEntry(name),
        ),
        RemovalEventModel::Removed(r) => match removal_verdict(r) {
            Ok(()) => entry_gone(m),
            Err(f) => removal_failed(m, f),
        },
    }
}

impl TreeRemoval {
    /// A removal of a tree; its root is inspected first.
    pub fn new() -> (r: TreeRemoval)
        ensures
            r@ == (RemovalModel { depth: 0, phase: RemovalPhase::Inspecting }),
    {
        TreeRemoval { depth: 0, phase: RemovalPhase::Inspecting }
    }

    /// How many directories above the current entry are being emptied.
    pub fn depth(&self) -> (r: u64)
        ensures
            r == self@.depth,
    {
        self.depth
    }

    fn gone(&mut self) -> (a: RemovalStep)
        ensures
            (final(self)@, a@) == entry_gone(old(self)@),
    {
        if self.depth == 0 {
            self.phase = RemovalPhase::Done;
            RemovalStep::Done(Ok(()))
        } else {
            self.depth = self.depth - 1;
            self.phase = RemovalPhase::Reading;
            RemovalStep::NextEntry { ascend: true }
        }
    }

    fn fail(&mut self, f: IoFailure) -> (a: RemovalStep)
        ensures
            (final(self)@, a@) == removal_failed(old(self)@, f@),
    {
        self.phase = RemovalPhase::Done;
        RemovalStep::Done(Err(f))
    }

    /// Takes what the last action ended in; answers with the next action.
    pub fn step(&mut self, event: RemovalEvent) -> (a: RemovalStep)
        requires
            removal_accepts(old(self)@, event@),
        ensures
            (final(self)@, a@) == removal_step(old(self)@, event@),
    {
        match event {
            RemovalEvent::Inspected(Err(f)) => {
                if crate::stage::has_vanished(&f) {
                    self.gone()
                } else {
                    self.fail(f)
                }
            },
            RemovalEvent::Inspected(Ok((is_dir, mode))) => match removal_action(is_dir, mode) {
                RemovalAction::RemoveEntry => {
                    self.phase = RemovalPhase::RemovingEntry;
                    RemovalStep::RemoveEntry
                },
                RemovalAction::EmptyDirectory { restore_mode: Some(m) } => {
                    self.phase = RemovalPhase::RestoringAccess;
                    RemovalStep::RestoreAccess(m)
                },
                RemovalAction::EmptyDirectory { restore_mode: None } => {
                    self.phase = RemovalPhase::Opening;
                    RemovalStep::Open
                },
            },
            RemovalEvent::AccessRestored(r) => match removal_outcome(r) {
                Ok(()) => {
                    self.phase = RemovalPhase::Opening;
                    RemovalStep::Open
                },
                Err(f) => self.fail(f),
            },
            RemovalEvent::Opened(Ok(())) => {
                self.phase = RemovalPhase::Reading;
                RemovalStep::NextEntry { ascend: false }
            },
            RemovalEvent::Opened(Err(f)) => {
                if crate::stage::has_vanished(&f) {
                    self.gone()
                } else {
                    self.fail(f)
                }
            },
            RemovalEvent::EntryRead(None) => {
                self.phase = RemovalPhase::RemovingDirectory;
                RemovalStep::RemoveDirectory
            },
            RemovalEvent::EntryRead(Some(Err(f))) => {
                if crate::stage::has_vanished(&f) {
                    RemovalStep::NextEntry { ascend: false }
                } else {
                    self.fail(f)
                }
            },
            RemovalEvent::EntryRead(Some(Ok(name))) => {
                self.depth = self.depth + 1;
                self.phase = RemovalPhase::Inspecting;
                RemovalStep::InspectEntry(name)
            },
            RemovalEvent::Removed(r) => match removal_outcome(r) {
                Ok(()) => self.gone(),
                Err(f) => self.fail(f),
            },
        }
    }
}

// ------------------------------------------------------------------- laws

/// Entries that vanish meanwhile count as removed, and only a failure for
/// another reason ends the removal in error.
pub proof fn lemma_removal_fails_only_for_real(m: RemovalModel, ev: RemovalEventModel)
    requires
        removal_accepts(m, ev),
    ensures
        removal_step(m, ev).1 matches RemovalStepModel::Done(Err(f)) ==> !vanished(f),
        ev matches RemovalEventModel::Inspected(Err(f)) ==> (vanished(f) ==> removal_step(m, ev) == entry_gone(m)),
        ev matches RemovalEventModel::Removed(Err(f)) ==> (vanished(f) ==> removal_step(m, ev) == entry_gone(m)),
{
}

/// A directory is removed only once it was read to its end, and read only
/// once its owner has full access (it had it, or regained it).
pub proof fn lemma_directories_are_emptied_first(m: RemovalModel, ev: RemovalEventModel)
    requires
        removal_accepts(m, ev),
    ensures
        removal_step(m, ev).1 == RemovalStepModel::RemoveDirectory ==> m.phase == RemovalPhase::Reading && ev
            == RemovalEventModel::EntryRead(None),
        removal_step(m, ev).1 == RemovalStepModel::Open ==> ((ev matches RemovalEventModel::Inspected(
            Ok((is_dir, mode)),
        ) && is_dir && crate::stage::owner_access(mode) is None) || (ev matches RemovalEventModel::AccessRestored(r)
            && removal_verdict(r) is Ok)),
        removal_step(m, ev).1 == RemovalStepModel::RemoveEntry ==> (ev matches RemovalEventModel::Inspected(
            Ok((is_dir, _)),
        ) && !is_dir),
{
}

} // verus!
