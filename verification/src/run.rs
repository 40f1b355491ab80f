//! A clone from its stage to its end, as a state machine: the sweep of
//! stale stages, the creation of its own stage, the walk, the check that
//! the source held still, the exclusive publication of the tree, and the
//! removal (or, on request, the keeping) of the stage.
//!
//! The caller performs each action [`CloneRun::step`] answers with and hands
//! back the event it ended in. A tree is published only after the check
//! passed; a receipt exists only after publication; a failed sweep never
//! stops the clone; and a failed clone ends only after its stage was removed
//! or marked kept.
use vstd::prelude::*;
use crate::error::{Error, ErrorModel, IoFailure, IoFailureModel};
use crate::stage::{conclude_failure, failure_after_cleanup, failure_model, publish_outcome, publish_verdict};
use crate::walk::{
    change_verdict, io_error, outcome_model, tally_consistent, walk_inv, Receipt, ReceiptModel, Stamp, Walk,
    WalkModel, WalkPhase,
};

verus! {

/// Where a clone stands after its walk began.
#[derive(Clone, Copy, Debug, PartialEq, Eq, Structural)]
pub enum RunPhase {
    /// Stale stages of the destination's parent are being swept.
    Sweeping,
    /// The clone's own stage is being created.
    CreatingStage,
    /// The source is being walked into the stage.
    Walking,
    /// The walk finished; every recorded entry is to be read again.
    Checking,
    /// The source held still; the tree is to be renamed to the destination.
    Publishing,
    /// The tree is published; it is to get the source root's mode.
    Finalizing,
    /// The clone is complete; its stage is to be removed.
    RemovingStage,
    /// The clone failed; its stage is to be removed, or marked kept.
    CleaningUp,
    /// The clone succeeded; its receipt can be taken.
    Succeeded,
    /// The clone failed, and its stage was dealt with.
    Failed,
}

/// What the caller reports after an action.
pub enum CloneEvent {
    /// The stale stages the sweep removed, or why it could not sweep.
    Swept(Result<Vec<String>, IoFailure>),
    /// The stage that was created, or the error of creating it.
    StageCreated(Result<String, Error>),
    /// The walk of the whole source ended: the finished walk, or the error
    /// that ended it.
    Walked(Result<Walk, Error>),
    /// Every recorded entry was read again, in record order: its stamp, or
    /// none where it could not be read.
    Observed(Vec<Option<Stamp>>),
    /// The outcome of renaming the tree to the destination, never replacing.
    Renamed(Result<(), IoFailure>),
    /// The outcome of giving the published destination the source root's mode.
    ModeSet(Result<(), IoFailure>),
    /// The stage was removed, or marked kept; the failure of removing it, if any.
    StageHandled(Option<IoFailure>),
    /// The current action failed before it could report its own outcome.
    Failed(Error),
}

/// The plain-value model of a [`CloneEvent`].
pub enum EventModel {
    Swept(Result<Seq<Seq<char>>, IoFailureModel>),
    StageCreated(Result<Seq<char>, ErrorModel>),
    Walked(Result<WalkModel, ErrorModel>),
    Observed(Seq<Option<Stamp>>),
    Renamed(Result<(), IoFailureModel>),
    ModeSet(Result<(), IoFailureModel>),
    StageHandled(Option<IoFailureModel>),
    Failed(ErrorModel),
}

impl View for CloneEvent {
    type V = EventModel;

    open spec fn view(&self) -> EventModel {
        match self {
            CloneEvent::Swept(Ok(v)) => EventModel::Swept(Ok(v@.map_values(|s: String| s@))),
            CloneEvent::Swept(Err(f)) => EventModel::Swept(Err(f@)),
            CloneEvent::StageCreated(Ok(s)) => EventModel::StageCreated(Ok(s@)),
            CloneEvent::StageCreated(Err(e)) => EventModel::StageCreated(Err(e@)),
            CloneEvent::Walked(Ok(w)) => EventModel::Walked(Ok(w@)),
            CloneEvent::Walked(Err(e)) => EventModel::Walked(Err(e@)),
            CloneEvent::Observed(v) => EventModel::Observed(v@),
            CloneEvent::Renamed(r) => EventModel::Renamed(outcome_model(*r)),
            CloneEvent::ModeSet(r) => EventModel::ModeSet(outcome_model(*r)),
            CloneEvent::StageHandled(f) => EventModel::StageHandled(failure_model(*f)),
            CloneEvent::Failed(e) => EventModel::Failed(e@),
        }
    }
}

/// What the caller is to do next.
pub enum CloneAction {
    /// Create the clone's stage and report [`CloneEvent::StageCreated`].
    CreateStage,
    /// Walk the source into the stage and report [`CloneEvent::Walked`].
    Walk,
    /// Read every recorded source entry again, in record order, and report
    /// [`CloneEvent::Observed`].
    CheckSource,
    /// Give the tree its owner's access if the source root lacks it, rename
    /// it to the destination without replacing anything, and report
    /// [`CloneEvent::Renamed`].
    Publish,
    /// Give the destination the source root's mode and report
    /// [`CloneEvent::ModeSet`].
    SetMode,
    /// Remove the stage and report [`CloneEvent::StageHandled`].
    RemoveStage,
    /// Mark the stage kept, so no sweep takes it, and report
    /// [`CloneEvent::StageHandled`].
    MarkKept,
    /// The clone succeeded: take its receipt.
    Succeed,
    /// The clone failed with this error.
    Fail(Error),
}

/// The plain-value model of a [`CloneAction`].
pub enum ActionModel {
    CreateStage,
    Walk,
    CheckSource,
    Publish,
    SetMode,
    RemoveStage,
    MarkKept,
    Succeed,
    Fail(ErrorModel),
}

impl View for CloneAction {
    type V = ActionModel;

    open spec fn view(&self) -> ActionModel {
        match self {
            CloneAction::CreateStage => ActionModel::CreateStage,
            CloneAction::Walk => ActionModel::Walk,
            CloneAction::CheckSource => ActionModel::CheckSource,
            CloneAction::Publish => ActionModel::Publish,
            CloneAction::SetMode => ActionModel::SetMode,
            CloneAction::RemoveStage => ActionModel::RemoveStage,
            CloneAction::MarkKept => ActionModel::MarkKept,
            CloneAction::Succeed => ActionModel::Succeed,
            CloneAction::Fail(e) => ActionModel::Fail(e@),
        }
    }
}

/// The state of a clone after its walk began.
pub struct CloneRun {
    destination: String,
    stage: String,
    keep: bool,
    phase: RunPhase,
    swept: Vec<String>,
    walk: Option<Walk>,
    error: Option<Error>,
}

/// The plain-value model of a [`CloneRun`].
pub struct RunModel {
    /// Where the tree is published.
    pub destination: Seq<char>,
    /// The stage the tree is built in, once created.
    pub stage: Seq<char>,
    /// Whether a failed stage is kept (`keep_failed_stage`).
    pub keep: bool,
    pub phase: RunPhase,
    /// The stale stages swept before the clone began.
    pub swept: Seq<Seq<char>>,
    /// The finished walk, once there is one.
    pub walk: Option<WalkModel>,
    /// The error a clean-up is for.
    pub error: Option<ErrorModel>,
}

impl View for CloneRun {
    type V = RunModel;

    closed spec fn view(&self) -> RunModel {
        RunModel {
            destination: self.destination@,
            stage: self.stage@,
            keep: self.keep,
            phase: self.phase,
            swept: self.swept@.map_values(|s: String| s@),
            walk: match self.walk {
                Some(w) => Some(w@),
                None => None,
            },
            error: match self.error {
                Some(e) => Some(e@),
                None => None,
            },
        }
    }
}

/// Whether a walk is finished: it keeps its invariant, stands between
/// entries, and has no directory open.
pub open spec fn walk_finished(w: WalkModel) -> bool {
    walk_inv(w) && w.phase == WalkPhase::Idle && w.open_dirs == 0
}

/// Whether the clone is past its walk and not failed.
pub open spec fn past_walk(p: RunPhase) -> bool {
    p == RunPhase::Checking || p == RunPhase::Publishing || p == RunPhase::Finalizing || p
        == RunPhase::RemovingStage || p == RunPhase::Succeeded
}

/// Whether the clone still runs an action that can fail.
pub open spec fn in_progress(p: RunPhase) -> bool {
    p == RunPhase::Walking || p == RunPhase::Checking || p == RunPhase::Publishing || p
        == RunPhase::Finalizing
}

/// The invariant of a clone: past its walk it holds the finished walk, and
/// cleaning up it holds the error it cleans up after.
pub open spec fn run_inv(m: RunModel) -> bool {
    &&& past_walk(m.phase) ==> (m.walk matches Some(w) && walk_finished(w))
    &&& m.phase == RunPhase::CleaningUp ==> m.error is Some
}

/// The events the clone accepts in each phase.
pub open spec fn accepts(m: RunModel, ev: EventModel) -> bool {
    match ev {
        EventModel::Swept(_) => m.phase == RunPhase::Sweeping,
        EventModel::StageCreated(_) => m.phase == RunPhase::CreatingStage,
        EventModel::Walked(Ok(w)) => m.phase == RunPhase::Walking && walk_finished(w),
        EventModel::Walked(Err(_)) => m.phase == RunPhase::Walking,
        EventModel::Observed(obs) => m.phase == RunPhase::Checking && obs.len() == m.walk->0.records.len(),
        EventModel::Renamed(_) => m.phase == RunPhase::Publishing,
        EventModel::ModeSet(_) => m.phase == RunPhase::Finalizing,
        EventModel::StageHandled(_) => m.phase == RunPhase::RemovingStage || m.phase == RunPhase::CleaningUp,
        EventModel::Failed(_) => in_progress(m.phase),
    }
}

/// A failure while the clone runs: the stage is to be removed, or, when
/// failed stages are kept, marked kept.
pub open spec fn clean_up_after(m: RunModel, e: ErrorModel) -> (RunModel, ActionModel) {
    (
        RunModel { phase: RunPhase::CleaningUp, error: Some(e), ..m },
        if m.keep {
            ActionModel::MarkKept
        } else {
            ActionModel::RemoveStage
        },
    )
}

/// The clone after event `ev`, and the next action:
/// - after the sweep, whatever it removed or even if it failed, the stage
///   is created; a stage that cannot be created fails the clone;
/// - a finished walk is checked; a failed one is cleaned up after;
/// - a source that held still is published; a changed one is cleaned up after;
/// - a renamed tree gets its mode; a destination that appeared meanwhile,
///   or any other failure to rename, is cleaned up after;
/// - a published tree's stage is removed, and the clone then succeeds, or
///   fails if the stage could not be removed;
/// - a failed clone ends once its stage is dealt with, with the error
///   [`failure_after_cleanup`] gives.
pub open spec fn run_step(m: RunModel, ev: EventModel) -> (RunModel, ActionModel) {
    match ev {
        EventModel::Swept(r) => (
            RunModel {
                phase: RunPhase::CreatingStage,
                swept: match r {
                    Ok(v) => v,
                    Err(_) => seq![],
                },
                ..m
            },
            ActionModel::CreateStage,
        ),
        EventModel::StageCreated(Ok(stage)) => (
            RunModel { phase: RunPhase::Walking, stage, ..m },
            ActionModel::Walk,
        ),
        EventModel::StageCreated(Err(e)) => (RunModel { phase: RunPhase::Failed, ..m }, ActionModel::Fail(e)),
        EventModel::Walked(Ok(w)) => (
            RunModel { phase: RunPhase::Checking, walk: Some(w), ..m },
            ActionModel::CheckSource,
        ),
        EventModel::Walked(Err(e)) => clean_up_after(m, e),
        EventModel::Observed(obs) => match change_verdict(m.walk->0.records, obs) {
            Ok(()) => (RunModel { phase: RunPhase::Publishing, ..m }, ActionModel::Publish),
            Err(e) => clean_up_after(m, e),
        },
        EventModel::Renamed(r) => match publish_verdict(m.destination, r) {
            Ok(()) => (RunModel { phase: RunPhase::Finalizing, ..m }, ActionModel::SetMode),
            Err(e) => clean_up_after(m, e),
        },
        EventModel::ModeSet(Ok(())) => (
            RunModel { phase: RunPhase::RemovingStage, ..m },
            ActionModel::RemoveStage,
        ),
        EventModel::ModeSet(Err(f)) => clean_up_after(m, io_error(m.destination, f)),
        EventModel::StageHandled(removal) => if m.phase == RunPhase::RemovingStage {
            match removal {
                None => (RunModel { phase: RunPhase::Succeeded, ..m }, ActionModel::Succeed),
                Some(f) => (
                    RunModel { phase: RunPhase::Failed, error: None, ..m },
                    ActionModel::Fail(io_error(m.stage, f)),
                ),
            }
        } else {
            (
                RunModel { phase: RunPhase::Failed, error: None, ..m },
                ActionModel::Fail(failure_after_cleanup(m.error->0, m.stage, m.keep, removal)),
            )
        },
        EventModel::Failed(e) => clean_up_after(m, e),
    }
}

impl CloneRun {
    /// The clone's invariant.
    pub open spec fn wf(&self) -> bool {
        run_inv(self@)
    }

    /// A clone published at `destination`; a failed stage is kept when
    /// `keep` is set. It begins by sweeping the destination's parent of
    /// stale stages, and reports [`CloneEvent::Swept`].
    pub fn new(destination: String, keep: bool) -> (r: CloneRun)
        ensures
            r.wf(),
            r@ == (RunModel {
                destination: destination@,
                stage: seq![],
                keep,
                phase: RunPhase::Sweeping,
                swept: seq![],
                walk: None,
                error: None,
            }),
    {
        let r = CloneRun {
            destination,
            stage: String::new(),
            keep,
            phase: RunPhase::Sweeping,
            swept: Vec::new(),
            walk: None,
            error: None,
        };
        assert(r@.swept =~= seq![]);
        r
    }

    /// The phase the clone is in.
    pub fn phase(&self) -> (r: RunPhase)
        ensures
            r == self@.phase,
    {
        self.phase
    }

    /// How many entries the check must read again.
    pub fn record_count(&self) -> (r: usize)
        requires
            self.wf(),
            past_walk(self@.phase),
        ensures
            r == self@.walk->0.records.len(),
    {
        match &self.walk {
            Some(w) => w.record_count(),
            None => 0,
        }
    }

    fn clean_up(&mut self, e: Error) -> (a: CloneAction)
        ensures
            (final(self)@, a@) == clean_up_after(old(self)@, e@),
            final(self).wf(),
    {
        self.phase = RunPhase::CleaningUp;
        self.error = Some(e);
        if self.keep {
            CloneAction::MarkKept
        } else {
            CloneAction::RemoveStage
        }
    }

    /// Takes the event the last action ended in; answers with the next action.
    pub fn step(&mut self, event: CloneEvent) -> (a: CloneAction)
        requires
            old(self).wf(),
            accepts(old(self)@, event@),
        ensures
            final(self).wf(),
            (final(self)@, a@) == run_step(old(self)@, event@),
    {
        match event {
            CloneEvent::Swept(r) => {
                match r {
                    Ok(v) => {
                        self.swept = v;
                    },
                    Err(_) => {
                        self.swept = Vec::new();
                        assert(self@.swept =~= seq![]);
                    },
                }
                self.phase = RunPhase::CreatingStage;
                CloneAction::CreateStage
            },
            CloneEvent::StageCreated(Ok(stage)) => {
                self.stage = stage;
                self.phase = RunPhase::Walking;
                CloneAction::Walk
            },
            CloneEvent::StageCreated(Err(e)) => {
                self.phase = RunPhase::Failed;
                CloneAction::Fail(e)
            },
            CloneEvent::Walked(Ok(w)) => {
                self.walk = Some(w);
                self.phase = RunPhase::Checking;
                CloneAction::CheckSource
            },
            CloneEvent::Walked(Err(e)) => self.clean_up(e),
            CloneEvent::Observed(observed) => {
                let verdict = match &self.walk {
                    Some(w) => w.verify_unchanged(&observed),
                    None => Ok(()),
                };
                match verdict {
                    Ok(()) => {
                        self.phase = RunPhase::Publishing;
                        CloneAction::Publish
                    },
                    Err(e) => self.clean_up(e),
                }
            },
            CloneEvent::Renamed(r) => match publish_outcome(self.destination.as_str(), r) {
                Ok(()) => {
                    self.phase = RunPhase::Finalizing;
                    CloneAction::SetMode
                },
                Err(e) => self.clean_up(e),
            },
            CloneEvent::ModeSet(Ok(())) => {
                self.phase = RunPhase::RemovingStage;
                CloneAction::RemoveStage
            },
            CloneEvent::ModeSet(Err(f)) => {
                let e = Error::io(self.destination.as_str(), f);
                self.clean_up(e)
            },
            CloneEvent::StageHandled(removal) => {
                if self.phase == RunPhase::RemovingStage {
                    match removal {
                        None => {
                            self.phase = RunPhase::Succeeded;
                            CloneAction::Succeed
                        },
                        Some(f) => {
                            self.phase = RunPhase::Failed;
                            self.error = None;
                            CloneAction::Fail(Error::io(self.stage.as_str(), f))
                        },
                    }
                } else {
                    let pending = self.error.take();
                    self.phase = RunPhase::Failed;
                    match pending {
                        Some(error) => CloneAction::Fail(conclude_failure(error, self.stage.as_str(), self.keep, removal)),
                        None => CloneAction::Succeed,
                    }
                }
            },
            CloneEvent::Failed(e) => self.clean_up(e),
        }
    }

    /// The receipt of a clone that succeeded, with the space left afterwards.
    pub fn receipt(self, available_after: u64) -> (r: Receipt)
        requires
            self.wf(),
            self@.phase == RunPhase::Succeeded,
        ensures
            r@ == (ReceiptModel {
                source: self@.walk->0.source,
                destination: self@.walk->0.destination,
                filesystem: self@.walk->0.filesystem,
                tally: self@.walk->0.tally,
                swept_stages: self@.swept,
                available_before: self@.walk->0.available_before,
                available_after,
            }),
            tally_consistent(r@.tally, self@.walk->0.fallback),
            r.hardlinked_files <= r.regular_files,
    {
        match self.walk {
            Some(w) => w.finish(available_after, self.swept),
            None => Receipt {
                source: String::new(),
                destination: String::new(),
                filesystem: String::new(),
                directories: 0,
                regular_files: 0,
                symlinks: 0,
                cloned_files: 0,
                copied_files: 0,
                logical_bytes: 0,
                copied_bytes: 0,
                hardlinked_files: 0,
                swept_stages: self.swept,
                available_before: 0,
                available_after,
            },
        }
    }
}

// ------------------------------------------------------------------- laws

/// Housekeeping never blocks a clone: after the sweep, whatever it removed
/// or even if it failed, the clone goes on to create its stage; a failed
/// sweep counts as having removed nothing.
pub proof fn lemma_sweep_failures_never_block(m: RunModel, f: IoFailureModel)
    requires
        m.phase == RunPhase::Sweeping,
    ensures
        run_step(m, EventModel::Swept(Err(f))).1 == ActionModel::CreateStage,
        run_step(m, EventModel::Swept(Err(f))).0.swept == Seq::<Seq<char>>::empty(),
{
}

/// Consistent or refused: a tree is published only right after the check of
/// every recorded entry passed.
pub proof fn lemma_publish_only_after_the_check(m: RunModel, ev: EventModel)
    requires
        run_inv(m),
        accepts(m, ev),
        run_step(m, ev).1 == ActionModel::Publish,
    ensures
        m.phase == RunPhase::Checking,
        ev matches EventModel::Observed(obs) && change_verdict(m.walk->0.records, obs) is Ok,
{
}

/// Each phase is earned: the stage is created only after the sweep, the
/// walk only into a created stage, checking follows a finished walk,
/// publication a passed check, setting the mode an exclusive rename that
/// succeeded, removing the stage a mode that was set, and success a stage
/// that was removed.
pub proof fn lemma_each_phase_is_earned(m: RunModel, ev: EventModel)
    requires
        run_inv(m),
        accepts(m, ev),
    ensures
        run_step(m, ev).0.phase == RunPhase::CreatingStage ==> m.phase == RunPhase::Sweeping && ev is Swept,
        run_step(m, ev).0.phase == RunPhase::Walking ==> m.phase == RunPhase::CreatingStage && (
        ev matches EventModel::StageCreated(r) && r is Ok),
        run_step(m, ev).0.phase == RunPhase::Checking ==> m.phase == RunPhase::Walking && ev is Walked,
        run_step(m, ev).0.phase == RunPhase::Publishing ==> m.phase == RunPhase::Checking && (
        ev matches EventModel::Observed(obs) && change_verdict(m.walk->0.records, obs) is Ok),
        run_step(m, ev).0.phase == RunPhase::Finalizing ==> m.phase == RunPhase::Publishing && (
        ev matches EventModel::Renamed(r) && r is Ok),
        run_step(m, ev).0.phase == RunPhase::RemovingStage ==> m.phase == RunPhase::Finalizing && (
        ev matches EventModel::ModeSet(r) && r is Ok),
        run_step(m, ev).0.phase == RunPhase::Succeeded ==> m.phase == RunPhase::RemovingStage && ev
            == EventModel::StageHandled(None),
        run_step(m, ev).1 == ActionModel::Succeed ==> run_step(m, ev).0.phase == RunPhase::Succeeded,
{
}

/// Own cleanup: every failure while the clone runs asks for the stage to be
/// removed, or marked kept when failed stages are kept; and the clone fails
/// only once the stage was dealt with, naming it when it stays, or when no
/// stage could be created at all.
pub proof fn lemma_failures_clean_up(m: RunModel, ev: EventModel)
    requires
        run_inv(m),
        accepts(m, ev),
    ensures
        run_step(m, ev).0.phase == RunPhase::CleaningUp ==> run_step(m, ev).1 == (if m.keep {
            ActionModel::MarkKept
        } else {
            ActionModel::RemoveStage
        }),
        run_step(m, ev).1 is Fail ==> ((m.phase == RunPhase::CleaningUp || m.phase == RunPhase::RemovingStage)
            && ev is StageHandled) || (m.phase == RunPhase::CreatingStage && ev is StageCreated),
        m.phase == RunPhase::CleaningUp ==> (ev matches EventModel::StageHandled(removal)
            && run_step(m, ev).1 == ActionModel::Fail(
            failure_after_cleanup(m.error->0, m.stage, m.keep, removal),
        )),
{
}

} // verus!
