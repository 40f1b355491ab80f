//! The preflight of a clone as a state machine: the source is resolved and
//! inspected, the destination split into its name and parent, the parent
//! resolved and inspected, and the destination inspected, in that order, so
//! that the first failing check decides the error.
//!
//! The caller performs each read [`Preflight::step`] asks for and hands back
//! what it read; the machine answers with the next read or with the plan.
use vstd::prelude::*;
use crate::error::{Error, ErrorModel, IoFailure, IoFailureModel};
use crate::options::{Fallback, Options};
use crate::plan::{
    check_parent, check_source, check_target, destination_in, destination_parts, filesystem_model, joined_path,
    node_model, parent_kind_verdict, parent_verdict, parts_verdict, plan_decision, resolve_parent, resolve_source,
    resolved_model, source_kind_verdict, source_verdict, target_verdict, NodeFacts, Plan, PlanModel, TargetFacts,
};

verus! {

/// Which read the preflight waits for.
#[derive(Clone, Copy, Debug, PartialEq, Eq, Structural)]
pub enum PreflightPhase {
    /// The source path is to be resolved (made canonical).
    ResolvingSource,
    /// The resolved source is to be inspected, not following links.
    InspectingSource,
    /// The destination's parent is to be resolved.
    ResolvingParent,
    /// The resolved parent is to be inspected, following links.
    InspectingParent,
    /// What lies at and around the destination is to be read.
    InspectingTarget,
    /// The plan, or its refusal, is made.
    Done,
}

/// What the caller read.
pub enum PreflightEvent {
    /// The canonical form of the path to resolve, or why there is none.
    Resolved(Result<String, IoFailure>),
    /// The metadata of the path to inspect, or why there is none.
    Inspected(Result<NodeFacts, IoFailure>),
    /// What was read about the destination.
    TargetRead(TargetFacts),
}

/// The plain-value model of a [`PreflightEvent`].
pub enum PreflightEventModel {
    Resolved(Result<Seq<char>, IoFailureModel>),
    Inspected(Result<NodeFacts, IoFailureModel>),
    TargetRead(bool, bool, Seq<(u64, u64)>, Result<(u64, Seq<char>), IoFailureModel>),
}

impl View for PreflightEvent {
    type V = PreflightEventModel;

    open spec fn view(&self) -> PreflightEventModel {
        match self {
            PreflightEvent::Resolved(r) => PreflightEventModel::Resolved(resolved_model(*r)),
            PreflightEvent::Inspected(r) => PreflightEventModel::Inspected(node_model(*r)),
            PreflightEvent::TargetRead(f) => PreflightEventModel::TargetRead(
                f.exists,
                f.under_source,
                f.ancestors@,
                filesystem_model(f.filesystem),
            ),
        }
    }
}

/// What the caller is to read next, or the outcome.
pub enum PreflightAction {
    /// Resolve the source path and report [`PreflightEvent::Resolved`].
    ResolveSource,
    /// Inspect the resolved source and report [`PreflightEvent::Inspected`].
    InspectSource,
    /// Resolve the destination's parent and report [`PreflightEvent::Resolved`].
    ResolveParent,
    /// Inspect the resolved parent and report [`PreflightEvent::Inspected`].
    InspectParent,
    /// Read what lies at and around the destination and report
    /// [`PreflightEvent::TargetRead`].
    InspectTarget,
    /// The plan, or the error of the first check that failed.
    Done(Result<Plan, Error>),
}

/// The plain-value model of a [`PreflightAction`].
pub enum PreflightActionModel {
    ResolveSource,
    InspectSource,
    ResolveParent,
    InspectParent,
    InspectTarget,
    Done(Result<PlanModel, ErrorModel>),
}

impl View for PreflightAction {
    type V = PreflightActionModel;

    open spec fn view(&self) -> PreflightActionModel {
        match self {
            PreflightAction::ResolveSource => PreflightActionModel::ResolveSource,
            PreflightAction::InspectSource => PreflightActionModel::InspectSource,
            PreflightAction::ResolveParent => PreflightActionModel::ResolveParent,
            PreflightAction::InspectParent => PreflightActionModel::InspectParent,
            PreflightAction::InspectTarget => PreflightActionModel::InspectTarget,
            PreflightAction::Done(r) => PreflightActionModel::Done(plan_decision(*r)),
        }
    }
}

/// The state of a preflight.
pub struct Preflight {
    given_source: String,
    destination: String,
    options: Options,
    phase: PreflightPhase,
    source: String,
    source_facts: NodeFacts,
    name: String,
    parent_given: String,
    parent: String,
    parent_facts: NodeFacts,
}

/// The plain-value model of a [`Preflight`].
pub struct PreflightModel {
    pub given_source: Seq<char>,
    pub destination: Seq<char>,
    pub fallback: Fallback,
    pub min_free_bytes: u64,
    pub phase: PreflightPhase,
    /// The resolved source, once resolved.
    pub source: Seq<char>,
    pub source_facts: NodeFacts,
    /// The name of the new entry, once the destination was split.
    pub name: Seq<char>,
    /// The parent as the destination names it, once split.
    pub parent_given: Seq<char>,
    /// The resolved parent, once resolved.
    pub parent: Seq<char>,
    pub parent_facts: NodeFacts,
}

impl View for Preflight {
    type V = PreflightModel;

    closed spec fn view(&self) -> PreflightModel {
        PreflightModel {
            given_source: self.given_source@,
            destination: self.destination@,
            fallback: self.options.fallback,
            min_free_bytes: self.options.min_free_bytes,
            phase: self.phase,
            source: self.source@,
            source_facts: self.source_facts,
            name: self.name@,
            parent_given: self.parent_given@,
            parent: self.parent@,
            parent_facts: self.parent_facts,
        }
    }
}

/// Facts not read yet.
pub open spec fn unread() -> NodeFacts {
    NodeFacts { is_dir: false, dev: 0, ino: 0 }
}

/// A preflight of `source` and `destination`, before anything was read.
pub open spec fn preflight_start(
    source: Seq<char>,
    destination: Seq<char>,
    fallback: Fallback,
    min_free_bytes: u64,
) -> PreflightModel {
    PreflightModel {
        given_source: source,
        destination,
        fallback,
        min_free_bytes,
        phase: PreflightPhase::ResolvingSource,
        source: seq![],
        source_facts: unread(),
        name: seq![],
        parent_given: seq![],
        parent: seq![],
        parent_facts: unread(),
    }
}

/// The reads a preflight accepts in each phase.
pub open spec fn preflight_accepts(m: PreflightModel, ev: PreflightEventModel) -> bool {
    match ev {
        PreflightEventModel::Resolved(_) => m.phase == PreflightPhase::ResolvingSource || m.phase
            == PreflightPhase::ResolvingParent,
        PreflightEventModel::Inspected(_) => m.phase == PreflightPhase::InspectingSource || m.phase
            == PreflightPhase::InspectingParent,
        PreflightEventModel::TargetRead(..) => m.phase == PreflightPhase::InspectingTarget,
    }
}

/// The preflight ended by the error `e`.
pub open spec fn refused(m: PreflightModel, e: ErrorModel) -> (PreflightModel, PreflightActionModel) {
    (PreflightModel { phase: PreflightPhase::Done, ..m }, PreflightActionModel::Done(Err(e)))
}

/// The preflight after the read `ev`, and what to read next.
pub open spec fn preflight_step(m: PreflightModel, ev: PreflightEventModel) -> (
    PreflightModel,
    PreflightActionModel,
) {
    match ev {
        PreflightEventModel::Resolved(r) => if m.phase == PreflightPhase::ResolvingSource {
            match source_verdict(m.given_source, r) {
                Ok(s) => (
                    PreflightModel { source: s, phase: PreflightPhase::InspectingSource, ..m },
                    PreflightActionModel::InspectSource,
                ),
                Err(e) => refused(m, e),
            }
        } else {
            match parent_verdict(m.parent_given, r) {
                Ok(p) => (
                    PreflightModel { parent: p, phase: PreflightPhase::InspectingParent, ..m },
                    PreflightActionModel::InspectParent,
                ),
                Err(e) => refused(m, e),
            }
        },
        PreflightEventModel::Inspected(r) => if m.phase == PreflightPhase::InspectingSource {
            match source_kind_verdict(m.source, r) {
                Ok(f) => match parts_verdict(m.destination) {
                    Ok((n, pg)) => (
                        PreflightModel {
                            source_facts: f,
                            name: n,
                            parent_given: pg,
                            phase: PreflightPhase::ResolvingParent,
                            ..m
                        },
                        PreflightActionModel::ResolveParent,
                    ),
                    Err(e) => refused(m, e),
                },
                Err(e) => refused(m, e),
            }
        } else {
            match parent_kind_verdict(m.parent, r) {
                Ok(f) => (
                    PreflightModel { parent_facts: f, phase: PreflightPhase::InspectingTarget, ..m },
                    PreflightActionModel::InspectTarget,
                ),
                Err(e) => refused(m, e),
            }
        },
        PreflightEventModel::TargetRead(exists, under_source, ancestors, filesystem) => (
            PreflightModel { phase: PreflightPhase::Done, ..m },
            PreflightActionModel::Done(
                target_verdict(
                    m.source,
                    m.source_facts,
                    m.parent,
                    m.parent_facts,
                    joined_path(m.parent, m.name),
                    exists,
                    under_source,
                    ancestors,
                    filesystem,
                    m.fallback,
                    m.min_free_bytes,
                ),
            ),
        ),
    }
}

/// The plan of a clone from what each read gave, checked in order: the
/// source resolves and is a directory; the destination names a new entry;
/// its parent resolves and is a directory; then the destination checks of
/// [`target_verdict`]. The first check that fails decides the error.
pub open spec fn plan_verdict(
    given_source: Seq<char>,
    destination: Seq<char>,
    canonical_source: Result<Seq<char>, IoFailureModel>,
    source_meta: Result<NodeFacts, IoFailureModel>,
    canonical_parent: Result<Seq<char>, IoFailureModel>,
    parent_meta: Result<NodeFacts, IoFailureModel>,
    exists: bool,
    under_source: bool,
    ancestors: Seq<(u64, u64)>,
    filesystem: Result<(u64, Seq<char>), IoFailureModel>,
    fallback: Fallback,
    min_free_bytes: u64,
) -> Result<PlanModel, ErrorModel> {
    match source_verdict(given_source, canonical_source) {
        Err(e) => Err(e),
        Ok(source) => match source_kind_verdict(source, source_meta) {
            Err(e) => Err(e),
            Ok(source_facts) => match parts_verdict(destination) {
                Err(e) => Err(e),
                Ok((name, parent_given)) => match parent_verdict(parent_given, canonical_parent) {
                    Err(e) => Err(e),
                    Ok(parent) => match parent_kind_verdict(parent, parent_meta) {
                        Err(e) => Err(e),
                        Ok(parent_facts) => target_verdict(
                            source,
                            source_facts,
                            parent,
                            parent_facts,
                            joined_path(parent, name),
                            exists,
                            under_source,
                            ancestors,
                            filesystem,
                            fallback,
                            min_free_bytes,
                        ),
                    },
                },
            },
        },
    }
}

/// The outcome of feeding the reads `evs` to a preflight in state `m`, once
/// it is done; none if the reads run out first.
pub open spec fn run_preflight(m: PreflightModel, evs: Seq<PreflightEventModel>) -> Option<
    PreflightActionModel,
>
    decreases evs.len(),
{
    if evs.len() == 0 {
        None
    } else {
        let (next, a) = preflight_step(m, evs[0]);
        if a is Done {
            Some(a)
        } else {
            run_preflight(next, evs.drop_first())
        }
    }
}

impl Preflight {
    /// A preflight of the clone of `source` to `destination` with `options`.
    pub fn new(source: String, destination: String, options: &Options) -> (r: Preflight)
        ensures
            r@ == preflight_start(source@, destination@, options.fallback, options.min_free_bytes),
    {
        Preflight {
            given_source: source,
            destination,
            options: *options,
            phase: PreflightPhase::ResolvingSource,
            source: String::new(),
            source_facts: NodeFacts { is_dir: false, dev: 0, ino: 0 },
            name: String::new(),
            parent_given: String::new(),
            parent: String::new(),
            parent_facts: NodeFacts { is_dir: false, dev: 0, ino: 0 },
        }
    }

    /// The resolved source.
    pub fn source(&self) -> (r: &str)
        ensures
            r@ == self@.source,
    {
        self.source.as_str()
    }

    /// The parent as the destination names it.
    pub fn parent_given(&self) -> (r: &str)
        ensures
            r@ == self@.parent_given,
    {
        self.parent_given.as_str()
    }

    /// The resolved destination: the new entry's name in the resolved parent.
    pub fn target(&self) -> (r: String)
        ensures
            r@ == joined_path(self@.parent, self@.name),
    {
        destination_in(self.parent.as_str(), self.name.as_str())
    }

    /// Takes what the last read gave; answers with the next read, or the plan.
    pub fn step(&mut self, event: PreflightEvent) -> (a: PreflightAction)
        requires
            preflight_accepts(old(self)@, event@),
        ensures
            (final(self)@, a@) == preflight_step(old(self)@, event@),
    {
        match event {
            PreflightEvent::Resolved(r) => {
                if self.phase == PreflightPhase::ResolvingSource {
                    match resolve_source(self.given_source.as_str(), r) {
                        Ok(s) => {
                            self.source = s;
                            self.phase = PreflightPhase::InspectingSource;
                            PreflightAction::InspectSource
                        },
                        Err(e) => {
                            self.phase = PreflightPhase::Done;
                            PreflightAction::Done(Err(e))
                        },
                    }
                } else {
                    match resolve_parent(self.parent_given.as_str(), r) {
                        Ok(p) => {
                            self.parent = p;
                            self.phase = PreflightPhase::InspectingParent;
                            PreflightAction::InspectParent
                        },
                        Err(e) => {
                            self.phase = PreflightPhase::Done;
                            PreflightAction::Done(Err(e))
                        },
                    }
                }
            },
            PreflightEvent::Inspected(r) => {
                if self.phase == PreflightPhase::InspectingSource {
                    match check_source(self.source.as_str(), r) {
                        Ok(f) => match destination_parts(self.destination.as_str()) {
                            Ok((n, pg)) => {
                                self.source_facts = f;
                                self.name = n;
                                self.parent_given = pg;
                                self.phase = PreflightPhase::ResolvingParent;
                                PreflightAction::ResolveParent
                            },
                            Err(e) => {
                                self.phase = PreflightPhase::Done;
                                PreflightAction::Done(Err(e))
                            },
                        },
                        Err(e) => {
                            self.phase = PreflightPhase::Done;
                            PreflightAction::Done(Err(e))
                        },
                    }
                } else {
                    match check_parent(self.parent.as_str(), r) {
                        Ok(f) => {
                            self.parent_facts = f;
                            self.phase = PreflightPhase::InspectingTarget;
                            PreflightAction::InspectTarget
                        },
                        Err(e) => {
                            self.phase = PreflightPhase::Done;
                            PreflightAction::Done(Err(e))
                        },
                    }
                }
            },
            PreflightEvent::TargetRead(facts) => {
                let target = destination_in(self.parent.as_str(), self.name.as_str());
                self.phase = PreflightPhase::Done;
                PreflightAction::Done(
                    check_target(
                        self.source.clone(),
                        self.source_facts,
                        self.parent.as_str(),
                        self.parent_facts,
                        target,
                        facts,
                        &self.options,
                    ),
                )
            },
        }
    }
}

// ------------------------------------------------------------------- laws

/// The preflight decides in order: fed what each read gave, in the order it
/// asks for them, it ends with [`plan_verdict`], whose first failing check
/// decides the error.
pub proof fn lemma_preflight_decides_in_order(
    given_source: Seq<char>,
    destination: Seq<char>,
    canonical_source: Result<Seq<char>, IoFailureModel>,
    source_meta: Result<NodeFacts, IoFailureModel>,
    canonical_parent: Result<Seq<char>, IoFailureModel>,
    parent_meta: Result<NodeFacts, IoFailureModel>,
    exists: bool,
    under_source: bool,
    ancestors: Seq<(u64, u64)>,
    filesystem: Result<(u64, Seq<char>), IoFailureModel>,
    fallback: Fallback,
    min_free_bytes: u64,
)
    ensures
        run_preflight(
            preflight_start(given_source, destination, fallback, min_free_bytes),
            seq![
                PreflightEventModel::Resolved(canonical_source),
                PreflightEventModel::Inspected(source_meta),
                PreflightEventModel::Resolved(canonical_parent),
                PreflightEventModel::Inspected(parent_meta),
                PreflightEventModel::TargetRead(exists, under_source, ancestors, filesystem),
            ],
        ) == Some(
            PreflightActionModel::Done(
                plan_verdict(
                    given_source,
                    destination,
                    canonical_source,
                    source_meta,
                    canonical_parent,
                    parent_meta,
                    exists,
                    under_source,
                    ancestors,
                    filesystem,
                    fallback,
                    min_free_bytes,
                ),
            ),
        ),
{
    let evs = seq![
        PreflightEventModel::Resolved(canonical_source),
        PreflightEventModel::Inspected(source_meta),
        PreflightEventModel::Resolved(canonical_parent),
        PreflightEventModel::Inspected(parent_meta),
        PreflightEventModel::TargetRead(exists, under_source, ancestors, filesystem),
    ];
    let m0 = preflight_start(given_source, destination, fallback, min_free_bytes);
    let (m1, a1) = preflight_step(m0, evs[0]);
    let (m2, a2) = preflight_step(m1, evs[1]);
    let (m3, a3) = preflight_step(m2, evs[2]);
    let (m4, a4) = preflight_step(m3, evs[3]);
    assert(evs.drop_first() =~= seq![evs[1], evs[2], evs[3], evs[4]]);
    assert(evs.drop_first().drop_first() =~= seq![evs[2], evs[3], evs[4]]);
    assert(evs.drop_first().drop_first().drop_first() =~= seq![evs[3], evs[4]]);
    assert(evs.drop_first().drop_first().drop_first().drop_first() =~= seq![evs[4]]);
    assert(seq![evs[4]].drop_first() =~= Seq::<PreflightEventModel>::empty());
    reveal_with_fuel(run_preflight, 6);
}

/// The source is checked first: when it does not resolve, or is not a
/// directory, that is the error, whatever the destination.
pub proof fn lemma_source_errors_come_first(
    given_source: Seq<char>,
    destination: Seq<char>,
    canonical_source: Result<Seq<char>, IoFailureModel>,
    source_meta: Result<NodeFacts, IoFailureModel>,
    canonical_parent: Result<Seq<char>, IoFailureModel>,
    parent_meta: Result<NodeFacts, IoFailureModel>,
    exists: bool,
    under_source: bool,
    ancestors: Seq<(u64, u64)>,
    filesystem: Result<(u64, Seq<char>), IoFailureModel>,
    fallback: Fallback,
    min_free_bytes: u64,
)
    requires
        source_verdict(given_source, canonical_source) is Err || source_kind_verdict(
            source_verdict(given_source, canonical_source)->Ok_0,
            source_meta,
        ) is Err,
    ensures
        plan_verdict(
            given_source,
            destination,
            canonical_source,
            source_meta,
            canonical_parent,
            parent_meta,
            exists,
            under_source,
            ancestors,
            filesystem,
            fallback,
            min_free_bytes,
        ) == Err::<PlanModel, ErrorModel>(
            match source_verdict(given_source, canonical_source) {
                Err(e) => e,
                Ok(s) => source_kind_verdict(s, source_meta)->Err_0,
            },
        ),
{
}

} // verus!
