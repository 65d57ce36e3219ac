//! The supervisor of a live successor until its child starts: it stages,
//! follows the predecessor's log, and takes over at the predecessor's Stop.
use crate::binding::HaPredecessor;
use crate::error::{
    combine_ha_results, fail, HaCertifiedTailError, HaNodeError, HaStartupError,
};
use crate::live_prestage::LiveSuccessorPrestage;
use crate::log::LogAnchor;
use crate::node::HaNodeSnapshot;
use crate::staging::{unexpected_staging_server_exit, StagingTaskExit};
use crate::status::HaNodeStatus;
use crate::successor::{live_successor_cleanup_token, Moment, SuccessorEffect};
use crate::token::shutdown_deadline;
use vstd::prelude::*;

verus! {

/// How long a live successor waits before it asks for the tail again.
pub const SUCCESSOR_TAIL_RETRY_DELAY: u64 = 250_000_000;

/// How far the stage has come.
#[derive(Clone, Copy, Debug, PartialEq, Eq, Structural)]
pub struct LearnerProgress {
    pub durable: LogAnchor,
    pub observed_source_tip: LogAnchor,
}

/// What happens once the staging service has stopped.
#[derive(Debug)]
pub enum StagingEnd {
    /// The successor was asked to stop.
    Cancelled,
    /// The successor failed.
    Failed(HaNodeError),
}

/// What the supervisor of a live successor is waiting for.
#[derive(Debug)]
pub enum LivePhase {
    StartingStaging,
    /// The stage is found or made.
    Preparing,
    /// The stage holds the Stop already; the predecessor is to be named.
    AwaitingPredecessor,
    /// The stage is asked how far its log is durable, to hold it against the
    /// Stop of `accepting`, or of the predecessor that was accepted.
    ReadingDurable { accepting: Option<HaPredecessor> },
    /// The next request for the tail is made.
    RequestingTail,
    Fetching,
    /// The page is applied to the stage; `empty` says whether it held nothing.
    ApplyingPage { empty: bool },
    Retrying,
    /// The startup is bound to the predecessor.
    Binding,
    /// The stage is finalized at the predecessor's Stop.
    Finalizing,
    StoppingStaging(StagingEnd),
    /// The child was started and is supervised from here on.
    ChildStarted,
    Finished(Result<(), HaNodeError>),
}

/// A live successor: what is waited for, the predecessor that it is bound to,
/// whether a stage follows the log, and what staging answers to readiness
/// checks.
#[derive(Debug)]
pub struct LiveSuccessor {
    pub phase: LivePhase,
    pub bound: Option<HaPredecessor>,
    pub learner: bool,
    pub staging_ready: bool,
}

/// What the supervisor of a live successor can see happen.
#[derive(Debug)]
pub enum LiveEvent {
    /// The staging service reported that it runs, or will never do so.
    StagingStarted { reported: bool },
    StagingExited(StagingTaskExit),
    /// The shutdown signal changed, or its sender is gone.
    ShutdownChanged,
    Prepared(Result<LiveSuccessorPrestage, HaStartupError>),
    /// The application named the predecessor, or its owner is gone.
    PredecessorReceived(Option<HaPredecessor>),
    DurableRead(Result<LogAnchor, HaStartupError>),
    TailRequested(Result<(), HaStartupError>),
    /// The tail source answered; the value says whether the page is empty.
    Fetched(Result<bool, HaCertifiedTailError>),
    PageApplied(Result<LearnerProgress, HaStartupError>),
    RetryElapsed,
    Bound(Result<(), HaStartupError>),
    Finalized(Result<(), HaStartupError>),
    StagingStopped(Result<(), HaNodeError>),
}

/// The durable log can no longer end at this Stop.
pub open spec fn diverged(durable: LogAnchor, stop: LogAnchor) -> bool {
    durable.index > stop.index || (durable.index == stop.index && durable.hash != stop.hash)
}

/// Whether the durable log ends at the predecessor's Stop, or an error where
/// it never will.
pub fn live_successor_reached_stop(durable: LogAnchor, predecessor: &HaPredecessor) -> (reached: Result<
    bool,
    HaNodeError,
>)
    ensures
        match reached {
            Ok(reached) => !diverged(durable, predecessor.stop.entry.spec_anchor()) && reached == (
            durable == predecessor.stop.entry.spec_anchor()),
            Err(error) => diverged(durable, predecessor.stop.entry.spec_anchor())
                && error.is_startup("live successor diverged from the exact predecessor Stop"@),
        },
{
    let stop = predecessor.stop.entry.anchor();
    if durable.index > stop.index || (durable.index == stop.index && durable.hash != stop.hash) {
        return Err(
            HaNodeError::Startup(fail("live successor diverged from the exact predecessor Stop")),
        );
    }
    Ok(durable == stop)
}

impl LiveSuccessor {
    /// A live successor whose staging service was just started.
    pub fn start() -> (live: Self)
        ensures
            live.phase is StartingStaging,
            live.bound is None,
            !live.learner,
            !live.staging_ready,
            live.well_formed(),
    {
        LiveSuccessor {
            phase: LivePhase::StartingStaging,
            bound: None,
            learner: false,
            staging_ready: false,
        }
    }

    /// What is waited for fits what is known.
    pub open spec fn well_formed(self) -> bool {
        match self.phase {
            LivePhase::StartingStaging => self.bound is None && !self.learner
                && !self.staging_ready,
            LivePhase::Preparing => self.bound is None && !self.learner && !self.staging_ready,
            LivePhase::AwaitingPredecessor => self.bound is None && !self.learner
                && !self.staging_ready,
            LivePhase::ReadingDurable { accepting } => self.learner && (accepting is Some
                <==> self.bound is None),
            LivePhase::RequestingTail => self.learner,
            LivePhase::Fetching => self.learner,
            LivePhase::ApplyingPage { .. } => self.learner,
            LivePhase::Retrying => self.learner,
            LivePhase::Binding => self.bound is Some && !self.staging_ready,
            LivePhase::Finalizing => self.bound is Some && !self.staging_ready,
            LivePhase::ChildStarted => !self.staging_ready,
            _ => true,
        }
    }

    /// Only the phase changes.
    pub open spec fn enters(
        self,
        phase: LivePhase,
        asked: Seq<SuccessorEffect>,
        next: LiveSuccessor,
        effects: Seq<SuccessorEffect>,
    ) -> bool {
        next == (LiveSuccessor { phase, ..self }) && effects == asked
    }

    /// Nothing changes and nothing is asked for.
    pub open spec fn stutters(self, next: LiveSuccessor, effects: Seq<SuccessorEffect>) -> bool {
        next == self && effects == Seq::<SuccessorEffect>::empty()
    }

    /// The successor is at the predecessor's Stop and takes over.
    pub open spec fn takes_over(self, next: LiveSuccessor, effects: Seq<SuccessorEffect>) -> bool {
        next == (LiveSuccessor { phase: LivePhase::Binding, staging_ready: false, ..self })
            && effects == seq![
            SuccessorEffect::SetStagingReady(false),
            SuccessorEffect::Publish(HaNodeSnapshot::plain(HaNodeStatus::Transitioning)),
        ]
    }

    /// The successor goes on with what it now knows.
    pub open spec fn goes_on(self, next: LiveSuccessor, effects: Seq<SuccessorEffect>) -> bool {
        if self.bound is Some {
            if self.learner {
                self.enters(
                    LivePhase::ReadingDurable { accepting: None },
                    Seq::<SuccessorEffect>::empty(),
                    next,
                    effects,
                )
            } else {
                self.takes_over(next, effects)
            }
        } else if self.learner {
            self.enters(
                LivePhase::RequestingTail,
                Seq::<SuccessorEffect>::empty(),
                next,
                effects,
            )
        } else {
            self.enters(
                LivePhase::AwaitingPredecessor,
                Seq::<SuccessorEffect>::empty(),
                next,
                effects,
            )
        }
    }

    /// The successor fails with `error`: the staging service is stopped under
    /// the shutdown in force, or under one of the supervisor's own.
    pub open spec fn fails(
        self,
        error: HaNodeError,
        moment: Moment,
        next: LiveSuccessor,
        effects: Seq<SuccessorEffect>,
    ) -> bool {
        self.enters(
            LivePhase::StoppingStaging(StagingEnd::Failed(error)),
            seq![
                SuccessorEffect::StopStaging {
                    deadline: moment.cleanup_token(moment.spec_own_deadline()).spec_deadline(),
                },
            ],
            next,
            effects,
        )
    }

    /// The successor fails with a startup error of its own.
    pub open spec fn refuses(
        self,
        message: Seq<char>,
        moment: Moment,
        next: LiveSuccessor,
        effects: Seq<SuccessorEffect>,
    ) -> bool {
        next.phase matches LivePhase::StoppingStaging(StagingEnd::Failed(error))
            && error.is_startup(message) && self.fails(error, moment, next, effects)
    }

    /// The successor was asked to stop: the staging service is stopped by the
    /// deadline of the request.
    pub open spec fn cancels(
        self,
        moment: Moment,
        next: LiveSuccessor,
        effects: Seq<SuccessorEffect>,
    ) -> bool {
        self.enters(
            LivePhase::StoppingStaging(StagingEnd::Cancelled),
            seq![
                SuccessorEffect::StopStaging {
                    deadline: crate::token::deadline_of(moment.signal, moment.now),
                },
            ],
            next,
            effects,
        )
    }

    /// The successor ends with `result` and publishes it.
    pub open spec fn ends(
        self,
        result: Result<(), HaNodeError>,
        next: LiveSuccessor,
        effects: Seq<SuccessorEffect>,
    ) -> bool {
        self.enters(
            LivePhase::Finished(result),
            seq![SuccessorEffect::Publish(HaNodeSnapshot::end(result))],
            next,
            effects,
        )
    }

    /// The staging service ended unasked, and the successor with it.
    pub open spec fn loses_staging(
        self,
        exit: StagingTaskExit,
        next: LiveSuccessor,
        effects: Seq<SuccessorEffect>,
    ) -> bool {
        next.phase matches LivePhase::Finished(Err(error))
            && crate::staging::is_unexpected_staging_exit(exit, error) && self.ends(
            Err(error),
            next,
            effects,
        )
    }

    /// The child is started, after `before` was done.
    pub open spec fn starts_child(
        self,
        before: Seq<SuccessorEffect>,
        next: LiveSuccessor,
        effects: Seq<SuccessorEffect>,
    ) -> bool {
        self.enters(
            LivePhase::ChildStarted,
            before + seq![SuccessorEffect::StartChild],
            next,
            effects,
        )
    }

    /// The application named a predecessor, or will name none any more. The
    /// first one that is accepted stays.
    pub open spec fn hears(
        self,
        predecessor: Option<HaPredecessor>,
        moment: Moment,
        next: LiveSuccessor,
        effects: Seq<SuccessorEffect>,
    ) -> bool {
        match predecessor {
            None => self.fails(HaNodeError::Cancelled, moment, next, effects),
            Some(predecessor) => match self.bound {
                None => if self.learner {
                    self.enters(
                        LivePhase::ReadingDurable { accepting: Some(predecessor) },
                        Seq::<SuccessorEffect>::empty(),
                        next,
                        effects,
                    )
                } else {
                    (LiveSuccessor { bound: Some(predecessor), ..self }).goes_on(next, effects)
                },
                Some(bound) => if bound.same_as(predecessor) {
                    self.goes_on(next, effects)
                } else {
                    self.refuses(
                        "live successor predecessor binding changed after first observation"@,
                        moment,
                        next,
                        effects,
                    )
                },
            },
        }
    }

    /// The stage said how far its log is durable. A first predecessor whose
    /// Stop is not reached ends readiness at once.
    pub open spec fn reads(
        self,
        accepting: Option<HaPredecessor>,
        result: Result<LogAnchor, HaStartupError>,
        moment: Moment,
        next: LiveSuccessor,
        effects: Seq<SuccessorEffect>,
    ) -> bool {
        let predecessor = match accepting {
            Some(predecessor) => predecessor,
            None => self.bound->0,
        };
        let stop = predecessor.stop.entry.spec_anchor();
        match result {
            Err(error) => self.fails(HaNodeError::Startup(error), moment, next, effects),
            Ok(durable) => if diverged(durable, stop) {
                self.refuses(
                    "live successor diverged from the exact predecessor Stop"@,
                    moment,
                    next,
                    effects,
                )
            } else if accepting is Some {
                let bound = LiveSuccessor { bound: accepting, ..self };
                if durable == stop {
                    bound.goes_on(next, effects)
                } else {
                    (LiveSuccessor { staging_ready: false, ..bound }).enters(
                        LivePhase::ReadingDurable { accepting: None },
                        seq![
                            SuccessorEffect::SetStagingReady(false),
                            SuccessorEffect::Publish(
                                HaNodeSnapshot::plain(HaNodeStatus::CatchingUp),
                            ),
                        ],
                        next,
                        effects,
                    )
                }
            } else if durable == stop {
                self.takes_over(next, effects)
            } else {
                self.enters(
                    LivePhase::RequestingTail,
                    Seq::<SuccessorEffect>::empty(),
                    next,
                    effects,
                )
            },
        }
    }

    /// The tail source answered.
    pub open spec fn fetches(
        self,
        result: Result<bool, HaCertifiedTailError>,
        moment: Moment,
        next: LiveSuccessor,
        effects: Seq<SuccessorEffect>,
    ) -> bool {
        match result {
            Ok(empty) => self.enters(
                LivePhase::ApplyingPage { empty },
                Seq::<SuccessorEffect>::empty(),
                next,
                effects,
            ),
            Err(error) => if error is Unavailable {
                (LiveSuccessor { staging_ready: false, ..self }).enters(
                    LivePhase::Retrying,
                    seq![
                        SuccessorEffect::SetStagingReady(false),
                        SuccessorEffect::Publish(HaNodeSnapshot::plain(HaNodeStatus::CatchingUp)),
                    ],
                    next,
                    effects,
                )
            } else {
                self.fails(HaNodeError::CertifiedTail(error), moment, next, effects)
            },
        }
    }

    /// A page was applied to the stage. It is ready for the Stop where it has
    /// all that the source has and no Stop was named yet.
    pub open spec fn applies(
        self,
        empty: bool,
        result: Result<LearnerProgress, HaStartupError>,
        moment: Moment,
        next: LiveSuccessor,
        effects: Seq<SuccessorEffect>,
    ) -> bool {
        match result {
            Err(error) => self.fails(HaNodeError::Startup(error), moment, next, effects),
            Ok(progress) => {
                let ready = progress.durable == progress.observed_source_tip && self.bound is None;
                &&& next.bound == self.bound
                &&& next.learner == self.learner
                &&& next.staging_ready == ready
                &&& next.phase == if empty {
                    LivePhase::Retrying
                } else if self.bound is Some {
                    LivePhase::ReadingDurable { accepting: None }
                } else {
                    LivePhase::RequestingTail
                }
                &&& effects == seq![
                    SuccessorEffect::SetStagingReady(ready),
                    SuccessorEffect::Publish(
                        HaNodeSnapshot::plain(
                            if ready {
                                HaNodeStatus::PreStopReady
                            } else {
                                HaNodeStatus::CatchingUp
                            },
                        ),
                    ),
                ]
            },
        }
    }

    /// The stage was found, or could not be.
    pub open spec fn prepares(
        self,
        result: Result<LiveSuccessorPrestage, HaStartupError>,
        moment: Moment,
        next: LiveSuccessor,
        effects: Seq<SuccessorEffect>,
    ) -> bool {
        let catching_up = seq![
            SuccessorEffect::Publish(HaNodeSnapshot::plain(HaNodeStatus::CatchingUp)),
        ];
        match result {
            Err(error) => self.fails(HaNodeError::Startup(error), moment, next, effects),
            Ok(LiveSuccessorPrestage::TargetCheckpoint) => self.starts_child(
                catching_up,
                next,
                effects,
            ),
            Ok(LiveSuccessorPrestage::Published) => (LiveSuccessor {
                learner: true,
                ..self
            }).enters(LivePhase::RequestingTail, catching_up, next, effects),
            Ok(LiveSuccessorPrestage::Finalized) => self.enters(
                LivePhase::AwaitingPredecessor,
                catching_up,
                next,
                effects,
            ),
        }
    }

    /// `next` and `effects` are what `event` makes of this successor at
    /// `moment`.
    pub open spec fn steps_to(
        self,
        event: LiveEvent,
        moment: Moment,
        next: LiveSuccessor,
        effects: Seq<SuccessorEffect>,
    ) -> bool {
        match (self.phase, event) {
            (LivePhase::StartingStaging, LiveEvent::ShutdownChanged)
            | (LivePhase::Preparing, LiveEvent::ShutdownChanged)
            | (LivePhase::AwaitingPredecessor, LiveEvent::ShutdownChanged)
            | (LivePhase::Fetching, LiveEvent::ShutdownChanged)
            | (LivePhase::Retrying, LiveEvent::ShutdownChanged) => self.cancels(
                moment,
                next,
                effects,
            ),
            (LivePhase::StartingStaging, LiveEvent::StagingExited(exit))
            | (LivePhase::Preparing, LiveEvent::StagingExited(exit))
            | (LivePhase::AwaitingPredecessor, LiveEvent::StagingExited(exit))
            | (LivePhase::Fetching, LiveEvent::StagingExited(exit))
            | (LivePhase::Retrying, LiveEvent::StagingExited(exit)) => self.loses_staging(
                exit,
                next,
                effects,
            ),
            (LivePhase::StartingStaging, LiveEvent::StagingStarted { reported }) => if reported {
                self.enters(
                    LivePhase::Preparing,
                    seq![SuccessorEffect::Publish(HaNodeSnapshot::plain(HaNodeStatus::Restoring))],
                    next,
                    effects,
                )
            } else {
                next.phase matches LivePhase::StoppingStaging(StagingEnd::Failed(error))
                    && error.is_service_server(
                    "successor staging service stopped before reporting startup"@,
                ) && self.fails(error, moment, next, effects)
            },
            (LivePhase::Preparing, LiveEvent::Prepared(result)) => self.prepares(
                result,
                moment,
                next,
                effects,
            ),
            (LivePhase::AwaitingPredecessor, LiveEvent::PredecessorReceived(predecessor))
            | (LivePhase::Fetching, LiveEvent::PredecessorReceived(predecessor))
            | (LivePhase::Retrying, LiveEvent::PredecessorReceived(predecessor)) => self.hears(
                predecessor,
                moment,
                next,
                effects,
            ),
            (LivePhase::ReadingDurable { accepting }, LiveEvent::DurableRead(result)) => {
                self.reads(accepting, result, moment, next, effects)
            },
            (LivePhase::RequestingTail, LiveEvent::TailRequested(result)) => match result {
                Ok(_) => self.enters(
                    LivePhase::Fetching,
                    Seq::<SuccessorEffect>::empty(),
                    next,
                    effects,
                ),
                Err(error) => self.fails(HaNodeError::Startup(error), moment, next, effects),
            },
            (LivePhase::Fetching, LiveEvent::Fetched(result)) => self.fetches(
                result,
                moment,
                next,
                effects,
            ),
            (LivePhase::ApplyingPage { empty }, LiveEvent::PageApplied(result)) => self.applies(
                empty,
                result,
                moment,
                next,
                effects,
            ),
            (LivePhase::Retrying, LiveEvent::RetryElapsed) => self.goes_on(next, effects),
            (LivePhase::Binding, LiveEvent::Bound(result)) => match result {
                Ok(_) => if self.learner {
                    self.enters(
                        LivePhase::Finalizing,
                        Seq::<SuccessorEffect>::empty(),
                        next,
                        effects,
                    )
                } else {
                    self.starts_child(Seq::<SuccessorEffect>::empty(), next, effects)
                },
                Err(error) => self.fails(HaNodeError::Startup(error), moment, next, effects),
            },
            (LivePhase::Finalizing, LiveEvent::Finalized(result)) => match result {
                Ok(_) => self.starts_child(Seq::<SuccessorEffect>::empty(), next, effects),
                Err(error) => self.fails(HaNodeError::Startup(error), moment, next, effects),
            },
            (LivePhase::StoppingStaging(end), LiveEvent::StagingStopped(cleanup)) => match end {
                StagingEnd::Cancelled => self.ends(cleanup, next, effects),
                StagingEnd::Failed(error) => self.ends(
                    crate::error::combined(Some(error), cleanup),
                    next,
                    effects,
                ),
            },
            _ => self.stutters(next, effects),
        }
    }
}

/// The rest of a live successor, beside what it is waiting for.
struct Known {
    bound: Option<HaPredecessor>,
    learner: bool,
    staging_ready: bool,
}

impl Known {
    spec fn with(self, phase: LivePhase) -> LiveSuccessor {
        LiveSuccessor {
            phase,
            bound: self.bound,
            learner: self.learner,
            staging_ready: self.staging_ready,
        }
    }

    fn enter(self, phase: LivePhase, asked: Vec<SuccessorEffect>) -> (step: (
        LiveSuccessor,
        Vec<SuccessorEffect>,
    ))
        ensures
            step.0 == self.with(phase),
            step.1@ == asked@,
            forall|before: LivePhase| #[trigger]
                self.with(before).enters(phase, asked@, step.0, step.1@),
    {
        (
            LiveSuccessor {
                phase,
                bound: self.bound,
                learner: self.learner,
                staging_ready: self.staging_ready,
            },
            asked,
        )
    }

    fn take_over(self) -> (step: (LiveSuccessor, Vec<SuccessorEffect>))
        requires
            self.bound is Some,
        ensures
            forall|before: LivePhase| #[trigger] self.with(before).takes_over(step.0, step.1@),
            step.0.well_formed(),
    {
        let effects = two(
            SuccessorEffect::SetStagingReady(false),
            SuccessorEffect::Publish(HaNodeSnapshot::of(HaNodeStatus::Transitioning)),
        );
        (
            LiveSuccessor {
                phase: LivePhase::Binding,
                bound: self.bound,
                learner: self.learner,
                staging_ready: false,
            },
            effects,
        )
    }

    fn go_on(self) -> (step: (LiveSuccessor, Vec<SuccessorEffect>))
        requires
            !self.learner && self.bound is None ==> !self.staging_ready,
        ensures
            forall|before: LivePhase| #[trigger] self.with(before).goes_on(step.0, step.1@),
            step.0.well_formed(),
    {
        if self.bound.is_some() {
            if self.learner {
                self.enter(LivePhase::ReadingDurable { accepting: None }, Vec::new())
            } else {
                self.take_over()
            }
        } else if self.learner {
            self.enter(LivePhase::RequestingTail, Vec::new())
        } else {
            self.enter(LivePhase::AwaitingPredecessor, Vec::new())
        }
    }

    fn fail(self, error: HaNodeError, moment: &Moment) -> (step: (
        LiveSuccessor,
        Vec<SuccessorEffect>,
    ))
        requires
            moment.is_tellable(),
        ensures
            step.0.phase == LivePhase::StoppingStaging(StagingEnd::Failed(error)),
            forall|before: LivePhase| #[trigger]
                self.with(before).fails(error, *moment, step.0, step.1@),
            step.0.well_formed(),
    {
        let token = live_successor_cleanup_token(moment, moment.own_deadline());
        let effects = one(SuccessorEffect::StopStaging { deadline: token.deadline() });
        self.enter(LivePhase::StoppingStaging(StagingEnd::Failed(error)), effects)
    }

    fn refuse(self, message: &str, moment: &Moment) -> (step: (
        LiveSuccessor,
        Vec<SuccessorEffect>,
    ))
        requires
            moment.is_tellable(),
        ensures
            forall|before: LivePhase| #[trigger]
                self.with(before).refuses(message@, *moment, step.0, step.1@),
            step.0.well_formed(),
    {
        self.fail(HaNodeError::Startup(fail(message)), moment)
    }

    fn cancel(self, moment: &Moment) -> (step: (LiveSuccessor, Vec<SuccessorEffect>))
        ensures
            forall|before: LivePhase| #[trigger]
                self.with(before).cancels(*moment, step.0, step.1@),
            step.0.well_formed(),
    {
        let deadline: u64 = shutdown_deadline(&moment.signal, moment.now);
        self.enter(
            LivePhase::StoppingStaging(StagingEnd::Cancelled),
            one(SuccessorEffect::StopStaging { deadline }),
        )
    }

    fn end(self, result: Result<(), HaNodeError>) -> (step: (LiveSuccessor, Vec<SuccessorEffect>))
        ensures
            step.0.phase == LivePhase::Finished(result),
            forall|before: LivePhase| #[trigger]
                self.with(before).ends(result, step.0, step.1@),
            step.0.well_formed(),
    {
        let effects = one(SuccessorEffect::Publish(HaNodeSnapshot::ended(&result)));
        self.enter(LivePhase::Finished(result), effects)
    }

    fn lose_staging(self, exit: StagingTaskExit) -> (step: (LiveSuccessor, Vec<SuccessorEffect>))
        ensures
            forall|before: LivePhase| #[trigger]
                self.with(before).loses_staging(exit, step.0, step.1@),
            step.0.well_formed(),
    {
        let error = unexpected_staging_server_exit(exit);
        self.end(Err(error))
    }

    fn start_child(self, before: Vec<SuccessorEffect>) -> (step: (
        LiveSuccessor,
        Vec<SuccessorEffect>,
    ))
        requires
            !self.staging_ready,
        ensures
            forall|phase: LivePhase| #[trigger]
                self.with(phase).starts_child(before@, step.0, step.1@),
            step.0.well_formed(),
    {
        let mut effects = before;
        let ghost asked = effects@;
        effects.push(SuccessorEffect::StartChild);
        assert(effects@ =~= asked + seq![SuccessorEffect::StartChild]);
        self.enter(LivePhase::ChildStarted, effects)
    }

    /// Accepts the first predecessor that is named, and none that contradicts
    /// it.
    fn accept_live_predecessor(self, predecessor: Option<HaPredecessor>, moment: &Moment) -> (step: (
        LiveSuccessor,
        Vec<SuccessorEffect>,
    ))
        requires
            moment.is_tellable(),
            !self.learner && self.bound is None ==> !self.staging_ready,
        ensures
            forall|before: LivePhase| #[trigger]
                self.with(before).hears(predecessor, *moment, step.0, step.1@),
            step.0.well_formed(),
    {
        let predecessor = match predecessor {
            None => {
                return self.fail(HaNodeError::Cancelled, moment);
            },
            Some(predecessor) => predecessor,
        };
        let same = match &self.bound {
            None => None,
            Some(bound) => Some(bound.same(&predecessor)),
        };
        match same {
            None => if self.learner {
                self.enter(
                    LivePhase::ReadingDurable { accepting: Some(predecessor) },
                    Vec::new(),
                )
            } else {
                let known = Known {
                    bound: Some(predecessor),
                    learner: self.learner,
                    staging_ready: self.staging_ready,
                };
                let step = known.go_on();
                assert forall|before: LivePhase| #[trigger]
                    self.with(before).hears(Some(predecessor), *moment, step.0, step.1@) by {
                    assert(known.with(before).goes_on(step.0, step.1@));
                    assert(known.with(before) == (LiveSuccessor {
                        bound: Some(predecessor),
                        ..self.with(before)
                    }));
                }
                step
            },
            Some(true) => {
                let step = self.go_on();
                assert forall|before: LivePhase| #[trigger]
                    self.with(before).hears(Some(predecessor), *moment, step.0, step.1@) by {
                    assert(self.with(before).goes_on(step.0, step.1@));
                }
                step
            },
            Some(false) => {
                let step = self.refuse(
                    "live successor predecessor binding changed after first observation",
                    moment,
                );
                assert forall|before: LivePhase| #[trigger]
                    self.with(before).hears(Some(predecessor), *moment, step.0, step.1@) by {
                    assert(self.with(before).refuses(
                        "live successor predecessor binding changed after first observation"@,
                        *moment,
                        step.0,
                        step.1@,
                    ));
                }
                step
            },
        }
    }
}

fn one(effect: SuccessorEffect) -> (effects: Vec<SuccessorEffect>)
    ensures
        effects@ == seq![effect],
{
    let mut effects: Vec<SuccessorEffect> = Vec::new();
    effects.push(effect);
    assert(effects@ =~= seq![effect]);
    effects
}

fn two(first: SuccessorEffect, second: SuccessorEffect) -> (effects: Vec<SuccessorEffect>)
    ensures
        effects@ == seq![first, second],
{
    let mut effects: Vec<SuccessorEffect> = Vec::new();
    effects.push(first);
    effects.push(second);
    assert(effects@ =~= seq![first, second]);
    effects
}

impl Known {
    /// Holds the durable log against the predecessor's Stop.
    fn read_durable(
        self,
        accepting: Option<HaPredecessor>,
        result: Result<LogAnchor, HaStartupError>,
        moment: &Moment,
    ) -> (step: (LiveSuccessor, Vec<SuccessorEffect>))
        requires
            moment.is_tellable(),
            self.learner,
            accepting is Some <==> self.bound is None,
        ensures
            self.with(LivePhase::ReadingDurable { accepting }).reads(
                accepting,
                result,
                *moment,
                step.0,
                step.1@,
            ),
            step.0.well_formed(),
    {
        let ghost whole = self.with(LivePhase::ReadingDurable { accepting });
        let durable = match result {
            Err(error) => {
                let step = self.fail(HaNodeError::Startup(error), moment);
                assert(whole.fails(HaNodeError::Startup(error), *moment, step.0, step.1@));
                return step;
            },
            Ok(durable) => durable,
        };
        let reached = match (&accepting, &self.bound) {
            (Some(predecessor), _) => live_successor_reached_stop(durable, predecessor),
            (None, Some(predecessor)) => live_successor_reached_stop(durable, predecessor),
            (None, None) => Ok(false),
        };
        let reached = match reached {
            Err(error) => {
                let step = self.fail(error, moment);
                assert(whole.fails(error, *moment, step.0, step.1@));
                return step;
            },
            Ok(reached) => reached,
        };
        if accepting.is_some() {
            if reached {
                let known = Known {
                    bound: accepting,
                    learner: self.learner,
                    staging_ready: self.staging_ready,
                };
                let step = known.go_on();
                assert(known.with(whole.phase) == (LiveSuccessor { bound: accepting, ..whole }));
                assert(known.with(whole.phase).goes_on(step.0, step.1@));
                step
            } else {
                let effects = two(
                    SuccessorEffect::SetStagingReady(false),
                    SuccessorEffect::Publish(HaNodeSnapshot::of(HaNodeStatus::CatchingUp)),
                );
                (
                    LiveSuccessor {
                        phase: LivePhase::ReadingDurable { accepting: None },
                        bound: accepting,
                        learner: self.learner,
                        staging_ready: false,
                    },
                    effects,
                )
            }
        } else if reached {
            let step = self.take_over();
            assert(whole.takes_over(step.0, step.1@));
            step
        } else {
            let step = self.enter(LivePhase::RequestingTail, Vec::new());
            assert(whole.enters(
                LivePhase::RequestingTail,
                Seq::<SuccessorEffect>::empty(),
                step.0,
                step.1@,
            ));
            step
        }
    }

    /// Goes by the answer of the tail source.
    fn fetch(self, result: Result<bool, HaCertifiedTailError>, moment: &Moment) -> (step: (
        LiveSuccessor,
        Vec<SuccessorEffect>,
    ))
        requires
            moment.is_tellable(),
            self.learner,
        ensures
            self.with(LivePhase::Fetching).fetches(result, *moment, step.0, step.1@),
            step.0.well_formed(),
    {
        let ghost whole = self.with(LivePhase::Fetching);
        match result {
            Ok(empty) => {
                let step = self.enter(LivePhase::ApplyingPage { empty }, Vec::new());
                assert(whole.enters(
                    LivePhase::ApplyingPage { empty },
                    Seq::<SuccessorEffect>::empty(),
                    step.0,
                    step.1@,
                ));
                step
            },
            Err(HaCertifiedTailError::Unavailable(_)) => {
                let effects = two(
                    SuccessorEffect::SetStagingReady(false),
                    SuccessorEffect::Publish(HaNodeSnapshot::of(HaNodeStatus::CatchingUp)),
                );
                (
                    LiveSuccessor {
                        phase: LivePhase::Retrying,
                        bound: self.bound,
                        learner: self.learner,
                        staging_ready: false,
                    },
                    effects,
                )
            },
            Err(error) => {
                let step = self.fail(HaNodeError::CertifiedTail(error), moment);
                assert(whole.fails(HaNodeError::CertifiedTail(error), *moment, step.0, step.1@));
                step
            },
        }
    }

    /// Goes by how far a page brought the stage.
    fn apply_page(
        self,
        empty: bool,
        result: Result<LearnerProgress, HaStartupError>,
        moment: &Moment,
    ) -> (step: (LiveSuccessor, Vec<SuccessorEffect>))
        requires
            moment.is_tellable(),
            self.learner,
        ensures
            self.with(LivePhase::ApplyingPage { empty }).applies(
                empty,
                result,
                *moment,
                step.0,
                step.1@,
            ),
            step.0.well_formed(),
    {
        let ghost whole = self.with(LivePhase::ApplyingPage { empty });
        let progress = match result {
            Err(error) => {
                let step = self.fail(HaNodeError::Startup(error), moment);
                assert(whole.fails(HaNodeError::Startup(error), *moment, step.0, step.1@));
                return step;
            },
            Ok(progress) => progress,
        };
        let caught_up = progress.durable == progress.observed_source_tip;
        let ready = caught_up && self.bound.is_none();
        let status = if ready {
            HaNodeStatus::PreStopReady
        } else {
            HaNodeStatus::CatchingUp
        };
        let effects = two(
            SuccessorEffect::SetStagingReady(ready),
            SuccessorEffect::Publish(HaNodeSnapshot::of(status)),
        );
        let phase = if empty {
            LivePhase::Retrying
        } else if self.bound.is_some() {
            LivePhase::ReadingDurable { accepting: None }
        } else {
            LivePhase::RequestingTail
        };
        (
            LiveSuccessor {
                phase,
                bound: self.bound,
                learner: self.learner,
                staging_ready: ready,
            },
            effects,
        )
    }

    /// Goes by the stage that was found.
    fn prepare(self, result: Result<LiveSuccessorPrestage, HaStartupError>, moment: &Moment) -> (step: (
        LiveSuccessor,
        Vec<SuccessorEffect>,
    ))
        requires
            moment.is_tellable(),
            self.with(LivePhase::Preparing).well_formed(),
        ensures
            self.with(LivePhase::Preparing).prepares(result, *moment, step.0, step.1@),
            step.0.well_formed(),
    {
        let ghost whole = self.with(LivePhase::Preparing);
        let catching_up = one(
            SuccessorEffect::Publish(HaNodeSnapshot::of(HaNodeStatus::CatchingUp)),
        );
        match result {
            Err(error) => {
                let step = self.fail(HaNodeError::Startup(error), moment);
                assert(whole.fails(HaNodeError::Startup(error), *moment, step.0, step.1@));
                step
            },
            Ok(LiveSuccessorPrestage::TargetCheckpoint) => {
                let ghost before = catching_up@;
                let step = self.start_child(catching_up);
                assert(whole.starts_child(before, step.0, step.1@));
                step
            },
            Ok(LiveSuccessorPrestage::Published) => (
                LiveSuccessor {
                    phase: LivePhase::RequestingTail,
                    bound: self.bound,
                    learner: true,
                    staging_ready: self.staging_ready,
                },
                catching_up,
            ),
            Ok(LiveSuccessorPrestage::Finalized) => {
                let ghost asked = catching_up@;
                let step = self.enter(LivePhase::AwaitingPredecessor, catching_up);
                assert(whole.enters(LivePhase::AwaitingPredecessor, asked, step.0, step.1@));
                step
            },
        }
    }

    /// Goes by the outcome of a step that ends the whole successor where it
    /// fails.
    fn settle(
        self,
        phase: LivePhase,
        result: Result<(), HaStartupError>,
        moment: &Moment,
    ) -> (step: (LiveSuccessor, Vec<SuccessorEffect>))
        requires
            moment.is_tellable(),
            result is Ok ==> self.with(phase).well_formed(),
        ensures
            match result {
                Ok(_) => forall|before: LivePhase| #[trigger]
                    self.with(before).enters(
                        phase,
                        Seq::<SuccessorEffect>::empty(),
                        step.0,
                        step.1@,
                    ),
                Err(error) => forall|before: LivePhase| #[trigger]
                    self.with(before).fails(HaNodeError::Startup(error), *moment, step.0, step.1@),
            },
            step.0.well_formed(),
    {
        match result {
            Ok(()) => self.enter(phase, Vec::new()),
            Err(error) => self.fail(HaNodeError::Startup(error), moment),
        }
    }

    /// Starts the child, unless what came before it failed.
    fn finish(self, result: Result<(), HaStartupError>, moment: &Moment) -> (step: (
        LiveSuccessor,
        Vec<SuccessorEffect>,
    ))
        requires
            moment.is_tellable(),
            !self.staging_ready,
        ensures
            match result {
                Ok(_) => forall|phase: LivePhase| #[trigger]
                    self.with(phase).starts_child(
                        Seq::<SuccessorEffect>::empty(),
                        step.0,
                        step.1@,
                    ),
                Err(error) => forall|before: LivePhase| #[trigger]
                    self.with(before).fails(HaNodeError::Startup(error), *moment, step.0, step.1@),
            },
            step.0.well_formed(),
    {
        match result {
            Ok(()) => self.start_child(Vec::new()),
            Err(error) => self.fail(HaNodeError::Startup(error), moment),
        }
    }
}

/// Advances the supervision of a live successor by one event, until its child
/// starts or it has ended. An event that is not waited for changes nothing.
pub fn supervise_live_successor(live: LiveSuccessor, event: LiveEvent, moment: &Moment) -> (step: (
    LiveSuccessor,
    Vec<SuccessorEffect>,
))
    requires
        live.well_formed(),
        moment.is_tellable(),
    ensures
        live.steps_to(event, *moment, step.0, step.1@),
        step.0.well_formed(),
{
    let known = Known {
        bound: live.bound,
        learner: live.learner,
        staging_ready: live.staging_ready,
    };
    assert(known.with(live.phase) == live);
    match (live.phase, event) {
        (LivePhase::StartingStaging, LiveEvent::ShutdownChanged)
        | (LivePhase::Preparing, LiveEvent::ShutdownChanged)
        | (LivePhase::AwaitingPredecessor, LiveEvent::ShutdownChanged)
        | (LivePhase::Fetching, LiveEvent::ShutdownChanged)
        | (LivePhase::Retrying, LiveEvent::ShutdownChanged) => known.cancel(moment),
        (LivePhase::StartingStaging, LiveEvent::StagingExited(exit))
        | (LivePhase::Preparing, LiveEvent::StagingExited(exit))
        | (LivePhase::AwaitingPredecessor, LiveEvent::StagingExited(exit))
        | (LivePhase::Fetching, LiveEvent::StagingExited(exit))
        | (LivePhase::Retrying, LiveEvent::StagingExited(exit)) => known.lose_staging(exit),
        (LivePhase::StartingStaging, LiveEvent::StagingStarted { reported }) => if reported {
            known.enter(
                LivePhase::Preparing,
                one(SuccessorEffect::Publish(HaNodeSnapshot::of(HaNodeStatus::Restoring))),
            )
        } else {
            known.fail(
                HaNodeError::ServiceServer(
                    "successor staging service stopped before reporting startup".to_owned(),
                ),
                moment,
            )
        },
        (LivePhase::Preparing, LiveEvent::Prepared(result)) => known.prepare(result, moment),
        (LivePhase::AwaitingPredecessor, LiveEvent::PredecessorReceived(predecessor))
        | (LivePhase::Fetching, LiveEvent::PredecessorReceived(predecessor))
        | (LivePhase::Retrying, LiveEvent::PredecessorReceived(predecessor)) => {
            known.accept_live_predecessor(predecessor, moment)
        },
        (LivePhase::ReadingDurable { accepting }, LiveEvent::DurableRead(result)) => {
            known.read_durable(accepting, result, moment)
        },
        (LivePhase::RequestingTail, LiveEvent::TailRequested(result)) => known.settle(
            LivePhase::Fetching,
            result,
            moment,
        ),
        (LivePhase::Fetching, LiveEvent::Fetched(result)) => known.fetch(result, moment),
        (LivePhase::ApplyingPage { empty }, LiveEvent::PageApplied(result)) => known.apply_page(
            empty,
            result,
            moment,
        ),
        (LivePhase::Retrying, LiveEvent::RetryElapsed) => known.go_on(),
        (LivePhase::Binding, LiveEvent::Bound(result)) => if known.learner {
            known.settle(LivePhase::Finalizing, result, moment)
        } else {
            known.finish(result, moment)
        },
        (LivePhase::Finalizing, LiveEvent::Finalized(result)) => known.finish(result, moment),
        (LivePhase::StoppingStaging(end), LiveEvent::StagingStopped(cleanup)) => match end {
            StagingEnd::Cancelled => known.end(cleanup),
            StagingEnd::Failed(error) => known.end(combine_ha_results(Some(error), cleanup)),
        },
        (phase, _) => known.enter(phase, Vec::new()),
    }
}

/// The durable log has reached the predecessor's Stop exactly where it ends
/// there with the Stop's own hash. It has not where it ends before, and never
/// will where it ends past it or there with another hash.
pub proof fn law_a_log_reaches_exactly_its_stop(
    durable: LogAnchor,
    predecessor: HaPredecessor,
    reached: Result<bool, HaNodeError>,
)
    requires
        call_ensures(live_successor_reached_stop, (durable, &predecessor), reached),
    ensures
        ({
            let stop = predecessor.stop.entry;
            &&& reached == Ok::<bool, HaNodeError>(true) <==> durable.index == stop.index
                && durable.hash == stop.hash
            &&& reached == Ok::<bool, HaNodeError>(false) <==> durable.index < stop.index
            &&& reached matches Err(error) ==> error.is_startup(
                "live successor diverged from the exact predecessor Stop"@,
            )
        }),
{
    if durable.index == predecessor.stop.entry.index && durable.hash
        == predecessor.stop.entry.hash {
        assert(durable == predecessor.stop.entry.spec_anchor());
    }
}

} // verus!
