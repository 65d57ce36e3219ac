//! How a serving node finds out whether it is ready, and says so.
use crate::cancellation::{
    completed_activation_after_shutdown, is_requested_node_cancellation, StartupExit,
};
use crate::error::{
    fail, startup_error, HaNodeError, HaStartupError, NodeError, NodeErrorKind,
};
use crate::log::LogAnchor;
use crate::node::HaNodeSnapshot;
use crate::scope::ScopeEffect;
use crate::status::{HaNodeStatus, RhizaHandle};
use crate::supervise::SupervisorEffect;
use crate::text::joined;
use crate::token::{shutdown_deadline, ShutdownSignal, StartupIoContext};
use vstd::prelude::*;

verus! {

/// What the runtime says of itself.
#[derive(Clone, Copy, Debug, PartialEq, Eq, Structural)]
pub struct NodeStatus {
    /// The configuration is active.
    pub active: bool,
    /// The Stop of a configuration that is not.
    pub stop: Option<LogAnchor>,
    pub ready: bool,
}

/// What an activation attempt does with the status that it found.
#[derive(Clone, Copy, Debug, PartialEq, Eq, Structural)]
pub enum ActivationPlan {
    /// Reports the status.
    Report,
    /// Activates the successor.
    Activate,
    /// Refuses: the configuration was stopped elsewhere than expected.
    Refuse,
}

/// A node activates by itself only where it was told at which Stop to, and is
/// stopped exactly there.
#[verifier::allow_in_spec]
pub fn plan_activation(status: NodeStatus, auto_activate_stop: Option<LogAnchor>) -> (plan:
    ActivationPlan)
    returns
        (match auto_activate_stop {
            None => ActivationPlan::Report,
            Some(expected) => if status.active {
                ActivationPlan::Report
            } else if status.stop == Some(expected) {
                ActivationPlan::Activate
            } else {
                ActivationPlan::Refuse
            },
        }),
{
    match auto_activate_stop {
        None => ActivationPlan::Report,
        Some(expected) => {
            if status.active {
                return ActivationPlan::Report;
            }
            match status.stop {
                Some(stop) => if stop == expected {
                    ActivationPlan::Activate
                } else {
                    ActivationPlan::Refuse
                },
                None => ActivationPlan::Refuse,
            }
        },
    }
}

/// The failure of an attempt that refused.
pub open spec fn is_refusal(error: NodeError) -> bool {
    &&& error.kind == NodeErrorKind::PreconditionFailed
    &&& !error.retryable
    &&& error.message@ == "live successor activation Stop anchor changed"@
}

/// The failure of an attempt that refused.
pub fn refused_activation() -> (error: NodeError)
    ensures
        is_refusal(error),
{
    NodeError {
        kind: NodeErrorKind::PreconditionFailed,
        retryable: false,
        message: "live successor activation Stop anchor changed".to_owned(),
    }
}

/// What an attempt that activated comes to: the status afterwards, unless
/// activation failed for good and left the configuration inactive.
pub open spec fn settled(
    activation: Result<(), NodeError>,
    current: Result<NodeStatus, NodeError>,
) -> Result<NodeStatus, NodeError> {
    match activation {
        Ok(_) => current,
        Err(error) => match current {
            Err(_) => current,
            Ok(status) => if status.active || error.retryable {
                current
            } else {
                Err(error)
            },
        },
    }
}

/// What an attempt that activated comes to, with the status afterwards.
pub fn settle_activation(
    activation: Result<(), NodeError>,
    current: Result<NodeStatus, NodeError>,
) -> (outcome: Result<NodeStatus, NodeError>)
    ensures
        outcome == settled(activation, current),
{
    match activation {
        Ok(()) => current,
        Err(error) => match current {
            Err(current) => Err(current),
            Ok(status) => if status.active || error.retryable {
                Ok(status)
            } else {
                Err(error)
            },
        },
    }
}

/// Why a successor's checkpoint baseline could not be established.
#[derive(Clone, Copy, Debug, PartialEq, Eq, Structural)]
pub enum DurabilityErrorKind {
    Unavailable,
    ArchiveObjectStore,
    ArchiveCompareAndSwapRetriesExhausted,
    ArchiveGcBarrierActive,
    ArchiveGcBarrierBusy,
    Other,
}

impl DurabilityErrorKind {
    /// The archive may serve the next attempt.
    #[verifier::allow_in_spec]
    pub fn is_transient(self) -> (transient: bool)
        returns
            (match self {
                DurabilityErrorKind::Other => false,
                _ => true,
            }),
    {
        match self {
            DurabilityErrorKind::Other => false,
            _ => true,
        }
    }
}

/// A durability failure with its rendered message.
#[derive(Debug)]
pub struct DurabilityError {
    pub kind: DurabilityErrorKind,
    pub message: String,
}

/// How an attempt's task ended.
#[derive(Debug)]
pub enum AttemptExit {
    Returned(Result<NodeStatus, NodeError>),
    Failed(String),
}

impl AttemptExit {
    pub open spec fn spec_startup_exit(self) -> StartupExit<NodeError> {
        match self {
            AttemptExit::Returned(Ok(_)) => StartupExit::Returned(Ok(())),
            AttemptExit::Returned(Err(error)) => StartupExit::Returned(Err(error)),
            AttemptExit::Failed(failure) => StartupExit::Failed(failure),
        }
    }

    fn startup_exit(self) -> (exit: StartupExit<NodeError>)
        ensures
            exit == self.spec_startup_exit(),
    {
        match self {
            AttemptExit::Returned(Ok(_)) => StartupExit::Returned(Ok(())),
            AttemptExit::Returned(Err(error)) => StartupExit::Returned(Err(error)),
            AttemptExit::Failed(failure) => StartupExit::Failed(failure),
        }
    }
}

/// Where a readiness check stands.
#[allow(inconsistent_fields)]
pub enum ReadinessPhase {
    /// Startup is asked whether it was cancelled.
    Checking,
    /// An activation attempt runs.
    Attempting,
    /// A shutdown cancelled the attempt, which may still end by `deadline`.
    CancellingAttempt { signal: ShutdownSignal, deadline: u64 },
    /// The checkpoint baseline of an active successor is established.
    EstablishingBaseline { predecessor_stop: LogAnchor, status: NodeStatus },
    /// What the node found is about to be published.
    Publishing { status: Result<NodeStatus, NodeError> },
    Done(Result<(), HaNodeError>),
}

/// A readiness check of a node with this handle.
pub struct ReadinessCheck {
    pub phase: ReadinessPhase,
    pub handle: RhizaHandle,
    pub auto_activate_stop: Option<LogAnchor>,
    pub successor_stop: Option<LogAnchor>,
}

/// What a readiness check can see happen.
#[allow(inconsistent_fields)]
pub enum ReadinessEvent {
    /// Startup's answer, with the shutdown in force.
    StartupChecked {
        result: Result<(), NodeError>,
        signal: ShutdownSignal,
        startup: StartupIoContext,
    },
    /// The shutdown signal changed, or its sender is gone. `finished` is how
    /// the attempt had ended by then, if it had.
    ShutdownChanged {
        closed: bool,
        signal: ShutdownSignal,
        now: u64,
        finished: Option<AttemptExit>,
        startup: StartupIoContext,
    },
    /// The attempt ended; `baseline_required` says whether the checkpoint
    /// coordinator still lacks a successor's baseline.
    AttemptEnded { exit: AttemptExit, baseline_required: bool, startup: StartupIoContext },
    /// The attempt did not end by the deadline.
    AttemptDeadline { stage: String },
    BaselineEnded(Result<(), DurabilityError>),
    /// Whether writes are allowed, with the shutdown in force.
    Evaluated { write_allowed: bool, signal: ShutdownSignal },
}

/// What a node with this status is.
#[verifier::allow_in_spec]
pub fn status_of(status: NodeStatus, write_allowed: bool) -> (published: HaNodeStatus)
    returns
        (if !status.active {
            HaNodeStatus::AwaitingActivation
        } else if status.ready && write_allowed {
            HaNodeStatus::Ready
        } else {
            HaNodeStatus::Degraded
        }),
{
    if !status.active {
        HaNodeStatus::AwaitingActivation
    } else if status.ready && write_allowed {
        HaNodeStatus::Ready
    } else {
        HaNodeStatus::Degraded
    }
}

impl ReadinessCheck {
    pub fn start(
        handle: RhizaHandle,
        auto_activate_stop: Option<LogAnchor>,
        successor_stop: Option<LogAnchor>,
    ) -> (check: Self)
        ensures
            check.phase is Checking,
            check.handle == handle,
            check.auto_activate_stop == auto_activate_stop,
            check.successor_stop == successor_stop,
    {
        ReadinessCheck {
            phase: ReadinessPhase::Checking,
            handle,
            auto_activate_stop,
            successor_stop,
        }
    }

    /// Publishing `status` with the node's handle.
    pub open spec fn publishes(self, status: HaNodeStatus) -> SupervisorEffect {
        SupervisorEffect::Publish(
            HaNodeSnapshot { status, handle: Some(self.handle), terminal_error: None },
        )
    }

    /// Only the phase changes, to `phase`, with these effects.
    pub open spec fn moves(
        self,
        phase: ReadinessPhase,
        asked: Seq<SupervisorEffect>,
        next: ReadinessCheck,
        effects: Seq<SupervisorEffect>,
    ) -> bool {
        next == (ReadinessCheck { phase, ..self }) && effects == asked
    }

    /// The check ends with `result` and asks for nothing.
    pub open spec fn ends(
        self,
        result: Result<(), HaNodeError>,
        next: ReadinessCheck,
        effects: Seq<SupervisorEffect>,
    ) -> bool {
        self.moves(ReadinessPhase::Done(result), Seq::empty(), next, effects)
    }

    /// The check ends with a failure of startup with this message.
    pub open spec fn fails(
        self,
        message: Seq<char>,
        next: ReadinessCheck,
        effects: Seq<SupervisorEffect>,
    ) -> bool {
        &&& next.phase matches ReadinessPhase::Done(Err(error)) && error.is_startup(message)
        &&& next == (ReadinessCheck { phase: next.phase, ..self })
        &&& effects == Seq::<SupervisorEffect>::empty()
    }

    /// What the end of the attempt does.
    pub open spec fn attempt_ends(
        self,
        exit: AttemptExit,
        baseline_required: bool,
        next: ReadinessCheck,
        effects: Seq<SupervisorEffect>,
    ) -> bool {
        match exit {
            AttemptExit::Failed(failure) => self.fails(
                "activation status task failed: "@ + failure@,
                next,
                effects,
            ),
            AttemptExit::Returned(Ok(status)) => if status.active && baseline_required {
                match self.successor_stop {
                    Some(predecessor_stop) => self.moves(
                        ReadinessPhase::EstablishingBaseline { predecessor_stop, status },
                        Seq::empty(),
                        next,
                        effects,
                    ),
                    None => self.fails(
                        "successor checkpoint baseline is missing its predecessor Stop capability"@,
                        next,
                        effects,
                    ),
                }
            } else {
                self.moves(
                    ReadinessPhase::Publishing { status: Ok(status) },
                    Seq::empty(),
                    next,
                    effects,
                )
            },
            AttemptExit::Returned(Err(error)) => self.moves(
                ReadinessPhase::Publishing { status: Err(error) },
                Seq::empty(),
                next,
                effects,
            ),
        }
    }

    /// What publishing does: an attempt that failed for good is an error, and
    /// nothing is published once a shutdown was requested.
    pub open spec fn is_published(
        self,
        status: Result<NodeStatus, NodeError>,
        write_allowed: bool,
        signal: ShutdownSignal,
        next: ReadinessCheck,
        effects: Seq<SupervisorEffect>,
    ) -> bool {
        match status {
            Err(error) => if self.auto_activate_stop is Some && !error.retryable {
                self.ends(
                    Err(HaNodeError::Startup(HaStartupError::Source(error.message))),
                    next,
                    effects,
                )
            } else if signal is Some {
                self.ends(Ok(()), next, effects)
            } else {
                self.moves(
                    ReadinessPhase::Done(Ok(())),
                    seq![self.publishes(HaNodeStatus::Degraded)],
                    next,
                    effects,
                )
            },
            Ok(status) => if signal is Some {
                self.ends(Ok(()), next, effects)
            } else {
                self.moves(
                    ReadinessPhase::Done(Ok(())),
                    seq![self.publishes(status_of(status, write_allowed))],
                    next,
                    effects,
                )
            },
        }
    }

    /// `next` and `effects` are what `event` makes of this check.
    pub open spec fn steps_to(
        self,
        event: ReadinessEvent,
        next: ReadinessCheck,
        effects: Seq<SupervisorEffect>,
    ) -> bool {
        match (self.phase, event) {
            (
                ReadinessPhase::Checking,
                ReadinessEvent::StartupChecked { result, signal, startup },
            ) => match result {
                Ok(_) => self.moves(ReadinessPhase::Attempting, Seq::empty(), next, effects),
                Err(error) => self.ends(
                    match crate::cancellation::node_outcome(error, startup, signal) {
                        Ok(_) => Ok(()),
                        Err(error) => Err(HaNodeError::Startup(error)),
                    },
                    next,
                    effects,
                ),
            },
            (
                ReadinessPhase::Attempting,
                ReadinessEvent::ShutdownChanged { closed, signal, now, finished, startup },
            ) => if !closed && signal is None {
                self.moves(ReadinessPhase::Attempting, Seq::empty(), next, effects)
            } else {
                match finished {
                    Some(exit) => exists|result: Result<(), HaNodeError>| #[trigger]
                        crate::cancellation::activation_outcome(
                            exit.spec_startup_exit(),
                            startup,
                            signal,
                            result,
                        ) && self.ends(result, next, effects),
                    None => self.moves(
                        ReadinessPhase::CancellingAttempt {
                            signal,
                            deadline: crate::token::deadline_of(signal, now),
                        },
                        seq![crate::starting::cancels_startup(signal, now)],
                        next,
                        effects,
                    ),
                }
            },
            (
                ReadinessPhase::Attempting,
                ReadinessEvent::AttemptEnded { exit, baseline_required, .. },
            ) => self.attempt_ends(exit, baseline_required, next, effects),
            (
                ReadinessPhase::CancellingAttempt { signal, .. },
                ReadinessEvent::AttemptEnded { exit, startup, .. },
            ) => exists|result: Result<(), HaNodeError>| #[trigger]
                crate::cancellation::activation_outcome(
                    exit.spec_startup_exit(),
                    startup,
                    signal,
                    result,
                ) && self.ends(result, next, effects),
            (
                ReadinessPhase::CancellingAttempt { .. },
                ReadinessEvent::AttemptDeadline { stage },
            ) => self.moves(
                ReadinessPhase::Done(Err(HaNodeError::StartupIoDeadlineExceeded { stage })),
                seq![SupervisorEffect::Scope(ScopeEffect::CancelRuntimeOperations)],
                next,
                effects,
            ),
            (
                ReadinessPhase::EstablishingBaseline { .. },
                ReadinessEvent::ShutdownChanged { .. },
            ) => self.ends(Ok(()), next, effects),
            (
                ReadinessPhase::EstablishingBaseline { status, .. },
                ReadinessEvent::BaselineEnded(result),
            ) => match result {
                Ok(_) => self.moves(
                    ReadinessPhase::Publishing { status: Ok(status) },
                    Seq::empty(),
                    next,
                    effects,
                ),
                Err(error) => if error.kind.is_transient() {
                    self.moves(
                        ReadinessPhase::Done(Ok(())),
                        seq![self.publishes(HaNodeStatus::Degraded)],
                        next,
                        effects,
                    )
                } else {
                    self.ends(
                        Err(HaNodeError::Startup(HaStartupError::Source(error.message))),
                        next,
                        effects,
                    )
                },
            },
            (
                ReadinessPhase::Publishing { status },
                ReadinessEvent::Evaluated { write_allowed, signal },
            ) => self.is_published(status, write_allowed, signal, next, effects),
            _ => next == self && effects == Seq::<SupervisorEffect>::empty(),
        }
    }
}

/// The phase and the effects of one step.
pub struct ReadinessStep {
    pub phase: ReadinessPhase,
    pub effects: Vec<SupervisorEffect>,
}

fn quiet(phase: ReadinessPhase) -> (step: ReadinessStep)
    ensures
        step.phase == phase,
        step.effects@ == Seq::<SupervisorEffect>::empty(),
{
    ReadinessStep { phase, effects: Vec::new() }
}

fn publish(handle: RhizaHandle, status: HaNodeStatus) -> (step: ReadinessStep)
    ensures
        step.phase == ReadinessPhase::Done(Ok(())),
        step.effects@ == seq![
            SupervisorEffect::Publish(
                HaNodeSnapshot { status, handle: Some(handle), terminal_error: None },
            ),
        ],
{
    let mut effects: Vec<SupervisorEffect> = Vec::new();
    effects.push(
        SupervisorEffect::Publish(
            HaNodeSnapshot { status, handle: Some(handle), terminal_error: None },
        ),
    );
    ReadinessStep { phase: ReadinessPhase::Done(Ok(())), effects }
}

fn end_attempt_after_shutdown(
    exit: AttemptExit,
    startup: &StartupIoContext,
    signal: &ShutdownSignal,
) -> (result: Result<(), HaNodeError>)
    ensures
        crate::cancellation::activation_outcome(
            exit.spec_startup_exit(),
            *startup,
            *signal,
            result,
        ),
{
    let exit = exit.startup_exit();
    match signal {
        Some(token) => completed_activation_after_shutdown(exit, startup, Some(token)),
        None => completed_activation_after_shutdown(exit, startup, None),
    }
}

/// Advances a readiness check by one event. An event that it does not wait
/// for leaves it as it is.
pub fn update_ha_readiness(check: ReadinessCheck, event: ReadinessEvent) -> (step: (
    ReadinessCheck,
    Vec<SupervisorEffect>,
))
    ensures
        check.steps_to(event, step.0, step.1@),
{
    let ghost before = check;
    let ReadinessCheck { phase, handle, auto_activate_stop, successor_stop } = check;
    let step = match (phase, event) {
        (
            ReadinessPhase::Checking,
            ReadinessEvent::StartupChecked { result, signal, startup },
        ) => {
            match result {
                Ok(()) => quiet(ReadinessPhase::Attempting),
                Err(error) => {
                    let requested = match &signal {
                        Some(token) => is_requested_node_cancellation(
                            &error,
                            &startup,
                            Some(token),
                        ),
                        None => false,
                    };
                    if requested {
                        quiet(ReadinessPhase::Done(Ok(())))
                    } else {
                        quiet(ReadinessPhase::Done(Err(HaNodeError::Startup(startup_error(error)))))
                    }
                },
            }
        },
        (
            ReadinessPhase::Attempting,
            ReadinessEvent::ShutdownChanged { closed, signal, now, finished, startup },
        ) => {
            if !closed && signal.is_none() {
                quiet(ReadinessPhase::Attempting)
            } else {
                match finished {
                    Some(exit) => {
                        let result = end_attempt_after_shutdown(exit, &startup, &signal);
                        quiet(ReadinessPhase::Done(result))
                    },
                    None => {
                        let mut effects: Vec<SupervisorEffect> = Vec::new();
                        effects.push(
                            match signal {
                                Some(token) => SupervisorEffect::CancelStartup(token),
                                None => SupervisorEffect::CancelStartupAt(now),
                            },
                        );
                        assert(effects@ =~= seq![crate::starting::cancels_startup(signal, now)]);
                        ReadinessStep {
                            phase: ReadinessPhase::CancellingAttempt {
                                signal,
                                deadline: shutdown_deadline(&signal, now),
                            },
                            effects,
                        }
                    },
                }
            }
        },
        (
            ReadinessPhase::Attempting,
            ReadinessEvent::AttemptEnded { exit, baseline_required, startup: _ },
        ) => {
            match exit {
                AttemptExit::Failed(failure) => quiet(
                    ReadinessPhase::Done(
                        Err(
                            HaNodeError::Startup(
                                HaStartupError::Source(
                                    joined("activation status task failed: ", failure.as_str()),
                                ),
                            ),
                        ),
                    ),
                ),
                AttemptExit::Returned(Ok(status)) => if status.active && baseline_required {
                    match successor_stop {
                        Some(predecessor_stop) => quiet(
                            ReadinessPhase::EstablishingBaseline { predecessor_stop, status },
                        ),
                        None => quiet(
                            ReadinessPhase::Done(
                                Err(
                                    HaNodeError::Startup(
                                        fail(
                                            "successor checkpoint baseline is missing its predecessor Stop capability",
                                        ),
                                    ),
                                ),
                            ),
                        ),
                    }
                } else {
                    quiet(ReadinessPhase::Publishing { status: Ok(status) })
                },
                AttemptExit::Returned(Err(error)) => quiet(
                    ReadinessPhase::Publishing { status: Err(error) },
                ),
            }
        },
        (
            ReadinessPhase::CancellingAttempt { signal, deadline: _ },
            ReadinessEvent::AttemptEnded { exit, baseline_required: _, startup },
        ) => {
            let result = end_attempt_after_shutdown(exit, &startup, &signal);
            quiet(ReadinessPhase::Done(result))
        },
        (
            ReadinessPhase::CancellingAttempt { .. },
            ReadinessEvent::AttemptDeadline { stage },
        ) => {
            let mut effects: Vec<SupervisorEffect> = Vec::new();
            effects.push(SupervisorEffect::Scope(ScopeEffect::CancelRuntimeOperations));
            assert(effects@ =~= seq![
                SupervisorEffect::Scope(ScopeEffect::CancelRuntimeOperations),
            ]);
            ReadinessStep {
                phase: ReadinessPhase::Done(Err(HaNodeError::StartupIoDeadlineExceeded { stage })),
                effects,
            }
        },
        (ReadinessPhase::EstablishingBaseline { .. }, ReadinessEvent::ShutdownChanged { .. }) => {
            quiet(ReadinessPhase::Done(Ok(())))
        },
        (
            ReadinessPhase::EstablishingBaseline { predecessor_stop: _, status },
            ReadinessEvent::BaselineEnded(result),
        ) => {
            match result {
                Ok(()) => quiet(ReadinessPhase::Publishing { status: Ok(status) }),
                Err(error) => if error.kind.is_transient() {
                    publish(handle, HaNodeStatus::Degraded)
                } else {
                    quiet(
                        ReadinessPhase::Done(
                            Err(HaNodeError::Startup(HaStartupError::Source(error.message))),
                        ),
                    )
                },
            }
        },
        (
            ReadinessPhase::Publishing { status },
            ReadinessEvent::Evaluated { write_allowed, signal },
        ) => {
            match status {
                Err(error) => if auto_activate_stop.is_some() && !error.retryable {
                    quiet(
                        ReadinessPhase::Done(
                            Err(HaNodeError::Startup(HaStartupError::Source(error.message))),
                        ),
                    )
                } else if signal.is_some() {
                    quiet(ReadinessPhase::Done(Ok(())))
                } else {
                    publish(handle, HaNodeStatus::Degraded)
                },
                Ok(status) => if signal.is_some() {
                    quiet(ReadinessPhase::Done(Ok(())))
                } else {
                    publish(handle, status_of(status, write_allowed))
                },
            }
        },
        (phase, _) => quiet(phase),
    };
    let next = ReadinessCheck { phase: step.phase, handle, auto_activate_stop, successor_stop };
    (next, step.effects)
}

/// A node publishes readiness only where its configuration is active, its
/// runtime is ready, writes are allowed and nobody asked for a shutdown; and
/// it does so with its own handle.
pub proof fn law_readiness_is_earned(
    check: ReadinessCheck,
    event: ReadinessEvent,
    next: ReadinessCheck,
    effects: Seq<SupervisorEffect>,
    i: int,
)
    requires
        check.steps_to(event, next, effects),
        0 <= i < effects.len(),
        effects[i] matches SupervisorEffect::Publish(snapshot) && snapshot.status
            == HaNodeStatus::Ready,
    ensures
        check.phase matches ReadinessPhase::Publishing { status } && status matches Ok(found)
            && found.active && found.ready,
        event matches ReadinessEvent::Evaluated { write_allowed, signal } && write_allowed && signal
            is None,
        effects[i] == check.publishes(HaNodeStatus::Ready),
{
}

/// A node is never activated at another Stop than the one that it was bound
/// to, and never without one.
pub proof fn law_activation_needs_the_exact_stop(
    status: NodeStatus,
    auto_activate_stop: Option<LogAnchor>,
)
    ensures
        plan_activation(status, auto_activate_stop) == ActivationPlan::Activate <==> (
        auto_activate_stop is Some && !status.active && status.stop == auto_activate_stop),
        plan_activation(status, auto_activate_stop) == ActivationPlan::Refuse ==> !status.active
            && status.stop != auto_activate_stop,
{
}

/// Checking again whether an activation took hold never turns an active
/// configuration into a failure.
pub proof fn law_active_configuration_settles(
    activation: Result<(), NodeError>,
    current: Result<NodeStatus, NodeError>,
)
    requires
        current matches Ok(status) && status.active,
    ensures
        settled(activation, current) == current,
{
}

/// An attempt that refused failed for good, and says that the anchor of the
/// Stop changed.
pub proof fn law_a_refused_activation_is_not_tried_again(error: NodeError)
    requires
        call_ensures(refused_activation, (), error),
    ensures
        error.kind == NodeErrorKind::PreconditionFailed,
        !error.retryable,
        error.message@ == "live successor activation Stop anchor changed"@,
{
}

} // verus!
