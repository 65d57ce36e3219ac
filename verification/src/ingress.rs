//! Draining the listeners that a node owns.
//!
//! A waiter drains one ingress until an absolute deadline. It first waits for
//! the task to end by itself, then forces the connections, then aborts the
//! task. What it may claim afterwards depends on the receipts that it saw on
//! the way.
use crate::error::{conservative_shutdown_deadline_error, HaNodeError};
use crate::evidence::{ingress_after_service_wait, ShutdownEvidence};
use crate::status::{HaShutdownPhase, IngressDisposition, TaskDisposition};
use crate::task::{ServerRole, TaskExit};
use vstd::prelude::*;

verus! {

/// How long before the deadline the connections are forced.
pub const HA_SERVER_FORCE_RESERVE: u64 = 100_000_000;

/// How long before the deadline the task itself is aborted, and how long
/// aborted connections are reaped for.
pub const HA_SERVER_ABORT_RECEIPT_RESERVE: u64 = 50_000_000;

/// The instants at which a waiter escalates.
#[derive(Clone, Copy, Debug, PartialEq, Eq, Structural)]
pub struct ForcePoints {
    pub inner: u64,
    pub outer: u64,
}

/// `reserve` before `deadline`, but not before `now`.
pub open spec fn clamped_before(deadline: u64, reserve: u64, now: u64) -> u64 {
    if deadline >= reserve && deadline - reserve > now {
        (deadline - reserve) as u64
    } else {
        now
    }
}

/// `reserve` before `deadline`, but not before `now`.
pub fn clamped_before_deadline(deadline: u64, reserve: u64, now: u64) -> (instant: u64)
    ensures
        instant == clamped_before(deadline, reserve, now),
{
    if deadline >= reserve && deadline - reserve > now {
        deadline - reserve
    } else {
        now
    }
}

/// `reserve` before `deadline`, or `now` where no such instant exists.
pub open spec fn before_or_now(deadline: u64, reserve: u64, now: u64) -> u64 {
    if deadline >= reserve {
        (deadline - reserve) as u64
    } else {
        now
    }
}

/// The escalation instants of an HTTP ingress waiter.
pub fn axum_force_points(deadline: u64, now: u64) -> (points: ForcePoints)
    ensures
        points.inner == before_or_now(deadline, HA_SERVER_FORCE_RESERVE, now),
        points.outer == before_or_now(deadline, HA_SERVER_ABORT_RECEIPT_RESERVE, now),
{
    let inner: u64 = if deadline >= HA_SERVER_FORCE_RESERVE {
        deadline - HA_SERVER_FORCE_RESERVE
    } else {
        now
    };
    let outer: u64 = if deadline >= HA_SERVER_ABORT_RECEIPT_RESERVE {
        deadline - HA_SERVER_ABORT_RECEIPT_RESERVE
    } else {
        now
    };
    ForcePoints { inner, outer }
}

/// The escalation instants of a recorder ingress waiter.
pub fn recorder_force_points(deadline: u64, now: u64) -> (points: ForcePoints)
    ensures
        points.inner == clamped_before(deadline, HA_SERVER_FORCE_RESERVE, now),
        points.outer == clamped_before(deadline, HA_SERVER_ABORT_RECEIPT_RESERVE, now),
{
    ForcePoints {
        inner: clamped_before_deadline(deadline, HA_SERVER_FORCE_RESERVE, now),
        outer: clamped_before_deadline(deadline, HA_SERVER_ABORT_RECEIPT_RESERVE, now),
    }
}

/// A recorder waiter escalates in order, never before `now`, and never after
/// a deadline that is still ahead; a deadline too short for a reserve is
/// forced at once.
pub proof fn law_force_points_are_ordered(deadline: u64, now: u64)
    ensures
        ({
            let inner = clamped_before(deadline, HA_SERVER_FORCE_RESERVE, now);
            let outer = clamped_before(deadline, HA_SERVER_ABORT_RECEIPT_RESERVE, now);
            &&& now <= inner <= outer
            &&& now <= deadline ==> outer <= deadline
            &&& deadline < now + HA_SERVER_ABORT_RECEIPT_RESERVE ==> inner == now && outer == now
        }),
{
}

/// How far a waiter has escalated.
#[derive(Clone, Copy, Debug, PartialEq, Eq, Structural)]
pub enum WaitStage {
    Graceful,
    Forced,
    Aborted,
}

/// What a waiter asks of its caller before it waits on.
#[derive(Clone, Copy, Debug, PartialEq, Eq, Structural)]
pub enum WaitAction {
    Nothing,
    ForceConnections,
    AbortTask,
}

/// The outcome of draining one ingress.
#[derive(Debug)]
pub struct IngressShutdown {
    pub result: Result<(), HaNodeError>,
    pub ingress: IngressDisposition,
    pub tasks: TaskDisposition,
}

impl IngressShutdown {
    pub open spec fn spec_evidence(self) -> ShutdownEvidence {
        ShutdownEvidence { ingress: self.ingress, tasks: self.tasks }
    }

    pub fn evidence(&self) -> (evidence: ShutdownEvidence)
        ensures
            evidence == self.spec_evidence(),
    {
        ShutdownEvidence { ingress: self.ingress, tasks: self.tasks }
    }
}

/// What is durably known of an HTTP ingress: whether its listener's end was
/// receipted, and whether its connections were forced.
#[derive(Clone, Copy, Debug, PartialEq, Eq, Structural)]
pub struct TrackedAxumIngress {
    pub listener_receipted: bool,
    pub forced: bool,
}

impl TrackedAxumIngress {
    /// A freshly spawned ingress.
    #[verifier::allow_in_spec]
    pub fn new() -> (ingress: Self)
        returns
            (TrackedAxumIngress { listener_receipted: false, forced: false }),
    {
        TrackedAxumIngress { listener_receipted: false, forced: false }
    }

    /// Looks for the listener's receipt, which is consumed at most once.
    pub fn poll_listener_receipt(&mut self, receipt: bool) -> (receipted: bool)
        ensures
            receipted == (old(self).listener_receipted || receipt),
            *final(self) == (TrackedAxumIngress { listener_receipted: receipted, ..*old(self) }),
    {
        if !self.listener_receipted {
            self.listener_receipted = receipt;
        }
        self.listener_receipted
    }
}

/// What the transport of a recorder ingress says of its own tasks.
#[derive(Clone, Copy, Debug, PartialEq, Eq, Structural)]
pub enum NodeRecorderTaskDisposition {
    Quiesced,
    Uncertain,
}

/// What is durably known of a recorder ingress that is not HTTP.
#[derive(Clone, Copy, Debug, PartialEq, Eq, Structural)]
pub struct TrackedRecorderIngress {
    pub listener_receipted: bool,
    pub forced: bool,
}

impl TrackedRecorderIngress {
    /// A freshly spawned ingress.
    #[verifier::allow_in_spec]
    pub fn new() -> (ingress: Self)
        returns
            (TrackedRecorderIngress { listener_receipted: false, forced: false }),
    {
        TrackedRecorderIngress { listener_receipted: false, forced: false }
    }

    /// Looks for the listener's receipt, which is consumed at most once.
    pub fn poll_listener_receipt(&mut self, receipt: bool) -> (receipted: bool)
        ensures
            receipted == (old(self).listener_receipted || receipt),
            *final(self) == (TrackedRecorderIngress {
                listener_receipted: receipted,
                ..*old(self)
            }),
    {
        if !self.listener_receipted {
            self.listener_receipted = receipt;
        }
        self.listener_receipted
    }
}

/// Quiesced only where the transport said so.
#[verifier::allow_in_spec]
pub fn reported_tasks(reported: Option<NodeRecorderTaskDisposition>) -> (tasks: TaskDisposition)
    returns
        (match reported {
            Some(NodeRecorderTaskDisposition::Quiesced) => TaskDisposition::Quiesced,
            _ => TaskDisposition::Uncertain,
        }),
{
    match reported {
        Some(NodeRecorderTaskDisposition::Quiesced) => TaskDisposition::Quiesced,
        _ => TaskDisposition::Uncertain,
    }
}

/// What a waiter can see happen.
#[derive(Debug)]
pub enum IngressEvent {
    /// The listener's receipt arrived, or its sender is gone.
    ListenerReceipt { received: bool },
    /// The task ended. `receipt` says whether a receipt that was not consumed
    /// before is waiting, `reported` what the transport said of its tasks.
    TaskExit { exit: TaskExit, receipt: bool, reported: Option<NodeRecorderTaskDisposition> },
    /// The instant of the next escalation has come.
    TimerDue,
}

/// A waiter on an HTTP ingress.
#[derive(Clone, Copy, Debug, PartialEq, Eq, Structural)]
pub struct AxumIngressWait {
    pub stage: WaitStage,
    pub listener_dropped: bool,
    pub ingress: TrackedAxumIngress,
}

/// Where a waiter on an HTTP ingress stands after an event.
#[derive(Debug)]
pub enum AxumIngressProgress {
    Waiting { wait: AxumIngressWait, action: WaitAction },
    Finished { ingress: TrackedAxumIngress, shutdown: IngressShutdown, action: WaitAction },
}

impl AxumIngressWait {
    /// A waiter that has seen nothing yet, on an ingress that may already
    /// have been receipted.
    #[verifier::allow_in_spec]
    pub fn start(ingress: TrackedAxumIngress) -> (wait: Self)
        returns
            (AxumIngressWait {
                stage: WaitStage::Graceful,
                listener_dropped: ingress.listener_receipted,
                ingress,
            }),
    {
        AxumIngressWait {
            stage: WaitStage::Graceful,
            listener_dropped: ingress.listener_receipted,
            ingress,
        }
    }

    /// The waiter after an event that does not end it.
    pub open spec fn waits_on(self, event: IngressEvent) -> Option<(AxumIngressWait, WaitAction)> {
        match event {
            IngressEvent::ListenerReceipt { received } => if self.listener_dropped || self.stage
                == WaitStage::Aborted {
                Some((self, WaitAction::Nothing))
            } else {
                Some(
                    (
                        AxumIngressWait {
                            listener_dropped: received,
                            ingress: TrackedAxumIngress {
                                listener_receipted: self.ingress.listener_receipted || received,
                                ..self.ingress
                            },
                            ..self
                        },
                        WaitAction::Nothing,
                    ),
                )
            },
            IngressEvent::TaskExit { .. } => None,
            IngressEvent::TimerDue => match self.stage {
                WaitStage::Graceful => Some(
                    (
                        AxumIngressWait {
                            stage: WaitStage::Forced,
                            ingress: TrackedAxumIngress { forced: true, ..self.ingress },
                            ..self
                        },
                        WaitAction::ForceConnections,
                    ),
                ),
                WaitStage::Forced => Some(
                    (AxumIngressWait { stage: WaitStage::Aborted, ..self }, WaitAction::AbortTask),
                ),
                WaitStage::Aborted => None,
            },
        }
    }

    /// Whether the end of the task is taken together with a receipt that is
    /// still waiting: not once connections were forced, and after the abort
    /// only where the task returned.
    pub open spec fn looks_for_receipt(self, exit: TaskExit) -> bool {
        match self.stage {
            WaitStage::Graceful => true,
            WaitStage::Forced => false,
            WaitStage::Aborted => exit is Returned,
        }
    }

    /// What is known of the listener once the task has ended.
    pub open spec fn listener_ended(self, exit: TaskExit, receipt: bool) -> bool {
        self.listener_dropped || (self.looks_for_receipt(exit) && (
        self.ingress.listener_receipted || receipt))
    }

    /// What may be claimed of the tasks once the task has ended.
    pub open spec fn claimed_tasks(self, exit: TaskExit) -> TaskDisposition {
        match self.stage {
            WaitStage::Graceful => if self.ingress.forced || !exit.succeeded() {
                TaskDisposition::Uncertain
            } else {
                TaskDisposition::Quiesced
            },
            WaitStage::Forced => TaskDisposition::Uncertain,
            WaitStage::Aborted => if exit is Returned && !self.ingress.forced {
                TaskDisposition::Quiesced
            } else {
                TaskDisposition::Uncertain
            },
        }
    }

    /// `progress` is what `event` does to this waiter.
    pub open spec fn steps_to(
        self,
        role: ServerRole,
        event: IngressEvent,
        progress: AxumIngressProgress,
    ) -> bool {
        match self.waits_on(event) {
            Some((wait, action)) => progress == (AxumIngressProgress::Waiting { wait, action }),
            None => progress matches AxumIngressProgress::Finished { ingress, shutdown, action }
                && match event {
                IngressEvent::TaskExit { exit, receipt, .. } => {
                    &&& action == WaitAction::Nothing
                    &&& exit.flattens_to(role, shutdown.result)
                    &&& shutdown.ingress == ingress_after_service_wait(
                        self.listener_ended(exit, receipt),
                    )
                    &&& shutdown.tasks == self.claimed_tasks(exit)
                    &&& ingress == (TrackedAxumIngress {
                        listener_receipted: self.ingress.listener_receipted || (
                        self.looks_for_receipt(exit) && (self.stage != WaitStage::Graceful
                            || !self.listener_dropped) && receipt),
                        ..self.ingress
                    })
                },
                _ => {
                    &&& action == WaitAction::AbortTask
                    &&& shutdown.ingress == ingress_after_service_wait(self.listener_dropped)
                    &&& shutdown.tasks == TaskDisposition::Uncertain
                    &&& shutdown.result == Err::<(), HaNodeError>(
                        conservative_shutdown_deadline_error(
                            HaShutdownPhase::Service,
                            shutdown.spec_evidence(),
                        ),
                    )
                    &&& ingress == self.ingress
                },
            },
        }
    }
}

/// Advances a waiter on the HTTP ingress of `role` by one event. The timer is
/// due at the inner force point, at the outer one, and at the deadline.
pub fn wait_for_tracked_axum_ingress(
    wait: AxumIngressWait,
    role: ServerRole,
    event: IngressEvent,
) -> (progress: AxumIngressProgress)
    ensures
        wait.steps_to(role, event, progress),
{
    let mut wait = wait;
    match event {
        IngressEvent::ListenerReceipt { received } => {
            if !wait.listener_dropped && wait.stage != WaitStage::Aborted {
                wait.listener_dropped = received;
                wait.ingress.listener_receipted = wait.ingress.listener_receipted || received;
            }
            AxumIngressProgress::Waiting { wait, action: WaitAction::Nothing }
        },
        IngressEvent::TaskExit { exit, receipt, reported: _ } => {
            let returned = matches!(exit, TaskExit::Returned(_));
            let result = exit.flatten(role);
            let tasks = match wait.stage {
                WaitStage::Graceful => {
                    if !wait.listener_dropped {
                        wait.listener_dropped = wait.ingress.poll_listener_receipt(receipt);
                    }
                    if wait.ingress.forced || result.is_err() {
                        TaskDisposition::Uncertain
                    } else {
                        TaskDisposition::Quiesced
                    }
                },
                WaitStage::Forced => TaskDisposition::Uncertain,
                WaitStage::Aborted => {
                    if returned {
                        let polled = wait.ingress.poll_listener_receipt(receipt);
                        wait.listener_dropped = wait.listener_dropped || polled;
                    }
                    if returned && !wait.ingress.forced {
                        TaskDisposition::Quiesced
                    } else {
                        TaskDisposition::Uncertain
                    }
                },
            };
            AxumIngressProgress::Finished {
                ingress: wait.ingress,
                shutdown: IngressShutdown {
                    result,
                    ingress: ingress_after_service_wait(wait.listener_dropped),
                    tasks,
                },
                action: WaitAction::Nothing,
            }
        },
        IngressEvent::TimerDue => match wait.stage {
            WaitStage::Graceful => {
                wait.ingress.forced = true;
                wait.stage = WaitStage::Forced;
                AxumIngressProgress::Waiting { wait, action: WaitAction::ForceConnections }
            },
            WaitStage::Forced => {
                wait.stage = WaitStage::Aborted;
                AxumIngressProgress::Waiting { wait, action: WaitAction::AbortTask }
            },
            WaitStage::Aborted => {
                let evidence = ShutdownEvidence {
                    ingress: ingress_after_service_wait(wait.listener_dropped),
                    tasks: TaskDisposition::Uncertain,
                };
                AxumIngressProgress::Finished {
                    ingress: wait.ingress,
                    shutdown: IngressShutdown {
                        result: Err(
                            conservative_shutdown_deadline_error(HaShutdownPhase::Service, evidence),
                        ),
                        ingress: evidence.ingress,
                        tasks: evidence.tasks,
                    },
                    action: WaitAction::AbortTask,
                }
            },
        },
    }
}

/// The waiter after events none of which ends it, in turn.
pub open spec fn axum_waits_through(wait: AxumIngressWait, events: Seq<IngressEvent>) -> Option<
    AxumIngressWait,
>
    decreases events.len(),
{
    if events.len() == 0 {
        Some(wait)
    } else {
        match axum_waits_through(wait, events.drop_last()) {
            Some(before) => match before.waits_on(events.last()) {
                Some((after, _)) => Some(after),
                None => None,
            },
            None => None,
        }
    }
}

/// Some event of `events` brought the listener's receipt.
pub open spec fn receipt_arrives(events: Seq<IngressEvent>) -> bool {
    exists|i: int|
        0 <= i < events.len() && (#[trigger] events[i] matches IngressEvent::ListenerReceipt {
            received,
        } && received)
}

/// How often a timer came due.
pub open spec fn timers(events: Seq<IngressEvent>) -> nat
    decreases events.len(),
{
    if events.len() == 0 {
        0
    } else {
        timers(events.drop_last()) + if events.last() is TimerDue {
            1nat
        } else {
            0nat
        }
    }
}

proof fn lemma_axum_waits_through(ingress: TrackedAxumIngress, events: Seq<IngressEvent>)
    ensures
        axum_waits_through(AxumIngressWait::start(ingress), events) matches Some(wait) ==> {
            &&& wait.listener_dropped ==> ingress.listener_receipted || receipt_arrives(events)
            &&& wait.ingress.listener_receipted == wait.listener_dropped
            &&& wait.stage == WaitStage::Graceful <==> timers(events) == 0
            &&& wait.stage == WaitStage::Forced <==> timers(events) == 1
            &&& wait.stage == WaitStage::Aborted <==> timers(events) == 2
            &&& wait.ingress.forced == (ingress.forced || timers(events) > 0)
        },
    decreases events.len(),
{
    if events.len() > 0 {
        let before = events.drop_last();
        lemma_axum_waits_through(ingress, before);
        if axum_waits_through(AxumIngressWait::start(ingress), events) is Some {
            let last = events.last();
            assert(events[events.len() - 1] == last);
            if receipt_arrives(before) {
                let i = choose|i: int|
                    0 <= i < before.len() && (#[trigger] before[i] matches
                        IngressEvent::ListenerReceipt { received } && received);
                assert(events[i] == before[i]);
            }
        }
    }
}

/// A waiter on an HTTP ingress claims that the listener is closed only where
/// its receipt was seen, before or during the wait.
pub proof fn law_axum_closed_needs_a_receipt(
    ingress: TrackedAxumIngress,
    role: ServerRole,
    events: Seq<IngressEvent>,
    last: IngressEvent,
    progress: AxumIngressProgress,
)
    requires
        axum_waits_through(AxumIngressWait::start(ingress), events) matches Some(wait)
            && wait.steps_to(role, last, progress),
        progress matches AxumIngressProgress::Finished { shutdown, .. } && shutdown.ingress
            == IngressDisposition::Closed,
    ensures
        ingress.listener_receipted || receipt_arrives(events) || (last matches
            IngressEvent::TaskExit { receipt, .. } && receipt),
{
    lemma_axum_waits_through(ingress, events);
}

/// A waiter on an HTTP ingress claims that its tasks quiesced only where the
/// task returned success before anything was forced.
pub proof fn law_axum_quiescence_is_never_forced(
    ingress: TrackedAxumIngress,
    role: ServerRole,
    events: Seq<IngressEvent>,
    last: IngressEvent,
    progress: AxumIngressProgress,
)
    requires
        axum_waits_through(AxumIngressWait::start(ingress), events) matches Some(wait)
            && wait.steps_to(role, last, progress),
        progress matches AxumIngressProgress::Finished { shutdown, .. } && shutdown.tasks
            == TaskDisposition::Quiesced,
    ensures
        !ingress.forced,
        timers(events) == 0,
        last matches IngressEvent::TaskExit { exit, .. } && exit.succeeded(),
{
    lemma_axum_waits_through(ingress, events);
}

/// A waiter on an HTTP ingress never outlasts the deadline: the third timer
/// ends it, with the task aborted and every mutation held possible.
pub proof fn law_axum_wait_ends_at_the_deadline(
    ingress: TrackedAxumIngress,
    role: ServerRole,
    events: Seq<IngressEvent>,
    progress: AxumIngressProgress,
)
    requires
        timers(events) == 2,
        axum_waits_through(AxumIngressWait::start(ingress), events) matches Some(wait)
            && wait.steps_to(role, IngressEvent::TimerDue, progress),
    ensures
        progress matches AxumIngressProgress::Finished { shutdown, action, .. } && action
            == WaitAction::AbortTask && shutdown.result == Err::<(), HaNodeError>(
            conservative_shutdown_deadline_error(
                HaShutdownPhase::Service,
                shutdown.spec_evidence(),
            ),
        ),
{
    lemma_axum_waits_through(ingress, events);
}

/// A waiter on a recorder ingress that is not HTTP.
#[derive(Clone, Copy, Debug, PartialEq, Eq, Structural)]
pub struct RecorderIngressWait {
    pub stage: WaitStage,
    pub listener_dropped: bool,
    pub ingress: TrackedRecorderIngress,
}

/// Where a waiter on a recorder ingress stands after an event.
#[derive(Debug)]
pub enum RecorderIngressProgress {
    Waiting { wait: RecorderIngressWait, action: WaitAction },
    Finished { ingress: TrackedRecorderIngress, shutdown: IngressShutdown, action: WaitAction },
}

impl RecorderIngressWait {
    /// A waiter that has seen nothing yet, on an ingress that may already
    /// have been receipted.
    #[verifier::allow_in_spec]
    pub fn start(ingress: TrackedRecorderIngress) -> (wait: Self)
        returns
            (RecorderIngressWait {
                stage: WaitStage::Graceful,
                listener_dropped: ingress.listener_receipted,
                ingress,
            }),
    {
        RecorderIngressWait {
            stage: WaitStage::Graceful,
            listener_dropped: ingress.listener_receipted,
            ingress,
        }
    }

    /// The waiter after an event that does not end it.
    pub open spec fn waits_on(self, event: IngressEvent) -> Option<
        (RecorderIngressWait, WaitAction),
    > {
        match event {
            IngressEvent::ListenerReceipt { received } => if self.listener_dropped || self.stage
                == WaitStage::Aborted {
                Some((self, WaitAction::Nothing))
            } else {
                Some(
                    (
                        RecorderIngressWait {
                            listener_dropped: received,
                            ingress: TrackedRecorderIngress {
                                listener_receipted: self.ingress.listener_receipted || received,
                                ..self.ingress
                            },
                            ..self
                        },
                        WaitAction::Nothing,
                    ),
                )
            },
            IngressEvent::TaskExit { .. } => None,
            IngressEvent::TimerDue => match self.stage {
                WaitStage::Graceful => Some(
                    (
                        RecorderIngressWait {
                            stage: WaitStage::Forced,
                            ingress: TrackedRecorderIngress { forced: true, ..self.ingress },
                            ..self
                        },
                        WaitAction::ForceConnections,
                    ),
                ),
                WaitStage::Forced => Some(
                    (
                        RecorderIngressWait { stage: WaitStage::Aborted, ..self },
                        WaitAction::AbortTask,
                    ),
                ),
                WaitStage::Aborted => None,
            },
        }
    }

    /// What may be claimed of the tasks once the task has ended: what the
    /// transport reported, where it returned before anything was forced.
    pub open spec fn claimed_tasks(
        self,
        exit: TaskExit,
        reported: Option<NodeRecorderTaskDisposition>,
    ) -> TaskDisposition {
        if self.stage == WaitStage::Graceful && exit is Returned && !self.ingress.forced {
            reported_tasks(reported)
        } else {
            TaskDisposition::Uncertain
        }
    }

    /// `progress` is what `event` does to this waiter.
    pub open spec fn steps_to(self, event: IngressEvent, progress: RecorderIngressProgress) -> bool {
        match self.waits_on(event) {
            Some((wait, action)) => progress == (RecorderIngressProgress::Waiting { wait, action }),
            None => progress matches RecorderIngressProgress::Finished { ingress, shutdown, action }
                && match event {
                IngressEvent::TaskExit { exit, receipt, reported } => {
                    &&& action == WaitAction::Nothing
                    &&& exit.flattens_to(ServerRole::Recorder, shutdown.result)
                    &&& shutdown.ingress == ingress_after_service_wait(
                        self.listener_dropped || self.ingress.listener_receipted || receipt,
                    )
                    &&& shutdown.tasks == self.claimed_tasks(exit, reported)
                    &&& ingress == (TrackedRecorderIngress {
                        listener_receipted: self.ingress.listener_receipted || ((self.stage
                            == WaitStage::Aborted || !self.listener_dropped) && receipt),
                        ..self.ingress
                    })
                },
                _ => {
                    &&& action == WaitAction::AbortTask
                    &&& shutdown.ingress == ingress_after_service_wait(self.listener_dropped)
                    &&& shutdown.tasks == TaskDisposition::Uncertain
                    &&& shutdown.result == Err::<(), HaNodeError>(
                        conservative_shutdown_deadline_error(
                            HaShutdownPhase::Service,
                            shutdown.spec_evidence(),
                        ),
                    )
                    &&& ingress == self.ingress
                },
            },
        }
    }
}

/// Advances a waiter on a recorder ingress by one event. The timer is due at
/// the inner force point, at the outer one, and at the deadline.
pub fn wait_for_tracked_recorder_ingress(wait: RecorderIngressWait, event: IngressEvent) -> (progress:
    RecorderIngressProgress)
    ensures
        wait.steps_to(event, progress),
{
    let mut wait = wait;
    match event {
        IngressEvent::ListenerReceipt { received } => {
            if !wait.listener_dropped && wait.stage != WaitStage::Aborted {
                wait.listener_dropped = received;
                wait.ingress.listener_receipted = wait.ingress.listener_receipted || received;
            }
            RecorderIngressProgress::Waiting { wait, action: WaitAction::Nothing }
        },
        IngressEvent::TaskExit { exit, receipt, reported } => {
            let returned = matches!(exit, TaskExit::Returned(_));
            let result = exit.flatten(ServerRole::Recorder);
            let tasks = if wait.stage == WaitStage::Graceful && returned && !wait.ingress.forced {
                reported_tasks(reported)
            } else {
                TaskDisposition::Uncertain
            };
            match wait.stage {
                WaitStage::Aborted => {
                    let polled = wait.ingress.poll_listener_receipt(receipt);
                    wait.listener_dropped = wait.listener_dropped || polled;
                },
                _ => {
                    if !wait.listener_dropped {
                        wait.listener_dropped = wait.ingress.poll_listener_receipt(receipt);
                    }
                },
            }
            RecorderIngressProgress::Finished {
                ingress: wait.ingress,
                shutdown: IngressShutdown {
                    result,
                    ingress: ingress_after_service_wait(wait.listener_dropped),
                    tasks,
                },
                action: WaitAction::Nothing,
            }
        },
        IngressEvent::TimerDue => match wait.stage {
            WaitStage::Graceful => {
                wait.ingress.forced = true;
                wait.stage = WaitStage::Forced;
                RecorderIngressProgress::Waiting { wait, action: WaitAction::ForceConnections }
            },
            WaitStage::Forced => {
                wait.stage = WaitStage::Aborted;
                RecorderIngressProgress::Waiting { wait, action: WaitAction::AbortTask }
            },
            WaitStage::Aborted => {
                let evidence = ShutdownEvidence {
                    ingress: ingress_after_service_wait(wait.listener_dropped),
                    tasks: TaskDisposition::Uncertain,
                };
                RecorderIngressProgress::Finished {
                    ingress: wait.ingress,
                    shutdown: IngressShutdown {
                        result: Err(
                            conservative_shutdown_deadline_error(HaShutdownPhase::Service, evidence),
                        ),
                        ingress: evidence.ingress,
                        tasks: evidence.tasks,
                    },
                    action: WaitAction::AbortTask,
                }
            },
        },
    }
}

/// The waiter after events none of which ends it, in turn.
pub open spec fn recorder_waits_through(
    wait: RecorderIngressWait,
    events: Seq<IngressEvent>,
) -> Option<RecorderIngressWait>
    decreases events.len(),
{
    if events.len() == 0 {
        Some(wait)
    } else {
        match recorder_waits_through(wait, events.drop_last()) {
            Some(before) => match before.waits_on(events.last()) {
                Some((after, _)) => Some(after),
                None => None,
            },
            None => None,
        }
    }
}

proof fn lemma_recorder_waits_through(ingress: TrackedRecorderIngress, events: Seq<IngressEvent>)
    ensures
        recorder_waits_through(RecorderIngressWait::start(ingress), events) matches Some(wait)
            ==> {
            &&& wait.listener_dropped ==> ingress.listener_receipted || receipt_arrives(events)
            &&& wait.ingress.listener_receipted == wait.listener_dropped
            &&& wait.stage == WaitStage::Graceful <==> timers(events) == 0
            &&& wait.stage == WaitStage::Forced <==> timers(events) == 1
            &&& wait.stage == WaitStage::Aborted <==> timers(events) == 2
            &&& wait.ingress.forced == (ingress.forced || timers(events) > 0)
        },
    decreases events.len(),
{
    if events.len() > 0 {
        let before = events.drop_last();
        lemma_recorder_waits_through(ingress, before);
        if recorder_waits_through(RecorderIngressWait::start(ingress), events) is Some {
            let last = events.last();
            assert(events[events.len() - 1] == last);
            if receipt_arrives(before) {
                let i = choose|i: int|
                    0 <= i < before.len() && (#[trigger] before[i] matches
                        IngressEvent::ListenerReceipt { received } && received);
                assert(events[i] == before[i]);
            }
        }
    }
}

/// A waiter on a recorder ingress claims that the listener is closed only
/// where its receipt was seen, and that the tasks quiesced only where the
/// transport said so before anything was forced.
pub proof fn law_recorder_claims_need_receipts(
    ingress: TrackedRecorderIngress,
    events: Seq<IngressEvent>,
    last: IngressEvent,
    progress: RecorderIngressProgress,
)
    requires
        recorder_waits_through(RecorderIngressWait::start(ingress), events) matches Some(wait)
            && wait.steps_to(last, progress),
    ensures
        progress matches RecorderIngressProgress::Finished { shutdown, .. } ==> {
            &&& shutdown.ingress == IngressDisposition::Closed ==> ingress.listener_receipted
                || receipt_arrives(events) || (last matches IngressEvent::TaskExit { receipt, .. }
                && receipt)
            &&& shutdown.tasks == TaskDisposition::Quiesced ==> !ingress.forced && timers(events)
                == 0 && (last matches IngressEvent::TaskExit { exit, reported, .. } && exit
                is Returned && reported == Some(NodeRecorderTaskDisposition::Quiesced))
        },
{
    lemma_recorder_waits_through(ingress, events);
}

/// A waiter on a recorder ingress never outlasts the deadline: the third
/// timer ends it, with the task aborted and every mutation held possible.
pub proof fn law_recorder_wait_ends_at_the_deadline(
    ingress: TrackedRecorderIngress,
    events: Seq<IngressEvent>,
    progress: RecorderIngressProgress,
)
    requires
        timers(events) == 2,
        recorder_waits_through(RecorderIngressWait::start(ingress), events) matches Some(wait)
            && wait.steps_to(IngressEvent::TimerDue, progress),
    ensures
        progress matches RecorderIngressProgress::Finished { shutdown, action, .. } && action
            == WaitAction::AbortTask && shutdown.result == Err::<(), HaNodeError>(
            conservative_shutdown_deadline_error(
                HaShutdownPhase::Service,
                shutdown.spec_evidence(),
            ),
        ),
{
    lemma_recorder_waits_through(ingress, events);
}

/// A waiter on an HTTP ingress claims all that it saw, and no more: once its
/// task has ended, a closed listener exactly where the receipt was there before
/// the end, or came with it and still counts, and quiesced tasks exactly where
/// the task succeeded unforced, or returned after an abort that forced nothing.
/// The task's own result is kept.
pub proof fn law_an_axum_waiter_claims_all_that_it_saw(
    wait: AxumIngressWait,
    role: ServerRole,
    event: IngressEvent,
    progress: AxumIngressProgress,
)
    requires
        wait.steps_to(role, event, progress),
        wait.ingress.listener_receipted == wait.listener_dropped,
    ensures
        event matches IngressEvent::TaskExit { exit, receipt, .. } ==> (progress matches
            AxumIngressProgress::Finished { ingress, shutdown, action } && {
            let counts = match wait.stage {
                WaitStage::Graceful => true,
                WaitStage::Forced => false,
                WaitStage::Aborted => exit is Returned,
            };
            &&& action is Nothing
            &&& exit matches TaskExit::Returned(result) ==> shutdown.result == result
            &&& exit is Failed ==> shutdown.result is Err
            &&& shutdown.ingress == IngressDisposition::Closed <==> wait.listener_dropped || (receipt
                && counts)
            &&& shutdown.ingress != IngressDisposition::Open
            &&& ingress.listener_receipted <==> wait.listener_dropped || (receipt && counts)
            &&& ingress.forced == wait.ingress.forced
            &&& shutdown.tasks == TaskDisposition::Quiesced <==> !wait.ingress.forced
                && match wait.stage {
                WaitStage::Graceful => exit matches TaskExit::Returned(result) && result is Ok,
                WaitStage::Forced => false,
                WaitStage::Aborted => exit is Returned,
            }
        }),
{
}

/// A waiter on an HTTP ingress escalates at each timer and at nothing else: it
/// forces the connections, then aborts the task, then gives up. A receipt is
/// remembered until the abort, and the loss of its sender is not taken for one.
pub proof fn law_an_axum_waiter_escalates_at_each_timer(
    wait: AxumIngressWait,
    role: ServerRole,
    event: IngressEvent,
    progress: AxumIngressProgress,
)
    requires
        wait.steps_to(role, event, progress),
    ensures
        event is TimerDue && wait.stage == WaitStage::Graceful ==> (progress matches
            AxumIngressProgress::Waiting { wait: next, action } && action is ForceConnections
            && next.stage == WaitStage::Forced && next.ingress.forced && next.listener_dropped
            == wait.listener_dropped && next.ingress.listener_receipted
            == wait.ingress.listener_receipted),
        event is TimerDue && wait.stage == WaitStage::Forced ==> (progress matches
            AxumIngressProgress::Waiting { wait: next, action } && action is AbortTask && next.stage
            == WaitStage::Aborted && next.ingress == wait.ingress && next.listener_dropped
            == wait.listener_dropped),
        event is TimerDue && wait.stage == WaitStage::Aborted ==> (progress matches
            AxumIngressProgress::Finished { ingress, shutdown, action } && action is AbortTask
            && ingress == wait.ingress && (shutdown.ingress == IngressDisposition::Closed
            <==> wait.listener_dropped) && shutdown.tasks == TaskDisposition::Uncertain && (
        shutdown.result matches Err(HaNodeError::ShutdownDeadlineExceeded {
            phase,
            ingress: claimed,
            tasks,
            ..
        }) && phase == HaShutdownPhase::Service && claimed == shutdown.ingress && tasks
            == shutdown.tasks)),
        event matches IngressEvent::ListenerReceipt { received } ==> (progress matches
            AxumIngressProgress::Waiting { wait: next, action } && action is Nothing && next.stage
            == wait.stage && next.ingress.forced == wait.ingress.forced && (next.listener_dropped
            <==> wait.listener_dropped || (received && wait.stage != WaitStage::Aborted)) && (
        next.ingress.listener_receipted <==> wait.ingress.listener_receipted || (received
            && !wait.listener_dropped && wait.stage != WaitStage::Aborted))),
{
}

/// A waiter on a recorder ingress claims all that it saw, and no more: a closed
/// listener exactly where the receipt was there or came with the end of the
/// task, and quiesced tasks exactly where the transport said so of a task that
/// returned before anything was forced.
pub proof fn law_a_recorder_waiter_claims_all_that_it_saw(
    wait: RecorderIngressWait,
    event: IngressEvent,
    progress: RecorderIngressProgress,
)
    requires
        wait.steps_to(event, progress),
        wait.ingress.listener_receipted == wait.listener_dropped,
    ensures
        event matches IngressEvent::TaskExit { exit, receipt, reported } ==> (progress matches
            RecorderIngressProgress::Finished { ingress, shutdown, action } && {
            &&& action is Nothing
            &&& exit matches TaskExit::Returned(result) ==> shutdown.result == result
            &&& exit is Failed ==> shutdown.result is Err
            &&& shutdown.ingress == IngressDisposition::Closed <==> wait.listener_dropped || receipt
            &&& shutdown.ingress != IngressDisposition::Open
            &&& ingress.listener_receipted <==> wait.listener_dropped || receipt
            &&& ingress.forced == wait.ingress.forced
            &&& shutdown.tasks == TaskDisposition::Quiesced <==> !wait.ingress.forced && wait.stage
                == WaitStage::Graceful && exit is Returned && reported == Some(
                NodeRecorderTaskDisposition::Quiesced,
            )
        }),
{
}

/// A waiter on a recorder ingress escalates as one on an HTTP ingress does.
pub proof fn law_a_recorder_waiter_escalates_at_each_timer(
    wait: RecorderIngressWait,
    event: IngressEvent,
    progress: RecorderIngressProgress,
)
    requires
        wait.steps_to(event, progress),
    ensures
        event is TimerDue && wait.stage == WaitStage::Graceful ==> (progress matches
            RecorderIngressProgress::Waiting { wait: next, action } && action is ForceConnections
            && next.stage == WaitStage::Forced && next.ingress.forced && next.listener_dropped
            == wait.listener_dropped && next.ingress.listener_receipted
            == wait.ingress.listener_receipted),
        event is TimerDue && wait.stage == WaitStage::Forced ==> (progress matches
            RecorderIngressProgress::Waiting { wait: next, action } && action is AbortTask
            && next.stage == WaitStage::Aborted && next.ingress == wait.ingress
            && next.listener_dropped == wait.listener_dropped),
        event is TimerDue && wait.stage == WaitStage::Aborted ==> (progress matches
            RecorderIngressProgress::Finished { ingress, shutdown, action } && action is AbortTask
            && ingress == wait.ingress && (shutdown.ingress == IngressDisposition::Closed
            <==> wait.listener_dropped) && shutdown.tasks == TaskDisposition::Uncertain && (
        shutdown.result matches Err(HaNodeError::ShutdownDeadlineExceeded {
            phase,
            ingress: claimed,
            tasks,
            ..
        }) && phase == HaShutdownPhase::Service && claimed == shutdown.ingress && tasks
            == shutdown.tasks)),
        event matches IngressEvent::ListenerReceipt { received } ==> (progress matches
            RecorderIngressProgress::Waiting { wait: next, action } && action is Nothing
            && next.stage == wait.stage && next.ingress.forced == wait.ingress.forced && (
        next.listener_dropped <==> wait.listener_dropped || (received && wait.stage
            != WaitStage::Aborted)) && (next.ingress.listener_receipted
            <==> wait.ingress.listener_receipted || (received && !wait.listener_dropped
            && wait.stage != WaitStage::Aborted))),
{
}

/// A waiter begins gracefully, and with the receipt that was there before it;
/// a fresh ingress has neither a receipt nor been forced.
pub proof fn law_a_waiter_begins_with_what_is_known(
    axum: TrackedAxumIngress,
    recorder: TrackedRecorderIngress,
)
    ensures
        AxumIngressWait::start(axum).stage == WaitStage::Graceful,
        AxumIngressWait::start(axum).listener_dropped == axum.listener_receipted,
        AxumIngressWait::start(axum).ingress == axum,
        RecorderIngressWait::start(recorder).stage == WaitStage::Graceful,
        RecorderIngressWait::start(recorder).listener_dropped == recorder.listener_receipted,
        RecorderIngressWait::start(recorder).ingress == recorder,
        !TrackedAxumIngress::new().listener_receipted && !TrackedAxumIngress::new().forced,
        !TrackedRecorderIngress::new().listener_receipted && !TrackedRecorderIngress::new().forced,
        reported_tasks(None) == TaskDisposition::Uncertain,
        reported_tasks(Some(NodeRecorderTaskDisposition::Uncertain)) == TaskDisposition::Uncertain,
        reported_tasks(Some(NodeRecorderTaskDisposition::Quiesced)) == TaskDisposition::Quiesced,
{
}

/// A reserve is kept before the deadline wherever there is time for it: an
/// instant is exactly that much before it, and now where there is none. Only a
/// recorder waiter also refuses an instant that is past.
pub proof fn law_a_reserve_is_kept_before_the_deadline(deadline: u64, reserve: u64, now: u64)
    ensures
        deadline >= reserve ==> before_or_now(deadline, reserve, now) + reserve == deadline,
        deadline < reserve ==> before_or_now(deadline, reserve, now) == now,
        deadline >= now + reserve ==> clamped_before(deadline, reserve, now) + reserve == deadline,
        deadline <= now + reserve ==> clamped_before(deadline, reserve, now) == now,
{
}

/// The connections of an ingress are forced a tenth of a second before its
/// deadline, and its task is aborted half of that before it. A recorder's
/// instants are never before now.
pub proof fn law_an_ingress_is_forced_shortly_before_its_deadline(
    deadline: u64,
    now: u64,
    axum: ForcePoints,
    recorder: ForcePoints,
)
    requires
        call_ensures(axum_force_points, (deadline, now), axum),
        call_ensures(recorder_force_points, (deadline, now), recorder),
    ensures
        deadline >= 100_000_000 ==> axum.inner == deadline - 100_000_000,
        deadline < 100_000_000 ==> axum.inner == now,
        deadline >= 50_000_000 ==> axum.outer == deadline - 50_000_000,
        deadline < 50_000_000 ==> axum.outer == now,
        now <= recorder.inner <= recorder.outer,
        deadline >= now + 100_000_000 ==> recorder == axum,
        deadline <= now + 50_000_000 ==> recorder.inner == now && recorder.outer == now,
        now + 50_000_000 <= deadline <= now + 100_000_000 ==> recorder.inner == now
            && recorder.outer == deadline - 50_000_000,
        crate::token::HA_SERVER_SHUTDOWN_TIMEOUT == 250 * HA_SERVER_FORCE_RESERVE,
{
}

/// What holds of a step of a waiter holds of the function that takes it.
pub proof fn law_an_ingress_is_waited_for_by_steps(
    axum: AxumIngressWait,
    recorder: RecorderIngressWait,
    role: ServerRole,
    event: IngressEvent,
    axum_progress: AxumIngressProgress,
    recorder_progress: RecorderIngressProgress,
)
    requires
        call_ensures(wait_for_tracked_axum_ingress, (axum, role, event), axum_progress),
        call_ensures(wait_for_tracked_recorder_ingress, (recorder, event), recorder_progress),
    ensures
        axum.steps_to(role, event, axum_progress),
        recorder.steps_to(event, recorder_progress),
{
}

} // verus!
