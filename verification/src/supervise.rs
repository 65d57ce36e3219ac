//! The supervisor of a prepared node: from opening the runtime to the last
//! published state.
use crate::activation::{ServiceActivation, ServiceListener, ServiceStartup};
use crate::error::{combine_ha_results, ErrorClassification, HaNodeError};
use crate::evidence::ShutdownEvidence;
use crate::ingress::{IngressShutdown, NodeRecorderTaskDisposition, TrackedAxumIngress};
use crate::node::HaNodeSnapshot;
use crate::open::HaOpenError;
use crate::owner::OwnerError;
use crate::scope::{
    drain_recorder, shutdown_ha_runtime_before, AdminDrainLease, HaTaskScope, RecorderServerTask,
    ScopeEffect, ServiceTaskState, ServiceTaskUnstarted,
};
use crate::status::HaNodeStatus;
use crate::task::{
    unexpected_server_exit, unexpected_service_task_exit, ServerRole, TaskExit,
};
use crate::token::{
    ShutdownSignal, ShutdownToken, StartupCancellationToken, HA_SERVER_SHUTDOWN_TIMEOUT,
};
use vstd::prelude::*;

verus! {

/// How often a running node looks at its readiness.
pub const HA_STATUS_POLL_INTERVAL: u64 = 100_000_000;

/// What a supervisor asks of its caller, in order.
pub enum SupervisorEffect {
    Publish(HaNodeSnapshot),
    /// Ask for this shutdown; the token then in force comes back.
    RequestShutdown { token: ShutdownToken, close_admission: bool },
    CancelStartup(ShutdownToken),
    /// Cancel startup by this deadline, on nobody's behalf.
    CancelStartupAt(u64),
    SignalRecorder,
    StartService,
    Scope(ScopeEffect),
}

/// How a supervisor ends once its cleanup is over.
#[derive(Debug)]
pub enum Ending {
    /// A requested stop: a failed cleanup follows a cancellation.
    Cancelled,
    /// A failure that was published when it came; nothing more is published.
    Reported(HaNodeError),
    /// The outcome, with the failure that caused it if any, is published.
    Terminal(Option<HaNodeError>),
}

impl Ending {
    /// What the supervisor returns.
    pub open spec fn result(self, cleanup: Result<(), HaNodeError>) -> Result<(), HaNodeError> {
        match self {
            Ending::Cancelled => match cleanup {
                Ok(_) => Ok(()),
                Err(error) => Err(HaNodeError::Cancelled.with_cleanup(error)),
            },
            Ending::Reported(error) => crate::error::combined(Some(error), cleanup),
            Ending::Terminal(error) => crate::error::combined(error, cleanup),
        }
    }

    /// What is published last.
    pub open spec fn closing_effects(self, cleanup: Result<(), HaNodeError>) -> Seq<
        SupervisorEffect,
    > {
        if self is Reported {
            Seq::empty()
        } else {
            seq![SupervisorEffect::Publish(HaNodeSnapshot::end(self.result(cleanup)))]
        }
    }
}

/// A shutdown of everything that an opened node owns.
#[derive(Debug)]
pub struct Drain {
    pub scope: HaTaskScope,
    pub recorder_running: bool,
    pub recorder_evidence: Option<ShutdownEvidence>,
    pub deadline: u64,
}

/// What was seen while everything drained.
#[derive(Debug)]
pub struct DrainReport {
    /// The service's waiter, where the service was running.
    pub service: Option<IngressShutdown>,
    /// The admin routes were idle by the deadline.
    pub admin_idle: bool,
    /// The recorder server's waiter, where it was running.
    pub recorder: Option<IngressShutdown>,
    /// The owner below.
    pub owner: Result<(), OwnerError>,
}

impl Drain {
    /// The report covers what was running.
    pub open spec fn accepts(self, report: DrainReport) -> bool {
        &&& self.scope.service is Running <==> report.service is Some
        &&& self.recorder_running <==> report.recorder is Some
        &&& report.owner matches Err(error) ==> error.well_formed()
    }

    /// What the drain amounts to.
    pub open spec fn cleanup(self, report: DrainReport) -> Result<(), HaNodeError> {
        crate::scope::runtime_shutdown(
            HaTaskScope::scope_shutdown(
                self.scope.service_shutdown(report.service),
                self.scope.admin == AdminDrainLease::Disabled || report.admin_idle,
            ),
            crate::scope::recorder_drained(self.recorder_evidence, report.recorder),
            report.owner,
        )
    }
}

/// What beginning to drain `scope` asks for.
pub open spec fn begin_effects(scope: HaTaskScope) -> Seq<SupervisorEffect> {
    (if scope.shutdown_started {
        Seq::<SupervisorEffect>::empty()
    } else if scope.admin == AdminDrainLease::Enabled {
        seq![
            SupervisorEffect::Scope(ScopeEffect::StopAdminAdmission),
            SupervisorEffect::Scope(ScopeEffect::SignalService),
        ]
    } else {
        seq![SupervisorEffect::Scope(ScopeEffect::SignalService)]
    }) + seq![
        SupervisorEffect::Scope(ScopeEffect::CancelRuntimeOperations),
        SupervisorEffect::SignalRecorder,
    ]
}

/// What follows once the token in force is known.
#[derive(Debug)]
pub enum AfterInstall {
    /// The recorder failed while the node was opening.
    AwaitOpen { error: HaNodeError, evidence: Option<ShutdownEvidence> },
    /// The node was serving.
    Drain {
        scope: HaTaskScope,
        terminal: Option<HaNodeError>,
        recorder_running: bool,
        recorder_evidence: Option<ShutdownEvidence>,
    },
}

/// Where the supervisor of a prepared node stands.
#[derive(Debug)]
pub enum PreparedPhase {
    /// The runtime is opening beside the recorder server.
    Opening,
    /// The recorder server stops after opening failed.
    StoppingRecorder { deadline: u64, startup_cleanup: Result<(), HaNodeError>, ending: Ending },
    /// A shutdown was asked for; the token in force comes next.
    Installing(AfterInstall),
    /// The recorder server ended; opening may still complete by the deadline.
    AwaitingOpen { deadline: u64, evidence: Option<ShutdownEvidence>, ending: Ending },
    /// The runtime is open; its router is built.
    BuildingRouter,
    /// The service listener is activated.
    Activating { scope: HaTaskScope },
    /// The service was started and has not reported yet.
    StartingService { scope: HaTaskScope },
    /// The service runs; readiness is checked for the first time.
    CheckingReadiness { scope: HaTaskScope },
    /// The node serves.
    Serving { scope: HaTaskScope },
    /// Everything drains.
    Draining { drain: Drain, ending: Ending },
    Finished(Result<(), HaNodeError>),
}

/// The supervisor of a prepared node.
#[derive(Debug)]
pub struct PreparedSupervisor {
    pub phase: PreparedPhase,
    pub listener: ServiceListener,
    pub recorder: RecorderServerTask,
}

/// What the supervisor can see happen. `signal` is the shutdown in force at
/// that time, `now` the time, `fresh` the identity of a shutdown that the
/// supervisor may have to ask for.
#[allow(inconsistent_fields)]
pub enum SupervisorEvent {
    OpenFinished { result: Result<(), HaOpenError>, signal: ShutdownSignal, now: u64 },
    /// Opening did not complete by the deadline; `stage` is what it was at.
    OpenDeadline { stage: String },
    RecorderExited {
        exit: TaskExit,
        receipt: bool,
        reported: Option<NodeRecorderTaskDisposition>,
        signal: ShutdownSignal,
        now: u64,
        fresh: StartupCancellationToken,
    },
    RecorderStopped(Result<(), HaNodeError>),
    ShutdownInstalled(ShutdownToken),
    RouterBuilt { result: Result<AdminDrainLease, HaNodeError>, signal: ShutdownSignal, now: u64 },
    Activated { result: Result<ServiceActivation, HaNodeError>, now: u64 },
    ServiceStarted { result: Result<ServiceStartup, HaNodeError>, signal: ShutdownSignal, now: u64 },
    ReadinessChecked { result: Result<(), HaNodeError>, now: u64, fresh: StartupCancellationToken },
    ShutdownChanged {
        closed: bool,
        signal: ShutdownSignal,
        now: u64,
        fresh: StartupCancellationToken,
    },
    ServiceExited { exit: TaskExit, receipt: bool, now: u64, fresh: StartupCancellationToken },
    WorkersEnded {
        failure: Option<ErrorClassification>,
        now: u64,
        fresh: StartupCancellationToken,
    },
    Drained(DrainReport),
}

impl SupervisorEvent {
    /// A default timeout still fits after the time of the event.
    pub open spec fn timely(self) -> bool {
        match self {
            SupervisorEvent::OpenFinished { now, .. } => now + HA_SERVER_SHUTDOWN_TIMEOUT
                <= u64::MAX,
            SupervisorEvent::RecorderExited { now, .. } => now + HA_SERVER_SHUTDOWN_TIMEOUT
                <= u64::MAX,
            SupervisorEvent::RouterBuilt { now, .. } => now + HA_SERVER_SHUTDOWN_TIMEOUT
                <= u64::MAX,
            SupervisorEvent::Activated { now, .. } => now + HA_SERVER_SHUTDOWN_TIMEOUT <= u64::MAX,
            SupervisorEvent::ServiceStarted { now, .. } => now + HA_SERVER_SHUTDOWN_TIMEOUT
                <= u64::MAX,
            SupervisorEvent::ReadinessChecked { now, .. } => now + HA_SERVER_SHUTDOWN_TIMEOUT
                <= u64::MAX,
            SupervisorEvent::ShutdownChanged { now, .. } => now + HA_SERVER_SHUTDOWN_TIMEOUT
                <= u64::MAX,
            SupervisorEvent::ServiceExited { now, .. } => now + HA_SERVER_SHUTDOWN_TIMEOUT
                <= u64::MAX,
            SupervisorEvent::WorkersEnded { now, .. } => now + HA_SERVER_SHUTDOWN_TIMEOUT
                <= u64::MAX,
            _ => true,
        }
    }
}

/// The default deadline, counted from `now`.
pub open spec fn default_deadline(now: u64) -> u64 {
    (now + HA_SERVER_SHUTDOWN_TIMEOUT) as u64
}

/// The shutdown that the node asks for by itself.
pub open spec fn internal_token(now: u64, fresh: StartupCancellationToken) -> ShutdownToken {
    ShutdownToken::of(
        default_deadline(now),
        fresh,
        crate::token::StartupCancellationAuthority::Internal,
    )
}

/// The failure inside `result`, if any.
pub open spec fn error_of(result: Result<(), HaNodeError>) -> Option<HaNodeError> {
    match result {
        Ok(_) => None,
        Err(error) => Some(error),
    }
}

/// What becomes of an unstarted service whose listener is given up.
pub open spec fn given_up(listener: ServiceListener) -> ServiceTaskUnstarted {
    match listener {
        ServiceListener::Bound => ServiceTaskUnstarted::OwnedListenerDropped,
        ServiceListener::Deferred => ServiceTaskUnstarted::DeferredOwnerUnknown,
    }
}

/// A scope whose service was not started.
pub open spec fn unstarted_scope(
    admin: AdminDrainLease,
    service: ServiceTaskUnstarted,
) -> HaTaskScope {
    HaTaskScope { service: ServiceTaskState::Unstarted(service), admin, shutdown_started: false }
}

impl PreparedSupervisor {
    /// The scope belongs to the phase: unstarted until the service is
    /// activated, running from then on.
    pub open spec fn well_formed(self) -> bool {
        match self.phase {
            PreparedPhase::Activating { scope } => scope.service is Unstarted
                && !scope.shutdown_started,
            PreparedPhase::StartingService { scope } => scope.service is Running
                && !scope.shutdown_started,
            PreparedPhase::CheckingReadiness { scope } => scope.service is Running
                && !scope.shutdown_started,
            PreparedPhase::Serving { scope } => scope.service is Running
                && !scope.shutdown_started,
            _ => true,
        }
    }

    /// The event can come in this phase.
    pub open spec fn accepts(self, event: SupervisorEvent) -> bool {
        &&& event.timely()
        &&& (self.phase matches PreparedPhase::Draining { drain, .. } && event matches
            SupervisorEvent::Drained(report)) ==> (self.phase->drain).accepts(event->Drained_0)
    }

    /// Only the phase changed.
    pub open spec fn keeps(self, next: PreparedSupervisor) -> bool {
        next.listener == self.listener && next.recorder == self.recorder
    }

    /// The supervisor ends after `cleanup`.
    pub open spec fn finishes(
        self,
        ending: Ending,
        cleanup: Result<(), HaNodeError>,
        next: PreparedSupervisor,
        effects: Seq<SupervisorEffect>,
    ) -> bool {
        &&& self.keeps(next)
        &&& next.phase == PreparedPhase::Finished(ending.result(cleanup))
        &&& effects == ending.closing_effects(cleanup)
    }

    /// Everything starts to drain, after `first`.
    pub open spec fn drains(
        scope: HaTaskScope,
        recorder_running: bool,
        recorder_evidence: Option<ShutdownEvidence>,
        deadline: u64,
        ending: Ending,
        first: Seq<SupervisorEffect>,
        phase: PreparedPhase,
        effects: Seq<SupervisorEffect>,
    ) -> bool {
        &&& phase == (PreparedPhase::Draining {
            drain: Drain {
                scope: HaTaskScope { shutdown_started: true, ..scope },
                recorder_running,
                recorder_evidence,
                deadline,
            },
            ending,
        })
        &&& effects == first + begin_effects(scope)
    }

    /// A requested stop begins to drain.
    pub open spec fn stops(
        self,
        scope: HaTaskScope,
        deadline: u64,
        next: PreparedSupervisor,
        effects: Seq<SupervisorEffect>,
    ) -> bool {
        &&& self.keeps(next)
        &&& Self::drains(
            scope,
            true,
            None,
            deadline,
            Ending::Cancelled,
            seq![SupervisorEffect::Publish(HaNodeSnapshot::plain(HaNodeStatus::ShuttingDown))],
            next.phase,
            effects,
        )
    }

    /// A failure is published and everything drains.
    pub open spec fn fails(
        self,
        scope: HaTaskScope,
        error: HaNodeError,
        now: u64,
        next: PreparedSupervisor,
        effects: Seq<SupervisorEffect>,
    ) -> bool {
        &&& self.keeps(next)
        &&& Self::drains(
            scope,
            true,
            None,
            default_deadline(now),
            Ending::Reported(error),
            seq![SupervisorEffect::Publish(HaNodeSnapshot::failure(error))],
            next.phase,
            effects,
        )
    }

    /// A serving node asks for its own shutdown because of `terminal`.
    pub open spec fn asks_to_drain(
        scope: HaTaskScope,
        terminal: Option<HaNodeError>,
        recorder_running: bool,
        recorder_evidence: Option<ShutdownEvidence>,
        now: u64,
        fresh: StartupCancellationToken,
        phase: PreparedPhase,
        effects: Seq<SupervisorEffect>,
    ) -> bool {
        &&& phase == PreparedPhase::Installing(
            AfterInstall::Drain { scope, terminal, recorder_running, recorder_evidence },
        )
        &&& effects == (if terminal is None {
            seq![SupervisorEffect::Publish(HaNodeSnapshot::plain(HaNodeStatus::ShuttingDown))]
        } else {
            Seq::<SupervisorEffect>::empty()
        }) + seq![
            SupervisorEffect::RequestShutdown {
                token: internal_token(now, fresh),
                close_admission: true,
            },
        ]
    }

    /// A failure of a serving node other than of its recorder.
    pub open spec fn breaks_down(
        self,
        scope: HaTaskScope,
        error: HaNodeError,
        now: u64,
        fresh: StartupCancellationToken,
        next: PreparedSupervisor,
        effects: Seq<SupervisorEffect>,
    ) -> bool {
        &&& self.keeps(next)
        &&& Self::asks_to_drain(
            scope,
            Some(error),
            true,
            None,
            now,
            fresh,
            next.phase,
            effects,
        )
    }

    /// Nothing changes and nothing is asked for.
    pub open spec fn stutters(
        self,
        next: PreparedSupervisor,
        effects: Seq<SupervisorEffect>,
    ) -> bool {
        next == self && effects == Seq::<SupervisorEffect>::empty()
    }

    /// Only the phase changes, to `phase`, with these effects.
    pub open spec fn moves(
        self,
        phase: PreparedPhase,
        asked: Seq<SupervisorEffect>,
        next: PreparedSupervisor,
        effects: Seq<SupervisorEffect>,
    ) -> bool {
        self.keeps(next) && next.phase == phase && effects == asked
    }

    /// What the end of opening does.
    pub open spec fn open_finishes(
        self,
        result: Result<(), HaOpenError>,
        signal: ShutdownSignal,
        now: u64,
        next: PreparedSupervisor,
        effects: Seq<SupervisorEffect>,
    ) -> bool {
        match result {
            Ok(_) => self.moves(PreparedPhase::BuildingRouter, Seq::empty(), next, effects),
            Err(HaOpenError::Startup { error, cleanup }) => self.moves(
                PreparedPhase::StoppingRecorder {
                    deadline: default_deadline(now),
                    startup_cleanup: cleanup,
                    ending: Ending::Reported(HaNodeError::Startup(error)),
                },
                seq![
                    SupervisorEffect::Publish(
                        HaNodeSnapshot::failure(HaNodeError::Startup(error)),
                    ),
                    SupervisorEffect::SignalRecorder,
                ],
                next,
                effects,
            ),
            Err(HaOpenError::Cancelled { deadline, cleanup }) => if signal is Some {
                self.moves(
                    PreparedPhase::StoppingRecorder {
                        deadline,
                        startup_cleanup: cleanup,
                        ending: Ending::Terminal(None),
                    },
                    seq![
                        SupervisorEffect::Publish(
                            HaNodeSnapshot::plain(HaNodeStatus::ShuttingDown),
                        ),
                        SupervisorEffect::SignalRecorder,
                    ],
                    next,
                    effects,
                )
            } else {
                self.moves(
                    PreparedPhase::Finished(
                        crate::error::combined(Some(HaNodeError::Cancelled), cleanup),
                    ),
                    seq![SupervisorEffect::Publish(HaNodeSnapshot::failure(HaNodeError::Cancelled))],
                    next,
                    effects,
                )
            },
        }
    }

    /// What the end of the recorder server does while the node is opening. A
    /// normal end after a requested shutdown is expected; any other end is
    /// the failure that the shutdown follows from.
    pub open spec fn recorder_ends_open(
        self,
        exit: TaskExit,
        recorder: RecorderServerTask,
        signal: ShutdownSignal,
        now: u64,
        fresh: StartupCancellationToken,
        next: PreparedSupervisor,
        effects: Seq<SupervisorEffect>,
    ) -> bool {
        let evidence = recorder.spec_completed_shutdown_evidence();
        &&& next.listener == self.listener
        &&& next.recorder == recorder
        &&& match signal {
            Some(token) => {
                &&& next.phase matches PreparedPhase::AwaitingOpen {
                    deadline,
                    evidence: kept,
                    ending: Ending::Terminal(primary),
                } && deadline == token.spec_deadline() && kept == evidence && (if exit.succeeded() {
                    primary is None
                } else {
                    primary matches Some(error) && crate::task::is_unexpected_server_exit(
                        exit,
                        ServerRole::Recorder,
                        error,
                    )
                })
                &&& effects == seq![
                    SupervisorEffect::Publish(HaNodeSnapshot::plain(HaNodeStatus::ShuttingDown)),
                ]
            },
            None => {
                &&& next.phase matches PreparedPhase::Installing(
                    AfterInstall::AwaitOpen { error, evidence: kept },
                ) && kept == evidence && crate::task::is_unexpected_server_exit(
                    exit,
                    ServerRole::Recorder,
                    error,
                )
                &&& effects == seq![
                    SupervisorEffect::RequestShutdown {
                        token: internal_token(now, fresh),
                        close_admission: false,
                    },
                ]
            },
        }
    }

    /// What knowing the token in force does.
    pub open spec fn installs(
        self,
        after: AfterInstall,
        token: ShutdownToken,
        next: PreparedSupervisor,
        effects: Seq<SupervisorEffect>,
    ) -> bool {
        match after {
            AfterInstall::AwaitOpen { error, evidence } => self.moves(
                PreparedPhase::AwaitingOpen {
                    deadline: token.spec_deadline(),
                    evidence,
                    ending: Ending::Reported(error),
                },
                seq![
                    SupervisorEffect::CancelStartup(token),
                    SupervisorEffect::Publish(HaNodeSnapshot::failure(error)),
                ],
                next,
                effects,
            ),
            AfterInstall::Drain { scope, terminal, recorder_running, recorder_evidence } => {
                &&& self.keeps(next)
                &&& Self::drains(
                    scope,
                    recorder_running,
                    recorder_evidence,
                    token.spec_deadline(),
                    Ending::Terminal(terminal),
                    (match terminal {
                        Some(error) => seq![
                            SupervisorEffect::Publish(HaNodeSnapshot::failure(error)),
                        ],
                        None => Seq::<SupervisorEffect>::empty(),
                    }) + seq![SupervisorEffect::CancelStartup(token)],
                    next.phase,
                    effects,
                )
            },
        }
    }

    /// What the end of opening does once the recorder server has ended.
    pub open spec fn open_finishes_late(
        self,
        result: Result<(), HaOpenError>,
        deadline: u64,
        evidence: Option<ShutdownEvidence>,
        ending: Ending,
        next: PreparedSupervisor,
        effects: Seq<SupervisorEffect>,
    ) -> bool {
        match result {
            Ok(_) => {
                &&& self.keeps(next)
                &&& Self::drains(
                    unstarted_scope(AdminDrainLease::Disabled, given_up(self.listener)),
                    false,
                    evidence,
                    deadline,
                    ending,
                    Seq::empty(),
                    next.phase,
                    effects,
                )
            },
            Err(HaOpenError::Cancelled { cleanup, .. }) => self.finishes(
                ending,
                cleanup,
                next,
                effects,
            ),
            Err(HaOpenError::Startup { error, cleanup }) => self.finishes(
                ending,
                crate::error::combined(Some(HaNodeError::Startup(error)), cleanup),
                next,
                effects,
            ),
        }
    }

    /// What building the router does.
    pub open spec fn router_is_built(
        self,
        result: Result<AdminDrainLease, HaNodeError>,
        signal: ShutdownSignal,
        now: u64,
        next: PreparedSupervisor,
        effects: Seq<SupervisorEffect>,
    ) -> bool {
        match result {
            Err(error) => self.fails(
                unstarted_scope(AdminDrainLease::Disabled, given_up(self.listener)),
                error,
                now,
                next,
                effects,
            ),
            Ok(admin) => match signal {
                Some(token) => self.stops(
                    unstarted_scope(admin, given_up(self.listener)),
                    token.spec_deadline(),
                    next,
                    effects,
                ),
                None => self.moves(
                    PreparedPhase::Activating {
                        scope: unstarted_scope(admin, ServiceTaskUnstarted::DeferredOwnerUnknown),
                    },
                    Seq::empty(),
                    next,
                    effects,
                ),
            },
        }
    }

    /// What activating the service listener does.
    pub open spec fn listener_is_activated(
        self,
        scope: HaTaskScope,
        result: Result<ServiceActivation, HaNodeError>,
        now: u64,
        next: PreparedSupervisor,
        effects: Seq<SupervisorEffect>,
    ) -> bool {
        match result {
            Ok(ServiceActivation::Listener) => self.moves(
                PreparedPhase::StartingService {
                    scope: HaTaskScope {
                        service: ServiceTaskState::Running(TrackedAxumIngress::new()),
                        ..scope
                    },
                },
                seq![SupervisorEffect::StartService],
                next,
                effects,
            ),
            Ok(ServiceActivation::Shutdown { deadline, listener_closed }) => self.stops(
                HaTaskScope {
                    service: ServiceTaskState::Unstarted(
                        if listener_closed {
                            ServiceTaskUnstarted::OwnedListenerDropped
                        } else {
                            ServiceTaskUnstarted::DeferredOwnerUnknown
                        },
                    ),
                    ..scope
                },
                deadline,
                next,
                effects,
            ),
            Err(error) => self.fails(
                HaTaskScope {
                    service: ServiceTaskState::Unstarted(
                        ServiceTaskUnstarted::DeferredOwnerUnknown,
                    ),
                    ..scope
                },
                error,
                now,
                next,
                effects,
            ),
        }
    }

    /// What the start of the service does.
    pub open spec fn service_is_started(
        self,
        scope: HaTaskScope,
        result: Result<ServiceStartup, HaNodeError>,
        signal: ShutdownSignal,
        now: u64,
        next: PreparedSupervisor,
        effects: Seq<SupervisorEffect>,
    ) -> bool {
        match result {
            Ok(ServiceStartup::Started) => match signal {
                Some(token) => self.stops(scope, token.spec_deadline(), next, effects),
                None => self.moves(
                    PreparedPhase::CheckingReadiness { scope },
                    Seq::empty(),
                    next,
                    effects,
                ),
            },
            Ok(ServiceStartup::Shutdown(deadline)) => self.stops(scope, deadline, next, effects),
            Err(error) => self.fails(scope, error, now, next, effects),
        }
    }

    /// What an event does to a node that serves.
    pub open spec fn serves(
        self,
        scope: HaTaskScope,
        event: SupervisorEvent,
        next: PreparedSupervisor,
        effects: Seq<SupervisorEffect>,
    ) -> bool {
        match event {
            SupervisorEvent::ShutdownChanged { closed, signal, now, fresh } => match signal {
                Some(token) => {
                    &&& self.keeps(next)
                    &&& Self::drains(
                        scope,
                        true,
                        None,
                        token.spec_deadline(),
                        Ending::Terminal(None),
                        seq![
                            SupervisorEffect::Publish(
                                HaNodeSnapshot::plain(HaNodeStatus::ShuttingDown),
                            ),
                            SupervisorEffect::CancelStartup(token),
                        ],
                        next.phase,
                        effects,
                    )
                },
                None => if closed {
                    &&& self.keeps(next)
                    &&& Self::asks_to_drain(
                        scope,
                        None,
                        true,
                        None,
                        now,
                        fresh,
                        next.phase,
                        effects,
                    )
                } else {
                    self.stutters(next, effects)
                },
            },
            SupervisorEvent::RecorderExited { exit, receipt, reported, signal, now, fresh } => {
                let recorder = self.recorder.after_exit(exit is Returned, receipt, reported);
                &&& next.listener == self.listener
                &&& next.recorder == recorder
                &&& exists|error: HaNodeError| #[trigger]
                    crate::task::is_unexpected_server_exit(exit, ServerRole::Recorder, error)
                        && Self::asks_to_drain(
                        scope,
                        Some(error),
                        false,
                        recorder.spec_completed_shutdown_evidence(),
                        now,
                        fresh,
                        next.phase,
                        effects,
                    )
            },
            SupervisorEvent::ServiceExited { exit, receipt, now, fresh } => exists|
                result: Result<(), HaNodeError>,
                error: HaNodeError,
            |
                exit.flattens_to(ServerRole::Service, result)
                    && #[trigger] crate::task::is_unexpected_service_exit(result, error)
                    && self.breaks_down(
                    HaTaskScope {
                        service: ServiceTaskState::Completed {
                            result: None,
                            evidence: HaTaskScope::completed_evidence(
                                scope.service->Running_0,
                                exit,
                                receipt,
                            ),
                        },
                        ..scope
                    },
                    error,
                    now,
                    fresh,
                    next,
                    effects,
                ),
            SupervisorEvent::WorkersEnded { failure, now, fresh } => match failure {
                Some(classification) => self.breaks_down(
                    scope,
                    HaNodeError::WorkerFailure(classification),
                    now,
                    fresh,
                    next,
                    effects,
                ),
                None => exists|error: HaNodeError| #[trigger]
                    error.is_service_server("HA workers stopped before node shutdown"@)
                        && self.breaks_down(scope, error, now, fresh, next, effects),
            },
            SupervisorEvent::ReadinessChecked { result, now, fresh } => match result {
                Ok(_) => self.stutters(next, effects),
                Err(error) => self.breaks_down(scope, error, now, fresh, next, effects),
            },
            _ => self.stutters(next, effects),
        }
    }

    /// `next` and `effects` are what `event` makes of this supervisor.
    pub open spec fn steps_to(
        self,
        event: SupervisorEvent,
        next: PreparedSupervisor,
        effects: Seq<SupervisorEffect>,
    ) -> bool {
        match self.phase {
            PreparedPhase::Opening => match event {
                SupervisorEvent::OpenFinished { result, signal, now } => self.open_finishes(
                    result,
                    signal,
                    now,
                    next,
                    effects,
                ),
                SupervisorEvent::RecorderExited { exit, receipt, reported, signal, now, fresh } => {
                    self.recorder_ends_open(
                        exit,
                        self.recorder.after_exit(exit is Returned, receipt, reported),
                        signal,
                        now,
                        fresh,
                        next,
                        effects,
                    )
                },
                _ => self.stutters(next, effects),
            },
            PreparedPhase::StoppingRecorder { startup_cleanup, ending, .. } => match event {
                SupervisorEvent::RecorderStopped(result) => self.finishes(
                    ending,
                    crate::error::combined(error_of(startup_cleanup), result),
                    next,
                    effects,
                ),
                _ => self.stutters(next, effects),
            },
            PreparedPhase::Installing(after) => match event {
                SupervisorEvent::ShutdownInstalled(token) => self.installs(
                    after,
                    token,
                    next,
                    effects,
                ),
                _ => self.stutters(next, effects),
            },
            PreparedPhase::AwaitingOpen { deadline, evidence, ending } => match event {
                SupervisorEvent::OpenFinished { result, .. } => self.open_finishes_late(
                    result,
                    deadline,
                    evidence,
                    ending,
                    next,
                    effects,
                ),
                SupervisorEvent::OpenDeadline { stage } => self.finishes(
                    ending,
                    Err(HaNodeError::StartupIoDeadlineExceeded { stage }),
                    next,
                    effects,
                ),
                _ => self.stutters(next, effects),
            },
            PreparedPhase::BuildingRouter => match event {
                SupervisorEvent::RouterBuilt { result, signal, now } => self.router_is_built(
                    result,
                    signal,
                    now,
                    next,
                    effects,
                ),
                _ => self.stutters(next, effects),
            },
            PreparedPhase::Activating { scope } => match event {
                SupervisorEvent::Activated { result, now } => self.listener_is_activated(
                    scope,
                    result,
                    now,
                    next,
                    effects,
                ),
                _ => self.stutters(next, effects),
            },
            PreparedPhase::StartingService { scope } => match event {
                SupervisorEvent::ServiceStarted { result, signal, now } => self.service_is_started(
                    scope,
                    result,
                    signal,
                    now,
                    next,
                    effects,
                ),
                _ => self.stutters(next, effects),
            },
            PreparedPhase::CheckingReadiness { scope } => match event {
                SupervisorEvent::ReadinessChecked { result, now, fresh } => match result {
                    Ok(_) => self.moves(
                        PreparedPhase::Serving { scope },
                        Seq::empty(),
                        next,
                        effects,
                    ),
                    Err(error) => self.breaks_down(scope, error, now, fresh, next, effects),
                },
                _ => self.stutters(next, effects),
            },
            PreparedPhase::Serving { scope } => self.serves(scope, event, next, effects),
            PreparedPhase::Draining { drain, ending } => match event {
                SupervisorEvent::Drained(report) => self.finishes(
                    ending,
                    drain.cleanup(report),
                    next,
                    effects,
                ),
                _ => self.stutters(next, effects),
            },
            PreparedPhase::Finished(_) => self.stutters(next, effects),
        }
    }
}

/// One step of a supervisor.
pub struct PreparedStep {
    pub phase: PreparedPhase,
    pub effects: Vec<SupervisorEffect>,
}

fn finish(ending: Ending, cleanup: Result<(), HaNodeError>) -> (step: PreparedStep)
    ensures
        step.phase == PreparedPhase::Finished(ending.result(cleanup)),
        step.effects@ == ending.closing_effects(cleanup),
{
    let mut effects: Vec<SupervisorEffect> = Vec::new();
    let result = match ending {
        Ending::Cancelled => {
            let result = match cleanup {
                Ok(()) => Ok(()),
                Err(error) => combine_ha_results(Some(HaNodeError::Cancelled), Err(error)),
            };
            effects.push(SupervisorEffect::Publish(HaNodeSnapshot::ended(&result)));
            result
        },
        Ending::Reported(error) => combine_ha_results(Some(error), cleanup),
        Ending::Terminal(error) => {
            let result = combine_ha_results(error, cleanup);
            effects.push(SupervisorEffect::Publish(HaNodeSnapshot::ended(&result)));
            result
        },
    };
    assert(effects@ =~= ending.closing_effects(cleanup));
    PreparedStep { phase: PreparedPhase::Finished(result), effects }
}

fn begin_drain(
    scope: HaTaskScope,
    recorder_running: bool,
    recorder_evidence: Option<ShutdownEvidence>,
    deadline: u64,
    ending: Ending,
    first: Vec<SupervisorEffect>,
) -> (step: PreparedStep)
    ensures
        PreparedSupervisor::drains(
            scope,
            recorder_running,
            recorder_evidence,
            deadline,
            ending,
            first@,
            step.phase,
            step.effects@,
        ),
{
    let mut scope = scope;
    let ghost before = scope;
    let mut effects = first;
    let began = scope.begin_shutdown();
    let mut i: usize = 0;
    while i < began.len()
        invariant
            i <= began.len(),
            effects@ == first@ + Seq::new(
                i as nat,
                |j: int| SupervisorEffect::Scope(began@[j]),
            ),
        decreases began.len() - i,
    {
        effects.push(SupervisorEffect::Scope(began[i]));
        assert(effects@ =~= first@ + Seq::new(
            (i + 1) as nat,
            |j: int| SupervisorEffect::Scope(began@[j]),
        ));
        i = i + 1;
    }
    effects.push(SupervisorEffect::SignalRecorder);
    assert(effects@ =~= first@ + begin_effects(before));
    PreparedStep {
        phase: PreparedPhase::Draining {
            drain: Drain { scope, recorder_running, recorder_evidence, deadline },
            ending,
        },
        effects,
    }
}

fn stop(scope: HaTaskScope, deadline: u64) -> (step: PreparedStep)
    ensures
        PreparedSupervisor::drains(
            scope,
            true,
            None,
            deadline,
            Ending::Cancelled,
            seq![SupervisorEffect::Publish(HaNodeSnapshot::plain(HaNodeStatus::ShuttingDown))],
            step.phase,
            step.effects@,
        ),
{
    let mut first: Vec<SupervisorEffect> = Vec::new();
    first.push(SupervisorEffect::Publish(HaNodeSnapshot::of(HaNodeStatus::ShuttingDown)));
    assert(first@ =~= seq![
        SupervisorEffect::Publish(HaNodeSnapshot::plain(HaNodeStatus::ShuttingDown)),
    ]);
    begin_drain(scope, true, None, deadline, Ending::Cancelled, first)
}

fn fail_and_drain(scope: HaTaskScope, error: HaNodeError, now: u64) -> (step: PreparedStep)
    requires
        now + HA_SERVER_SHUTDOWN_TIMEOUT <= u64::MAX,
    ensures
        PreparedSupervisor::drains(
            scope,
            true,
            None,
            default_deadline(now),
            Ending::Reported(error),
            seq![SupervisorEffect::Publish(HaNodeSnapshot::failure(error))],
            step.phase,
            step.effects@,
        ),
{
    let mut first: Vec<SupervisorEffect> = Vec::new();
    first.push(SupervisorEffect::Publish(HaNodeSnapshot::failed(error.clone())));
    assert(first@ =~= seq![SupervisorEffect::Publish(HaNodeSnapshot::failure(error))]);
    let deadline: u64 = now + HA_SERVER_SHUTDOWN_TIMEOUT;
    begin_drain(scope, true, None, deadline, Ending::Reported(error), first)
}

fn ask_to_drain(
    scope: HaTaskScope,
    terminal: Option<HaNodeError>,
    recorder_running: bool,
    recorder_evidence: Option<ShutdownEvidence>,
    now: u64,
    fresh: StartupCancellationToken,
) -> (step: PreparedStep)
    requires
        now + HA_SERVER_SHUTDOWN_TIMEOUT <= u64::MAX,
    ensures
        PreparedSupervisor::asks_to_drain(
            scope,
            terminal,
            recorder_running,
            recorder_evidence,
            now,
            fresh,
            step.phase,
            step.effects@,
        ),
{
    let mut effects: Vec<SupervisorEffect> = Vec::new();
    if terminal.is_none() {
        effects.push(SupervisorEffect::Publish(HaNodeSnapshot::of(HaNodeStatus::ShuttingDown)));
    }
    effects.push(
        SupervisorEffect::RequestShutdown {
            token: ShutdownToken::new_internal(now, HA_SERVER_SHUTDOWN_TIMEOUT, fresh),
            close_admission: true,
        },
    );
    assert(effects@ =~= (if terminal is None {
        seq![SupervisorEffect::Publish(HaNodeSnapshot::plain(HaNodeStatus::ShuttingDown))]
    } else {
        Seq::<SupervisorEffect>::empty()
    }) + seq![
        SupervisorEffect::RequestShutdown {
            token: internal_token(now, fresh),
            close_admission: true,
        },
    ]);
    PreparedStep {
        phase: PreparedPhase::Installing(
            AfterInstall::Drain { scope, terminal, recorder_running, recorder_evidence },
        ),
        effects,
    }
}

fn stay(phase: PreparedPhase) -> (step: PreparedStep)
    ensures
        step.phase == phase,
        step.effects@ == Seq::<SupervisorEffect>::empty(),
{
    PreparedStep { phase, effects: Vec::new() }
}

/// The failure inside `result`, if any.
fn take_error(result: Result<(), HaNodeError>) -> (error: Option<HaNodeError>)
    ensures
        error == error_of(result),
{
    match result {
        Ok(()) => None,
        Err(error) => Some(error),
    }
}

fn give_up(listener: ServiceListener) -> (service: ServiceTaskUnstarted)
    ensures
        service == given_up(listener),
{
    match listener {
        ServiceListener::Bound => ServiceTaskUnstarted::OwnedListenerDropped,
        ServiceListener::Deferred => ServiceTaskUnstarted::DeferredOwnerUnknown,
    }
}

fn finish_open(result: Result<(), HaOpenError>, signal: ShutdownSignal, now: u64) -> (step:
    PreparedStep)
    requires
        now + HA_SERVER_SHUTDOWN_TIMEOUT <= u64::MAX,
    ensures
        forall|before: PreparedSupervisor, next: PreparedSupervisor|
            #![trigger before.open_finishes(result, signal, now, next, step.effects@)]
            before.keeps(next) && next.phase == step.phase ==> before.open_finishes(
                result,
                signal,
                now,
                next,
                step.effects@,
            ),
{
    match result {
        Ok(()) => stay(PreparedPhase::BuildingRouter),
        Err(HaOpenError::Startup { error, cleanup }) => {
            let error = HaNodeError::Startup(error);
            let deadline: u64 = now + HA_SERVER_SHUTDOWN_TIMEOUT;
            let mut effects: Vec<SupervisorEffect> = Vec::new();
            effects.push(SupervisorEffect::Publish(HaNodeSnapshot::failed(error.clone())));
            effects.push(SupervisorEffect::SignalRecorder);
            assert(effects@ =~= seq![
                SupervisorEffect::Publish(HaNodeSnapshot::failure(error)),
                SupervisorEffect::SignalRecorder,
            ]);
            PreparedStep {
                phase: PreparedPhase::StoppingRecorder {
                    deadline,
                    startup_cleanup: cleanup,
                    ending: Ending::Reported(error),
                },
                effects,
            }
        },
        Err(HaOpenError::Cancelled { deadline, cleanup }) => {
            let mut effects: Vec<SupervisorEffect> = Vec::new();
            if signal.is_some() {
                effects.push(
                    SupervisorEffect::Publish(HaNodeSnapshot::of(HaNodeStatus::ShuttingDown)),
                );
                effects.push(SupervisorEffect::SignalRecorder);
                assert(effects@ =~= seq![
                    SupervisorEffect::Publish(HaNodeSnapshot::plain(HaNodeStatus::ShuttingDown)),
                    SupervisorEffect::SignalRecorder,
                ]);
                PreparedStep {
                    phase: PreparedPhase::StoppingRecorder {
                        deadline,
                        startup_cleanup: cleanup,
                        ending: Ending::Terminal(None),
                    },
                    effects,
                }
            } else {
                effects.push(
                    SupervisorEffect::Publish(HaNodeSnapshot::failed(HaNodeError::Cancelled)),
                );
                assert(effects@ =~= seq![
                    SupervisorEffect::Publish(HaNodeSnapshot::failure(HaNodeError::Cancelled)),
                ]);
                PreparedStep {
                    phase: PreparedPhase::Finished(
                        combine_ha_results(Some(HaNodeError::Cancelled), cleanup),
                    ),
                    effects,
                }
            }
        },
    }
}

/// What the end of the recorder server makes of a node that is opening.
fn end_recorder_while_opening(
    exit: TaskExit,
    evidence: Option<ShutdownEvidence>,
    signal: ShutdownSignal,
    now: u64,
    fresh: StartupCancellationToken,
) -> (step: PreparedStep)
    requires
        now + HA_SERVER_SHUTDOWN_TIMEOUT <= u64::MAX,
    ensures
        forall|before: PreparedSupervisor, recorder: RecorderServerTask, next: PreparedSupervisor|
            #![trigger before.recorder_ends_open(exit, recorder, signal, now, fresh, next, step.effects@)]
            evidence == recorder.spec_completed_shutdown_evidence() && next.listener
                == before.listener && next.recorder == recorder && next.phase == step.phase
                ==> before.recorder_ends_open(
                exit,
                recorder,
                signal,
                now,
                fresh,
                next,
                step.effects@,
            ),
{
    let mut effects: Vec<SupervisorEffect> = Vec::new();
    match signal {
        Some(token) => {
            let ghost succeeded = exit.succeeded();
            let expected = matches!(exit, TaskExit::Returned(Ok(())));
            let primary = if expected {
                None
            } else {
                Some(unexpected_server_exit(exit, ServerRole::Recorder))
            };
            assert(expected == succeeded);
            effects.push(SupervisorEffect::Publish(HaNodeSnapshot::of(HaNodeStatus::ShuttingDown)));
            assert(effects@ =~= seq![
                SupervisorEffect::Publish(HaNodeSnapshot::plain(HaNodeStatus::ShuttingDown)),
            ]);
            PreparedStep {
                phase: PreparedPhase::AwaitingOpen {
                    deadline: token.deadline(),
                    evidence,
                    ending: Ending::Terminal(primary),
                },
                effects,
            }
        },
        None => {
            let error = unexpected_server_exit(exit, ServerRole::Recorder);
            effects.push(
                SupervisorEffect::RequestShutdown {
                    token: ShutdownToken::new_internal(now, HA_SERVER_SHUTDOWN_TIMEOUT, fresh),
                    close_admission: false,
                },
            );
            assert(effects@ =~= seq![
                SupervisorEffect::RequestShutdown {
                    token: internal_token(now, fresh),
                    close_admission: false,
                },
            ]);
            PreparedStep {
                phase: PreparedPhase::Installing(AfterInstall::AwaitOpen { error, evidence }),
                effects,
            }
        },
    }
}

fn install(after: AfterInstall, token: ShutdownToken) -> (step: PreparedStep)
    ensures
        forall|before: PreparedSupervisor, next: PreparedSupervisor|
            #![trigger before.installs(after, token, next, step.effects@)]
            before.keeps(next) && next.phase == step.phase ==> before.installs(
                after,
                token,
                next,
                step.effects@,
            ),
{
    let mut effects: Vec<SupervisorEffect> = Vec::new();
    match after {
        AfterInstall::AwaitOpen { error, evidence } => {
            effects.push(SupervisorEffect::CancelStartup(token));
            effects.push(SupervisorEffect::Publish(HaNodeSnapshot::failed(error.clone())));
            assert(effects@ =~= seq![
                SupervisorEffect::CancelStartup(token),
                SupervisorEffect::Publish(HaNodeSnapshot::failure(error)),
            ]);
            PreparedStep {
                phase: PreparedPhase::AwaitingOpen {
                    deadline: token.deadline(),
                    evidence,
                    ending: Ending::Reported(error),
                },
                effects,
            }
        },
        AfterInstall::Drain { scope, terminal, recorder_running, recorder_evidence } => {
            if let Some(error) = &terminal {
                effects.push(SupervisorEffect::Publish(HaNodeSnapshot::failed(error.clone())));
            }
            effects.push(SupervisorEffect::CancelStartup(token));
            assert(effects@ =~= (match terminal {
                Some(error) => seq![SupervisorEffect::Publish(HaNodeSnapshot::failure(error))],
                None => Seq::<SupervisorEffect>::empty(),
            }) + seq![SupervisorEffect::CancelStartup(token)]);
            begin_drain(
                scope,
                recorder_running,
                recorder_evidence,
                token.deadline(),
                Ending::Terminal(terminal),
                effects,
            )
        },
    }
}

fn finish_open_late(
    listener: ServiceListener,
    result: Result<(), HaOpenError>,
    deadline: u64,
    evidence: Option<ShutdownEvidence>,
    ending: Ending,
) -> (step: PreparedStep)
    ensures
        forall|before: PreparedSupervisor, next: PreparedSupervisor|
            #![trigger before.open_finishes_late(result, deadline, evidence, ending, next, step.effects@)]
            before.listener == listener && before.keeps(next) && next.phase == step.phase
                ==> before.open_finishes_late(
                result,
                deadline,
                evidence,
                ending,
                next,
                step.effects@,
            ),
{
    match result {
        Ok(()) => {
            let scope = HaTaskScope::new(AdminDrainLease::Disabled, give_up(listener));
            let first: Vec<SupervisorEffect> = Vec::new();
            begin_drain(scope, false, evidence, deadline, ending, first)
        },
        Err(HaOpenError::Cancelled { deadline: _, cleanup }) => finish(ending, cleanup),
        Err(HaOpenError::Startup { error, cleanup }) => finish(
            ending,
            combine_ha_results(Some(HaNodeError::Startup(error)), cleanup),
        ),
    }
}

fn activate(scope: HaTaskScope, result: Result<ServiceActivation, HaNodeError>, now: u64) -> (step:
    PreparedStep)
    requires
        scope.service is Unstarted,
        now + HA_SERVER_SHUTDOWN_TIMEOUT <= u64::MAX,
    ensures
        forall|before: PreparedSupervisor, next: PreparedSupervisor|
            #![trigger before.listener_is_activated(scope, result, now, next, step.effects@)]
            before.keeps(next) && next.phase == step.phase ==> before.listener_is_activated(
                scope,
                result,
                now,
                next,
                step.effects@,
            ),
{
    let mut scope = scope;
    match result {
        Ok(ServiceActivation::Listener) => {
            scope.start_service(TrackedAxumIngress::new());
            let mut effects: Vec<SupervisorEffect> = Vec::new();
            effects.push(SupervisorEffect::StartService);
            assert(effects@ =~= seq![SupervisorEffect::StartService]);
            PreparedStep { phase: PreparedPhase::StartingService { scope }, effects }
        },
        Ok(ServiceActivation::Shutdown { deadline, listener_closed }) => {
            scope.set_unstarted_service(
                if listener_closed {
                    ServiceTaskUnstarted::OwnedListenerDropped
                } else {
                    ServiceTaskUnstarted::DeferredOwnerUnknown
                },
            );
            stop(scope, deadline)
        },
        Err(error) => {
            scope.set_unstarted_service(ServiceTaskUnstarted::DeferredOwnerUnknown);
            fail_and_drain(scope, error, now)
        },
    }
}

fn serve(scope: HaTaskScope, recorder: &mut RecorderServerTask, event: SupervisorEvent) -> (step:
    PreparedStep)
    requires
        scope.service is Running,
        event.timely(),
    ensures
        forall|before: PreparedSupervisor, next: PreparedSupervisor|
            #![trigger before.serves(scope, event, next, step.effects@)]
            before.phase == (PreparedPhase::Serving { scope }) && before.recorder == *old(recorder)
                && next.listener == before.listener && next.recorder == *final(recorder)
                && next.phase == step.phase ==> before.serves(scope, event, next, step.effects@),
{
    let mut scope = scope;
    match event {
        SupervisorEvent::ShutdownChanged { closed, signal, now, fresh } => match signal {
            Some(token) => {
                let mut first: Vec<SupervisorEffect> = Vec::new();
                first.push(
                    SupervisorEffect::Publish(HaNodeSnapshot::of(HaNodeStatus::ShuttingDown)),
                );
                first.push(SupervisorEffect::CancelStartup(token));
                assert(first@ =~= seq![
                    SupervisorEffect::Publish(HaNodeSnapshot::plain(HaNodeStatus::ShuttingDown)),
                    SupervisorEffect::CancelStartup(token),
                ]);
                begin_drain(scope, true, None, token.deadline(), Ending::Terminal(None), first)
            },
            None => if closed {
                ask_to_drain(scope, None, true, None, now, fresh)
            } else {
                stay(PreparedPhase::Serving { scope })
            },
        },
        SupervisorEvent::RecorderExited { exit, receipt, reported, signal: _, now, fresh } => {
            recorder.observe_exit(&exit, receipt, reported);
            let evidence = recorder.completed_shutdown_evidence();
            let error = unexpected_server_exit(exit, ServerRole::Recorder);
            ask_to_drain(scope, Some(error), false, evidence, now, fresh)
        },
        SupervisorEvent::ServiceExited { exit, receipt, now, fresh } => {
            let result = scope.complete_running_service_task(exit, receipt);
            let error = unexpected_service_task_exit(result);
            assert(crate::task::is_unexpected_service_exit(result, error));
            ask_to_drain(scope, Some(error), true, None, now, fresh)
        },
        SupervisorEvent::WorkersEnded { failure, now, fresh } => {
            let error = match failure {
                Some(classification) => HaNodeError::WorkerFailure(classification),
                None => HaNodeError::ServiceServer(
                    "HA workers stopped before node shutdown".to_owned(),
                ),
            };
            assert(failure is None ==> error.is_service_server(
                "HA workers stopped before node shutdown"@,
            ));
            ask_to_drain(scope, Some(error), true, None, now, fresh)
        },
        SupervisorEvent::ReadinessChecked { result, now, fresh } => match result {
            Ok(()) => stay(PreparedPhase::Serving { scope }),
            Err(error) => ask_to_drain(scope, Some(error), true, None, now, fresh),
        },
        _ => stay(PreparedPhase::Serving { scope }),
    }
}

/// Advances the supervisor of a prepared node by one event. An event that it
/// does not wait for leaves it as it is.
pub fn supervise_prepared_ha_node(supervisor: PreparedSupervisor, event: SupervisorEvent) -> (step: (
    PreparedSupervisor,
    Vec<SupervisorEffect>,
))
    requires
        supervisor.well_formed(),
        supervisor.accepts(event),
    ensures
        supervisor.steps_to(event, step.0, step.1@),
        step.0.well_formed(),
{
    let ghost before = supervisor;
    let PreparedSupervisor { phase, listener, recorder } = supervisor;
    let mut recorder = recorder;
    let step = match (phase, event) {
        (PreparedPhase::Opening, SupervisorEvent::OpenFinished { result, signal, now }) => {
            finish_open(result, signal, now)
        },
        (
            PreparedPhase::Opening,
            SupervisorEvent::RecorderExited { exit, receipt, reported, signal, now, fresh },
        ) => {
            recorder.observe_exit(&exit, receipt, reported);
            end_recorder_while_opening(
                exit,
                recorder.completed_shutdown_evidence(),
                signal,
                now,
                fresh,
            )
        },
        (
            PreparedPhase::StoppingRecorder { deadline: _, startup_cleanup, ending },
            SupervisorEvent::RecorderStopped(result),
        ) => { finish(ending, combine_ha_results(take_error(startup_cleanup), result)) },
        (PreparedPhase::Installing(after), SupervisorEvent::ShutdownInstalled(token)) => {
            install(after, token)
        },
        (
            PreparedPhase::AwaitingOpen { deadline, evidence, ending },
            SupervisorEvent::OpenFinished { result, .. },
        ) => { finish_open_late(listener, result, deadline, evidence, ending) },
        (
            PreparedPhase::AwaitingOpen { deadline: _, evidence: _, ending },
            SupervisorEvent::OpenDeadline { stage },
        ) => { finish(ending, Err(HaNodeError::StartupIoDeadlineExceeded { stage })) },
        (PreparedPhase::BuildingRouter, SupervisorEvent::RouterBuilt { result, signal, now }) => {
            match result {
                Err(error) => fail_and_drain(
                    HaTaskScope::new(AdminDrainLease::Disabled, give_up(listener)),
                    error,
                    now,
                ),
                Ok(admin) => match signal {
                    Some(token) => stop(
                        HaTaskScope::new(admin, give_up(listener)),
                        token.deadline(),
                    ),
                    None => stay(
                        PreparedPhase::Activating {
                            scope: HaTaskScope::new(
                                admin,
                                ServiceTaskUnstarted::DeferredOwnerUnknown,
                            ),
                        },
                    ),
                },
            }
        },
        (PreparedPhase::Activating { scope }, SupervisorEvent::Activated { result, now }) => {
            activate(scope, result, now)
        },
        (
            PreparedPhase::StartingService { scope },
            SupervisorEvent::ServiceStarted { result, signal, now },
        ) => {
            match result {
                Ok(ServiceStartup::Started) => match signal {
                    Some(token) => stop(scope, token.deadline()),
                    None => stay(PreparedPhase::CheckingReadiness { scope }),
                },
                Ok(ServiceStartup::Shutdown(deadline)) => stop(scope, deadline),
                Err(error) => fail_and_drain(scope, error, now),
            }
        },
        (
            PreparedPhase::CheckingReadiness { scope },
            SupervisorEvent::ReadinessChecked { result, now, fresh },
        ) => {
            match result {
                Ok(()) => stay(PreparedPhase::Serving { scope }),
                Err(error) => ask_to_drain(scope, Some(error), true, None, now, fresh),
            }
        },
        (PreparedPhase::Serving { scope }, event) => serve(scope, &mut recorder, event),
        (PreparedPhase::Draining { drain, ending }, SupervisorEvent::Drained(report)) => {
            let Drain { scope, recorder_running: _, recorder_evidence, deadline: _ } = drain;
            let mut scope = scope;
            let shutdown = scope.drain_before(report.service, report.admin_idle);
            let recorder_drain = drain_recorder(recorder_evidence, report.recorder);
            let cleanup = shutdown_ha_runtime_before(shutdown, recorder_drain, report.owner);
            finish(ending, cleanup)
        },
        (phase, _) => stay(phase),
    };
    let next = PreparedSupervisor { phase: step.phase, listener, recorder };
    assert(before.steps_to(event, next, step.effects@));
    proof {
        lemma_step_keeps_the_scope(before, event, next, step.effects@);
    }
    (next, step.effects)
}

proof fn lemma_step_keeps_the_scope(
    before: PreparedSupervisor,
    event: SupervisorEvent,
    next: PreparedSupervisor,
    effects: Seq<SupervisorEffect>,
)
    requires
        before.well_formed(),
        before.steps_to(event, next, effects),
    ensures
        next.well_formed(),
{
}

} // verus!
