//! Ownership of the service, the admin routes and the recorder server during
//! shutdown.
use crate::error::{
    combine_ha_errors, combine_ha_results, conservative_shutdown_deadline_error, HaNodeError,
};
use crate::evidence::{
    downgrade_tasks_for_owner_cleanup, ingress_after_service_wait,
    merge_optional_shutdown_evidence, merge_shutdown_evidence, pre_service_shutdown_evidence,
    uncertain_shutdown_evidence, ShutdownEvidence,
};
use crate::ingress::{
    reported_tasks, wait_for_tracked_axum_ingress, wait_for_tracked_recorder_ingress,
    AxumIngressProgress, AxumIngressWait, IngressEvent, IngressShutdown,
    NodeRecorderTaskDisposition, RecorderIngressProgress, RecorderIngressWait, TrackedAxumIngress,
    TrackedRecorderIngress, WaitAction,
};
use crate::owner::{shutdown_owner_error, OwnerError};
use crate::status::{HaShutdownPhase, TaskDisposition};
use crate::task::{ServerRole, TaskExit};
use vstd::prelude::*;

verus! {

/// Why no service task was started.
#[derive(Clone, Copy, Debug, PartialEq, Eq, Structural)]
pub enum ServiceTaskUnstarted {
    /// The node owned a bound listener and dropped it before a service task
    /// was started: it is known to be closed.
    OwnedListenerDropped,
    /// The listener is still owned by staging: its end cannot be claimed here.
    DeferredOwnerUnknown,
}

impl ServiceTaskUnstarted {
    /// What may be claimed where no service task was started.
    #[verifier::allow_in_spec]
    pub fn evidence(self) -> (evidence: ShutdownEvidence)
        returns
            (match self {
                ServiceTaskUnstarted::OwnedListenerDropped => pre_service_shutdown_evidence(),
                ServiceTaskUnstarted::DeferredOwnerUnknown => uncertain_shutdown_evidence(),
            }),
    {
        match self {
            ServiceTaskUnstarted::OwnedListenerDropped => pre_service_shutdown_evidence(),
            ServiceTaskUnstarted::DeferredOwnerUnknown => uncertain_shutdown_evidence(),
        }
    }
}

/// The one owner state of the service task.
#[derive(Debug)]
pub enum ServiceTaskState {
    Unstarted(ServiceTaskUnstarted),
    Running(TrackedAxumIngress),
    /// The task ended. Its exact result is kept until it is taken once; the
    /// evidence stays.
    Completed { result: Option<Result<(), HaNodeError>>, evidence: ShutdownEvidence },
}

/// Admin routes share the service listener and own none themselves.
#[derive(Clone, Copy, Debug, PartialEq, Eq, Structural)]
pub enum AdminDrainLease {
    Disabled,
    Enabled,
}

/// The outcome of draining the scope.
#[derive(Debug)]
pub struct ScopeShutdown {
    pub result: Result<(), HaNodeError>,
    pub evidence: ShutdownEvidence,
}

/// What beginning a shutdown asks of its caller, in order.
#[derive(Clone, Copy, Debug, PartialEq, Eq, Structural)]
pub enum ScopeEffect {
    /// Admit no further admin request.
    StopAdminAdmission,
    /// Tell the service to close its listener and drain.
    SignalService,
    /// Cancel the operations of the runtime.
    CancelRuntimeOperations,
}

/// The owner of the service and of the admin routes.
#[derive(Debug)]
pub struct HaTaskScope {
    pub service: ServiceTaskState,
    pub admin: AdminDrainLease,
    pub shutdown_started: bool,
}

impl HaTaskScope {
    /// A scope whose service has not been started.
    pub fn new(admin: AdminDrainLease, service: ServiceTaskUnstarted) -> (scope: Self)
        ensures
            scope.service == ServiceTaskState::Unstarted(service),
            scope.admin == admin,
            !scope.shutdown_started,
    {
        HaTaskScope { service: ServiceTaskState::Unstarted(service), admin, shutdown_started: false }
    }

    /// Takes over a service task that was just started.
    pub fn start_service(&mut self, ingress: TrackedAxumIngress)
        requires
            old(self).service is Unstarted,
        ensures
            *final(self) == (HaTaskScope {
                service: ServiceTaskState::Running(ingress),
                ..*old(self)
            }),
    {
        self.service = ServiceTaskState::Running(ingress);
    }

    /// Says why no service task was started.
    pub fn set_unstarted_service(&mut self, service: ServiceTaskUnstarted)
        requires
            old(self).service is Unstarted,
        ensures
            *final(self) == (HaTaskScope {
                service: ServiceTaskState::Unstarted(service),
                ..*old(self)
            }),
    {
        self.service = ServiceTaskState::Unstarted(service);
    }

    /// The evidence that an ended service task leaves.
    pub open spec fn completed_evidence(
        ingress: TrackedAxumIngress,
        exit: TaskExit,
        receipt: bool,
    ) -> ShutdownEvidence {
        ShutdownEvidence {
            ingress: ingress_after_service_wait(ingress.listener_receipted || receipt),
            tasks: if exit.succeeded() && !ingress.forced {
                TaskDisposition::Quiesced
            } else {
                TaskDisposition::Uncertain
            },
        }
    }

    /// Takes the result of a running service task that ended by itself; its
    /// evidence stays for the shutdown that follows.
    pub fn complete_running_service_task(&mut self, exit: TaskExit, receipt: bool) -> (result: Result<
        (),
        HaNodeError,
    >)
        requires
            old(self).service is Running,
        ensures
            exit.flattens_to(ServerRole::Service, result),
            *final(self) == (HaTaskScope {
                service: ServiceTaskState::Completed {
                    result: None,
                    evidence: Self::completed_evidence(old(self).service->Running_0, exit, receipt),
                },
                ..*old(self)
            }),
    {
        let mut ingress = match self.service {
            ServiceTaskState::Running(ingress) => ingress,
            _ => TrackedAxumIngress::new(),
        };
        let result = exit.flatten(ServerRole::Service);
        let listener_closed = ingress.poll_listener_receipt(receipt);
        let evidence = ShutdownEvidence {
            ingress: ingress_after_service_wait(listener_closed),
            tasks: if result.is_ok() && !ingress.forced {
                TaskDisposition::Quiesced
            } else {
                TaskDisposition::Uncertain
            },
        };
        self.service = ServiceTaskState::Completed { result: None, evidence };
        result
    }

    /// Takes the exact result of an ended service task. It is there once.
    pub fn take_completed_service_result(&mut self) -> (result: Option<Result<(), HaNodeError>>)
        ensures
            match old(self).service {
                ServiceTaskState::Completed { result: kept, evidence } => {
                    &&& result == kept
                    &&& *final(self) == (HaTaskScope {
                        service: ServiceTaskState::Completed { result: None, evidence },
                        ..*old(self)
                    })
                },
                _ => result is None && *final(self) == *old(self),
            },
    {
        match &mut self.service {
            ServiceTaskState::Completed { result, evidence: _ } => result.take(),
            _ => None,
        }
    }

    /// Admission closes before service ingress, and service ingress before
    /// runtime work is cancelled; the first two happen once.
    pub fn begin_shutdown(&mut self) -> (effects: Vec<ScopeEffect>)
        ensures
            *final(self) == (HaTaskScope { shutdown_started: true, ..*old(self) }),
            effects@ == if old(self).shutdown_started {
                seq![ScopeEffect::CancelRuntimeOperations]
            } else if old(self).admin == AdminDrainLease::Enabled {
                seq![
                    ScopeEffect::StopAdminAdmission,
                    ScopeEffect::SignalService,
                    ScopeEffect::CancelRuntimeOperations,
                ]
            } else {
                seq![ScopeEffect::SignalService, ScopeEffect::CancelRuntimeOperations]
            },
    {
        let mut effects: Vec<ScopeEffect> = Vec::new();
        if !self.shutdown_started {
            if self.admin == AdminDrainLease::Enabled {
                effects.push(ScopeEffect::StopAdminAdmission);
            }
            effects.push(ScopeEffect::SignalService);
            self.shutdown_started = true;
        }
        effects.push(ScopeEffect::CancelRuntimeOperations);
        effects
    }

    /// What a scope that is dropped still asks for: it stops admission and
    /// the service, and claims nothing.
    pub fn abandon(&self) -> (effects: Vec<ScopeEffect>)
        ensures
            effects@ == if self.admin == AdminDrainLease::Enabled {
                seq![ScopeEffect::StopAdminAdmission, ScopeEffect::SignalService]
            } else {
                seq![ScopeEffect::SignalService]
            },
    {
        let mut effects: Vec<ScopeEffect> = Vec::new();
        if self.admin == AdminDrainLease::Enabled {
            effects.push(ScopeEffect::StopAdminAdmission);
        }
        effects.push(ScopeEffect::SignalService);
        effects
    }

    /// What draining the service waits for: nothing where no task runs, else
    /// its ingress.
    pub open spec fn spec_service_wait(self) -> Option<AxumIngressWait> {
        match self.service {
            ServiceTaskState::Running(ingress) => Some(AxumIngressWait::start(ingress)),
            _ => None,
        }
    }

    /// What draining the service waits for: nothing where no task runs, else
    /// its ingress.
    pub fn service_wait(&self) -> (wait: Option<AxumIngressWait>)
        ensures
            wait == self.spec_service_wait(),
    {
        match &self.service {
            ServiceTaskState::Running(ingress) => Some(AxumIngressWait::start(*ingress)),
            _ => None,
        }
    }

    /// What draining the service amounts to. `drained` is the outcome of the
    /// ingress waiter, where the service was running.
    pub open spec fn service_shutdown(self, drained: Option<IngressShutdown>) -> ScopeShutdown {
        match self.service {
            ServiceTaskState::Unstarted(unstarted) => ScopeShutdown {
                result: Ok(()),
                evidence: unstarted.evidence(),
            },
            ServiceTaskState::Completed { result, evidence } => ScopeShutdown {
                result: match result {
                    Some(result) => result,
                    None => Ok(()),
                },
                evidence,
            },
            ServiceTaskState::Running(_) => ScopeShutdown {
                result: drained->0.result,
                evidence: drained->0.spec_evidence(),
            },
        }
    }

    /// The service state once it was drained: nothing can be taken from it
    /// again, and its evidence is that of the drain.
    pub open spec fn service_after_drain(self, evidence: ShutdownEvidence) -> ServiceTaskState {
        match self.service {
            ServiceTaskState::Unstarted(unstarted) => ServiceTaskState::Unstarted(unstarted),
            _ => ServiceTaskState::Completed { result: None, evidence },
        }
    }

    /// Takes the result of draining the service.
    pub fn drain_service_before(&mut self, drained: Option<IngressShutdown>) -> (shutdown:
        ScopeShutdown)
        requires
            old(self).service is Running ==> drained is Some,
        ensures
            shutdown == old(self).service_shutdown(drained),
            *final(self) == (HaTaskScope {
                service: old(self).service_after_drain(shutdown.evidence),
                ..*old(self)
            }),
    {
        match &self.service {
            ServiceTaskState::Unstarted(unstarted) => {
                let evidence = unstarted.evidence();
                ScopeShutdown { result: Ok(()), evidence }
            },
            ServiceTaskState::Completed { evidence, .. } => {
                let evidence = *evidence;
                let result = match self.take_completed_service_result() {
                    Some(result) => result,
                    None => Ok(()),
                };
                ScopeShutdown { result, evidence }
            },
            ServiceTaskState::Running(_) => {
                let drained = drained.unwrap();
                let evidence = drained.evidence();
                self.service = ServiceTaskState::Completed { result: None, evidence };
                ScopeShutdown { result: drained.result, evidence }
            },
        }
    }

    /// What draining the scope amounts to once the admin routes are idle or
    /// the deadline has passed. A service result stays primary; an admin
    /// drain that ran out of time is added to it.
    pub open spec fn scope_shutdown(service: ScopeShutdown, admin_quiesced: bool) -> ScopeShutdown {
        if admin_quiesced {
            service
        } else {
            let evidence = ShutdownEvidence {
                tasks: TaskDisposition::Uncertain,
                ..service.evidence
            };
            ScopeShutdown {
                result: crate::error::combined(
                    match service.result {
                        Ok(_) => None,
                        Err(error) => Some(error),
                    },
                    Err(conservative_shutdown_deadline_error(HaShutdownPhase::Service, evidence)),
                ),
                evidence,
            }
        }
    }

    /// Takes the result of draining the scope. Disabled admin routes are idle
    /// by themselves.
    pub fn drain_before(&mut self, drained: Option<IngressShutdown>, admin_idle: bool) -> (shutdown:
        ScopeShutdown)
        requires
            old(self).service is Running ==> drained is Some,
        ensures
            shutdown == Self::scope_shutdown(
                old(self).service_shutdown(drained),
                old(self).admin == AdminDrainLease::Disabled || admin_idle,
            ),
            *final(self) == (HaTaskScope {
                service: old(self).service_after_drain(
                    old(self).service_shutdown(drained).evidence,
                ),
                ..*old(self)
            }),
    {
        let service = self.drain_service_before(drained);
        let admin_quiesced = match self.admin {
            AdminDrainLease::Disabled => true,
            AdminDrainLease::Enabled => admin_idle,
        };
        if admin_quiesced {
            service
        } else {
            let evidence = ShutdownEvidence {
                ingress: service.evidence.ingress,
                tasks: TaskDisposition::Uncertain,
            };
            let admin_deadline = conservative_shutdown_deadline_error(
                HaShutdownPhase::Service,
                evidence,
            );
            let terminal = match service.result {
                Ok(()) => None,
                Err(error) => Some(error),
            };
            ScopeShutdown { result: combine_ha_results(terminal, Err(admin_deadline)), evidence }
        }
    }
}

/// How recorder traffic reaches the node.
#[derive(Clone, Copy, Debug, PartialEq, Eq, Structural)]
pub enum HaRecorderTransport {
    Http,
    TcpPostcard,
    TcpTlsPostcard,
    TcpPostcardRpc,
    TcpTlsPostcardRpc,
}

/// The recorder server that a node owns. A task that ended before cleanup
/// began keeps its evidence.
#[allow(inconsistent_fields)]
#[derive(Clone, Copy, Debug, PartialEq, Eq, Structural)]
pub enum RecorderServerTask {
    Http { ingress: TrackedAxumIngress, completed_evidence: Option<ShutdownEvidence> },
    Tcp { ingress: TrackedRecorderIngress, completed_evidence: Option<ShutdownEvidence> },
}

/// A waiter on the recorder server.
#[derive(Clone, Copy, Debug, PartialEq, Eq, Structural)]
pub enum RecorderServerWait {
    Http(AxumIngressWait),
    Tcp(RecorderIngressWait),
}

/// Where a waiter on the recorder server stands after an event.
#[derive(Debug)]
pub enum RecorderServerProgress {
    Waiting { wait: RecorderServerWait, action: WaitAction },
    Finished { shutdown: IngressShutdown, action: WaitAction },
}

/// The owner of a recorder server on this transport: HTTP has an ingress of
/// the service's kind, every other transport the recorder's own.
#[verifier::allow_in_spec]
pub fn spawn_ha_recorder_server(transport: HaRecorderTransport) -> (task: RecorderServerTask)
    returns
        (match transport {
            HaRecorderTransport::Http => RecorderServerTask::Http {
                ingress: TrackedAxumIngress::new(),
                completed_evidence: None,
            },
            _ => RecorderServerTask::Tcp {
                ingress: TrackedRecorderIngress::new(),
                completed_evidence: None,
            },
        }),
{
    match transport {
        HaRecorderTransport::Http => RecorderServerTask::Http {
            ingress: TrackedAxumIngress::new(),
            completed_evidence: None,
        },
        _ => RecorderServerTask::Tcp {
            ingress: TrackedRecorderIngress::new(),
            completed_evidence: None,
        },
    }
}

impl RecorderServerTask {
    pub open spec fn spec_completed_shutdown_evidence(self) -> Option<ShutdownEvidence> {
        match self {
            RecorderServerTask::Http { completed_evidence, .. } => completed_evidence,
            RecorderServerTask::Tcp { completed_evidence, .. } => completed_evidence,
        }
    }

    /// The evidence of a task that ended before cleanup began.
    pub fn completed_shutdown_evidence(&self) -> (evidence: Option<ShutdownEvidence>)
        ensures
            evidence == self.spec_completed_shutdown_evidence(),
    {
        match self {
            RecorderServerTask::Http { completed_evidence, .. } => *completed_evidence,
            RecorderServerTask::Tcp { completed_evidence, .. } => *completed_evidence,
        }
    }

    /// The server after its task was seen to end. The listener's receipt
    /// proves that admission closed; an HTTP task proves no more, another
    /// transport what it reported before it was forced.
    pub open spec fn after_exit(
        self,
        returned: bool,
        receipt: bool,
        reported: Option<NodeRecorderTaskDisposition>,
    ) -> RecorderServerTask {
        match self {
            RecorderServerTask::Http { ingress, .. } => RecorderServerTask::Http {
                ingress: TrackedAxumIngress {
                    listener_receipted: ingress.listener_receipted || receipt,
                    ..ingress
                },
                completed_evidence: Some(
                    ShutdownEvidence {
                        ingress: ingress_after_service_wait(ingress.listener_receipted || receipt),
                        tasks: TaskDisposition::Uncertain,
                    },
                ),
            },
            RecorderServerTask::Tcp { ingress, .. } => RecorderServerTask::Tcp {
                ingress: TrackedRecorderIngress {
                    listener_receipted: ingress.listener_receipted || receipt,
                    ..ingress
                },
                completed_evidence: Some(
                    ShutdownEvidence {
                        ingress: ingress_after_service_wait(ingress.listener_receipted || receipt),
                        tasks: if returned && !ingress.forced {
                            reported_tasks(reported)
                        } else {
                            TaskDisposition::Uncertain
                        },
                    },
                ),
            },
        }
    }

    /// Keeps the evidence of a task that was seen to end.
    pub fn observe_exit(
        &mut self,
        exit: &TaskExit,
        receipt: bool,
        reported: Option<NodeRecorderTaskDisposition>,
    )
        ensures
            *final(self) == old(self).after_exit(*exit is Returned, receipt, reported),
    {
        let returned = matches!(exit, TaskExit::Returned(_));
        match *self {
            RecorderServerTask::Http { ingress, .. } => {
                let mut ingress = ingress;
                let receipted = ingress.poll_listener_receipt(receipt);
                *self =
                RecorderServerTask::Http {
                    ingress,
                    completed_evidence: Some(
                        ShutdownEvidence {
                            ingress: ingress_after_service_wait(receipted),
                            tasks: TaskDisposition::Uncertain,
                        },
                    ),
                };
            },
            RecorderServerTask::Tcp { ingress, .. } => {
                let mut ingress = ingress;
                let tasks = if returned && !ingress.forced {
                    reported_tasks(reported)
                } else {
                    TaskDisposition::Uncertain
                };
                let receipted = ingress.poll_listener_receipt(receipt);
                *self =
                RecorderServerTask::Tcp {
                    ingress,
                    completed_evidence: Some(
                        ShutdownEvidence { ingress: ingress_after_service_wait(receipted), tasks },
                    ),
                };
            },
        }
    }

    /// A waiter on this server.
    #[verifier::allow_in_spec]
    pub fn wait(self) -> (wait: RecorderServerWait)
        returns
            (match self {
                RecorderServerTask::Http { ingress, .. } => RecorderServerWait::Http(
                    AxumIngressWait::start(ingress),
                ),
                RecorderServerTask::Tcp { ingress, .. } => RecorderServerWait::Tcp(
                    RecorderIngressWait::start(ingress),
                ),
            }),
    {
        match self {
            RecorderServerTask::Http { ingress, .. } => RecorderServerWait::Http(
                AxumIngressWait::start(ingress),
            ),
            RecorderServerTask::Tcp { ingress, .. } => RecorderServerWait::Tcp(
                RecorderIngressWait::start(ingress),
            ),
        }
    }
}

impl RecorderServerWait {
    /// `progress` is what `event` does to this waiter: what it does to the
    /// ingress below.
    pub open spec fn steps_to(self, event: IngressEvent, progress: RecorderServerProgress) -> bool {
        match self {
            RecorderServerWait::Http(wait) => match progress {
                RecorderServerProgress::Waiting { wait: next, action } => next matches
                    RecorderServerWait::Http(next) && wait.steps_to(
                    ServerRole::Recorder,
                    event,
                    AxumIngressProgress::Waiting { wait: next, action },
                ),
                RecorderServerProgress::Finished { shutdown, action } => exists|
                    ingress: TrackedAxumIngress,
                | #[trigger]
                    wait.steps_to(
                        ServerRole::Recorder,
                        event,
                        AxumIngressProgress::Finished { ingress, shutdown, action },
                    ),
            },
            RecorderServerWait::Tcp(wait) => match progress {
                RecorderServerProgress::Waiting { wait: next, action } => next matches
                    RecorderServerWait::Tcp(next) && wait.steps_to(
                    event,
                    RecorderIngressProgress::Waiting { wait: next, action },
                ),
                RecorderServerProgress::Finished { shutdown, action } => exists|
                    ingress: TrackedRecorderIngress,
                | #[trigger]
                    wait.steps_to(
                        event,
                        RecorderIngressProgress::Finished { ingress, shutdown, action },
                    ),
            },
        }
    }
}

/// Advances a waiter on the recorder server by one event.
pub fn wait_for_recorder_server(wait: RecorderServerWait, event: IngressEvent) -> (progress:
    RecorderServerProgress)
    ensures
        wait.steps_to(event, progress),
{
    match wait {
        RecorderServerWait::Http(wait) => {
            match wait_for_tracked_axum_ingress(wait, ServerRole::Recorder, event) {
                AxumIngressProgress::Waiting { wait, action } => RecorderServerProgress::Waiting {
                    wait: RecorderServerWait::Http(wait),
                    action,
                },
                AxumIngressProgress::Finished { ingress, shutdown, action } => {
                    assert(wait.steps_to(
                        ServerRole::Recorder,
                        event,
                        AxumIngressProgress::Finished { ingress, shutdown, action },
                    ));
                    RecorderServerProgress::Finished { shutdown, action }
                },
            }
        },
        RecorderServerWait::Tcp(wait) => match wait_for_tracked_recorder_ingress(wait, event) {
            RecorderIngressProgress::Waiting { wait, action } => RecorderServerProgress::Waiting {
                wait: RecorderServerWait::Tcp(wait),
                action,
            },
            RecorderIngressProgress::Finished { ingress, shutdown, action } => {
                assert(wait.steps_to(
                    event,
                    RecorderIngressProgress::Finished { ingress, shutdown, action },
                ));
                RecorderServerProgress::Finished { shutdown, action }
            },
        },
    }
}

/// How the recorder server was drained: its result and evidence.
#[derive(Debug)]
pub struct RecorderDrain {
    pub result: Result<(), HaNodeError>,
    pub evidence: Option<ShutdownEvidence>,
}

/// What draining the recorder server amounts to. A server that ended before
/// cleanup began keeps the evidence that it left; one that runs adds what its
/// waiter observed.
pub open spec fn recorder_drained(
    completed: Option<ShutdownEvidence>,
    waited: Option<IngressShutdown>,
) -> RecorderDrain {
    match waited {
        Some(shutdown) => RecorderDrain {
            result: shutdown.result,
            evidence: crate::evidence::merged_optional(completed, Some(shutdown.spec_evidence())),
        },
        None => RecorderDrain { result: Ok(()), evidence: completed },
    }
}

/// Takes the result of draining the recorder server. `waited` is the outcome
/// of its waiter, where it was still running.
pub fn drain_recorder(
    completed: Option<ShutdownEvidence>,
    waited: Option<IngressShutdown>,
) -> (drain: RecorderDrain)
    ensures
        drain == recorder_drained(completed, waited),
{
    match waited {
        Some(shutdown) => {
            let evidence = shutdown.evidence();
            RecorderDrain {
                result: shutdown.result,
                evidence: merge_optional_shutdown_evidence(completed, Some(evidence)),
            }
        },
        None => RecorderDrain { result: Ok(()), evidence: completed },
    }
}

/// The failure inside `result`, if any, as a sequence.
pub open spec fn failure_of(result: Result<(), HaNodeError>) -> Seq<HaNodeError> {
    match result {
        Ok(_) => Seq::empty(),
        Err(error) => seq![error],
    }
}

/// The failure of the owner as the node reports it, if any, as a sequence:
/// its evidence covers the scope and the recorder, without a claim on tasks.
pub open spec fn owner_failure_of(
    scope: ScopeShutdown,
    recorder: RecorderDrain,
    owner: Result<(), OwnerError>,
) -> Seq<HaNodeError> {
    match owner {
        Ok(_) => Seq::empty(),
        Err(error) => seq![
            error.node_error(scope.evidence.merged_with(recorder.evidence).owner_downgraded()),
        ],
    }
}

/// What shutting an opened node down amounts to: the failures of the scope,
/// of the recorder and of the owner, in this order.
pub open spec fn runtime_shutdown(
    scope: ScopeShutdown,
    recorder: RecorderDrain,
    owner: Result<(), OwnerError>,
) -> Result<(), HaNodeError> {
    crate::error::combined_all(
        failure_of(scope.result) + failure_of(recorder.result) + owner_failure_of(
            scope,
            recorder,
            owner,
        ),
    )
}

/// Takes the results of shutting an opened node down, whose scope and
/// recorder drained side by side before the owner.
pub fn shutdown_ha_runtime_before(
    scope: ScopeShutdown,
    recorder: RecorderDrain,
    owner: Result<(), OwnerError>,
) -> (result: Result<(), HaNodeError>)
    requires
        owner matches Err(error) ==> error.well_formed(),
    ensures
        result == runtime_shutdown(scope, recorder, owner),
{
    let ghost expected = failure_of(scope.result) + failure_of(recorder.result) + owner_failure_of(
        scope,
        recorder,
        owner,
    );
    let mut errors: Vec<HaNodeError> = Vec::new();
    if let Err(error) = scope.result {
        errors.push(error);
    }
    if let Err(error) = recorder.result {
        errors.push(error);
    }
    if let Err(error) = owner {
        let evidence = downgrade_tasks_for_owner_cleanup(
            merge_shutdown_evidence(scope.evidence, recorder.evidence),
        );
        errors.push(shutdown_owner_error(error, evidence));
    }
    assert(errors@ =~= expected);
    combine_ha_errors(errors)
}

/// The exact result of an ended service task can be taken once: after that
/// only its evidence is left, and draining it again changes nothing.
pub proof fn law_service_result_is_taken_once(scope: HaTaskScope, drained: Option<IngressShutdown>)
    ensures
        ({
            let first = scope.service_shutdown(drained);
            let after = HaTaskScope {
                service: scope.service_after_drain(first.evidence),
                ..scope
            };
            let again = after.service_shutdown(None);
            &&& again.result is Ok
            &&& again.evidence == first.evidence
            &&& after.service_after_drain(again.evidence) == after.service
        }),
{
}

/// A service that was never started here claims a closed listener only where
/// this node owned the listener and dropped it.
pub proof fn law_deferred_listener_is_never_claimed(unstarted: ServiceTaskUnstarted)
    ensures
        unstarted.evidence().complete() <==> unstarted
            == ServiceTaskUnstarted::OwnedListenerDropped,
{
}

/// An admin drain that runs out of time never hides the result of the service
/// and never leaves a claim on tasks.
pub proof fn law_admin_deadline_keeps_the_service_result(service: ScopeShutdown)
    ensures
        ({
            let scope = HaTaskScope::scope_shutdown(service, false);
            let deadline = conservative_shutdown_deadline_error(
                HaShutdownPhase::Service,
                scope.evidence,
            );
            &&& scope.result == Err::<(), HaNodeError>(
                match service.result {
                    Ok(_) => deadline,
                    Err(error) => error.with_cleanup(deadline),
                },
            )
            &&& scope.evidence.tasks == TaskDisposition::Uncertain
            &&& scope.evidence.ingress == service.evidence.ingress
        }),
{
}

/// An opened node stops cleanly exactly where its scope, its recorder and its
/// owner all do.
pub proof fn law_runtime_stops_cleanly_only_as_a_whole(
    scope: ScopeShutdown,
    recorder: RecorderDrain,
    owner: Result<(), OwnerError>,
)
    ensures
        runtime_shutdown(scope, recorder, owner) is Ok <==> scope.result is Ok && recorder.result
            is Ok && owner is Ok,
{
}

/// What a service leaves when it is drained: its waiter's outcome where it ran,
/// the result that was kept of it where it had ended, and what may be claimed
/// of its listener where it was never started.
pub proof fn law_a_drained_service_leaves_its_own_outcome(
    scope: HaTaskScope,
    drained: Option<IngressShutdown>,
)
    ensures
        match scope.service {
            ServiceTaskState::Running(_) => drained matches Some(shutdown)
                ==> scope.service_shutdown(drained).result == shutdown.result
                && scope.service_shutdown(drained).evidence.ingress == shutdown.ingress
                && scope.service_shutdown(drained).evidence.tasks == shutdown.tasks,
            ServiceTaskState::Completed { result, evidence } => {
                &&& scope.service_shutdown(drained).evidence == evidence
                &&& result matches Some(kept) ==> scope.service_shutdown(drained).result == kept
                &&& result is None ==> scope.service_shutdown(drained).result is Ok
            },
            ServiceTaskState::Unstarted(unstarted) => {
                &&& scope.service_shutdown(drained).result is Ok
                &&& scope.service_shutdown(drained).evidence.complete() <==> unstarted
                    == ServiceTaskUnstarted::OwnedListenerDropped
                &&& unstarted == ServiceTaskUnstarted::DeferredOwnerUnknown
                    ==> scope.service_shutdown(drained).evidence.ingress
                    == crate::status::IngressDisposition::Uncertain && scope.service_shutdown(
                    drained,
                ).evidence.tasks == TaskDisposition::Uncertain
            },
        },
        scope.spec_service_wait() is Some <==> scope.service is Running,
        scope.service matches ServiceTaskState::Running(ingress) ==> (scope.spec_service_wait()
            matches Some(wait) && wait.ingress == ingress && wait.listener_dropped
            == ingress.listener_receipted && wait.stage == crate::ingress::WaitStage::Graceful),
        HaTaskScope::scope_shutdown(scope.service_shutdown(drained), true)
            == scope.service_shutdown(drained),
{
}

/// A service task that ended by itself leaves the evidence of its end: a closed
/// listener exactly where its receipt was there or came with the end, and
/// quiesced tasks exactly where it succeeded unforced.
pub proof fn law_an_ended_service_leaves_its_evidence(
    ingress: TrackedAxumIngress,
    exit: TaskExit,
    receipt: bool,
)
    ensures
        HaTaskScope::completed_evidence(ingress, exit, receipt).ingress
            == crate::status::IngressDisposition::Closed <==> ingress.listener_receipted || receipt,
        HaTaskScope::completed_evidence(ingress, exit, receipt).ingress
            != crate::status::IngressDisposition::Open,
        HaTaskScope::completed_evidence(ingress, exit, receipt).tasks == TaskDisposition::Quiesced
            <==> !ingress.forced && (exit matches TaskExit::Returned(result) && result is Ok),
{
}

/// A recorder server keeps its transport, and is waited on by it: HTTP by a
/// waiter of the service's kind, every other transport by the recorder's own.
/// It has no evidence until it was seen to end.
pub proof fn law_a_recorder_server_keeps_its_transport(
    transport: HaRecorderTransport,
    task: RecorderServerTask,
    returned: bool,
    receipt: bool,
    reported: Option<NodeRecorderTaskDisposition>,
)
    ensures
        spawn_ha_recorder_server(transport) is Http <==> transport == HaRecorderTransport::Http,
        spawn_ha_recorder_server(transport).spec_completed_shutdown_evidence() is None,
        spawn_ha_recorder_server(transport) matches RecorderServerTask::Http { ingress, .. }
            ==> !ingress.listener_receipted && !ingress.forced,
        spawn_ha_recorder_server(transport) matches RecorderServerTask::Tcp { ingress, .. }
            ==> !ingress.listener_receipted && !ingress.forced,
        task.after_exit(returned, receipt, reported) is Http <==> task is Http,
        task.wait() is Http <==> task is Http,
        task matches RecorderServerTask::Http { ingress, .. } ==> task.wait()
            == RecorderServerWait::Http(AxumIngressWait::start(ingress)),
        task matches RecorderServerTask::Tcp { ingress, .. } ==> task.wait()
            == RecorderServerWait::Tcp(RecorderIngressWait::start(ingress)),
{
}

/// A recorder server that was seen to end leaves the evidence of its end: a
/// closed listener exactly where its receipt was there or came with the end;
/// quiesced tasks never over HTTP, and over another transport exactly where it
/// said so of a task that returned unforced.
pub proof fn law_an_ended_recorder_server_leaves_its_evidence(
    task: RecorderServerTask,
    returned: bool,
    receipt: bool,
    reported: Option<NodeRecorderTaskDisposition>,
)
    ensures
        task.after_exit(returned, receipt, reported).spec_completed_shutdown_evidence() matches Some(
            evidence,
        ) && match task {
            RecorderServerTask::Http { ingress, .. } => {
                &&& evidence.ingress == crate::status::IngressDisposition::Closed
                    <==> ingress.listener_receipted || receipt
                &&& evidence.tasks == TaskDisposition::Uncertain
            },
            RecorderServerTask::Tcp { ingress, .. } => {
                &&& evidence.ingress == crate::status::IngressDisposition::Closed
                    <==> ingress.listener_receipted || receipt
                &&& evidence.tasks == TaskDisposition::Quiesced <==> returned && !ingress.forced
                    && reported == Some(NodeRecorderTaskDisposition::Quiesced)
            },
        },
        task matches RecorderServerTask::Http { ingress, .. } ==> (task.after_exit(
            returned,
            receipt,
            reported,
        ) matches RecorderServerTask::Http { ingress: after, .. } && after.forced == ingress.forced
            && (after.listener_receipted <==> ingress.listener_receipted || receipt)),
        task matches RecorderServerTask::Tcp { ingress, .. } ==> (task.after_exit(
            returned,
            receipt,
            reported,
        ) matches RecorderServerTask::Tcp { ingress: after, .. } && after.forced == ingress.forced
            && (after.listener_receipted <==> ingress.listener_receipted || receipt)),
{
}

/// A recorder server that is drained leaves its waiter's result, and claims no
/// more than its waiter saw and no more than it left when it was seen to end.
/// One that was not waited for leaves exactly what it left then, and no
/// failure.
pub proof fn law_a_drained_recorder_claims_what_was_seen_of_it(
    completed: Option<ShutdownEvidence>,
    waited: Option<IngressShutdown>,
)
    ensures
        waited is None ==> recorder_drained(completed, waited).result is Ok && recorder_drained(
            completed,
            waited,
        ).evidence == completed,
        waited matches Some(shutdown) ==> recorder_drained(completed, waited).result
            == shutdown.result && match completed {
            None => recorder_drained(completed, waited).evidence == Some(
                ShutdownEvidence { ingress: shutdown.ingress, tasks: shutdown.tasks },
            ),
            Some(before) => recorder_drained(completed, waited).evidence == Some(
                before.merged(
                    ShutdownEvidence { ingress: shutdown.ingress, tasks: shutdown.tasks },
                ),
            ),
        },
{
}

/// The failures of shutting an opened node down are returned in the order of
/// its scope, its recorder and its owner; none of them is lost, and the owner's
/// is reported with the evidence of the two others and no claim on tasks.
pub proof fn law_an_opened_node_reports_every_failure_in_order(
    scope: ScopeShutdown,
    recorder: RecorderDrain,
    owner: Result<(), OwnerError>,
)
    ensures
        runtime_shutdown(scope, recorder, owner) matches Err(error) ==> error.leaves() == (
        match scope.result {
            Ok(_) => Seq::<HaNodeError>::empty(),
            Err(first) => first.leaves(),
        }) + (match recorder.result {
            Ok(_) => Seq::<HaNodeError>::empty(),
            Err(second) => second.leaves(),
        }) + (match owner {
            Ok(_) => Seq::<HaNodeError>::empty(),
            Err(third) => third.node_error(
                ShutdownEvidence {
                    ingress: scope.evidence.merged_with(recorder.evidence).ingress,
                    tasks: TaskDisposition::Uncertain,
                },
            ).leaves(),
        }),
{
    let first = failure_of(scope.result);
    let second = failure_of(recorder.result);
    let third = owner_failure_of(scope, recorder, owner);
    let all = first + second + third;
    if all.len() > 0 {
        crate::error::law_no_failure_is_lost(all);
        reveal_with_fuel(crate::error::all_leaves, 4);
        lemma_leaves_of_three(first, second, third);
    }
}

proof fn lemma_leaves_of_three(
    first: Seq<HaNodeError>,
    second: Seq<HaNodeError>,
    third: Seq<HaNodeError>,
)
    ensures
        crate::error::all_leaves(first + second + third) == crate::error::all_leaves(first)
            + crate::error::all_leaves(second) + crate::error::all_leaves(third),
{
    lemma_leaves_of_two(first, second);
    lemma_leaves_of_two(first + second, third);
}

proof fn lemma_leaves_of_two(first: Seq<HaNodeError>, second: Seq<HaNodeError>)
    ensures
        crate::error::all_leaves(first + second) == crate::error::all_leaves(first)
            + crate::error::all_leaves(second),
    decreases second.len(),
{
    if second.len() == 0 {
        assert(first + second =~= first);
        assert(crate::error::all_leaves(second) =~= Seq::<HaNodeError>::empty());
        assert(crate::error::all_leaves(first) + crate::error::all_leaves(second)
            =~= crate::error::all_leaves(first));
    } else {
        assert((first + second).drop_last() =~= first + second.drop_last());
        assert((first + second).last() == second.last());
        lemma_leaves_of_two(first, second.drop_last());
        assert(crate::error::all_leaves(first + second) =~= crate::error::all_leaves(first)
            + crate::error::all_leaves(second));
    }
}

/// A waiter on the recorder server does what the waiter below it does.
pub proof fn law_a_recorder_server_is_waited_on_as_its_ingress(
    wait: RecorderServerWait,
    event: IngressEvent,
    progress: RecorderServerProgress,
)
    requires
        wait.steps_to(event, progress),
    ensures
        progress matches RecorderServerProgress::Waiting { wait: next, .. } ==> (next is Http
            <==> wait is Http) && !(event is TaskExit),
        event is TaskExit ==> progress is Finished,
        event is ListenerReceipt ==> progress is Waiting,
        event matches IngressEvent::TaskExit { exit: TaskExit::Returned(result), .. } ==> (progress
            matches RecorderServerProgress::Finished { shutdown, action } && shutdown.result
            == result && action is Nothing),
        event matches IngressEvent::TaskExit { exit: TaskExit::Failed(failure), .. } ==> (progress
            matches RecorderServerProgress::Finished { shutdown, action } && (shutdown.result
            matches Err(HaNodeError::RecorderServer(told)) && told@ == "recorder server"@
            + " task failed: "@ + failure@) && action is Nothing),
        wait matches RecorderServerWait::Http(below) ==> (progress matches
            RecorderServerProgress::Waiting { wait: RecorderServerWait::Http(next), action }
            ==> below.steps_to(
            ServerRole::Recorder,
            event,
            AxumIngressProgress::Waiting { wait: next, action },
        )),
        wait matches RecorderServerWait::Tcp(below) ==> (progress matches
            RecorderServerProgress::Waiting { wait: RecorderServerWait::Tcp(next), action }
            ==> below.steps_to(event, RecorderIngressProgress::Waiting { wait: next, action })),
{
}

/// A scope begins with the listener that it was given and nothing started. One
/// that is dropped stops its service, and stops admission exactly where it
/// leases it.
pub proof fn law_a_dropped_scope_stops_what_it_leases(
    admin: AdminDrainLease,
    service: ServiceTaskUnstarted,
    scope: HaTaskScope,
    effects: Vec<ScopeEffect>,
)
    requires
        call_ensures(HaTaskScope::new, (admin, service), scope),
        call_ensures(HaTaskScope::abandon, (&scope,), effects),
    ensures
        scope.service == ServiceTaskState::Unstarted(service),
        scope.admin == admin,
        !scope.shutdown_started,
        effects@.last() == ScopeEffect::SignalService,
        admin is Enabled <==> effects@.contains(ScopeEffect::StopAdminAdmission),
        effects@.len() == if admin is Enabled { 2int } else { 1int },
{
    if admin is Enabled {
        assert(effects@[0] == ScopeEffect::StopAdminAdmission);
    }
}

/// What holds of a step of a recorder server's waiter holds of the function
/// that takes it.
pub proof fn law_a_recorder_server_is_waited_for_by_steps(
    wait: RecorderServerWait,
    event: IngressEvent,
    progress: RecorderServerProgress,
)
    requires
        call_ensures(wait_for_recorder_server, (wait, event), progress),
    ensures
        wait.steps_to(event, progress),
{
}

/// What holds of a runtime's shutdown holds of the functions that judge it.
pub proof fn law_a_shutdown_is_judged_as_a_whole(
    completed: Option<ShutdownEvidence>,
    waited: Option<IngressShutdown>,
    drain: RecorderDrain,
    scope: ScopeShutdown,
    owner: Result<(), OwnerError>,
    result: Result<(), HaNodeError>,
)
    requires
        call_ensures(drain_recorder, (completed, waited), drain),
        call_ensures(shutdown_ha_runtime_before, (scope, drain, owner), result),
    ensures
        drain == recorder_drained(completed, waited),
        waited matches Some(shutdown) ==> drain.result == shutdown.result,
        waited is None ==> drain.result is Ok && drain.evidence == completed,
        result == runtime_shutdown(scope, drain, owner),
{
}

} // verus!
