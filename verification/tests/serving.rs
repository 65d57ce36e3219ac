use rhiza_ha::accept::{
    classify_accept_error, run_tracked_axum_ingress, AcceptEffect, AcceptError,
    AcceptErrorDisposition, AcceptErrorKind, AcceptEvent, AcceptLoop, AcceptPhase,
    ACCEPT_RESOURCE_BACKOFF,
};
use rhiza_ha::activation::{
    activate_service_listener, begin_activation, wait_for_service_start_or_shutdown,
    ActivationEvent, ActivationPhase, ServiceActivation, ServiceListener, ServiceStartEvent,
    ServiceStartup,
};
use rhiza_ha::cancellation::StartupExit;
use rhiza_ha::error::{fail, ErrorClassification, HaNodeError, HaStartupError, NodeError, NodeErrorKind};
use rhiza_ha::evidence::{
    pre_service_shutdown_evidence, uncertain_shutdown_evidence, ShutdownEvidence,
};
use rhiza_ha::ingress::{
    wait_for_tracked_axum_ingress, AxumIngressProgress, AxumIngressWait, IngressEvent,
    IngressShutdown, NodeRecorderTaskDisposition, TrackedAxumIngress, WaitAction,
};
use rhiza_ha::log::{LogAnchor, LogHash};
use rhiza_ha::node::HaNodeSnapshot;
use rhiza_ha::open::{
    open_runtime_with_retry, rehydrate_recorder_with_retry, require_startup_active, HaOpenError,
    OpenEffect, RetryEvent, RetryPhase, STARTUP_RETRY_DELAY,
};
use rhiza_ha::open_node::{open_inner, OpenEvent, OpenPhase, OpeningNode, PendingHaRuntime};
use rhiza_ha::preparation::{RecorderOpenPolicy, StartupPreparation};
use rhiza_ha::readiness::{
    plan_activation, refused_activation, settle_activation, status_of, update_ha_readiness,
    ActivationPlan, AttemptExit, DurabilityError, DurabilityErrorKind, NodeStatus, ReadinessCheck,
    ReadinessEvent, ReadinessPhase,
};
use rhiza_ha::scope::{
    drain_recorder, shutdown_ha_runtime_before, spawn_ha_recorder_server, wait_for_recorder_server,
    AdminDrainLease, HaRecorderTransport, HaTaskScope, RecorderServerProgress, RecorderServerTask,
    ScopeEffect, ScopeShutdown, ServiceTaskUnstarted,
};
use rhiza_ha::starting::{supervise_ha_node, StartingEvent, StartingPhase};
use rhiza_ha::status::{
    HaNodeStatus, HaShutdownPhase, IngressDisposition, RhizaHandle, TaskDisposition,
};
use rhiza_ha::supervise::{
    supervise_prepared_ha_node, DrainReport, PreparedPhase, PreparedSupervisor, SupervisorEffect,
    SupervisorEvent, HA_STATUS_POLL_INTERVAL,
};
use rhiza_ha::task::{ServerRole, TaskExit};
use rhiza_ha::token::{
    cancel_startup_for_token, ShutdownToken, StartupCancellationToken, StartupIoContext,
};

const SECOND: u64 = 1_000_000_000;

fn cancellation(id: u64) -> StartupCancellationToken {
    StartupCancellationToken { id }
}

fn accept_error(kind: AcceptErrorKind, unix_os_error: Option<i32>) -> AcceptError {
    AcceptError { kind, unix_os_error }
}

#[test]
fn accept_errors_are_told_apart() {
    for kind in [
        AcceptErrorKind::Interrupted,
        AcceptErrorKind::ConnectionAborted,
        AcceptErrorKind::ConnectionReset,
        AcceptErrorKind::ConnectionRefused,
        AcceptErrorKind::WouldBlock,
    ] {
        assert_eq!(
            classify_accept_error(&accept_error(kind, None)),
            AcceptErrorDisposition::ImmediateRetry
        );
    }
    assert_eq!(
        classify_accept_error(&accept_error(AcceptErrorKind::OutOfMemory, None)),
        AcceptErrorDisposition::ResourceBackoff
    );
    for number in [23, 24] {
        assert_eq!(
            classify_accept_error(&accept_error(AcceptErrorKind::Other, Some(number))),
            AcceptErrorDisposition::ResourceBackoff
        );
    }
    assert_eq!(
        classify_accept_error(&accept_error(AcceptErrorKind::Other, Some(13))),
        AcceptErrorDisposition::Terminal
    );
    assert_eq!(
        classify_accept_error(&accept_error(AcceptErrorKind::Other, None)),
        AcceptErrorDisposition::Terminal
    );
    assert_eq!(ACCEPT_RESOURCE_BACKOFF, SECOND);
    assert_eq!(HA_STATUS_POLL_INTERVAL, SECOND / 10);
}

#[test]
fn tracked_axum_ingress_drops_listener_before_a_cooperative_connection_drains() {
    let (accept, effects) = run_tracked_axum_ingress(AcceptLoop::start(), AcceptEvent::Accepted);
    assert_eq!(effects, vec![AcceptEffect::ServeConnection]);
    let (accept, effects) = run_tracked_axum_ingress(
        accept,
        AcceptEvent::ShutdownChanged { closed: false, requested: true },
    );
    assert_eq!(effects, vec![AcceptEffect::CloseListener, AcceptEffect::DrainConnections]);
    assert!(matches!(accept.phase, AcceptPhase::Draining));
    let (accept, effects) = run_tracked_axum_ingress(accept, AcceptEvent::Accepted);
    assert!(effects.is_empty());
    let (accept, _) = run_tracked_axum_ingress(accept, AcceptEvent::ConnectionEnded);
    assert!(matches!(accept.phase, AcceptPhase::Finished(Ok(()))));
}

#[test]
fn tracked_axum_ingress_isolates_connection_errors() {
    let (accept, _) = run_tracked_axum_ingress(AcceptLoop::start(), AcceptEvent::Accepted);
    let (accept, effects) = run_tracked_axum_ingress(accept, AcceptEvent::ConnectionEnded);
    assert!(matches!(accept.phase, AcceptPhase::Accepting));
    assert!(effects.is_empty());
    let (accept, effects) = run_tracked_axum_ingress(accept, AcceptEvent::Accepted);
    assert_eq!(accept.connections, 1);
    assert_eq!(effects, vec![AcceptEffect::ServeConnection]);
    let (accept, _) = run_tracked_axum_ingress(accept, AcceptEvent::ConnectionEnded);
    let (accept, _) = run_tracked_axum_ingress(
        accept,
        AcceptEvent::ShutdownChanged { closed: false, requested: true },
    );
    assert!(matches!(accept.phase, AcceptPhase::Finished(Ok(()))));
}

#[test]
fn tracked_axum_ingress_forces_stubborn_connection_before_deadline() {
    let (accept, _) = run_tracked_axum_ingress(AcceptLoop::start(), AcceptEvent::Accepted);
    let (accept, effects) = run_tracked_axum_ingress(
        accept,
        AcceptEvent::ShutdownChanged { closed: false, requested: true },
    );
    assert_eq!(effects, vec![AcceptEffect::CloseListener, AcceptEffect::DrainConnections]);

    let AxumIngressProgress::Waiting { wait, .. } = wait_for_tracked_axum_ingress(
        AxumIngressWait::start(TrackedAxumIngress::new()),
        ServerRole::Service,
        IngressEvent::ListenerReceipt { received: true },
    ) else {
        panic!("a receipt does not end the wait");
    };
    let AxumIngressProgress::Waiting { wait, action } =
        wait_for_tracked_axum_ingress(wait, ServerRole::Service, IngressEvent::TimerDue)
    else {
        panic!("the connection is forced first");
    };
    assert_eq!(action, WaitAction::ForceConnections);

    let (accept, effects) = run_tracked_axum_ingress(
        accept,
        AcceptEvent::ForceChanged { closed: false, requested: true, now: SECOND },
    );
    assert_eq!(effects, vec![AcceptEffect::AbortConnections]);
    let (accept, _) = run_tracked_axum_ingress(accept, AcceptEvent::ConnectionEnded);
    let AcceptPhase::Finished(result) = accept.phase else {
        panic!("the aborted connection is gone");
    };
    let AxumIngressProgress::Finished { shutdown, .. } = wait_for_tracked_axum_ingress(
        wait,
        ServerRole::Service,
        IngressEvent::TaskExit {
            exit: TaskExit::Returned(result),
            receipt: false,
            reported: None,
        },
    ) else {
        panic!("the service ended");
    };
    assert!(shutdown.result.is_ok());
    assert_eq!(shutdown.ingress, IngressDisposition::Closed);
    assert_eq!(shutdown.tasks, TaskDisposition::Uncertain);
}

#[test]
fn aborted_connections_are_waited_for_until_the_reap_deadline() {
    let (accept, _) = run_tracked_axum_ingress(AcceptLoop::start(), AcceptEvent::Accepted);
    let (accept, _) = run_tracked_axum_ingress(
        accept,
        AcceptEvent::ShutdownChanged { closed: true, requested: false },
    );
    let (accept, effects) = run_tracked_axum_ingress(
        accept,
        AcceptEvent::ForceChanged { closed: false, requested: true, now: SECOND },
    );
    assert_eq!(effects, vec![AcceptEffect::AbortConnections]);
    assert!(matches!(
        accept.phase,
        AcceptPhase::Reaping { deadline } if deadline == SECOND + 50_000_000
    ));
    let (accept, _) = run_tracked_axum_ingress(accept, AcceptEvent::ReapDeadline);
    assert!(matches!(accept.phase, AcceptPhase::Finished(Ok(()))));
}

#[test]
fn accept_backoff_is_interrupted_by_shutdown() {
    let (accept, effects) = run_tracked_axum_ingress(
        AcceptLoop::start(),
        AcceptEvent::AcceptFailed {
            error: accept_error(AcceptErrorKind::Other, Some(24)),
            message: "too many open files".to_string(),
        },
    );
    assert!(matches!(accept.phase, AcceptPhase::BackingOff));
    assert!(effects.is_empty());
    let (accept, effects) = run_tracked_axum_ingress(
        accept,
        AcceptEvent::ShutdownChanged { closed: false, requested: true },
    );
    assert_eq!(effects, vec![AcceptEffect::CloseListener, AcceptEffect::DrainConnections]);
    assert!(matches!(accept.phase, AcceptPhase::Finished(Ok(()))));
}

#[test]
fn a_terminal_accept_error_ends_the_service() {
    let (accept, _) = run_tracked_axum_ingress(
        AcceptLoop::start(),
        AcceptEvent::AcceptFailed {
            error: accept_error(AcceptErrorKind::Other, None),
            message: "not a socket".to_string(),
        },
    );
    assert!(matches!(
        accept.phase,
        AcceptPhase::Finished(Err(HaNodeError::ServiceServer(message)))
            if message == "service server accept failed: not a socket"
    ));
}

#[test]
fn preconsumed_service_listener_receipt_is_idempotent_for_cleanup() {
    let mut ingress = TrackedAxumIngress::new();
    assert!(!ingress.poll_listener_receipt(false));
    assert!(ingress.poll_listener_receipt(true));
    assert!(ingress.poll_listener_receipt(false));
    let progress = wait_for_tracked_axum_ingress(
        AxumIngressWait::start(ingress),
        ServerRole::Service,
        IngressEvent::TaskExit {
            exit: TaskExit::Returned(Ok(())),
            receipt: false,
            reported: None,
        },
    );
    assert!(matches!(
        progress,
        AxumIngressProgress::Finished {
            shutdown: IngressShutdown {
                result: Ok(()),
                ingress: IngressDisposition::Closed,
                tasks: TaskDisposition::Quiesced,
            },
            ..
        }
    ));
}

#[test]
fn a_stuck_service_is_forced_and_then_aborted() {
    let wait = AxumIngressWait::start(TrackedAxumIngress::new());
    let AxumIngressProgress::Waiting { wait, action } =
        wait_for_tracked_axum_ingress(wait, ServerRole::Service, IngressEvent::TimerDue)
    else {
        panic!("the service is forced first");
    };
    assert_eq!(action, WaitAction::ForceConnections);
    let AxumIngressProgress::Waiting { wait, action } = wait_for_tracked_axum_ingress(
        wait,
        ServerRole::Service,
        IngressEvent::ListenerReceipt { received: true },
    ) else {
        panic!("a receipt does not end the wait");
    };
    assert_eq!(action, WaitAction::Nothing);
    let AxumIngressProgress::Waiting { wait, action } =
        wait_for_tracked_axum_ingress(wait, ServerRole::Service, IngressEvent::TimerDue)
    else {
        panic!("the service is aborted next");
    };
    assert_eq!(action, WaitAction::AbortTask);
    assert!(matches!(
        wait_for_tracked_axum_ingress(wait, ServerRole::Service, IngressEvent::TimerDue),
        AxumIngressProgress::Finished {
            shutdown: IngressShutdown {
                result: Err(HaNodeError::ShutdownDeadlineExceeded {
                    phase: HaShutdownPhase::Service,
                    ..
                }),
                ingress: IngressDisposition::Closed,
                tasks: TaskDisposition::Uncertain,
            },
            ..
        }
    ));
}

#[test]
fn task_scope_keeps_pre_service_listener_evidence_explicit_without_placeholder_tasks() {
    let mut bound = HaTaskScope::new(
        AdminDrainLease::Disabled,
        ServiceTaskUnstarted::OwnedListenerDropped,
    );
    let bound_shutdown = bound.drain_before(None, true);
    assert!(bound_shutdown.result.is_ok());
    assert_eq!(bound_shutdown.evidence, pre_service_shutdown_evidence());

    let mut deferred = HaTaskScope::new(
        AdminDrainLease::Disabled,
        ServiceTaskUnstarted::DeferredOwnerUnknown,
    );
    let deferred_shutdown = deferred.drain_before(None, true);
    assert!(deferred_shutdown.result.is_ok());
    assert_eq!(deferred_shutdown.evidence, uncertain_shutdown_evidence());
}

fn running_scope() -> HaTaskScope {
    let mut scope = HaTaskScope::new(
        AdminDrainLease::Disabled,
        ServiceTaskUnstarted::OwnedListenerDropped,
    );
    scope.start_service(TrackedAxumIngress::new());
    scope
}

#[test]
fn task_scope_caches_service_completion_once_and_preserves_listener_receipt() {
    let mut scope = running_scope();
    assert!(scope.complete_running_service_task(TaskExit::Returned(Ok(())), true).is_ok());
    assert!(scope.take_completed_service_result().is_none());
    let shutdown = scope.drain_before(None, true);
    assert!(shutdown.result.is_ok());
    assert_eq!(shutdown.evidence, pre_service_shutdown_evidence());
}

#[test]
fn task_scope_drop_signals_service_shutdown_without_claiming_quiescence() {
    let scope = HaTaskScope::new(
        AdminDrainLease::Disabled,
        ServiceTaskUnstarted::DeferredOwnerUnknown,
    );
    assert!(scope.abandon().contains(&ScopeEffect::SignalService));
}

#[test]
fn task_scope_preserves_exact_service_error_once_with_receipted_ingress() {
    let mut scope = running_scope();
    let exit =
        TaskExit::Returned(Err(HaNodeError::ServiceServer("exact service source".to_string())));
    assert!(matches!(
        scope.complete_running_service_task(exit, true),
        Err(HaNodeError::ServiceServer(message)) if message == "exact service source"
    ));
    assert!(scope.take_completed_service_result().is_none());
    let shutdown = scope.drain_before(None, true);
    assert!(shutdown.result.is_ok());
    assert_eq!(shutdown.evidence.ingress, IngressDisposition::Closed);
    assert_eq!(shutdown.evidence.tasks, TaskDisposition::Uncertain);
}

#[test]
fn task_scope_panic_without_listener_receipt_stays_uncertain() {
    let mut scope = running_scope();
    assert!(matches!(
        scope.complete_running_service_task(TaskExit::Failed("test service panic".to_string()), false),
        Err(HaNodeError::ServiceServer(message)) if message.contains("task failed")
    ));
    let shutdown = scope.drain_before(None, true);
    assert!(shutdown.result.is_ok());
    assert_eq!(shutdown.evidence, uncertain_shutdown_evidence());
}

#[test]
fn task_scope_stops_admin_admission_before_known_listener_drain() {
    let mut scope = HaTaskScope::new(
        AdminDrainLease::Enabled,
        ServiceTaskUnstarted::OwnedListenerDropped,
    );
    let effects = scope.begin_shutdown();
    assert_eq!(effects[0], ScopeEffect::StopAdminAdmission);
    let timed_out = scope.drain_before(None, false);
    assert!(matches!(
        timed_out.result,
        Err(HaNodeError::ShutdownDeadlineExceeded {
            phase: HaShutdownPhase::Service,
            ingress: IngressDisposition::Closed,
            tasks: TaskDisposition::Uncertain,
            ..
        })
    ));
    assert_eq!(timed_out.evidence.ingress, IngressDisposition::Closed);
    assert_eq!(timed_out.evidence.tasks, TaskDisposition::Uncertain);
    let drained = scope.drain_before(None, true);
    assert!(drained.result.is_ok());
    assert_eq!(drained.evidence, pre_service_shutdown_evidence());
}

#[test]
fn every_non_http_ha_transport_dispatches_to_a_tracked_tcp_ingress_owner() {
    for transport in [
        HaRecorderTransport::TcpPostcard,
        HaRecorderTransport::TcpTlsPostcard,
        HaRecorderTransport::TcpPostcardRpc,
        HaRecorderTransport::TcpTlsPostcardRpc,
    ] {
        let task = spawn_ha_recorder_server(transport);
        assert!(matches!(task, RecorderServerTask::Tcp { .. }));
        let RecorderServerProgress::Finished { shutdown, .. } = wait_for_recorder_server(
            task.wait(),
            IngressEvent::TaskExit {
                exit: TaskExit::Returned(Ok(())),
                receipt: true,
                reported: Some(NodeRecorderTaskDisposition::Quiesced),
            },
        ) else {
            panic!("the server ended");
        };
        assert!(shutdown.result.is_ok());
        assert_eq!(
            shutdown.evidence(),
            ShutdownEvidence {
                ingress: IngressDisposition::Closed,
                tasks: TaskDisposition::Quiesced,
            }
        );
    }
    assert!(matches!(
        spawn_ha_recorder_server(HaRecorderTransport::Http),
        RecorderServerTask::Http { .. }
    ));
}

#[test]
fn tcp_accept_error_retains_exact_source_with_closed_quiesced_evidence() {
    let task = spawn_ha_recorder_server(HaRecorderTransport::TcpPostcard);
    let progress = wait_for_recorder_server(
        task.wait(),
        IngressEvent::TaskExit {
            exit: TaskExit::Returned(Err(HaNodeError::RecorderServer(
                "recorder TCP accept failed: injected permission denied".to_string(),
            ))),
            receipt: true,
            reported: Some(NodeRecorderTaskDisposition::Quiesced),
        },
    );
    let RecorderServerProgress::Finished { shutdown, .. } = progress else {
        panic!("the server ended");
    };
    assert_eq!(
        shutdown.evidence(),
        ShutdownEvidence {
            ingress: IngressDisposition::Closed,
            tasks: TaskDisposition::Quiesced,
        }
    );
    assert!(matches!(
        shutdown.result,
        Err(HaNodeError::RecorderServer(message))
            if message == "recorder TCP accept failed: injected permission denied"
    ));
}

#[test]
fn tcp_outer_task_panic_or_abort_is_always_uncertain() {
    for failure in ["injected TCP recorder owner panic", "task was cancelled"] {
        let task = spawn_ha_recorder_server(HaRecorderTransport::TcpPostcard);
        let RecorderServerProgress::Finished { shutdown, .. } = wait_for_recorder_server(
            task.wait(),
            IngressEvent::TaskExit {
                exit: TaskExit::Failed(failure.to_string()),
                receipt: true,
                reported: Some(NodeRecorderTaskDisposition::Quiesced),
            },
        ) else {
            panic!("the server ended");
        };
        assert!(shutdown.result.is_err());
        assert_eq!(shutdown.ingress, IngressDisposition::Closed);
        assert_eq!(shutdown.tasks, TaskDisposition::Uncertain);
    }
}

#[test]
fn a_failed_recorder_without_receipt_or_report_is_uncertain_throughout() {
    let task = spawn_ha_recorder_server(HaRecorderTransport::TcpPostcard);
    let RecorderServerProgress::Finished { shutdown, .. } = wait_for_recorder_server(
        task.wait(),
        IngressEvent::TaskExit {
            exit: TaskExit::Failed("panicked".to_string()),
            receipt: false,
            reported: None,
        },
    ) else {
        panic!("the server ended");
    };
    assert!(shutdown.result.is_err());
    assert_eq!(shutdown.evidence(), uncertain_shutdown_evidence());
}

#[test]
fn a_runtime_stops_cleanly_only_as_a_whole() {
    let clean = || ScopeShutdown { result: Ok(()), evidence: pre_service_shutdown_evidence() };
    assert!(shutdown_ha_runtime_before(clean(), drain_recorder(None, None), Ok(())).is_ok());
    let waited = IngressShutdown {
        result: Err(HaNodeError::RecorderServer("late".to_string())),
        ingress: IngressDisposition::Closed,
        tasks: TaskDisposition::Quiesced,
    };
    assert!(matches!(
        shutdown_ha_runtime_before(clean(), drain_recorder(None, Some(waited)), Ok(())),
        Err(HaNodeError::RecorderServer(message)) if message == "late"
    ));
}

#[test]
fn service_start_prefers_shutdown_when_both_signals_are_ready() {
    let token = ShutdownToken::new(0, SECOND, cancellation(1));
    assert!(matches!(
        wait_for_service_start_or_shutdown(ServiceStartEvent::Begun { signal: Some(token) }),
        Some(Ok(ServiceStartup::Shutdown(deadline))) if deadline == SECOND
    ));
    assert!(wait_for_service_start_or_shutdown(ServiceStartEvent::Begun { signal: None }).is_none());
    assert!(matches!(
        wait_for_service_start_or_shutdown(ServiceStartEvent::Reported { started: true }),
        Some(Ok(ServiceStartup::Started))
    ));
    assert!(matches!(
        wait_for_service_start_or_shutdown(ServiceStartEvent::Reported { started: false }),
        Some(Err(_))
    ));
}

#[test]
fn a_deferred_listener_is_never_claimed_closed() {
    let token = ShutdownToken::new(0, SECOND, cancellation(1));
    assert!(matches!(
        begin_activation(ServiceListener::Bound, Some(token)),
        ActivationPhase::Done(Ok(ServiceActivation::Shutdown {
            deadline: SECOND,
            listener_closed: true,
        }))
    ));
    assert!(matches!(
        begin_activation(ServiceListener::Bound, None),
        ActivationPhase::Done(Ok(ServiceActivation::Listener))
    ));
    assert!(matches!(
        begin_activation(ServiceListener::Deferred, Some(token)),
        ActivationPhase::Done(Ok(ServiceActivation::Shutdown {
            deadline: SECOND,
            listener_closed: false,
        }))
    ));
    let announcing = begin_activation(ServiceListener::Deferred, None);
    let awaiting =
        activate_service_listener(announcing, ActivationEvent::Announced { received: true });
    assert!(matches!(
        activate_service_listener(
            awaiting,
            ActivationEvent::ListenerHandedOver { received: false }
        ),
        ActivationPhase::Done(Err(HaNodeError::ServiceServer(message)))
            if message == "live successor parent dropped the service listener handoff"
    ));
    assert!(matches!(
        activate_service_listener(
            ActivationPhase::Announcing,
            ActivationEvent::Announced { received: false }
        ),
        ActivationPhase::Done(Err(HaNodeError::ServiceServer(message)))
            if message == "live successor parent stopped before service listener handoff"
    ));
    assert!(matches!(
        activate_service_listener(
            ActivationPhase::AwaitingListener,
            ActivationEvent::ShutdownChanged { closed: false, signal: None, now: 4 }
        ),
        ActivationPhase::Done(Err(HaNodeError::ServiceServer(message)))
            if message == "live successor service activation shutdown changed without a token"
    ));
}

fn publishes(effects: &[SupervisorEffect], status: HaNodeStatus) -> bool {
    effects.iter().any(|effect| {
        matches!(effect, SupervisorEffect::Publish(snapshot) if snapshot.status == status)
    })
}

#[test]
fn a_starting_node_reaches_its_recorder_or_ends_as_published() {
    let startup = StartupIoContext::new();
    let (phase, effects) = supervise_ha_node(
        StartingPhase::Preparing,
        StartingEvent::PreparationEnded {
            exit: StartupExit::Returned(Ok(())),
            signal: None,
            startup,
            now: 0,
            stage: "stage".to_string(),
        },
    );
    assert!(matches!(phase, StartingPhase::Prepared));
    assert!(effects.is_empty());
    let (phase, _) =
        supervise_ha_node(phase, StartingEvent::RecorderAboutToStart { signal: None });
    assert!(matches!(phase, StartingPhase::StartingRecorder));
    let (phase, _) = supervise_ha_node(phase, StartingEvent::RecorderReported { started: true });
    assert!(matches!(phase, StartingPhase::RecorderRunning));

    let (phase, effects) = supervise_ha_node(
        StartingPhase::Preparing,
        StartingEvent::PreparationEnded {
            exit: StartupExit::Returned(Err(fail("no archive"))),
            signal: None,
            startup,
            now: 0,
            stage: "stage".to_string(),
        },
    );
    assert!(publishes(&effects, HaNodeStatus::Failed));
    assert!(matches!(
        phase,
        StartingPhase::Finished(Err(HaNodeError::Startup(HaStartupError::Source(message))))
            if message == "no archive"
    ));
}

#[test]
fn a_shutdown_cancels_preparation_by_its_deadline() {
    let token = ShutdownToken::new(0, SECOND, cancellation(9));
    let mut startup = StartupIoContext::new();
    let (phase, effects) = supervise_ha_node(
        StartingPhase::Preparing,
        StartingEvent::ShutdownChanged {
            closed: false,
            signal: Some(token),
            now: 0,
            finished: None,
            startup,
        },
    );
    assert!(matches!(
        phase,
        StartingPhase::CancellingPreparation { deadline: SECOND, .. }
    ));
    assert!(matches!(effects[0], SupervisorEffect::CancelStartup(used) if used == token));
    cancel_startup_for_token(&mut startup, &token);
    let (phase, effects) = supervise_ha_node(
        phase,
        StartingEvent::PreparationEnded {
            exit: StartupExit::Returned(Err(HaStartupError::Cancelled(token.startup_token()))),
            signal: Some(token),
            startup,
            now: 1,
            stage: "stage".to_string(),
        },
    );
    assert!(matches!(phase, StartingPhase::Finished(Ok(()))));
    assert!(publishes(&effects, HaNodeStatus::Stopped));
}

fn opening() -> PreparedSupervisor {
    PreparedSupervisor {
        phase: PreparedPhase::Opening,
        listener: ServiceListener::Bound,
        recorder: spawn_ha_recorder_server(HaRecorderTransport::Http),
    }
}

fn step(
    supervisor: PreparedSupervisor,
    event: SupervisorEvent,
) -> (PreparedSupervisor, Vec<SupervisorEffect>) {
    supervise_prepared_ha_node(supervisor, event)
}

fn serving() -> PreparedSupervisor {
    let (node, _) =
        step(opening(), SupervisorEvent::OpenFinished { result: Ok(()), signal: None, now: 0 });
    assert!(matches!(node.phase, PreparedPhase::BuildingRouter));
    let (node, _) = step(
        node,
        SupervisorEvent::RouterBuilt {
            result: Ok(AdminDrainLease::Disabled),
            signal: None,
            now: 0,
        },
    );
    let (node, effects) = step(
        node,
        SupervisorEvent::Activated { result: Ok(ServiceActivation::Listener), now: 0 },
    );
    assert!(effects.iter().any(|effect| matches!(effect, SupervisorEffect::StartService)));
    let (node, _) = step(
        node,
        SupervisorEvent::ServiceStarted {
            result: Ok(ServiceStartup::Started),
            signal: None,
            now: 0,
        },
    );
    let (node, _) = step(
        node,
        SupervisorEvent::ReadinessChecked { result: Ok(()), now: 0, fresh: cancellation(1) },
    );
    assert!(matches!(node.phase, PreparedPhase::Serving { .. }));
    node
}

fn clean_report() -> DrainReport {
    let quiesced = || IngressShutdown {
        result: Ok(()),
        ingress: IngressDisposition::Closed,
        tasks: TaskDisposition::Quiesced,
    };
    DrainReport {
        service: Some(quiesced()),
        admin_idle: true,
        recorder: Some(quiesced()),
        owner: Ok(()),
    }
}

#[test]
fn a_serving_node_drains_and_stops_on_request() {
    let token = ShutdownToken::new(0, SECOND, cancellation(2));
    let (node, _) = step(
        serving(),
        SupervisorEvent::ShutdownChanged {
            closed: false,
            signal: Some(token),
            now: 0,
            fresh: cancellation(3),
        },
    );
    let node = match node.phase {
        PreparedPhase::Installing(_) => step(node, SupervisorEvent::ShutdownInstalled(token)).0,
        _ => node,
    };
    let PreparedPhase::Draining { drain, .. } = &node.phase else {
        panic!("a requested shutdown drains the node");
    };
    assert_eq!(drain.deadline, SECOND);
    let (node, effects) = step(node, SupervisorEvent::Drained(clean_report()));
    assert!(matches!(node.phase, PreparedPhase::Finished(Ok(()))));
    assert!(publishes(&effects, HaNodeStatus::Stopped));
}

/// The deadline that a node which stops is bound by.
fn stopping_deadline(node: &PreparedSupervisor) -> Option<u64> {
    match &node.phase {
        PreparedPhase::StoppingRecorder { deadline, .. } => Some(*deadline),
        PreparedPhase::AwaitingOpen { deadline, .. } => Some(*deadline),
        PreparedPhase::Draining { drain, .. } => Some(drain.deadline),
        _ => None,
    }
}

#[test]
fn a_requested_shutdown_fixes_the_deadline_in_every_phase() {
    let token = ShutdownToken::new(0, SECOND, cancellation(2));
    let now = SECOND / 2;
    let opened = || {
        step(opening(), SupervisorEvent::OpenFinished { result: Ok(()), signal: None, now: 0 }).0
    };
    let routed = || {
        let result = Ok(AdminDrainLease::Disabled);
        step(opened(), SupervisorEvent::RouterBuilt { result, signal: None, now: 0 }).0
    };
    let activated = || {
        let result = Ok(ServiceActivation::Listener);
        step(routed(), SupervisorEvent::Activated { result, now: 0 }).0
    };
    let recorder_exited = |signal| SupervisorEvent::RecorderExited {
        exit: TaskExit::Returned(Ok(())),
        receipt: true,
        reported: None,
        signal,
        now,
        fresh: cancellation(3),
    };
    let stopped = [
        step(
            opening(),
            SupervisorEvent::OpenFinished {
                result: Err(HaOpenError::Cancelled { deadline: SECOND, cleanup: Ok(()) }),
                signal: Some(token),
                now,
            },
        )
        .0,
        step(opening(), recorder_exited(Some(token))).0,
        step(
            step(opening(), recorder_exited(None)).0,
            SupervisorEvent::ShutdownInstalled(token),
        )
        .0,
        step(
            opened(),
            SupervisorEvent::RouterBuilt {
                result: Ok(AdminDrainLease::Disabled),
                signal: Some(token),
                now,
            },
        )
        .0,
        step(
            routed(),
            SupervisorEvent::Activated {
                result: Ok(ServiceActivation::Shutdown { deadline: SECOND, listener_closed: true }),
                now,
            },
        )
        .0,
        step(
            activated(),
            SupervisorEvent::ServiceStarted {
                result: Ok(ServiceStartup::Shutdown(SECOND)),
                signal: Some(token),
                now,
            },
        )
        .0,
        step(
            activated(),
            SupervisorEvent::ServiceStarted {
                result: Ok(ServiceStartup::Started),
                signal: Some(token),
                now,
            },
        )
        .0,
        step(step(serving(), recorder_exited(None)).0, SupervisorEvent::ShutdownInstalled(token)).0,
    ];
    for node in &stopped {
        assert_eq!(stopping_deadline(node), Some(SECOND));
    }
    let (failed, _) = step(
        opened(),
        SupervisorEvent::RouterBuilt {
            result: Err(HaNodeError::ServiceServer("no router".to_string())),
            signal: Some(token),
            now,
        },
    );
    assert_eq!(stopping_deadline(&failed), Some(now + 25 * SECOND));
}

#[test]
fn a_service_that_ends_unasked_takes_the_node_down() {
    let (node, effects) = step(
        serving(),
        SupervisorEvent::ServiceExited {
            exit: TaskExit::Returned(Ok(())),
            receipt: true,
            now: 0,
            fresh: cancellation(4),
        },
    );
    assert!(effects
        .iter()
        .any(|effect| matches!(effect, SupervisorEffect::RequestShutdown { .. })));
    let internal = ShutdownToken::new_internal(0, 25 * SECOND, cancellation(4));
    let (node, _) = step(node, SupervisorEvent::ShutdownInstalled(internal));
    let (node, effects) = step(
        node,
        SupervisorEvent::Drained(DrainReport { service: None, ..clean_report() }),
    );
    assert!(publishes(&effects, HaNodeStatus::Failed));
    assert!(matches!(
        node.phase,
        PreparedPhase::Finished(Err(HaNodeError::ServiceServer(message)))
            if message == "service server stopped unexpectedly"
    ));
}

#[test]
fn failed_workers_take_the_node_down() {
    let (node, _) = step(
        serving(),
        SupervisorEvent::WorkersEnded {
            failure: Some(ErrorClassification {
                code: "worker.lost".to_string(),
                retryable: false,
            }),
            now: 0,
            fresh: cancellation(5),
        },
    );
    let internal = ShutdownToken::new_internal(0, 25 * SECOND, cancellation(5));
    let (node, _) = step(node, SupervisorEvent::ShutdownInstalled(internal));
    let (node, _) = step(node, SupervisorEvent::Drained(clean_report()));
    assert!(matches!(
        node.phase,
        PreparedPhase::Finished(Err(HaNodeError::WorkerFailure(classification)))
            if classification.code == "worker.lost"
    ));
}

#[test]
fn a_failed_opening_stops_the_recorder_first() {
    let (node, effects) = step(
        opening(),
        SupervisorEvent::OpenFinished {
            result: Err(HaOpenError::Startup { error: fail("no quorum"), cleanup: Ok(()) }),
            signal: None,
            now: 0,
        },
    );
    assert!(matches!(node.phase, PreparedPhase::StoppingRecorder { .. }));
    assert!(effects.iter().any(|effect| matches!(effect, SupervisorEffect::SignalRecorder)));
    let (node, _) = step(node, SupervisorEvent::RecorderStopped(Ok(())));
    assert!(matches!(
        node.phase,
        PreparedPhase::Finished(Err(HaNodeError::Startup(HaStartupError::Source(message))))
            if message == "no quorum"
    ));
}

#[test]
fn activation_needs_the_exact_stop() {
    let stop = LogAnchor::new(9, LogHash::zero());
    let other = LogAnchor::new(10, LogHash::zero());
    let waiting = NodeStatus { active: false, stop: Some(stop), ready: true };
    assert_eq!(plan_activation(waiting, Some(stop)), ActivationPlan::Activate);
    assert_eq!(plan_activation(waiting, Some(other)), ActivationPlan::Refuse);
    assert_eq!(plan_activation(waiting, None), ActivationPlan::Report);
    let active = NodeStatus { active: true, stop: None, ready: true };
    assert_eq!(plan_activation(active, Some(stop)), ActivationPlan::Report);
    assert!(!refused_activation().retryable);
    assert_eq!(status_of(active, true), HaNodeStatus::Ready);
    assert_eq!(status_of(active, false), HaNodeStatus::Degraded);
    assert_eq!(status_of(waiting, true), HaNodeStatus::AwaitingActivation);
    let failure = |retryable: bool| NodeError {
        kind: NodeErrorKind::Contention,
        retryable,
        message: "contended".to_string(),
    };
    assert!(settle_activation(Err(failure(false)), Ok(active)).is_ok());
    assert!(settle_activation(Err(failure(true)), Ok(waiting)).is_ok());
    assert!(settle_activation(Err(failure(false)), Ok(waiting)).is_err());
}

#[test]
fn readiness_is_published_only_once_it_is_earned() {
    let startup = StartupIoContext::new();
    let check = ReadinessCheck::start(RhizaHandle { id: 1 }, None, None);
    let (check, effects) = update_ha_readiness(
        check,
        ReadinessEvent::StartupChecked { result: Ok(()), signal: None, startup },
    );
    assert!(effects.is_empty());
    let (check, effects) = update_ha_readiness(
        check,
        ReadinessEvent::AttemptEnded {
            exit: AttemptExit::Returned(Ok(NodeStatus { active: true, stop: None, ready: true })),
            baseline_required: false,
            startup,
        },
    );
    assert!(!publishes(&effects, HaNodeStatus::Ready));
    assert!(matches!(check.phase, ReadinessPhase::Publishing { .. }));
    let (check, effects) = update_ha_readiness(
        check,
        ReadinessEvent::Evaluated { write_allowed: true, signal: None },
    );
    assert!(publishes(&effects, HaNodeStatus::Ready));
    assert!(matches!(check.phase, ReadinessPhase::Done(Ok(()))));
}

#[test]
fn only_momentary_durability_failures_are_waited_out() {
    for kind in [
        DurabilityErrorKind::Unavailable,
        DurabilityErrorKind::ArchiveObjectStore,
        DurabilityErrorKind::ArchiveCompareAndSwapRetriesExhausted,
        DurabilityErrorKind::ArchiveGcBarrierActive,
        DurabilityErrorKind::ArchiveGcBarrierBusy,
    ] {
        assert!(kind.is_transient());
    }
    assert!(!DurabilityErrorKind::Other.is_transient());
    let error =
        DurabilityError { kind: DurabilityErrorKind::Other, message: "corrupt".to_string() };
    assert_eq!(error.message, "corrupt");
}

fn quorum_away(message: &str) -> RetryEvent {
    RetryEvent::AttemptEnded {
        exit: StartupExit::Returned(Err(NodeError {
            kind: NodeErrorKind::Unavailable,
            retryable: true,
            message: message.to_string(),
        })),
        signal: None,
        startup: StartupIoContext::new(),
    }
}

#[test]
fn opening_is_tried_again_while_the_quorum_is_away() {
    assert_eq!(STARTUP_RETRY_DELAY, 100_000_000);
    let startup = StartupIoContext::new();
    let (phase, _) = open_runtime_with_retry(
        RetryPhase::Ready { reported: None },
        RetryEvent::AboutToBegin { signal: None },
    );
    assert!(matches!(phase, RetryPhase::Attempting { .. }));
    let (phase, _) = open_runtime_with_retry(phase, quorum_away("quorum away"));
    assert!(matches!(phase, RetryPhase::BackingOff { .. }));
    let (phase, _) = open_runtime_with_retry(phase, RetryEvent::DelayElapsed);
    assert!(matches!(phase, RetryPhase::Ready { .. }));
    let token = ShutdownToken::new(0, SECOND, cancellation(1));
    let (phase, _) = open_runtime_with_retry(
        phase,
        RetryEvent::AboutToBegin { signal: Some(token) },
    );
    assert!(matches!(
        phase,
        RetryPhase::Done(Err(HaOpenError::Cancelled { deadline: SECOND, cleanup: Ok(()) }))
    ));
    let broken = NodeError {
        kind: NodeErrorKind::Fatal,
        retryable: false,
        message: "broken".to_string(),
    };
    let (phase, _) = rehydrate_recorder_with_retry(
        RetryPhase::Attempting { reported: None },
        RetryEvent::AttemptEnded {
            exit: StartupExit::Returned(Err(broken)),
            signal: None,
            startup,
        },
    );
    assert!(matches!(
        phase,
        RetryPhase::Done(Err(HaOpenError::Startup {
            error: HaStartupError::Source(message),
            ..
        })) if message == "broken"
    ));
    assert!(require_startup_active(&None).is_ok());
    assert!(require_startup_active(&Some(token)).is_err());
}

#[test]
fn a_cancelled_attempt_keeps_the_requested_deadline() {
    let token = ShutdownToken::new(0, SECOND, cancellation(1));
    let (phase, effects) = open_runtime_with_retry(
        RetryPhase::Attempting { reported: None },
        RetryEvent::ShutdownChanged {
            closed: false,
            signal: Some(token),
            now: SECOND / 2,
            finished: None,
            startup: StartupIoContext::new(),
        },
    );
    assert!(effects == vec![OpenEffect::CancelStartup(token)]);
    assert!(matches!(phase, RetryPhase::CancellingAttempt { deadline: SECOND, .. }));
    let (phase, _) = open_runtime_with_retry(
        phase,
        RetryEvent::AttemptDeadline { stage: "runtime open".to_string() },
    );
    assert!(matches!(
        phase,
        RetryPhase::Done(Err(HaOpenError::Cancelled {
            deadline: SECOND,
            cleanup: Err(HaNodeError::StartupIoDeadlineExceeded { .. }),
        }))
    ));
    let coordinator = OpeningNode {
        phase: OpenPhase::OpeningCoordinator,
        preparation: StartupPreparation::RecorderFirst {
            open_policy: RecorderOpenPolicy::MustExist,
        },
        has_successor_stop: false,
    };
    let (cancelled, effects) = open_inner(
        coordinator,
        OpenEvent::ShutdownChanged { closed: false, signal: Some(token), now: SECOND / 2 },
    );
    assert!(effects == vec![OpenEffect::CancelRuntime]);
    assert!(matches!(
        cancelled.phase,
        OpenPhase::Done(Err(HaOpenError::Cancelled { deadline: SECOND, cleanup: Ok(()) }))
    ));
}

#[test]
fn a_waiting_quorum_is_reported_once_per_new_message() {
    let mut phase = RetryPhase::Ready { reported: None };
    let mut told = Vec::new();
    for message in ["two of three away", "two of three away", "lost a race", "two of three away"] {
        for event in [
            RetryEvent::AboutToBegin { signal: None },
            quorum_away(message),
            RetryEvent::AboutToBegin { signal: None },
            RetryEvent::DelayElapsed,
        ] {
            let (next, effects) = open_runtime_with_retry(phase, event);
            for effect in effects {
                match effect {
                    OpenEffect::Report(text) => told.push(text),
                    _ => panic!("an attempt that waits asks for nothing else"),
                }
            }
            phase = next;
        }
    }
    assert_eq!(
        told,
        vec![
            "runtime startup waiting for recorder quorum: two of three away",
            "runtime startup waiting for recorder quorum: lost a race",
            "runtime startup waiting for recorder quorum: two of three away",
        ]
    );
    let (_, effects) = rehydrate_recorder_with_retry(
        RetryPhase::Attempting { reported: None },
        quorum_away("two of three away"),
    );
    assert!(effects.is_empty());
}

#[test]
fn a_recorder_joins_only_after_its_node_caught_up() {
    let root = LogAnchor::new(4, LogHash::zero());
    let mut opening = OpeningNode {
        phase: OpenPhase::BuildingConsensus,
        preparation: StartupPreparation::RuntimeFirstWithPeerCatchup {
            checkpoint_root: root,
            open_policy: RecorderOpenPolicy::CreateAfterRehydration,
        },
        has_successor_stop: false,
    };
    let mut joined_at = Vec::new();
    let events = vec![
        OpenEvent::ConsensusBuilt(Ok(())),
        OpenEvent::RuntimeOpened(Ok(())),
        OpenEvent::CheckpointVerified(Ok(())),
        OpenEvent::RecorderRehydrated(Ok(())),
        OpenEvent::CoordinatorOpened(Ok(4)),
        OpenEvent::CoordinatorSettled { signal: None },
        OpenEvent::AppliedIndexRead(Ok(6)),
    ];
    for (index, event) in events.into_iter().enumerate() {
        let (next, effects) = open_inner(opening, event);
        if effects.contains(&OpenEffect::ActivateRecorder) {
            joined_at.push(index);
        }
        opening = next;
    }
    assert!(matches!(opening.phase, OpenPhase::Done(Ok(()))));
    assert_eq!(joined_at, vec![3]);
    let failure = PendingHaRuntime { present: true }.fail(fail("x"));
    assert!(failure.cancel_runtime);
}

#[test]
fn snapshots_render_how_a_node_ended() {
    assert_eq!(HaNodeSnapshot::ended(&Ok(())).status, HaNodeStatus::Stopped);
    let failed = HaNodeSnapshot::ended(&Err(HaNodeError::Cancelled));
    assert_eq!(failed.status, HaNodeStatus::Failed);
    assert!(matches!(failed.terminal_error, Some(HaNodeError::Cancelled)));
}
