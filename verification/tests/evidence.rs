use rhiza_ha::activation::ServiceListener;
use rhiza_ha::config::{CheckpointIdentity, ExecutionProfile};
use rhiza_ha::error::{
    conservative_shutdown_deadline_error, ErrorSource, HaNodeError, HaShutdownCause,
    HaStartupError, ShutdownTaskFailure, SourceError, SourceErrorKind, WorkerError,
};
use rhiza_ha::evidence::{
    conservative_shutdown_mutation, ingress_after_service_wait, merge_shutdown_evidence,
    pre_service_shutdown_evidence, uncertain_shutdown_evidence, ShutdownEvidence,
};
use rhiza_ha::ingress::{
    wait_for_tracked_axum_ingress, AxumIngressProgress, AxumIngressWait, IngressEvent,
    IngressShutdown, TrackedAxumIngress, WaitAction,
};
use rhiza_ha::local_files::{read_and_validate_local_checkpoint_identity_marker, MarkerReading};
use rhiza_ha::log::LogHash;
use rhiza_ha::marker_write::{
    write_local_checkpoint_identity_marker, MarkerEvent, MarkerPhase, MarkerStep,
};
use rhiza_ha::node::{HaNode, HaNodeSnapshot, HaSuccessorNode};
use rhiza_ha::open::HaOpenError;
use rhiza_ha::owner::{
    shutdown_owner_error, OwnerError, ShutdownCause, ShutdownError, ShutdownPhase,
};
use rhiza_ha::preparation::{LocalRecorderState, RecorderOpenPolicy};
use rhiza_ha::prepare::{recover_local_recorder_before_view_recovery, RecorderRecovery};
use rhiza_ha::scope::{
    spawn_ha_recorder_server, wait_for_recorder_server, AdminDrainLease, HaRecorderTransport,
    HaTaskScope, RecorderServerProgress, ServiceTaskUnstarted,
};
use rhiza_ha::staging::{StagingExit, StagingTaskExit, StagingWait};
use rhiza_ha::status::{
    HaNodeStatus, HaShutdownPhase, IngressDisposition, MutationCertainty, TaskDisposition,
};
use rhiza_ha::successor::{publish_supervisor_end, Moment, SuccessorEffect};
use rhiza_ha::successor_child::{
    supervise_live_successor_child_after_staging_with_child, ChildEvent, ChildPhase,
};
use rhiza_ha::successor_prepare::{
    acquire_checkpoint_prepare_permit, open_recorder_for_preparation, PreparePermitEvent,
    PreparePermitPhase, RecorderOpenEvent, RecorderOpenPhase, HA_CHECKPOINT_PREPARE_CONCURRENCY,
};
use rhiza_ha::supervise::{
    supervise_prepared_ha_node, PreparedPhase, PreparedSupervisor, SupervisorEffect,
    SupervisorEvent,
};
use rhiza_ha::task::{
    wait_for_ha_supervisor_before, ServerRole, SupervisorWait, TaskExit,
};
use rhiza_ha::token::{
    cancel_startup_for_token, ShutdownToken, StartupCancellationToken, StartupIoContext,
    HA_SERVER_SHUTDOWN_TIMEOUT,
};
use tokio::sync::{Semaphore, SemaphorePermit, TryAcquireError};

const MILLIS: u64 = 1_000_000;
const CLOSED_UNCERTAIN: ShutdownEvidence = ShutdownEvidence {
    ingress: IngressDisposition::Closed,
    tasks: TaskDisposition::Uncertain,
};

fn cancellation(id: u64) -> StartupCancellationToken {
    StartupCancellationToken { id }
}

fn token() -> ShutdownToken {
    ShutdownToken::new(0, 250 * MILLIS, cancellation(1))
}

fn service_error(message: &str) -> HaNodeError {
    HaNodeError::ServiceServer(message.to_string())
}

/// Carries the admission of one preparation on until it is over, or until it
/// has to wait for a slot.
fn take_prepare_slot<'a>(
    phase: PreparePermitPhase,
    slots: &'a Semaphore,
    startup: &StartupIoContext,
) -> (PreparePermitPhase, Option<SemaphorePermit<'a>>) {
    let cancelled =
        startup.cancellation.map(|token| HaStartupError::Cancelled(token.startup_token()));
    let mut phase = phase;
    let mut permit = None;
    loop {
        let event = match &phase {
            PreparePermitPhase::Checking | PreparePermitPhase::Confirming => {
                PreparePermitEvent::Checked(match &cancelled {
                    Some(error) => Err(error.clone()),
                    None => Ok(()),
                })
            }
            PreparePermitPhase::Waiting => match &cancelled {
                Some(error) => PreparePermitEvent::Cancelled(error.clone()),
                None => match slots.try_acquire() {
                    Ok(acquired) => {
                        permit = Some(acquired);
                        PreparePermitEvent::Acquired { open: true }
                    }
                    Err(TryAcquireError::NoPermits) => return (phase, None),
                    Err(TryAcquireError::Closed) => PreparePermitEvent::Acquired { open: false },
                },
            },
            PreparePermitPhase::Done(Ok(())) => return (phase, permit),
            PreparePermitPhase::Done(Err(_)) => return (phase, None),
        };
        phase = acquire_checkpoint_prepare_permit(phase, event);
    }
}

#[test]
fn checkpoint_prepare_slots_cap_waiters_and_close_cancels_without_local_effect() {
    assert_eq!(HA_CHECKPOINT_PREPARE_CONCURRENCY, 2);
    let slots = Semaphore::new(2);
    let first_startup = StartupIoContext::new();
    let second_startup = StartupIoContext::new();
    let (phase, first) = take_prepare_slot(PreparePermitPhase::Checking, &slots, &first_startup);
    assert!(matches!(phase, PreparePermitPhase::Done(Ok(()))));
    assert!(first.is_some());
    let (phase, second) = take_prepare_slot(PreparePermitPhase::Checking, &slots, &second_startup);
    assert!(matches!(phase, PreparePermitPhase::Done(Ok(()))));
    assert!(second.is_some());
    assert_eq!(slots.available_permits(), 0);

    let mut waiting_startup = StartupIoContext::new();
    let (waiting, permit) =
        take_prepare_slot(PreparePermitPhase::Checking, &slots, &waiting_startup);
    assert!(matches!(waiting, PreparePermitPhase::Waiting));
    assert!(permit.is_none());

    let closing = ShutdownToken::new(0, 1_000 * MILLIS, cancellation(3));
    cancel_startup_for_token(&mut waiting_startup, &closing);
    let (cancelled, permit) = take_prepare_slot(waiting, &slots, &waiting_startup);
    assert!(matches!(
        cancelled,
        PreparePermitPhase::Done(Err(HaStartupError::Cancelled(token)))
            if token == closing.startup_token()
    ));
    assert!(permit.is_none(), "a cancelled prepare waiter must never own local startup I/O");
    assert_eq!(slots.available_permits(), 0);

    drop(first);
    assert_eq!(slots.available_permits(), 1);
    drop(second);
    assert_eq!(slots.available_permits(), 2);
}

#[test]
fn a_cancellation_after_the_slot_was_taken_still_ends_the_preparation() {
    let confirmed = acquire_checkpoint_prepare_permit(
        PreparePermitPhase::Waiting,
        PreparePermitEvent::Acquired { open: true },
    );
    assert!(matches!(
        acquire_checkpoint_prepare_permit(
            confirmed,
            PreparePermitEvent::Checked(Err(HaStartupError::Cancelled(cancellation(3)))),
        ),
        PreparePermitPhase::Done(Err(HaStartupError::Cancelled(_)))
    ));
    let slots = Semaphore::new(1);
    slots.close();
    let (closed, permit) =
        take_prepare_slot(PreparePermitPhase::Checking, &slots, &StartupIoContext::new());
    assert!(matches!(
        closed,
        PreparePermitPhase::Done(Err(HaStartupError::Source(message)))
            if message == "checkpoint remote prepare admission closed"
    ));
    assert!(permit.is_none());
}

fn startup_fence_test_identity() -> CheckpointIdentity {
    CheckpointIdentity {
        cluster_id: "rhiza:sql:cluster-a".to_string(),
        epoch: 1,
        config_id: 1,
        config_digest: LogHash { word0: 1, word1: 2, word2: 3, word3: 4 },
        recovery_generation: 1,
    }
}

#[test]
fn startup_close_before_marker_admission_leaves_data_dir_unchanged() {
    let MarkerStep { phase, remove_temporary } = write_local_checkpoint_identity_marker(
        MarkerPhase::Admission,
        MarkerEvent::Admitted(Err(HaStartupError::Cancelled(cancellation(3)))),
    );
    assert!(matches!(phase, MarkerPhase::Done(Err(HaStartupError::Cancelled(_)))));
    assert!(!remove_temporary);
}

#[test]
fn admitted_local_effect_preserves_source_error_after_close() {
    let invalid = read_and_validate_local_checkpoint_identity_marker(
        MarkerReading::Undecodable,
        ExecutionProfile::Sqlite,
        &startup_fence_test_identity(),
        &"node-1".to_string(),
    );
    let mut phase = MarkerPhase::Admission;
    for event in [
        MarkerEvent::Admitted(Ok(())),
        MarkerEvent::Finished(Ok(())),
        MarkerEvent::DirectoryInspected(Ok(true)),
        MarkerEvent::MarkerInspected(Ok(true)),
        MarkerEvent::Validated(invalid),
    ] {
        phase = write_local_checkpoint_identity_marker(phase, event).phase;
    }
    assert!(matches!(
        phase,
        MarkerPhase::Done(Err(HaStartupError::Source(message)))
            if message == "local checkpoint identity marker is invalid"
    ));
}

#[test]
fn closed_startup_does_not_recover_or_create_recorder() {
    let closed = || HaStartupError::Cancelled(cancellation(3));
    assert!(matches!(
        recover_local_recorder_before_view_recovery(RecorderRecovery::NotAdmitted(closed())),
        Err(HaStartupError::Cancelled(_))
    ));
    for policy in [RecorderOpenPolicy::CreateAfterRehydration, RecorderOpenPolicy::MustExist] {
        assert!(matches!(
            open_recorder_for_preparation(
                RecorderOpenPhase::Admission { policy },
                RecorderOpenEvent::Admitted(Err(closed())),
            ),
            RecorderOpenPhase::Done(Err(HaStartupError::Cancelled(_)))
        ));
    }
    assert!(matches!(
        recover_local_recorder_before_view_recovery(RecorderRecovery::Inspected(Ok(
            LocalRecorderState::Valid
        ))),
        Ok(LocalRecorderState::Valid)
    ));
}

fn running_scope(admin: AdminDrainLease) -> HaTaskScope {
    let mut scope = HaTaskScope::new(admin, ServiceTaskUnstarted::OwnedListenerDropped);
    scope.start_service(TrackedAxumIngress::new());
    scope
}

/// Waits for a service through these events, of which the last ends the wait.
fn service_wait(scope: &HaTaskScope, events: Vec<IngressEvent>) -> (IngressShutdown, bool) {
    let mut wait: AxumIngressWait = scope.service_wait().unwrap();
    let mut forced = false;
    for event in events {
        match wait_for_tracked_axum_ingress(wait, ServerRole::Service, event) {
            AxumIngressProgress::Waiting { wait: next, action } => {
                forced = forced || action == WaitAction::ForceConnections;
                wait = next;
            }
            AxumIngressProgress::Finished { shutdown, .. } => return (shutdown, forced),
        }
    }
    panic!("the wait did not end");
}

fn ended(exit: TaskExit, receipt: bool) -> IngressEvent {
    IngressEvent::TaskExit { exit, receipt, reported: None }
}

#[test]
fn global_shutdown_bias_does_not_swallow_ready_service_error() {
    let mut scope = running_scope(AdminDrainLease::Disabled);
    let exit = TaskExit::Returned(Err(service_error("simultaneous service error")));
    let (waited, _) = service_wait(&scope, vec![ended(exit, true)]);
    let drained = scope.drain_before(Some(waited), true);
    assert!(matches!(
        drained.result,
        Err(HaNodeError::ServiceServer(message)) if message == "simultaneous service error"
    ));
    assert_eq!(drained.evidence.ingress, IngressDisposition::Closed);
    assert_eq!(drained.evidence.tasks, TaskDisposition::Uncertain);
}

#[test]
fn task_scope_short_deadline_force_keeps_receipted_ingress_and_uncertain_tasks() {
    let mut scope = running_scope(AdminDrainLease::Disabled);
    let (waited, forced) = service_wait(
        &scope,
        vec![
            IngressEvent::ListenerReceipt { received: true },
            IngressEvent::TimerDue,
            ended(TaskExit::Returned(Ok(())), false),
        ],
    );
    assert!(forced);
    let drained = scope.drain_before(Some(waited), true);
    assert!(drained.result.is_ok());
    assert_eq!(drained.evidence, CLOSED_UNCERTAIN);
}

#[test]
fn recorder_http_ingress_force_keeps_listener_closed_and_tasks_uncertain() {
    let mut wait = spawn_ha_recorder_server(HaRecorderTransport::Http).wait();
    for event in [IngressEvent::ListenerReceipt { received: true }, IngressEvent::TimerDue] {
        match wait_for_recorder_server(wait, event) {
            RecorderServerProgress::Waiting { wait: next, .. } => wait = next,
            RecorderServerProgress::Finished { .. } => panic!("the task is still running"),
        }
    }
    let RecorderServerProgress::Finished { shutdown, .. } =
        wait_for_recorder_server(wait, ended(TaskExit::Returned(Ok(())), false))
    else {
        panic!("the task ended");
    };
    assert!(shutdown.result.is_ok());
    assert_eq!(shutdown.evidence(), CLOSED_UNCERTAIN);
}

#[test]
fn completed_http_recorder_error_caches_closed_but_uncertain_evidence() {
    let mut task = spawn_ha_recorder_server(HaRecorderTransport::Http);
    assert_eq!(task.completed_shutdown_evidence(), None);
    let exit =
        TaskExit::Returned(Err(HaNodeError::RecorderServer("unexpected recorder exit".into())));
    task.observe_exit(&exit, true, None);
    let evidence = task.completed_shutdown_evidence();
    assert_eq!(evidence, Some(CLOSED_UNCERTAIN));
    assert_eq!(
        merge_shutdown_evidence(pre_service_shutdown_evidence(), evidence),
        CLOSED_UNCERTAIN
    );
}

#[test]
fn completed_http_recorder_panic_without_receipt_stays_fully_uncertain() {
    let mut task = spawn_ha_recorder_server(HaRecorderTransport::Http);
    task.observe_exit(&TaskExit::Failed("recorder test panic".into()), false, None);
    let evidence = task.completed_shutdown_evidence();
    assert_eq!(evidence, Some(uncertain_shutdown_evidence()));
    assert_eq!(
        merge_shutdown_evidence(pre_service_shutdown_evidence(), evidence),
        uncertain_shutdown_evidence()
    );
}

#[test]
fn legacy_service_task_completion_without_a_receipt_keeps_ingress_uncertain() {
    for exit in [
        TaskExit::Returned(Err(service_error("test service error"))),
        TaskExit::Failed("service join failure".into()),
    ] {
        let (waited, _) =
            service_wait(&running_scope(AdminDrainLease::Disabled), vec![ended(exit, false)]);
        assert!(matches!(waited.result, Err(HaNodeError::ServiceServer(_))));
        assert_eq!(waited.ingress, IngressDisposition::Uncertain);
    }
    assert_eq!(ingress_after_service_wait(false), IngressDisposition::Uncertain);
}

#[test]
fn service_error_and_admin_deadline_preserve_primary_and_cleanup_evidence() {
    let mut scope = running_scope(AdminDrainLease::Enabled);
    scope.begin_shutdown();
    let exit = TaskExit::Returned(Err(service_error("exact service source failure")));
    let (waited, _) = service_wait(&scope, vec![ended(exit, true)]);
    let shutdown = scope.drain_before(Some(waited), false);
    let Err(HaNodeError::Cleanup { primary, cleanup }) = shutdown.result else {
        panic!("service source error and admin deadline must both be retained");
    };
    assert!(matches!(
        *primary,
        HaNodeError::ServiceServer(ref message) if message == "exact service source failure"
    ));
    let HaNodeError::ShutdownDeadlineExceeded { phase, ingress, tasks, mutation } = *cleanup else {
        panic!("the admin routes ran into the deadline");
    };
    assert_eq!(phase, HaShutdownPhase::Service);
    assert_eq!(ShutdownEvidence { ingress, tasks }, CLOSED_UNCERTAIN);
    assert_eq!(mutation, conservative_shutdown_mutation());
    assert_eq!(shutdown.evidence, CLOSED_UNCERTAIN);
}

#[test]
fn timeout_deadlines_never_understate_possible_mutation() {
    let (waited, forced) = service_wait(
        &running_scope(AdminDrainLease::Disabled),
        vec![IngressEvent::TimerDue, IngressEvent::TimerDue, IngressEvent::TimerDue],
    );
    assert!(forced);
    assert_eq!(waited.ingress, IngressDisposition::Uncertain);
    assert!(matches!(
        waited.result,
        Err(HaNodeError::ShutdownDeadlineExceeded {
            phase: HaShutdownPhase::Service,
            mutation,
            ..
        }) if mutation == conservative_shutdown_mutation()
    ));
    let outcome = wait_for_ha_supervisor_before(
        SupervisorWait::DeadlineReached { finished: false },
        "test supervisor",
    );
    assert!(outcome.abort);
    assert!(matches!(
        outcome.result,
        Err(HaNodeError::ShutdownDeadlineExceeded {
            phase: HaShutdownPhase::Supervisor,
            mutation,
            ..
        }) if mutation == conservative_shutdown_mutation()
    ));
    assert!(matches!(
        conservative_shutdown_deadline_error(HaShutdownPhase::Service, CLOSED_UNCERTAIN),
        HaNodeError::ShutdownDeadlineExceeded {
            phase: HaShutdownPhase::Service,
            ingress: IngressDisposition::Closed,
            tasks: TaskDisposition::Uncertain,
            mutation,
        } if mutation == conservative_shutdown_mutation()
    ));
}

#[test]
fn shutdown_owner_error_maps_actual_shutdown_gate_deadline_and_cleanup() {
    let lower = OwnerError::Shutdown(ShutdownError {
        phase: ShutdownPhase::InFlightOperations,
        cause: ShutdownCause::DeadlineExceeded,
        cleanup: vec![ShutdownError {
            phase: ShutdownPhase::BackgroundWorkers,
            cause: ShutdownCause::Source(SourceError {
                kind: SourceErrorKind::Closed,
                message: "closed".into(),
            }),
            cleanup: vec![],
            task_source: None,
        }],
        task_source: None,
    });
    let HaNodeError::Cleanup { primary, cleanup } =
        shutdown_owner_error(lower, uncertain_shutdown_evidence())
    else {
        panic!("the worker's failure follows the deadline");
    };
    assert!(matches!(
        *primary,
        HaNodeError::ShutdownDeadlineExceeded {
            phase: HaShutdownPhase::InFlightOperations,
            mutation: MutationCertainty::Uncertain { local_io: true, recorder_rpc: true, .. },
            ..
        }
    ));
    assert!(matches!(
        *cleanup,
        HaNodeError::ShutdownIncomplete {
            phase: HaShutdownPhase::BackgroundWorkers,
            cause: HaShutdownCause::Source(SourceError { kind: SourceErrorKind::Closed, .. }),
            mutation: MutationCertainty::Uncertain { local_io: true, .. },
            ..
        }
    ));
}

#[test]
fn shutdown_owner_error_maps_actual_worker_unknown_outcome_and_panic() {
    let unknown = OwnerError::Shutdown(ShutdownError {
        phase: ShutdownPhase::BackgroundWorkers,
        cause: ShutdownCause::RecorderOutcomeUnknown,
        cleanup: vec![],
        task_source: None,
    });
    assert!(matches!(
        shutdown_owner_error(unknown, uncertain_shutdown_evidence()),
        HaNodeError::ShutdownIncomplete {
            phase: HaShutdownPhase::BackgroundWorkers,
            cause: HaShutdownCause::RecorderOutcomeUnknown,
            mutation: MutationCertainty::Uncertain { local_io: true, .. },
            ..
        }
    ));

    let panic = OwnerError::Shutdown(ShutdownError {
        phase: ShutdownPhase::BackgroundWorkers,
        cause: ShutdownCause::TaskFailure,
        cleanup: vec![],
        task_source: Some(WorkerError { failure: ShutdownTaskFailure::Panicked }),
    });
    let mapped = shutdown_owner_error(panic, uncertain_shutdown_evidence());
    assert!(matches!(
        mapped,
        HaNodeError::ShutdownIncomplete {
            phase: HaShutdownPhase::BackgroundWorkers,
            cause: HaShutdownCause::TaskFailure(ref error),
            mutation: MutationCertainty::Uncertain { local_io: true, .. },
            ..
        } if error.failure == ShutdownTaskFailure::Panicked
    ));
    let Some(ErrorSource::Shutdown(cause)) = mapped.source() else {
        panic!("the cause lies below the shutdown error");
    };
    let Some(ErrorSource::Worker(worker)) = cause.source() else {
        panic!("the worker's receipt lies below the cause");
    };
    let Some(ErrorSource::Task(join)) = worker.source() else {
        panic!("the end of the task lies below the worker's receipt");
    };
    assert_eq!(*join, ShutdownTaskFailure::Panicked);
}

#[test]
fn a_shutdown_cause_names_what_lies_below_it() {
    assert!(HaShutdownCause::RecorderOutcomeUnknown.source().is_none());
    let closed = HaShutdownCause::Source(SourceError {
        kind: SourceErrorKind::Closed,
        message: "closed".into(),
    });
    assert!(matches!(
        closed.source(),
        Some(ErrorSource::Owner(error)) if error.kind == SourceErrorKind::Closed
    ));
    let cancelled = WorkerError { failure: ShutdownTaskFailure::Cancelled };
    assert!(matches!(
        cancelled.source(),
        Some(ErrorSource::Task(ShutdownTaskFailure::Cancelled))
    ));
    assert_eq!(
        HaShutdownCause::TaskFailure(WorkerError { failure: ShutdownTaskFailure::Panicked })
            .message(),
        "task failure: Panicked"
    );
}

fn opening() -> PreparedSupervisor {
    PreparedSupervisor {
        phase: PreparedPhase::Opening,
        listener: ServiceListener::Bound,
        recorder: spawn_ha_recorder_server(HaRecorderTransport::Http),
    }
}

/// The recorder ends while the node opens under a requested shutdown.
fn open_phase_shutdown(exit: TaskExit) -> (Result<(), HaNodeError>, HaNodeSnapshot) {
    let token = ShutdownToken::new(0, 5_000 * MILLIS, cancellation(1));
    let signal = Some(token);
    let mut supervisor = opening();
    let mut last: Option<HaNodeSnapshot> = None;
    for event in [
        SupervisorEvent::RecorderExited {
            exit,
            receipt: true,
            reported: None,
            signal,
            now: 0,
            fresh: cancellation(7),
        },
        SupervisorEvent::OpenFinished {
            result: Err(HaOpenError::Cancelled { deadline: token.deadline(), cleanup: Ok(()) }),
            signal,
            now: 0,
        },
    ] {
        let (next, effects) = supervise_prepared_ha_node(supervisor, event);
        supervisor = next;
        for effect in effects {
            match effect {
                SupervisorEffect::Publish(snapshot) => last = Some(snapshot),
                _ => panic!("a requested shutdown asks for nothing else"),
            }
        }
    }
    match supervisor.phase {
        PreparedPhase::Finished(result) => (result, last.unwrap()),
        other => panic!("the supervisor ended: {other:?}"),
    }
}

#[test]
fn open_phase_requested_shutdown_accepts_normal_recorder_completion() {
    let (result, snapshot) = open_phase_shutdown(TaskExit::Returned(Ok(())));
    assert!(result.is_ok());
    assert_eq!(snapshot.status, HaNodeStatus::Stopped);
    assert!(snapshot.terminal_error.is_none());
}

#[test]
fn open_phase_requested_shutdown_keeps_recorder_error_and_panic_authoritative() {
    let cases = [
        (
            TaskExit::Returned(Err(HaNodeError::RecorderServer(
                "injected recorder shutdown failure".into(),
            ))),
            "injected recorder shutdown failure",
        ),
        (
            TaskExit::Failed("injected recorder shutdown panic".into()),
            "injected recorder shutdown panic",
        ),
    ];
    for (exit, text) in cases {
        let (result, snapshot) = open_phase_shutdown(exit);
        assert!(matches!(
            result,
            Err(HaNodeError::RecorderServer(ref message)) if message.contains(text)
        ));
        assert_eq!(snapshot.status, HaNodeStatus::Failed);
        assert!(matches!(
            snapshot.terminal_error,
            Some(HaNodeError::RecorderServer(message)) if message.contains(text)
        ));
    }
}

fn child_step(
    phase: ChildPhase,
    event: ChildEvent,
    signal: Option<ShutdownToken>,
) -> (ChildPhase, Vec<SuccessorEffect>) {
    supervise_live_successor_child_after_staging_with_child(
        phase,
        event,
        &Moment { signal, now: 0, fresh: cancellation(9) },
    )
}

#[test]
fn simultaneous_ready_close_preserves_authoritative_child_terminal_error() {
    let primary_message = "authoritative child startup failure";
    let (phase, effects) = child_step(
        ChildPhase::AwaitingService,
        ChildEvent::ServiceReadyClosed(HaNodeSnapshot::failed(service_error(primary_message))),
        Some(token()),
    );
    assert!(matches!(
        effects[0],
        SuccessorEffect::ShutdownChild(used)
            if used == token() && used.deadline() == token().deadline()
    ));
    let (phase, _) = child_step(
        phase,
        ChildEvent::CleanedUp { child: Ok(()), staging: Ok(()) },
        Some(token()),
    );
    assert!(matches!(
        phase,
        ChildPhase::Finished(Err(HaNodeError::ServiceServer(message)))
            if message == primary_message
    ));
}

#[test]
fn recorder_start_close_preserves_actual_child_source_through_parent_ready_close() {
    const RECORDER_ERROR: &str = "injected recorder start failure";
    let source = || HaNodeError::RecorderServer(RECORDER_ERROR.into());
    let token = ShutdownToken::new(0, 5_000 * MILLIS, cancellation(1));
    for snapshot in
        [HaNodeSnapshot::failed(source()), HaNodeSnapshot::of(HaNodeStatus::Starting)]
    {
        let (phase, _) = child_step(
            ChildPhase::AwaitingService,
            ChildEvent::ServiceReadyClosed(snapshot),
            Some(token),
        );
        let (phase, _) = child_step(
            phase,
            ChildEvent::CleanedUp { child: Err(source()), staging: Ok(()) },
            Some(token),
        );
        let ChildPhase::Finished(result) = phase else {
            panic!("the child's end is reported");
        };
        assert!(matches!(
            &result,
            Err(HaNodeError::RecorderServer(message)) if message == RECORDER_ERROR
        ));
        let published = publish_supervisor_end(&result).unwrap();
        assert_eq!(published.status, HaNodeStatus::Failed);
        assert!(matches!(
            published.terminal_error,
            Some(HaNodeError::RecorderServer(message)) if message == RECORDER_ERROR
        ));
    }
}

#[test]
fn completed_handoff_and_outer_shutdown_both_ready_drop_undelivered_lease_cleanly() {
    let (phase, _) = child_step(ChildPhase::AwaitingService, ChildEvent::ServiceReady, None);
    let (phase, effects) = child_step(phase, ChildEvent::ShutdownChanged, Some(token()));
    assert!(matches!(effects[0], SuccessorEffect::ShutdownChild(used) if used == token()));
    assert!(matches!(
        effects[1],
        SuccessorEffect::AbortStaging { deadline } if deadline == token().deadline()
    ));
    let staging = rhiza_ha::staging::abort_staging_server_before(StagingWait::Ended(
        StagingTaskExit::Returned(Ok(StagingExit::Handoff)),
    ));
    let (phase, effects) = child_step(
        phase,
        ChildEvent::CleanedUp { child: Ok(()), staging },
        Some(token()),
    );
    assert!(matches!(phase, ChildPhase::Finished(Ok(()))));
    assert!(matches!(
        &effects[0],
        SuccessorEffect::Publish(snapshot) if snapshot.status == HaNodeStatus::Stopped
    ));
}

#[test]
fn drop_installs_one_token_before_recorder_startup_and_reaper() {
    let mut node = HaNode::started();
    let dropped = node.abandon(0, cancellation(4));
    assert!(node.shutdown == Some(dropped.token));
    assert!(node.recorder_shutdown);
    assert!(node.startup.is_cancelled_by(&dropped.token.startup_token()));
    assert_eq!(dropped.token.deadline(), HA_SERVER_SHUTDOWN_TIMEOUT);
    assert!(dropped.reap_supervisor);
    assert!(dropped.close_admission.is_none());
}

#[test]
fn successor_drop_cascades_its_identical_token_and_deadline() {
    let mut successor = HaSuccessorNode::started();
    let parent = successor.abandon(0, cancellation(4)).token;
    let mut child = HaNode::started();
    let shutdown = child.shutdown_with_token(parent);
    assert!(shutdown.token == parent);
    assert_eq!(shutdown.token.deadline(), parent.deadline());
    assert!(child.shutdown == successor.shutdown);
}
