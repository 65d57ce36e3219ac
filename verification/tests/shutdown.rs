use rhiza_ha::cancellation::{
    complete_attempt, completed_activation_after_shutdown, completed_preparation_after_shutdown,
    is_requested_node_cancellation, is_requested_startup_cancellation, node_error_after_shutdown,
    OpenAttempt, StartupExit,
};
use rhiza_ha::error::{
    combine_ha_errors, combine_ha_results, conservative_shutdown_deadline_error, fail,
    ErrorClassification, ErrorSource, HaCertifiedTailError, HaNodeError, HaShutdownCause,
    HaStartupError, NodeError, NodeErrorKind, ShutdownTaskFailure, SourceError, SourceErrorKind,
    WorkerError,
};
use rhiza_ha::evidence::{
    conservative_shutdown_mutation, downgrade_tasks_for_owner_cleanup, ingress_after_service_wait,
    lower_shutdown_mutation, merge_optional_shutdown_evidence, merge_shutdown_evidence,
    pre_service_shutdown_evidence, uncertain_shutdown_evidence, ShutdownEvidence,
};
use rhiza_ha::ingress::{
    axum_force_points, clamped_before_deadline, recorder_force_points,
    HA_SERVER_ABORT_RECEIPT_RESERVE, HA_SERVER_FORCE_RESERVE,
};
use rhiza_ha::log::{LogAnchor, LogHash};
use rhiza_ha::node::{monitor_ha_state, wait_for_ha_ready, HaNode, HaNodeSnapshot, HaSuccessorNode};
use rhiza_ha::open::HaOpenError;
use rhiza_ha::owner::{
    lower_shutdown_deadline_error, shutdown_owner_error, OwnerError, ShutdownCause, ShutdownError,
    ShutdownPhase,
};
use rhiza_ha::status::{
    HaNodeStatus, HaShutdownPhase, IngressDisposition, MutationCertainty, RhizaHandle,
    TaskDisposition,
};
use rhiza_ha::task::{
    server_task_join_error, unexpected_server_exit, unexpected_service_task_exit,
    wait_for_ha_supervisor_before, ServerRole, SupervisorWait, TaskExit,
};
use rhiza_ha::token::{
    cancel_startup_for_token, request_ha_shutdown, shutdown_deadline, ShutdownSignal,
    ShutdownToken, StartupCancellationToken, StartupIoContext, HA_SERVER_SHUTDOWN_TIMEOUT,
};

const SECOND: u64 = 1_000_000_000;
const MILLISECOND: u64 = 1_000_000;

fn cancellation(id: u64) -> StartupCancellationToken {
    StartupCancellationToken { id }
}

fn closed_source() -> SourceError {
    SourceError { kind: SourceErrorKind::Closed, message: "closed".to_string() }
}

#[test]
fn lower_shutdown_deadlines_keep_phase_specific_mutation_flags() {
    assert_eq!(
        lower_shutdown_mutation(HaShutdownPhase::InFlightOperations),
        MutationCertainty::Uncertain { local_io: true, recorder_rpc: true, activation: false }
    );
    assert_eq!(
        lower_shutdown_mutation(HaShutdownPhase::BackgroundWorkers),
        MutationCertainty::Uncertain { local_io: true, recorder_rpc: false, activation: false }
    );
    assert_eq!(
        lower_shutdown_mutation(HaShutdownPhase::AppliedTipFlush),
        MutationCertainty::Uncertain { local_io: true, recorder_rpc: false, activation: false }
    );
}

#[test]
fn recorder_shutdown_force_points_clamp_short_deadlines_and_preserve_order() {
    let now: u64 = 5 * SECOND;
    let short = now + 10 * MILLISECOND;
    let short_inner = clamped_before_deadline(short, 100 * MILLISECOND, now);
    let short_outer = clamped_before_deadline(short, HA_SERVER_ABORT_RECEIPT_RESERVE, now);
    assert!(short_inner <= short_outer);
    assert!(short_outer <= short);

    let ordinary = now + 250 * MILLISECOND;
    let ordinary_inner = clamped_before_deadline(ordinary, 100 * MILLISECOND, now);
    let ordinary_outer = clamped_before_deadline(ordinary, HA_SERVER_ABORT_RECEIPT_RESERVE, now);
    assert!(ordinary_inner <= ordinary_outer);
    assert!(ordinary_outer <= ordinary);
}

#[test]
fn force_points_keep_their_reserves_before_an_ordinary_deadline() {
    let now = 7 * SECOND;
    let deadline = now + SECOND;
    let recorder = recorder_force_points(deadline, now);
    assert_eq!(recorder.inner, deadline - HA_SERVER_FORCE_RESERVE);
    assert_eq!(recorder.outer, deadline - HA_SERVER_ABORT_RECEIPT_RESERVE);
    let axum = axum_force_points(deadline, now);
    assert!(axum.inner <= axum.outer);
    assert!(axum.outer <= deadline);
    assert_eq!(clamped_before_deadline(now + 1, 10, now), now);
}

#[test]
fn earlier_shutdown_request_replaces_the_prior_token() {
    let mut shutdown: ShutdownSignal = None;
    let mut admissions_closed = 0;
    let first = request_ha_shutdown(&mut shutdown, ShutdownToken::new(0, SECOND, cancellation(1)));
    if first.close_admission {
        admissions_closed += 1;
    }
    let second = request_ha_shutdown(&mut shutdown, ShutdownToken::new(0, 0, cancellation(2)));
    if second.close_admission {
        admissions_closed += 1;
    }

    assert!(first.token != second.token);
    assert_eq!(admissions_closed, 2);
    assert!(shutdown == Some(second.token));
}

#[test]
fn shutdown_authority_precedence_matches_startup_cancellation_under_stress() {
    for round in 0..1_000u64 {
        for external_first in [true, false] {
            let now = round * SECOND;
            let mut shutdown: ShutdownSignal = None;
            let mut startup = StartupIoContext::new();
            let internal = ShutdownToken::new_internal(now, 0, cancellation(2 * round));
            let external = ShutdownToken::new(now, SECOND, cancellation(2 * round + 1));
            request_ha_shutdown(&mut shutdown, internal);
            if external_first {
                request_ha_shutdown(&mut shutdown, external);
                request_ha_shutdown(&mut shutdown, internal);
            } else {
                request_ha_shutdown(&mut shutdown, internal);
                request_ha_shutdown(&mut shutdown, external);
            }

            let observed = shutdown.unwrap();
            assert!(observed == external);
            assert_eq!(observed.deadline(), external.deadline());
            cancel_startup_for_token(&mut startup, &internal);
            cancel_startup_for_token(&mut startup, &external);
            assert!(startup.is_cancelled_by(&external.startup_token()));
            assert!(!startup.is_cancelled_by(&internal.startup_token()));
        }
    }

    let mut shutdown: ShutdownSignal = None;
    let external = ShutdownToken::new(0, SECOND, cancellation(1));
    let later_internal = ShutdownToken::new_internal(0, 0, cancellation(2));
    request_ha_shutdown(&mut shutdown, external);
    request_ha_shutdown(&mut shutdown, later_internal);
    assert!(shutdown == Some(external));
}

#[test]
fn a_token_shows_none_of_its_parts() {
    for token in [
        ShutdownToken::new(3, SECOND, cancellation(7)),
        ShutdownToken::new_internal(0, 0, cancellation(8)),
    ] {
        assert_eq!(token.debug_text(), "ShutdownToken(..)");
    }
}

#[test]
fn a_later_deadline_never_extends_a_requested_shutdown() {
    let mut shutdown: ShutdownSignal = None;
    let first = ShutdownToken::new(10, 5, cancellation(1));
    request_ha_shutdown(&mut shutdown, first);
    let later = request_ha_shutdown(&mut shutdown, ShutdownToken::new(10, 6, cancellation(2)));
    assert!(later.token == first);
    assert!(!later.close_admission);
    let same = request_ha_shutdown(&mut shutdown, first);
    assert!(!same.close_admission);
    assert_eq!(shutdown_deadline(&shutdown, 99), 15);
    assert_eq!(shutdown_deadline(&None, 99), 99);
}

#[test]
fn shutdown_error_types_are_send_and_sync() {
    fn assert_send_sync<T: Send + Sync>() {}

    assert_send_sync::<SourceError>();
    assert_send_sync::<OwnerError>();
    assert_send_sync::<ShutdownError>();
    assert_send_sync::<ShutdownCause>();
    assert_send_sync::<WorkerError>();
    assert_send_sync::<HaShutdownCause>();
    assert_send_sync::<HaNodeError>();
}

#[test]
fn opened_startup_cleanup_drops_the_owned_listener_before_closed_evidence() {
    let lower = ShutdownError {
        phase: ShutdownPhase::AppliedTipFlush,
        cause: ShutdownCause::Source(closed_source()),
        cleanup: Vec::new(),
        task_source: None,
    };
    assert!(matches!(
        shutdown_owner_error(OwnerError::Shutdown(lower), pre_service_shutdown_evidence()),
        HaNodeError::ShutdownIncomplete {
            phase: HaShutdownPhase::AppliedTipFlush,
            cause: HaShutdownCause::Source(error),
            mutation: MutationCertainty::Uncertain { local_io: true, .. },
            ingress: IngressDisposition::Closed,
            tasks: TaskDisposition::Quiesced,
        } if error.kind == SourceErrorKind::Closed
    ));
}

#[test]
fn owner_failures_keep_their_phase_and_order() {
    let lower = ShutdownError {
        phase: ShutdownPhase::InFlightOperations,
        cause: ShutdownCause::DeadlineExceeded,
        cleanup: vec![
            ShutdownError {
                phase: ShutdownPhase::BackgroundWorkers,
                cause: ShutdownCause::TaskFailure,
                cleanup: Vec::new(),
                task_source: Some(WorkerError { failure: ShutdownTaskFailure::Panicked }),
            },
            ShutdownError {
                phase: ShutdownPhase::AppliedTipFlush,
                cause: ShutdownCause::RecorderOutcomeUnknown,
                cleanup: Vec::new(),
                task_source: None,
            },
        ],
        task_source: None,
    };
    let node = shutdown_owner_error(OwnerError::Shutdown(lower), uncertain_shutdown_evidence());
    let HaNodeError::Cleanup { primary, cleanup } = node else {
        panic!("two failures followed the first");
    };
    assert!(matches!(
        *cleanup,
        HaNodeError::ShutdownIncomplete {
            phase: HaShutdownPhase::AppliedTipFlush,
            cause: HaShutdownCause::RecorderOutcomeUnknown,
            mutation: MutationCertainty::Uncertain {
                local_io: true,
                recorder_rpc: true,
                activation: false,
            },
            ..
        }
    ));
    let HaNodeError::Cleanup { primary, cleanup } = *primary else {
        panic!("the first two failures form a chain of their own");
    };
    assert!(matches!(
        *primary,
        HaNodeError::ShutdownDeadlineExceeded {
            phase: HaShutdownPhase::InFlightOperations,
            mutation: MutationCertainty::Uncertain {
                local_io: true,
                recorder_rpc: true,
                activation: false,
            },
            ..
        }
    ));
    assert!(matches!(
        *cleanup,
        HaNodeError::ShutdownIncomplete {
            phase: HaShutdownPhase::BackgroundWorkers,
            cause: HaShutdownCause::TaskFailure(WorkerError {
                failure: ShutdownTaskFailure::Panicked,
            }),
            ..
        }
    ));
    assert!(matches!(
        lower_shutdown_deadline_error(
            HaShutdownPhase::BackgroundWorkers,
            pre_service_shutdown_evidence()
        ),
        HaNodeError::ShutdownDeadlineExceeded {
            phase: HaShutdownPhase::BackgroundWorkers,
            ingress: IngressDisposition::Closed,
            tasks: TaskDisposition::Quiesced,
            mutation: MutationCertainty::Uncertain {
                local_io: true,
                recorder_rpc: false,
                activation: false,
            },
        }
    ));
}

#[test]
fn shutdown_cancellation_requires_the_exact_token_and_preserves_sources() {
    for round in 0..200u64 {
        let mut startup = StartupIoContext::new();
        let token = ShutdownToken::new(0, SECOND, cancellation(2 * round));
        let other = ShutdownToken::new(0, SECOND, cancellation(2 * round + 1));
        cancel_startup_for_token(&mut startup, &token);

        let preparation_cancellation = HaStartupError::Cancelled(token.startup_token());
        assert!(is_requested_startup_cancellation(
            &preparation_cancellation,
            &startup,
            Some(&token),
        ));
        assert!(!is_requested_startup_cancellation(
            &preparation_cancellation,
            &startup,
            Some(&other),
        ));
        assert!(!is_requested_startup_cancellation(
            &HaStartupError::Source("preparation source failure".into()),
            &startup,
            Some(&token),
        ));
        assert!(matches!(
            completed_preparation_after_shutdown(
                StartupExit::Returned(Err(HaStartupError::Source(
                    "preparation source failure".into()
                ))),
                &startup,
                Some(&token),
            ),
            Err(HaNodeError::Startup(HaStartupError::Source(message)))
                if message == "preparation source failure"
        ));
        assert!(completed_preparation_after_shutdown(
            StartupExit::Returned(Err(preparation_cancellation.clone())),
            &startup,
            Some(&token),
        )
        .is_ok());

        let node_cancellation = NodeError {
            kind: NodeErrorKind::StartupCancelled(token.startup_token()),
            retryable: false,
            message: "startup cancelled at test stage".into(),
        };
        assert!(is_requested_node_cancellation(&node_cancellation, &startup, Some(&token)));
        assert!(!is_requested_node_cancellation(&node_cancellation, &startup, Some(&other)));
        let fatal = |message: &str| NodeError {
            kind: NodeErrorKind::Fatal,
            retryable: false,
            message: format!("fatal: {message}"),
        };
        assert!(!is_requested_node_cancellation(
            &fatal("activation/open/rehydrate source failure"),
            &startup,
            Some(&token),
        ));
        assert!(matches!(
            completed_activation_after_shutdown(
                StartupExit::Returned(Err(fatal("activation source failure"))),
                &startup,
                Some(&token),
            ),
            Err(HaNodeError::Startup(HaStartupError::Source(message)))
                if message.contains("activation source failure")
        ));
        assert!(matches!(
            node_error_after_shutdown(fatal("activation source failure"), &startup, Some(&token)),
            Err(HaStartupError::Source(message)) if message.contains("activation source failure")
        ));
        assert!(matches!(
            node_error_after_shutdown(fatal("open source failure"), &startup, Some(&token)),
            Err(HaStartupError::Source(message)) if message.contains("open source failure")
        ));
        assert!(matches!(
            node_error_after_shutdown(fatal("rehydrate source failure"), &startup, Some(&token)),
            Err(HaStartupError::Source(message)) if message.contains("rehydrate source failure")
        ));
    }
}

#[test]
fn a_cancelled_attempt_is_a_cancelled_opening() {
    let mut startup = StartupIoContext::new();
    let token = ShutdownToken::new(0, SECOND, cancellation(1));
    cancel_startup_for_token(&mut startup, &token);
    let cancelled = complete_attempt(
        OpenAttempt::RuntimeOpen,
        StartupExit::Returned(Err(NodeError {
            kind: NodeErrorKind::StartupCancelled(token.startup_token()),
            retryable: false,
            message: "cancelled".into(),
        })),
        &startup,
        Some(&token),
        SECOND,
    );
    assert!(matches!(
        cancelled.error,
        HaOpenError::Cancelled { deadline: SECOND, cleanup: Ok(()) }
    ));
}

#[test]
fn ready_rejects_a_ready_snapshot_after_shutdown_is_requested() {
    let mut node = HaNode::started();
    node.state = HaNodeSnapshot {
        status: HaNodeStatus::Ready,
        handle: Some(RhizaHandle { id: 1 }),
        terminal_error: None,
    };
    assert!(matches!(node.ready(), Some(Ok(RhizaHandle { id: 1 }))));
    assert!(node.is_ready());
    request_ha_shutdown(
        &mut node.shutdown,
        ShutdownToken::new(0, HA_SERVER_SHUTDOWN_TIMEOUT, cancellation(1)),
    );
    assert!(matches!(node.ready(), Some(Err(HaNodeError::Cancelled))));
    assert!(!node.is_ready());
    assert_eq!(node.status(), HaNodeStatus::Ready);
}

#[test]
fn waiting_for_readiness_answers_every_snapshot() {
    let waiting = HaNodeSnapshot::of(HaNodeStatus::CatchingUp);
    assert!(wait_for_ha_ready(&None, &waiting, true).is_none());
    assert!(matches!(
        wait_for_ha_ready(&None, &waiting, false),
        Some(Err(HaNodeError::Cancelled))
    ));
    for status in [HaNodeStatus::ShuttingDown, HaNodeStatus::Stopped] {
        assert!(matches!(
            wait_for_ha_ready(&None, &HaNodeSnapshot::of(status), true),
            Some(Err(HaNodeError::Cancelled))
        ));
    }
    let ready = HaNodeSnapshot::of(HaNodeStatus::Ready);
    assert!(matches!(
        wait_for_ha_ready(&None, &ready, true),
        Some(Err(HaNodeError::Startup(HaStartupError::Source(message))))
            if message == "ready HA node has no application handle"
    ));
    let failed = HaNodeSnapshot::failed(HaNodeError::ServiceServer("gone".into()));
    assert!(matches!(
        wait_for_ha_ready(&None, &failed, true),
        Some(Err(HaNodeError::ServiceServer(message))) if message == "gone"
    ));
}

#[test]
fn missing_supervisor_is_an_immediate_ownership_failure_not_a_deadline() {
    let mut node = HaNode::started();
    node.supervised = false;
    let shutdown = node.shutdown_with_timeout(0, 60 * SECOND, cancellation(1));
    assert!(matches!(
        shutdown.supervisor,
        Err(HaNodeError::Supervisor(message))
            if message == "HA node supervisor ownership missing during shutdown"
    ));

    let mut successor = HaSuccessorNode::started();
    successor.supervised = false;
    let shutdown = successor.shutdown_with_timeout(0, 60 * SECOND, cancellation(2));
    assert!(matches!(
        shutdown.supervisor,
        Err(HaNodeError::Supervisor(message))
            if message == "live successor supervisor ownership missing during shutdown"
    ));
}

#[test]
fn node_shutdown_passes_the_exact_token_identity() {
    let token = ShutdownToken::new(3, SECOND, cancellation(7));
    let mut node = HaNode::started();
    let shutdown = node.shutdown_with_token(token);
    assert!(shutdown.token == token);
    assert!(shutdown.supervisor.is_ok());
    assert!(node.shutdown == Some(token));
    assert!(node.recorder_shutdown);
    assert!(node.startup.is_cancelled_by(&token.startup_token()));
}

#[test]
fn successor_shutdown_passes_the_exact_token_identity() {
    let token = ShutdownToken::new(3, SECOND, cancellation(7));
    let mut successor = HaSuccessorNode::started();
    let shutdown = successor.shutdown_with_token(token);
    assert!(shutdown.token == token);
    assert!(shutdown.supervisor.is_ok());
    assert!(successor.shutdown == Some(token));
}

#[test]
fn external_deadline_replaces_an_earlier_internal_cleanup_deadline() {
    let mut node = HaNode::started();
    request_ha_shutdown(
        &mut node.shutdown,
        ShutdownToken::new(0, HA_SERVER_SHUTDOWN_TIMEOUT, cancellation(1)),
    );
    let shutdown = node.shutdown_with_timeout(0, 5 * MILLISECOND, cancellation(2));
    assert_eq!(shutdown.token.deadline(), 5 * MILLISECOND);
    let outcome = wait_for_ha_supervisor_before(
        SupervisorWait::DeadlineReached { finished: false },
        "HA node supervisor",
    );
    assert!(outcome.abort);
    assert!(matches!(
        outcome.result,
        Err(HaNodeError::ShutdownDeadlineExceeded { phase: HaShutdownPhase::Supervisor, .. })
    ));
}

#[test]
fn a_supervisor_that_is_seen_to_end_late_is_not_believed() {
    let seen = |now: u64| {
        wait_for_ha_supervisor_before(
            SupervisorWait::Ended { exit: TaskExit::Returned(Ok(())), now, deadline: 10 },
            "test supervisor",
        )
    };
    assert!(seen(9).result.is_ok());
    for now in [10, 11] {
        let late = seen(now);
        assert!(!late.abort);
        assert!(matches!(
            late.result,
            Err(HaNodeError::ShutdownDeadlineExceeded { phase: HaShutdownPhase::Supervisor, .. })
        ));
    }
}

#[test]
fn node_drop_on_foreign_runtime_keeps_preinstalled_external_deadline() {
    const EXTERNAL_DEADLINE: u64 = 500 * MILLISECOND;

    let token = ShutdownToken::new(0, EXTERNAL_DEADLINE, cancellation(1));
    let mut node = HaNode::started();
    request_ha_shutdown(&mut node.shutdown, token);
    let dropped = node.abandon(MILLISECOND, cancellation(2));
    let observed = node.shutdown.expect("Drop must preserve the preinstalled shutdown token");
    assert_eq!(
        observed.startup_token(),
        token.startup_token(),
        "foreign Drop must not replace the preinstalled external shutdown token"
    );
    assert_eq!(
        observed.deadline(),
        EXTERNAL_DEADLINE,
        "foreign Drop must not extend the preinstalled external deadline"
    );
    assert!(dropped.token == token);
    assert!(dropped.reap_supervisor);
    assert!(node.recorder_shutdown);
    let reaped = wait_for_ha_supervisor_before(
        SupervisorWait::DeadlineReached { finished: false },
        "HA node supervisor",
    );
    assert!(reaped.abort, "the reaper aborts the pending supervisor by the deadline in force");
}

#[test]
fn ready_node_drop_closes_actual_handle_admission_before_supervisor_observes_shutdown() {
    let handle = RhizaHandle { id: 5 };
    let mut node = HaNode::started();
    node.state = HaNodeSnapshot {
        status: HaNodeStatus::Ready,
        handle: Some(handle),
        terminal_error: None,
    };
    assert!(node.shutdown.is_none());
    let dropped = node.abandon(0, cancellation(3));

    let mut admitted = vec![handle];
    if let Some(closed) = dropped.close_admission {
        admitted.retain(|open| *open != closed);
    }
    assert!(node.shutdown == Some(dropped.token), "Drop must signal the ready-node supervisor");
    assert!(
        !admitted.contains(&handle),
        "Drop must close handle admission before supervisor shutdown is visible"
    );
    assert_eq!(dropped.token.deadline(), HA_SERVER_SHUTDOWN_TIMEOUT);
    let ended = wait_for_ha_supervisor_before(
        SupervisorWait::Ended {
            exit: TaskExit::Returned(Ok(())),
            now: MILLISECOND,
            deadline: dropped.token.deadline(),
        },
        "HA node supervisor",
    );
    assert!(ended.result.is_ok(), "closed-admission owner must still shut down cleanly");
}

#[test]
fn an_owner_that_was_asked_to_stop_closes_no_admission_again() {
    let mut node = HaNode::started();
    node.state = HaNodeSnapshot {
        status: HaNodeStatus::Ready,
        handle: Some(RhizaHandle { id: 4 }),
        terminal_error: None,
    };
    let external = ShutdownToken::new(0, SECOND, cancellation(1));
    request_ha_shutdown(&mut node.shutdown, external);
    let dropped = node.abandon(0, cancellation(2));
    assert!(dropped.token == external);
    assert!(dropped.close_admission.is_none());
    assert!(dropped.reap_supervisor);
}

#[test]
fn supervisor_panic_before_deadline_is_typed() {
    let outcome = wait_for_ha_supervisor_before(
        SupervisorWait::Ended {
            exit: TaskExit::Failed("supervisor test panic".into()),
            now: 0,
            deadline: SECOND,
        },
        "test supervisor",
    );
    assert!(!outcome.abort);
    assert!(matches!(
        outcome.result,
        Err(HaNodeError::Supervisor(message))
            if message == "test supervisor task failed: supervisor test panic"
    ));
}

#[test]
fn supervisor_result_mapping_is_monotonic_at_the_shutdown_deadline() {
    let before = wait_for_ha_supervisor_before(
        SupervisorWait::Ended {
            exit: TaskExit::Returned(Err(HaNodeError::StartupIoDeadlineExceeded {
                stage: "before deadline".into(),
            })),
            now: 0,
            deadline: SECOND,
        },
        "test supervisor",
    );
    assert!(matches!(
        before.result,
        Err(HaNodeError::StartupIoDeadlineExceeded { stage }) if stage == "before deadline"
    ));
    let at = wait_for_ha_supervisor_before(
        SupervisorWait::Ended {
            exit: TaskExit::Returned(Err(HaNodeError::StartupIoDeadlineExceeded {
                stage: "at deadline".into(),
            })),
            now: SECOND,
            deadline: SECOND,
        },
        "test supervisor",
    );
    assert!(matches!(
        at.result,
        Err(HaNodeError::ShutdownDeadlineExceeded {
            phase: HaShutdownPhase::Supervisor,
            mutation: MutationCertainty::Uncertain {
                local_io: true,
                recorder_rpc: true,
                activation: true,
            },
            ..
        })
    ));
}

#[test]
fn server_panics_before_deadline_keep_their_server_role() {
    for (role, name, recorder) in [
        (ServerRole::Recorder, "recorder server", true),
        (ServerRole::Service, "service server", false),
        (ServerRole::SuccessorStaging, "successor staging service", false),
    ] {
        let error = TaskExit::Failed("server test panic".into()).flatten(role).unwrap_err();
        assert!(match error {
            HaNodeError::RecorderServer(message) if recorder => {
                message.contains("recorder server task failed")
            }
            HaNodeError::ServiceServer(message) if !recorder => {
                message.contains(&format!("{name} task failed"))
            }
            _ => false,
        });
    }
    assert!(matches!(
        server_task_join_error(ServerRole::Service, "x"),
        HaNodeError::ServiceServer(message) if message == "service server task failed: x"
    ));
}

#[test]
fn shutdown_server_exit_races_preserve_the_server_error() {
    for stage in ["before stop", "after stop"] {
        let exit = TaskExit::Returned(Err(HaNodeError::ServiceServer(stage.to_string())));
        assert!(matches!(
            exit.flatten(ServerRole::Service),
            Err(HaNodeError::ServiceServer(message)) if message == stage
        ));
    }
    assert!(matches!(
        unexpected_server_exit(TaskExit::Returned(Ok(())), ServerRole::Recorder),
        HaNodeError::RecorderServer(message) if message == "recorder server stopped unexpectedly"
    ));
    assert!(matches!(
        unexpected_server_exit(TaskExit::Returned(Ok(())), ServerRole::Service),
        HaNodeError::ServiceServer(message) if message == "service server stopped unexpectedly"
    ));
    assert!(matches!(
        unexpected_service_task_exit(Err(HaNodeError::Cancelled)),
        HaNodeError::Cancelled
    ));
}

#[test]
fn monitor_channel_close_is_a_supervisor_failure() {
    let starting = HaNodeSnapshot::of(HaNodeStatus::Starting);
    assert!(matches!(
        monitor_ha_state(&starting, false),
        Some(Err(HaNodeError::Supervisor(message)))
            if message.contains("monitor state channel closed")
    ));
    assert!(monitor_ha_state(&starting, true).is_none());
    let mut node = HaNode::started();
    node.state_open = false;
    assert!(matches!(
        node.monitor(),
        Some(Err(HaNodeError::Supervisor(message)))
            if message.contains("monitor state channel closed")
    ));
    node.state = HaNodeSnapshot::of(HaNodeStatus::Stopped);
    assert!(matches!(node.monitor(), Some(Ok(()))));
}

#[test]
fn evidence_only_ever_gets_weaker() {
    let closed = ShutdownEvidence {
        ingress: IngressDisposition::Closed,
        tasks: TaskDisposition::Quiesced,
    };
    let open = ShutdownEvidence {
        ingress: IngressDisposition::Open,
        tasks: TaskDisposition::Uncertain,
    };
    assert_eq!(merge_shutdown_evidence(closed, None), closed);
    assert_eq!(merge_shutdown_evidence(closed, Some(closed)), closed);
    let merged = merge_shutdown_evidence(closed, Some(uncertain_shutdown_evidence()));
    assert_eq!(merged, uncertain_shutdown_evidence());
    assert_eq!(
        merge_shutdown_evidence(open, Some(closed)),
        merge_shutdown_evidence(closed, Some(open))
    );
    assert_eq!(merge_optional_shutdown_evidence(None, None), None);
    assert_eq!(merge_optional_shutdown_evidence(None, Some(closed)), Some(closed));
    assert_eq!(downgrade_tasks_for_owner_cleanup(closed).tasks, TaskDisposition::Uncertain);
    assert_eq!(downgrade_tasks_for_owner_cleanup(closed).ingress, IngressDisposition::Closed);
    assert_eq!(ingress_after_service_wait(true), IngressDisposition::Closed);
    assert_eq!(ingress_after_service_wait(false), IngressDisposition::Uncertain);
    assert_eq!(pre_service_shutdown_evidence(), closed);
}

#[test]
fn deadline_errors_claim_no_more_than_their_evidence() {
    assert!(matches!(
        conservative_shutdown_deadline_error(
            HaShutdownPhase::Service,
            ShutdownEvidence {
                ingress: IngressDisposition::Closed,
                tasks: TaskDisposition::Uncertain,
            },
        ),
        HaNodeError::ShutdownDeadlineExceeded {
            phase: HaShutdownPhase::Service,
            ingress: IngressDisposition::Closed,
            tasks: TaskDisposition::Uncertain,
            mutation: MutationCertainty::Uncertain {
                local_io: true,
                recorder_rpc: true,
                activation: true,
            },
        }
    ));
    assert_eq!(
        conservative_shutdown_mutation(),
        MutationCertainty::Uncertain { local_io: true, recorder_rpc: true, activation: true }
    );
}

#[test]
fn failures_are_gathered_in_order() {
    assert!(combine_ha_errors(Vec::new()).is_ok());
    let combined = combine_ha_errors(vec![
        HaNodeError::ServiceServer("a".into()),
        HaNodeError::RecorderServer("b".into()),
        HaNodeError::Cancelled,
    ])
    .unwrap_err();
    assert_eq!(
        combined.message(),
        "service server failed: a; cleanup also failed: recorder server failed: b; \
         cleanup also failed: HA node startup was cancelled"
    );
    assert!(combine_ha_results(None, Ok(())).is_ok());
    assert!(matches!(
        combine_ha_results(Some(HaNodeError::Cancelled), Ok(())),
        Err(HaNodeError::Cancelled)
    ));
    assert!(matches!(
        combine_ha_results(None, Err(HaNodeError::Cancelled)),
        Err(HaNodeError::Cancelled)
    ));
}

#[test]
fn every_error_renders_its_message() {
    let anchor = LogAnchor::new(9, LogHash::zero());
    let cases = vec![
        (HaNodeError::Startup(fail("x")), "HA startup failed: x".to_string()),
        (
            HaNodeError::CertifiedTail(HaCertifiedTailError::Unavailable("u".into())),
            "certified tail failed: source unavailable: u".to_string(),
        ),
        (
            HaNodeError::CertifiedTail(HaCertifiedTailError::Rejected("r".into())),
            "certified tail failed: source rejected the request: r".to_string(),
        ),
        (
            HaNodeError::CertifiedTail(HaCertifiedTailError::RebaseRequired(anchor)),
            format!(
                "certified tail failed: source requires a newer checkpoint at index 9 with hash {}",
                "0".repeat(64)
            ),
        ),
        (HaNodeError::Supervisor("s".into()), "HA supervisor failed: s".to_string()),
        (
            HaNodeError::WorkerFailure(ErrorClassification {
                code: "worker.lost".into(),
                retryable: false,
            }),
            "HA worker failed with code worker.lost".to_string(),
        ),
        (
            HaNodeError::StartupIoDeadlineExceeded { stage: "stage".into() },
            "HA startup I/O exceeded the shutdown deadline during stage".to_string(),
        ),
        (
            conservative_shutdown_deadline_error(
                HaShutdownPhase::AppliedTipFlush,
                uncertain_shutdown_evidence(),
            ),
            "HA shutdown deadline exceeded during AppliedTipFlush".to_string(),
        ),
        (
            HaNodeError::ShutdownIncomplete {
                phase: HaShutdownPhase::BackgroundWorkers,
                cause: HaShutdownCause::TaskFailure(WorkerError {
                    failure: ShutdownTaskFailure::Cancelled,
                }),
                ingress: IngressDisposition::Uncertain,
                tasks: TaskDisposition::Uncertain,
                mutation: MutationCertainty::Quiesced,
            },
            "HA shutdown incomplete during BackgroundWorkers: task failure: Cancelled".to_string(),
        ),
    ];
    for (error, text) in cases {
        assert_eq!(error.message(), text);
    }
    assert_eq!(
        HaShutdownCause::RecorderOutcomeUnknown.message(),
        "recorder outcome is unknown"
    );
}

#[test]
fn sources_lead_to_the_first_failure() {
    let chained = HaNodeError::Cleanup {
        primary: Box::new(HaNodeError::Startup(fail("first"))),
        cleanup: Box::new(HaNodeError::Cancelled),
    };
    let Some(ErrorSource::Node(primary)) = chained.source() else {
        panic!("a cleanup lies above the failure that it followed");
    };
    assert!(matches!(
        primary.source(),
        Some(ErrorSource::Startup(HaStartupError::Source(message))) if message == "first"
    ));
    assert!(HaNodeError::Cancelled.source().is_none());
    let incomplete = HaNodeError::ShutdownIncomplete {
        phase: HaShutdownPhase::Service,
        cause: HaShutdownCause::RecorderOutcomeUnknown,
        ingress: IngressDisposition::Closed,
        tasks: TaskDisposition::Quiesced,
        mutation: MutationCertainty::Quiesced,
    };
    assert!(matches!(
        incomplete.source(),
        Some(ErrorSource::Shutdown(HaShutdownCause::RecorderOutcomeUnknown))
    ));
    let startup: HaNodeError = HaNodeError::from(fail("converted"));
    assert_eq!(startup.message(), "HA startup failed: converted");
}
