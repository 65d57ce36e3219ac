use rhiza_ha::accept::{AcceptError, AcceptErrorKind};
use rhiza_ha::activation::{
    activate_service_listener, begin_activation, ActivationEvent, ActivationPhase,
    ServiceActivation, ServiceListener,
};
use rhiza_ha::binding::{ConfigChange, HaPredecessor, LogEntry, StopInformation, StopReading};
use rhiza_ha::config::{
    ArchiveHandle, CheckpointIdentity, ConfigurationState, DurabilityMode, ExecutionProfile,
    Membership, NodeConfig, StopBinding, SuccessorDescriptor,
};
use rhiza_ha::error::{fail, HaCertifiedTailError, HaNodeError, HaStartupError};
use rhiza_ha::evidence::conservative_shutdown_mutation;
use rhiza_ha::live_prestage::{
    prepare_live_successor, LivePrestageEvent, LivePrestageInspection, LivePrestagePhase,
    LiveSuccessorPrestage,
};
use rhiza_ha::live_successor::{
    live_successor_reached_stop, supervise_live_successor, LearnerProgress, LiveEvent, LivePhase,
    LiveSuccessor, SUCCESSOR_TAIL_RETRY_DELAY,
};
use rhiza_ha::ingress::{
    wait_for_tracked_axum_ingress, AxumIngressProgress, AxumIngressWait, IngressEvent,
    TrackedAxumIngress,
};
use rhiza_ha::local_files::{
    read_optional_bounded_regular_file_no_follow, FileMetadata, FileObservation,
    MAX_SUCCESSOR_RESTORE_CONTROL_BYTES,
};
use rhiza_ha::log::{LogAnchor, LogHash};
use rhiza_ha::node::{HaNodeSnapshot, HaSuccessorNode};
use rhiza_ha::prepare::{CheckpointManifest, SnapshotAnchor};
use rhiza_ha::prestage::{
    certified_tail_config, require_resumable_successor_prestage, tail_request, HaSuccessorPrestageConfig,
    HaSuccessorPrestageIdentity, PreparedHaSuccessorPrestage, SuccessorPrestageState,
    TailReaderConfig,
};
use rhiza_ha::scope::HaRecorderTransport;
use rhiza_ha::staging::{
    abort_staging_server_before, handoff_staging_listener, run_successor_staging_server,
    stop_staging_server_before, successor_staging_livez, successor_staging_readyz,
    unexpected_staging_server_exit, StagingCommand, StagingEffect, StagingEvent, StagingExit,
    StagingPhase, StagingServer, StagingTaskExit, StagingWait,
};
use rhiza_ha::startup::{HaServeConfig, HaStartupConfig, SuccessorServeConfig};
use rhiza_ha::status::{
    HaNodeStatus, HaShutdownPhase, HaStartupMode, IngressDisposition, RhizaHandle,
    TaskDisposition,
};
use rhiza_ha::successor::{
    combine_live_successor_child_and_staging, finish_cancelled_live_successor,
    live_successor_cleanup_token, normalize_live_successor_child_shutdown, publish_supervisor_end,
    Moment, SuccessorEffect,
};
use rhiza_ha::successor_child::{
    supervise_live_successor_child_after_staging,
    supervise_live_successor_child_after_staging_with_child, ChildEvent, ChildPhase,
};
use rhiza_ha::task::{ServerRole, TaskExit};
use rhiza_ha::token::{ShutdownToken, StartupCancellationAuthority, StartupCancellationToken};

const SECOND: u64 = 1_000_000_000;
const MILLIS: u64 = 1_000_000;
const ARCHIVE: ArchiveHandle = ArchiveHandle { id: 11 };

fn startup_of(config: NodeConfig, mode: HaStartupMode) -> HaStartupConfig {
    HaStartupConfig::new(config, ARCHIVE, DurabilityMode::Sync, 5_000, mode)
}

fn cancellation(id: u64) -> StartupCancellationToken {
    StartupCancellationToken { id }
}

fn calm(now: u64) -> Moment {
    Moment { signal: None, now, fresh: cancellation(100) }
}

fn requested(token: ShutdownToken) -> Moment {
    Moment { signal: Some(token), now: 0, fresh: cancellation(100) }
}

fn outer() -> ShutdownToken {
    ShutdownToken::new(0, 250 * MILLIS, cancellation(1))
}

fn hash(word: u64) -> LogHash {
    LogHash { word0: word, word1: 0, word2: 0, word3: 0 }
}

fn anchor(index: u64) -> LogAnchor {
    LogAnchor::new(index, hash(index))
}

fn service(message: &str) -> HaNodeError {
    HaNodeError::ServiceServer(message.to_string())
}

fn deadline_error() -> HaNodeError {
    HaNodeError::ShutdownDeadlineExceeded {
        phase: HaShutdownPhase::Service,
        ingress: IngressDisposition::Closed,
        tasks: TaskDisposition::Uncertain,
        mutation: conservative_shutdown_mutation(),
    }
}

fn is_service(error: &HaNodeError, text: &str) -> bool {
    matches!(error, HaNodeError::ServiceServer(message) if message == text)
}

#[test]
fn live_successor_child_shutdown_normalization_keeps_one_authoritative_chain() {
    let snapshot_message = "snapshot failure";
    let direct = normalize_live_successor_child_shutdown(
        Some(HaNodeError::ServiceServer(snapshot_message.into())),
        Err(HaNodeError::ServiceServer(snapshot_message.into())),
    )
    .unwrap_err();
    assert!(matches!(
        direct,
        HaNodeError::ServiceServer(message) if message == snapshot_message
    ));

    let authoritative_cleanup = normalize_live_successor_child_shutdown(
        Some(HaNodeError::ServiceServer(snapshot_message.into())),
        Err(HaNodeError::Cleanup {
            primary: Box::new(HaNodeError::ServiceServer(snapshot_message.into())),
            cleanup: Box::new(deadline_error()),
        }),
    )
    .unwrap_err();
    let HaNodeError::Cleanup { primary, cleanup } = authoritative_cleanup else {
        panic!("child Cleanup must remain authoritative without another wrapper");
    };
    assert!(matches!(
        primary.as_ref(),
        HaNodeError::ServiceServer(message) if message == snapshot_message
    ));
    assert!(matches!(cleanup.as_ref(), HaNodeError::ShutdownDeadlineExceeded { .. }));

    let recorder = combine_live_successor_child_and_staging(
        None,
        Err(HaNodeError::RecorderServer("recorder child failure".into())),
        Ok(()),
    )
    .unwrap_err();
    assert!(matches!(
        recorder,
        HaNodeError::RecorderServer(message) if message == "recorder child failure"
    ));

    let startup = combine_live_successor_child_and_staging(
        None,
        Err(HaNodeError::Startup(fail("startup child failure"))),
        Err(HaNodeError::ServiceServer("staging cleanup failure".into())),
    )
    .unwrap_err();
    let HaNodeError::Cleanup { primary, cleanup } = startup else {
        panic!("staging cleanup must be attached once to the authoritative child error");
    };
    assert!(matches!(
        primary.as_ref(),
        HaNodeError::Startup(HaStartupError::Source(message))
            if message == "startup child failure"
    ));
    assert!(matches!(
        cleanup.as_ref(),
        HaNodeError::ServiceServer(message) if message == "staging cleanup failure"
    ));
}

#[test]
fn cleanup_runs_under_the_requested_shutdown() {
    let token = outer();
    assert!(live_successor_cleanup_token(&requested(token), 99 * SECOND) == token);
    let own = live_successor_cleanup_token(&calm(3), 99 * SECOND);
    assert_eq!(own.deadline(), 99 * SECOND);
    assert_eq!(own.startup_token(), cancellation(100));
    assert_eq!(own.startup_authority(), StartupCancellationAuthority::Internal);
    assert_eq!(calm(3).own_deadline(), 25 * SECOND + 3);
    let (result, snapshot) = finish_cancelled_live_successor(Ok(()));
    assert!(result.is_ok());
    assert_eq!(snapshot.status, HaNodeStatus::Stopped);
    assert!(publish_supervisor_end(&Ok(())).is_none());
    assert_eq!(
        publish_supervisor_end(&Err(HaNodeError::Cancelled)).unwrap().status,
        HaNodeStatus::Failed
    );
}

fn staging_step(server: StagingServer, event: StagingEvent) -> (StagingServer, Vec<StagingEffect>) {
    run_successor_staging_server(server, event)
}

fn close() -> StagingEvent {
    StagingEvent::CommandChanged { closed: false, command: StagingCommand::Close }
}

/// The staging server has ended with this exit, within the deadline.
fn ended(server: StagingServer) -> StagingWait {
    match server.phase {
        StagingPhase::Finished(result) => StagingWait::Ended(StagingTaskExit::Returned(result)),
        other => panic!("the staging server did not end: {other:?}"),
    }
}

fn exhausted() -> StagingEvent {
    StagingEvent::AcceptFailed {
        error: AcceptError { kind: AcceptErrorKind::Other, unix_os_error: Some(24) },
        message: "too many open files".to_string(),
    }
}

#[test]
fn staging_listener_close_drops_the_unique_lease_before_rebind() {
    let (server, effects) = staging_step(StagingServer::start(), close());
    assert_eq!(effects, vec![StagingEffect::CloseListener, StagingEffect::AbortConnections]);
    assert!(stop_staging_server_before(ended(server)).result.is_ok());
}

#[test]
fn staging_closes_when_nobody_commands_it_any_more() {
    let (gone, effects) = staging_step(
        StagingServer::start(),
        StagingEvent::CommandChanged { closed: true, command: StagingCommand::Running },
    );
    assert!(effects.contains(&StagingEffect::CloseListener));
    assert!(matches!(gone.phase, StagingPhase::Finished(Ok(StagingExit::Closed))));
}

#[test]
fn staging_close_aborts_idle_http1_keepalive_before_deadline() {
    let (server, effects) = staging_step(StagingServer::start(), StagingEvent::Accepted);
    assert_eq!(effects, vec![StagingEffect::ServeConnection]);
    assert_eq!(successor_staging_livez(), 200);
    let (server, effects) = staging_step(server, close());
    assert_eq!(effects, vec![StagingEffect::CloseListener, StagingEffect::AbortConnections]);
    assert!(matches!(server.phase, StagingPhase::Reaping { exit: StagingExit::Closed }));
    let (server, _) = staging_step(server, StagingEvent::ConnectionEnded);
    assert!(stop_staging_server_before(ended(server)).result.is_ok());
}

#[test]
fn staging_resource_accept_error_backs_off_then_recovers() {
    let (server, _) = staging_step(StagingServer::start(), exhausted());
    assert!(matches!(server.phase, StagingPhase::BackingOff));
    let (server, _) = staging_step(server, StagingEvent::BackoffElapsed);
    let (server, effects) = staging_step(server, StagingEvent::Accepted);
    assert_eq!(effects, vec![StagingEffect::ServeConnection]);
    assert_eq!(server.connections, 1);
    assert_eq!(successor_staging_livez(), 200);
    let (server, _) = staging_step(server, StagingEvent::ConnectionEnded);
    let (server, _) = staging_step(server, close());
    assert!(matches!(server.phase, StagingPhase::Finished(Ok(StagingExit::Closed))));
}

#[test]
fn staging_resource_accept_backoff_yields_to_close() {
    let (server, _) = staging_step(StagingServer::start(), exhausted());
    let (server, effects) = staging_step(
        server,
        StagingEvent::CommandChanged { closed: false, command: StagingCommand::Close },
    );
    assert!(effects.contains(&StagingEffect::CloseListener));
    assert!(matches!(server.phase, StagingPhase::Finished(Ok(StagingExit::Closed))));
}

#[test]
fn staging_resource_accept_backoff_yields_to_handoff() {
    let (server, _) = staging_step(StagingServer::start(), exhausted());
    let (server, effects) = staging_step(
        server,
        StagingEvent::CommandChanged { closed: false, command: StagingCommand::Handoff },
    );
    assert!(!effects.contains(&StagingEffect::CloseListener));
    assert!(matches!(server.phase, StagingPhase::Finished(Ok(StagingExit::Handoff))));
}

#[test]
fn staging_transient_accept_error_retries_without_resource_backoff() {
    let source = std::io::Error::from(std::io::ErrorKind::ConnectionRefused);
    let (server, effects) = staging_step(
        StagingServer::start(),
        StagingEvent::AcceptFailed {
            error: AcceptError {
                kind: AcceptErrorKind::ConnectionRefused,
                unix_os_error: source.raw_os_error(),
            },
            message: source.to_string(),
        },
    );
    assert!(effects.is_empty());
    assert!(matches!(server.phase, StagingPhase::Accepting));
    let (server, effects) = staging_step(server, StagingEvent::Accepted);
    assert_eq!(effects, vec![StagingEffect::ServeConnection]);
    assert_eq!(successor_staging_livez(), 200);
    let (server, _) = staging_step(server, StagingEvent::ConnectionEnded);
    let (server, _) = staging_step(server, close());
    assert!(matches!(server.phase, StagingPhase::Finished(Ok(StagingExit::Closed))));
}

#[test]
fn staging_terminal_accept_error_preserves_its_source() {
    let source = std::io::Error::from(std::io::ErrorKind::PermissionDenied);
    let expected = format!("successor staging service accept failed: {source}");
    let (server, effects) = staging_step(
        StagingServer::start(),
        StagingEvent::AcceptFailed {
            error: AcceptError {
                kind: AcceptErrorKind::Other,
                unix_os_error: source.raw_os_error(),
            },
            message: source.to_string(),
        },
    );
    assert!(effects.contains(&StagingEffect::CloseListener));
    assert!(matches!(
        server.phase,
        StagingPhase::Finished(Err(HaNodeError::ServiceServer(message))) if message == expected
    ));
}

#[test]
fn staging_handoff_keeps_the_same_bound_listener_for_the_child() {
    let (server, effects) = staging_step(
        StagingServer::start(),
        StagingEvent::CommandChanged { closed: false, command: StagingCommand::Handoff },
    );
    assert!(!effects.contains(&StagingEffect::CloseListener));
    let outcome = handoff_staging_listener(ended(server));
    assert!(outcome.result.is_ok());
    assert!(!outcome.abort);

    let AxumIngressProgress::Finished { shutdown, .. } = wait_for_tracked_axum_ingress(
        AxumIngressWait::start(TrackedAxumIngress::new()),
        ServerRole::Service,
        IngressEvent::TaskExit {
            exit: TaskExit::Returned(Ok(())),
            receipt: true,
            reported: None,
        },
    ) else {
        panic!("the child's service ended");
    };
    assert!(shutdown.result.is_ok());
    assert_eq!(shutdown.ingress, IngressDisposition::Closed);
}

#[test]
fn a_handoff_waits_for_the_connections_to_end() {
    let (server, _) = staging_step(StagingServer::start(), StagingEvent::Accepted);
    let (server, effects) = staging_step(
        server,
        StagingEvent::CommandChanged { closed: false, command: StagingCommand::Handoff },
    );
    assert_eq!(effects, vec![StagingEffect::AbortConnections]);
    let (server, effects) = staging_step(server, StagingEvent::Accepted);
    assert!(effects.is_empty());
    let (server, effects) = staging_step(server, StagingEvent::ConnectionEnded);
    assert!(effects.is_empty());
    assert!(matches!(server.phase, StagingPhase::Finished(Ok(StagingExit::Handoff))));
}

#[test]
fn staging_close_before_handoff_is_a_conservative_service_failure() {
    let (server, _) = staging_step(StagingServer::start(), close());
    assert!(is_service(
        &handoff_staging_listener(ended(server)).result.unwrap_err(),
        "successor staging service closed before listener handoff"
    ));
}

#[test]
fn staging_that_hands_over_or_lingers_while_closing_is_a_failure() {
    let outcome = stop_staging_server_before(StagingWait::Ended(StagingTaskExit::Returned(Ok(
        StagingExit::Handoff,
    ))));
    assert!(is_service(
        &outcome.result.unwrap_err(),
        "successor staging service handed off its listener while closing"
    ));
    let late = stop_staging_server_before(StagingWait::DeadlineReached);
    assert!(late.abort);
    assert!(matches!(
        late.result,
        Err(HaNodeError::ShutdownDeadlineExceeded {
            phase: HaShutdownPhase::Service,
            ingress: IngressDisposition::Uncertain,
            tasks: TaskDisposition::Uncertain,
            ..
        })
    ));
}

#[test]
fn each_end_of_staging_is_told_apart() {
    let failed = |cancelled: bool| {
        StagingWait::Ended(StagingTaskExit::Failed {
            message: "task ended".to_string(),
            cancelled,
        })
    };
    assert!(abort_staging_server_before(failed(true)).is_ok());
    assert!(is_service(
        &abort_staging_server_before(failed(false)).unwrap_err(),
        "successor staging service task failed: task ended"
    ));
    assert!(abort_staging_server_before(StagingWait::Ended(StagingTaskExit::Returned(Ok(
        StagingExit::Handoff,
    ))))
    .is_ok());
    assert!(is_service(
        &unexpected_staging_server_exit(StagingTaskExit::Returned(Ok(StagingExit::Closed))),
        "successor staging service stopped unexpectedly"
    ));
    assert!(is_service(
        &unexpected_staging_server_exit(StagingTaskExit::Returned(Ok(StagingExit::Handoff))),
        "successor staging service handed off unexpectedly"
    ));
    assert_eq!(successor_staging_readyz(true), 200);
    assert_eq!(successor_staging_readyz(false), 503);
}

#[test]
fn deferred_child_cancellation_leaves_staging_as_the_only_listener_owner() {
    let (staging, effects) = staging_step(StagingServer::start(), StagingEvent::Accepted);
    assert_eq!(effects, vec![StagingEffect::ServeConnection]);
    let activation = begin_activation(ServiceListener::Deferred, None);
    assert!(matches!(activation, ActivationPhase::Announcing));
    let activation =
        activate_service_listener(activation, ActivationEvent::Announced { received: true });
    assert!(matches!(activation, ActivationPhase::AwaitingListener));
    assert!(matches!(staging.phase, StagingPhase::Accepting));

    let token = ShutdownToken::new(0, SECOND, cancellation(1));
    let activation = activate_service_listener(
        activation,
        ActivationEvent::ShutdownChanged { closed: false, signal: Some(token), now: 0 },
    );
    assert!(matches!(
        activation,
        ActivationPhase::Done(Ok(ServiceActivation::Shutdown {
            listener_closed: false,
            deadline: SECOND,
        }))
    ));

    let (staging, effects) = staging_step(staging, close());
    assert_eq!(effects, vec![StagingEffect::CloseListener, StagingEffect::AbortConnections]);
    let (staging, _) = staging_step(staging, StagingEvent::ConnectionEnded);
    assert!(stop_staging_server_before(ended(staging)).result.is_ok());
}

fn child(
    phase: ChildPhase,
    event: ChildEvent,
    moment: &Moment,
) -> (ChildPhase, Vec<SuccessorEffect>) {
    supervise_live_successor_child_after_staging_with_child(phase, event, moment)
}

fn shutdown_token(effects: &[SuccessorEffect]) -> ShutdownToken {
    for effect in effects {
        if let SuccessorEffect::ShutdownChild(token) = effect {
            return *token;
        }
    }
    panic!("the child is not shut down");
}

fn finish(
    phase: ChildPhase,
    child_result: Result<(), HaNodeError>,
    staging: Result<(), HaNodeError>,
) -> (Result<(), HaNodeError>, Vec<SuccessorEffect>) {
    let (phase, effects) = child(
        phase,
        ChildEvent::CleanedUp { child: child_result, staging },
        &calm(0),
    );
    match phase {
        ChildPhase::Finished(result) => (result, effects),
        other => panic!("the cleanup is over: {other:?}"),
    }
}

#[test]
fn pre_handoff_terminal_direct_child_error_is_not_duplicated() {
    let message = "same direct child terminal";
    let token = outer();
    let (phase, effects) = child(
        ChildPhase::AwaitingService,
        ChildEvent::ChildObserved(HaNodeSnapshot::failed(service(message))),
        &requested(token),
    );
    assert!(shutdown_token(&effects) == token);
    assert_eq!(shutdown_token(&effects).deadline(), token.deadline());
    assert!(matches!(
        effects[1],
        SuccessorEffect::StopStaging { deadline } if deadline == token.deadline()
    ));
    let (result, effects) = finish(phase, Err(service(message)), Ok(()));
    assert!(is_service(&result.unwrap_err(), message));
    assert!(effects.is_empty());
}

#[test]
fn pre_handoff_ready_close_prefers_child_source_then_attaches_staging_once() {
    for staging_error in [None, Some("ready-close staging cleanup failure")] {
        let child_message = "authoritative recorder child failure";
        let token = outer();
        let (phase, effects) = child(
            ChildPhase::AwaitingService,
            ChildEvent::ServiceReadyClosed(HaNodeSnapshot::of(HaNodeStatus::Starting)),
            &requested(token),
        );
        assert!(shutdown_token(&effects) == token);
        assert_eq!(shutdown_token(&effects).deadline(), token.deadline());
        let staging = match staging_error {
            None => Ok(()),
            Some(message) => Err(service(message)),
        };
        let (result, _) =
            finish(phase, Err(HaNodeError::RecorderServer(child_message.into())), staging);
        let error = result.unwrap_err();
        match staging_error {
            None => assert!(matches!(
                error,
                HaNodeError::RecorderServer(message) if message == child_message
            )),
            Some(staging_message) => {
                let HaNodeError::Cleanup { primary, cleanup } = error else {
                    panic!("staging evidence must wrap the child source exactly once");
                };
                assert!(matches!(
                    *primary,
                    HaNodeError::RecorderServer(message) if message == child_message
                ));
                assert!(is_service(&cleanup, staging_message));
            }
        }
    }
}

#[test]
fn a_child_that_ends_without_an_error_stopped_before_activation() {
    let (phase, _) = child(
        ChildPhase::AwaitingService,
        ChildEvent::ServiceReadyClosed(HaNodeSnapshot::of(HaNodeStatus::Starting)),
        &calm(0),
    );
    let (result, _) = finish(phase, Ok(()), Ok(()));
    assert!(is_service(
        &result.unwrap_err(),
        "live successor child stopped before service activation"
    ));
    let (phase, _) = child(
        ChildPhase::AwaitingService,
        ChildEvent::ServiceReadyClosed(HaNodeSnapshot::failed(service("child source"))),
        &calm(0),
    );
    let (result, _) = finish(phase, Ok(()), Err(service("staging source")));
    let HaNodeError::Cleanup { primary, cleanup } = result.unwrap_err() else {
        panic!("staging is attached once");
    };
    assert!(is_service(&primary, "child source"));
    assert!(is_service(&cleanup, "staging source"));
}

#[test]
fn staging_exit_cancels_the_blocked_actual_child_before_activation_and_releases_listener() {
    let (phase, effects) = child(
        ChildPhase::AwaitingService,
        ChildEvent::StagingExited(StagingTaskExit::Returned(Ok(StagingExit::Closed))),
        &calm(0),
    );
    assert_eq!(effects.len(), 1);
    assert_eq!(shutdown_token(&effects).deadline(), 25 * SECOND);
    let (result, _) = finish(phase, Ok(()), Ok(()));
    assert!(is_service(&result.unwrap_err(), "successor staging service stopped unexpectedly"));
}

#[test]
fn actual_deferred_ha_child_is_cancelled_when_staging_errors_or_panics_at_activation() {
    for _ in 0..3 {
        for (fault, expected) in [
            (
                StagingTaskExit::Returned(Err(service("injected successor staging failure"))),
                "injected successor staging failure",
            ),
            (
                StagingTaskExit::Failed {
                    message: "task 7 panicked with message \"injected successor staging panic\""
                        .to_string(),
                    cancelled: false,
                },
                "injected successor staging panic",
            ),
        ] {
            let (phase, effects) = child(
                ChildPhase::AwaitingService,
                ChildEvent::ChildObserved(HaNodeSnapshot::of(HaNodeStatus::Starting)),
                &calm(0),
            );
            assert!(effects.is_empty());
            let activation = begin_activation(ServiceListener::Deferred, None);
            assert!(matches!(activation, ActivationPhase::Announcing));

            let (phase, effects) = child(phase, ChildEvent::StagingExited(fault), &calm(0));
            assert_eq!(effects.len(), 1, "a staging service that is gone is not stopped again");
            let token = shutdown_token(&effects);
            let cancelled = begin_activation(ServiceListener::Deferred, Some(token));
            assert!(matches!(
                cancelled,
                ActivationPhase::Done(Ok(ServiceActivation::Shutdown {
                    listener_closed: false,
                    deadline,
                })) if deadline == token.deadline()
            ));
            let (result, effects) = finish(phase, Ok(()), Ok(()));
            assert!(effects.is_empty());
            let error = result.unwrap_err();
            assert!(
                matches!(&error, HaNodeError::ServiceServer(message) if message.contains(expected)),
                "staging role/source was not preserved: {error:?}"
            );
        }
    }
}

#[test]
fn simultaneous_staging_failure_keeps_primary_but_reuses_exact_outer_shutdown() {
    let token = outer();
    let (phase, effects) = child(
        ChildPhase::AwaitingService,
        ChildEvent::StagingExited(StagingTaskExit::Returned(Ok(StagingExit::Closed))),
        &requested(token),
    );
    assert!(shutdown_token(&effects) == token);
    assert_eq!(shutdown_token(&effects).deadline(), token.deadline());
    let (result, _) = finish(phase, Ok(()), Ok(()));
    assert!(is_service(&result.unwrap_err(), "successor staging service stopped unexpectedly"));
}

#[test]
fn a_staging_failure_of_its_own_comes_before_the_cleanup_of_the_child() {
    let (phase, _) = child(
        ChildPhase::AwaitingService,
        ChildEvent::StagingExited(StagingTaskExit::Returned(Err(service("staging fault")))),
        &requested(outer()),
    );
    let (result, _) = finish(phase, Err(service("child cleanup")), Ok(()));
    let HaNodeError::Cleanup { primary, cleanup } = result.unwrap_err() else {
        panic!("the child's cleanup follows the staging failure");
    };
    assert!(is_service(&primary, "staging fault"));
    assert!(is_service(&cleanup, "child cleanup"));
}

#[test]
fn top_level_child_terminal_cleanup_reuses_exact_outer_shutdown() {
    let primary_message = "actual child terminal before activation";
    let token = outer();
    let (phase, effects) = child(
        ChildPhase::AwaitingService,
        ChildEvent::ChildObserved(HaNodeSnapshot::failed(service(primary_message))),
        &requested(token),
    );
    assert!(shutdown_token(&effects) == token);
    assert_eq!(shutdown_token(&effects).deadline(), token.deadline());
    assert!(matches!(
        effects[1],
        SuccessorEffect::StopStaging { deadline } if deadline == token.deadline()
    ));
    let (result, _) = finish(phase, Ok(()), Ok(()));
    assert!(is_service(&result.unwrap_err(), primary_message));
}

#[test]
fn top_level_child_stopped_cleanup_reuses_exact_outer_shutdown() {
    let token = outer();
    let (phase, effects) = child(
        ChildPhase::AwaitingService,
        ChildEvent::ChildObserved(HaNodeSnapshot::of(HaNodeStatus::Stopped)),
        &requested(token),
    );
    assert!(shutdown_token(&effects) == token);
    assert_eq!(shutdown_token(&effects).deadline(), token.deadline());
    let (result, effects) = finish(phase, Ok(()), Ok(()));
    assert!(result.is_ok());
    assert_eq!(published(&effects), vec![HaNodeStatus::Stopped]);
}

#[test]
fn post_handoff_terminal_keeps_primary_and_reuses_exact_outer_shutdown() {
    let primary_message = "post-handoff child terminal";
    let token = outer();
    let (phase, effects) = child(
        ChildPhase::Serving,
        ChildEvent::ChildObserved(HaNodeSnapshot::failed(service(primary_message))),
        &requested(token),
    );
    assert!(shutdown_token(&effects) == token);
    assert_eq!(shutdown_token(&effects).deadline(), token.deadline());
    assert_eq!(published(&effects), vec![HaNodeStatus::Failed]);
    let (result, _) = finish(phase, Ok(()), Ok(()));
    assert!(is_service(&result.unwrap_err(), primary_message));
}

#[test]
fn post_handoff_stopped_reuses_exact_outer_shutdown() {
    let token = outer();
    let (phase, observed) = child(
        ChildPhase::Serving,
        ChildEvent::ChildObserved(HaNodeSnapshot::of(HaNodeStatus::Stopped)),
        &requested(token),
    );
    assert!(shutdown_token(&observed) == token);
    assert_eq!(shutdown_token(&observed).deadline(), token.deadline());
    let (result, effects) = finish(phase, Ok(()), Ok(()));
    assert!(result.is_ok());
    let told: Vec<HaNodeStatus> =
        published(&observed).into_iter().chain(published(&effects)).collect();
    assert_eq!(told.last(), Some(&HaNodeStatus::Stopped));
}

#[test]
fn post_handoff_state_close_keeps_primary_and_reuses_retained_outer_shutdown() {
    let token = outer();
    let (phase, effects) =
        child(ChildPhase::Serving, ChildEvent::ChildStateClosed, &requested(token));
    assert!(shutdown_token(&effects) == token);
    assert_eq!(shutdown_token(&effects).deadline(), token.deadline());
    let (result, effects) = finish(phase, Ok(()), Ok(()));
    assert!(is_service(&result.unwrap_err(), "HA child supervisor state channel closed"));
    assert_eq!(published(&effects), vec![HaNodeStatus::Failed]);
}

#[test]
fn post_handoff_terminal_preserves_authoritative_child_cleanup_without_duplication() {
    let primary_message = "post-handoff terminal with cleanup";
    let token = outer();
    let (phase, effects) = child(
        ChildPhase::Serving,
        ChildEvent::ChildObserved(HaNodeSnapshot::failed(service(primary_message))),
        &requested(token),
    );
    assert!(shutdown_token(&effects) == token);
    assert_eq!(shutdown_token(&effects).deadline(), token.deadline());
    let (result, _) = finish(
        phase,
        Err(HaNodeError::Cleanup {
            primary: Box::new(service(primary_message)),
            cleanup: Box::new(deadline_error()),
        }),
        Ok(()),
    );
    let HaNodeError::Cleanup { primary, cleanup } = result.unwrap_err() else {
        panic!("authoritative child Cleanup was discarded");
    };
    assert!(is_service(&primary, primary_message));
    assert!(matches!(
        *cleanup,
        HaNodeError::ShutdownDeadlineExceeded {
            phase: HaShutdownPhase::Service,
            ingress: IngressDisposition::Closed,
            tasks: TaskDisposition::Uncertain,
            ..
        }
    ));
}

#[test]
fn post_handoff_state_close_keeps_primary_and_attaches_shutdown_evidence() {
    let token = outer();
    let (phase, effects) =
        child(ChildPhase::Serving, ChildEvent::ChildStateClosed, &requested(token));
    assert!(shutdown_token(&effects) == token);
    assert_eq!(shutdown_token(&effects).deadline(), token.deadline());
    let (result, _) = finish(phase, Err(deadline_error()), Ok(()));
    let HaNodeError::Cleanup { primary, cleanup } = result.unwrap_err() else {
        panic!("state-channel primary did not retain cleanup evidence");
    };
    assert!(is_service(&primary, "HA child supervisor state channel closed"));
    assert!(matches!(
        *cleanup,
        HaNodeError::ShutdownDeadlineExceeded {
            phase: HaShutdownPhase::Service,
            ingress: IngressDisposition::Closed,
            tasks: TaskDisposition::Uncertain,
            ..
        }
    ));
}

#[test]
fn outer_shutdown_aborts_and_reaps_blocked_actual_handoff_before_its_same_deadline() {
    let (phase, effects) = child(ChildPhase::AwaitingService, ChildEvent::ServiceReady, &calm(0));
    assert!(matches!(
        effects[0],
        SuccessorEffect::RequestHandoff { deadline } if deadline == 25 * SECOND
    ));
    let token = ShutdownToken::new(0, 300 * MILLIS, cancellation(1));
    let (phase, effects) = child(phase, ChildEvent::ShutdownChanged, &requested(token));
    assert!(shutdown_token(&effects) == token);
    assert_eq!(shutdown_token(&effects).deadline(), token.deadline());
    assert!(matches!(
        effects[1],
        SuccessorEffect::AbortStaging { deadline } if deadline == token.deadline()
    ));
    let (result, effects) = finish(phase, Ok(()), Ok(()));
    assert!(result.is_ok());
    assert_eq!(published(&effects), vec![HaNodeStatus::Stopped]);
}

#[test]
fn a_handoff_gives_the_listener_to_the_child_once() {
    let (phase, _) = child(ChildPhase::AwaitingService, ChildEvent::ServiceReady, &calm(0));
    let (phase, effects) = child(
        phase,
        ChildEvent::HandoffEnded(StagingWait::Ended(StagingTaskExit::Returned(Ok(
            StagingExit::Handoff,
        )))),
        &calm(0),
    );
    assert!(matches!(effects[0], SuccessorEffect::SendListener));
    let (phase, effects) = child(phase, ChildEvent::ListenerSent { accepted: true }, &calm(0));
    assert!(effects.is_empty());
    let (phase, effects) = child(
        phase,
        ChildEvent::ChildObserved(HaNodeSnapshot {
            status: HaNodeStatus::Ready,
            handle: Some(RhizaHandle { id: 3 }),
            terminal_error: None,
        }),
        &calm(0),
    );
    assert!(matches!(phase, ChildPhase::Serving));
    assert!(matches!(
        &effects[0],
        SuccessorEffect::Publish(snapshot) if snapshot.handle == Some(RhizaHandle { id: 3 })
    ));
}

#[test]
fn failed_handoffs_shut_the_child_down() {
    let (phase, effects) = child(
        ChildPhase::HandingOver { deadline: 7 },
        ChildEvent::HandoffEnded(StagingWait::DeadlineReached),
        &calm(0),
    );
    assert!(matches!(effects[0], SuccessorEffect::AbandonStaging));
    assert_eq!(shutdown_token(&effects).deadline(), 7);
    assert!(matches!(
        finish(phase, Ok(()), Ok(())).0,
        Err(HaNodeError::ShutdownDeadlineExceeded { .. })
    ));
    let (phase, _) = child(
        ChildPhase::Delivering { deadline: 7 },
        ChildEvent::ListenerSent { accepted: false },
        &calm(0),
    );
    assert!(is_service(
        &finish(phase, Ok(()), Ok(())).0.unwrap_err(),
        "live successor child dropped the service listener handoff"
    ));
    let (phase, effects) =
        child(ChildPhase::HandingOver { deadline: 7 }, ChildEvent::ShutdownChanged, &calm(0));
    assert_eq!(shutdown_token(&effects).deadline(), 7);
    assert!(is_service(
        &finish(phase, Ok(()), Ok(())).0.unwrap_err(),
        "live successor shutdown signal closed during listener handoff"
    ));
    let (phase, _) = child(ChildPhase::AwaitingService, ChildEvent::ShutdownChanged, &calm(0));
    assert!(matches!(
        phase,
        ChildPhase::Finished(Err(HaNodeError::ServiceServer(message)))
            if message == "live successor shutdown signal closed without a token"
    ));
    let (phase, _) = child(ChildPhase::AwaitingService, ChildEvent::ChildStateClosed, &calm(0));
    assert!(is_service(
        &finish(phase, Ok(()), Ok(())).0.unwrap_err(),
        "HA child supervisor state channel closed before service activation"
    ));
}

fn membership(names: [&str; 3], digest: u64) -> Membership {
    Membership {
        members: names.iter().map(|name| name.to_string()).collect(),
        digest: hash(digest),
    }
}

fn predecessor(index: u64) -> HaPredecessor {
    HaPredecessor::new(
        membership(["node-1", "node-2", "node-3"], 1),
        StopInformation {
            entry: LogEntry {
                cluster_id: "cluster-a".to_string(),
                epoch: 1,
                config_id: 1,
                index,
                entry_type: 3,
                payload: vec![1],
                prev_hash: hash(index - 1),
                hash: hash(index),
            },
            proof: vec![9],
        },
    )
}

fn live(events: Vec<LiveEvent>) -> (LiveSuccessor, Vec<SuccessorEffect>) {
    let mut state = LiveSuccessor::start();
    let mut last = Vec::new();
    for event in events {
        let (next, effects) = supervise_live_successor(state, event, &calm(0));
        state = next;
        last = effects;
    }
    (state, last)
}

fn published(effects: &[SuccessorEffect]) -> Vec<HaNodeStatus> {
    effects
        .iter()
        .filter_map(|effect| match effect {
            SuccessorEffect::Publish(snapshot) => Some(snapshot.status),
            _ => None,
        })
        .collect()
}

fn following() -> Vec<LiveEvent> {
    vec![
        LiveEvent::StagingStarted { reported: true },
        LiveEvent::Prepared(Ok(LiveSuccessorPrestage::Published)),
        LiveEvent::TailRequested(Ok(())),
    ]
}

fn caught_up(index: u64) -> LiveEvent {
    LiveEvent::PageApplied(Ok(LearnerProgress {
        durable: anchor(index),
        observed_source_tip: anchor(index),
    }))
}

#[test]
fn a_live_successor_follows_reports_readiness_and_takes_over_at_the_stop() {
    let mut events = following();
    events.push(LiveEvent::Fetched(Ok(true)));
    events.push(caught_up(8));
    let (state, effects) = live(events);
    assert!(state.staging_ready);
    assert!(matches!(state.phase, LivePhase::Retrying));
    assert_eq!(published(&effects), vec![HaNodeStatus::PreStopReady]);
    assert_eq!(SUCCESSOR_TAIL_RETRY_DELAY, SECOND / 4);

    let (state, effects) = supervise_live_successor(
        state,
        LiveEvent::PredecessorReceived(Some(predecessor(9))),
        &calm(0),
    );
    assert!(effects.is_empty());
    let (state, effects) =
        supervise_live_successor(state, LiveEvent::DurableRead(Ok(anchor(8))), &calm(0));
    assert!(!state.staging_ready);
    assert!(matches!(effects[0], SuccessorEffect::SetStagingReady(false)));
    assert_eq!(published(&effects), vec![HaNodeStatus::CatchingUp]);
    let (state, _) =
        supervise_live_successor(state, LiveEvent::DurableRead(Ok(anchor(8))), &calm(0));
    let (state, _) = supervise_live_successor(state, LiveEvent::TailRequested(Ok(())), &calm(0));
    let (state, _) = supervise_live_successor(state, LiveEvent::Fetched(Ok(false)), &calm(0));
    let (state, effects) = supervise_live_successor(state, caught_up(9), &calm(0));
    assert!(!state.staging_ready);
    assert_eq!(published(&effects), vec![HaNodeStatus::CatchingUp]);
    let (state, effects) =
        supervise_live_successor(state, LiveEvent::DurableRead(Ok(anchor(9))), &calm(0));
    assert_eq!(published(&effects), vec![HaNodeStatus::Transitioning]);
    let (state, _) = supervise_live_successor(state, LiveEvent::Bound(Ok(())), &calm(0));
    assert!(matches!(state.phase, LivePhase::Finalizing));
    let (state, effects) = supervise_live_successor(state, LiveEvent::Finalized(Ok(())), &calm(0));
    assert!(matches!(effects[0], SuccessorEffect::StartChild));
    assert!(matches!(state.phase, LivePhase::ChildStarted));
    assert_eq!(state.bound, Some(predecessor(9)));
}

#[test]
fn a_finalized_stage_waits_for_its_predecessor() {
    let (state, effects) = live(vec![
        LiveEvent::StagingStarted { reported: true },
        LiveEvent::Prepared(Ok(LiveSuccessorPrestage::Finalized)),
    ]);
    assert!(matches!(state.phase, LivePhase::AwaitingPredecessor));
    assert_eq!(published(&effects), vec![HaNodeStatus::CatchingUp]);
    let (state, effects) = supervise_live_successor(
        state,
        LiveEvent::PredecessorReceived(Some(predecessor(9))),
        &calm(0),
    );
    assert_eq!(published(&effects), vec![HaNodeStatus::Transitioning]);
    let (state, effects) = supervise_live_successor(state, LiveEvent::Bound(Ok(())), &calm(0));
    assert!(matches!(state.phase, LivePhase::ChildStarted));
    assert!(matches!(effects[0], SuccessorEffect::StartChild));
    let (restarted, effects) = live(vec![
        LiveEvent::StagingStarted { reported: true },
        LiveEvent::Prepared(Ok(LiveSuccessorPrestage::TargetCheckpoint)),
    ]);
    assert!(matches!(restarted.phase, LivePhase::ChildStarted));
    assert!(matches!(effects[1], SuccessorEffect::StartChild));
}

#[test]
fn a_predecessor_that_changes_fails_the_successor() {
    let mut events = following();
    events.push(LiveEvent::PredecessorReceived(Some(predecessor(9))));
    events.push(LiveEvent::DurableRead(Ok(anchor(4))));
    events.push(LiveEvent::DurableRead(Ok(anchor(4))));
    events.push(LiveEvent::TailRequested(Ok(())));
    events.push(LiveEvent::PredecessorReceived(Some(predecessor(10))));
    let (state, effects) = live(events);
    assert!(matches!(
        effects[0],
        SuccessorEffect::StopStaging { deadline } if deadline == 25 * SECOND
    ));
    assert_eq!(state.bound, Some(predecessor(9)));
    let (state, effects) = supervise_live_successor(
        state,
        LiveEvent::StagingStopped(Err(service("staging"))),
        &calm(0),
    );
    assert_eq!(published(&effects), vec![HaNodeStatus::Failed]);
    let LivePhase::Finished(Err(HaNodeError::Cleanup { primary, cleanup })) = state.phase else {
        panic!("the staging failure follows the first one");
    };
    assert_eq!(
        primary.message(),
        "HA startup failed: live successor predecessor binding changed after first observation"
    );
    assert!(is_service(&cleanup, "staging"));
}

#[test]
fn a_diverged_log_never_takes_over() {
    let stop = predecessor(9);
    assert!(matches!(live_successor_reached_stop(anchor(9), &stop), Ok(true)));
    assert!(matches!(live_successor_reached_stop(anchor(8), &stop), Ok(false)));
    for durable in [anchor(10), LogAnchor::new(9, hash(77))] {
        assert_eq!(
            live_successor_reached_stop(durable, &stop).unwrap_err().message(),
            "HA startup failed: live successor diverged from the exact predecessor Stop"
        );
    }
}

#[test]
fn an_unavailable_source_is_asked_again_and_others_are_fatal() {
    let mut events = following();
    events.push(LiveEvent::Fetched(Err(HaCertifiedTailError::Unavailable("down".to_string()))));
    let (state, effects) = live(events);
    assert!(matches!(state.phase, LivePhase::Retrying));
    assert_eq!(published(&effects), vec![HaNodeStatus::CatchingUp]);
    let (state, _) = supervise_live_successor(state, LiveEvent::RetryElapsed, &calm(0));
    assert!(matches!(state.phase, LivePhase::RequestingTail));

    for error in [
        HaCertifiedTailError::Rejected("token".to_string()),
        HaCertifiedTailError::RebaseRequired(anchor(50)),
    ] {
        let mut events = following();
        events.push(LiveEvent::Fetched(Err(error)));
        events.push(LiveEvent::StagingStopped(Ok(())));
        let (state, _) = live(events);
        assert!(matches!(
            state.phase,
            LivePhase::Finished(Err(HaNodeError::CertifiedTail(_)))
        ));
    }
}

#[test]
fn prepare_failure_reuses_retained_shutdown_and_reaps_staging_before_publish() {
    const PREPARE_ERROR: &str = "successor restore completion must be a regular file";
    const CLEANUP_ERROR: &str = "injected staging close failure after listener cleanup";

    fn assert_combined_prepare_failure(error: &HaNodeError) {
        let HaNodeError::Cleanup { primary, cleanup } = error else {
            panic!("prepare failure did not retain staging cleanup evidence: {error:?}");
        };
        assert!(matches!(
            primary.as_ref(),
            HaNodeError::Startup(HaStartupError::Source(message)) if message == PREPARE_ERROR
        ));
        assert!(is_service(cleanup, CLEANUP_ERROR));
    }

    let directory = FileMetadata { is_file: false, len: 4096 };
    let completion = read_optional_bounded_regular_file_no_follow(
        FileObservation::Opened {
            before: Ok(directory),
            read: Ok(Vec::new()),
            after: Ok(directory),
        },
        MAX_SUCCESSOR_RESTORE_CONTROL_BYTES,
        "successor restore completion",
    );
    let LivePrestagePhase::Done(prepared) = search(vec![
        LivePrestageEvent::CheckpointInitialized(Ok(manifest(0, None))),
        LivePrestageEvent::CompletionRead(Err(completion.unwrap_err())),
    ]) else {
        panic!("the search ends with what it could not read");
    };

    let external = ShutdownToken::new(0, 500 * MILLIS, cancellation(1));
    let (state, _) = live(vec![LiveEvent::StagingStarted { reported: true }]);
    let (state, effects) =
        supervise_live_successor(state, LiveEvent::Prepared(prepared), &requested(external));
    assert!(live_successor_cleanup_token(&requested(external), 25 * SECOND) == external);
    assert_eq!(effects.len(), 1);
    assert!(matches!(
        effects[0],
        SuccessorEffect::StopStaging { deadline } if deadline == external.deadline()
    ));
    let (state, effects) = supervise_live_successor(
        state,
        LiveEvent::StagingStopped(Err(service(CLEANUP_ERROR))),
        &requested(external),
    );
    let LivePhase::Finished(Err(error)) = &state.phase else {
        panic!("the successor ended: {state:?}");
    };
    assert_combined_prepare_failure(error);
    assert_eq!(effects.len(), 1);
    let SuccessorEffect::Publish(snapshot) = &effects[0] else {
        panic!("the end is published");
    };
    assert_eq!(snapshot.status, HaNodeStatus::Failed);
    assert_combined_prepare_failure(snapshot.terminal_error.as_ref().unwrap());
}

#[test]
fn a_prepare_failure_alone_ends_the_successor_as_it_is() {
    let (state, _) = live(vec![
        LiveEvent::StagingStarted { reported: true },
        LiveEvent::Prepared(Err(fail("no checkpoint"))),
        LiveEvent::StagingStopped(Ok(())),
    ]);
    assert!(matches!(
        state.phase,
        LivePhase::Finished(Err(HaNodeError::Startup(HaStartupError::Source(message))))
            if message == "no checkpoint"
    ));
}

#[test]
fn successor_retry_wait_surfaces_actual_staging_fault_before_timer() {
    let fault = || StagingTaskExit::Returned(Err(service("retry staging failure")));
    assert!(is_service(&unexpected_staging_server_exit(fault()), "retry staging failure"));
    let mut events = following();
    events.push(LiveEvent::Fetched(Ok(true)));
    events.push(caught_up(4));
    let (state, _) = live(events);
    assert!(matches!(state.phase, LivePhase::Retrying));
    let (state, effects) =
        supervise_live_successor(state, LiveEvent::StagingExited(fault()), &calm(0));
    assert_eq!(published(&effects), vec![HaNodeStatus::Failed]);
    assert!(matches!(
        state.phase,
        LivePhase::Finished(Err(HaNodeError::ServiceServer(message)))
            if message == "retry staging failure"
    ));
}

#[test]
fn a_stopped_successor_ends_with_its_staging_service() {
    let (state, _) = live(following());
    let (state, effects) =
        supervise_live_successor(state, LiveEvent::ShutdownChanged, &requested(outer()));
    assert!(matches!(effects[0], SuccessorEffect::StopStaging { deadline } if deadline == outer().deadline()));
    let (state, effects) =
        supervise_live_successor(state, LiveEvent::StagingStopped(Ok(())), &requested(outer()));
    assert!(matches!(state.phase, LivePhase::Finished(Ok(()))));
    assert_eq!(published(&effects), vec![HaNodeStatus::Stopped]);
    let (state, effects) = live(vec![
        LiveEvent::StagingStarted { reported: false },
        LiveEvent::StagingStopped(Ok(())),
    ]);
    assert_eq!(published(&effects), vec![HaNodeStatus::Failed]);
    assert!(matches!(
        state.phase,
        LivePhase::Finished(Err(HaNodeError::ServiceServer(message)))
            if message == "successor staging service stopped before reporting startup"
    ));
    let mut events = following();
    events.push(LiveEvent::PredecessorReceived(None));
    events.push(LiveEvent::StagingStopped(Ok(())));
    let (state, _) = live(events);
    assert!(matches!(state.phase, LivePhase::Finished(Err(HaNodeError::Cancelled))));
}

#[test]
fn an_owner_supplies_one_predecessor() {
    let mut node = HaSuccessorNode::started();
    assert!(matches!(node.bind_predecessor(predecessor(9), false), Err(HaNodeError::Cancelled)));
    assert!(node.bind_predecessor(predecessor(9), true).is_ok());
    assert!(node.bind_predecessor(predecessor(9), false).is_ok());
    assert_eq!(
        node.bind_predecessor(predecessor(10), true).unwrap_err().message(),
        "HA startup failed: live successor predecessor binding changed after first observation"
    );
    node.state = HaNodeSnapshot::of(HaNodeStatus::PreStopReady);
    assert!(node.is_prestop_ready());
    assert!(!node.is_ready());
}

fn manifest(index: u64, snapshot: Option<SnapshotAnchor>) -> CheckpointManifest {
    CheckpointManifest {
        identity: identity(2),
        tip: anchor(index),
        segments_empty: index == 0,
        snapshot,
    }
}

fn search(events: Vec<LivePrestageEvent>) -> LivePrestagePhase {
    let mut phase = LivePrestagePhase::InitializingCheckpoint;
    for event in events {
        phase = prepare_live_successor(2, phase, event);
    }
    phase
}

fn unresumable(rest: Vec<LivePrestageEvent>) -> LivePrestagePhase {
    let mut events = vec![
        LivePrestageEvent::CheckpointInitialized(Ok(manifest(0, None))),
        LivePrestageEvent::CompletionRead(Ok(false)),
        LivePrestageEvent::IdentityRead(Ok(())),
        LivePrestageEvent::Resumed(Err(fail("no stage"))),
    ];
    events.extend(rest);
    search(events)
}

#[test]
fn a_stage_is_resumed_found_or_made() {
    assert!(matches!(
        search(vec![
            LivePrestageEvent::CheckpointInitialized(Ok(manifest(0, None))),
            LivePrestageEvent::CompletionRead(Ok(true)),
        ]),
        LivePrestagePhase::Done(Ok(LiveSuccessorPrestage::Finalized))
    ));
    let active = |config_id: u64| SnapshotAnchor { active: true, config_id, compacted_index: 1 };
    assert!(matches!(
        search(vec![
            LivePrestageEvent::CheckpointInitialized(Ok(manifest(7, Some(active(2))))),
            LivePrestageEvent::CompletionRead(Ok(false)),
        ]),
        LivePrestagePhase::Done(Ok(LiveSuccessorPrestage::TargetCheckpoint))
    ));
    assert!(matches!(
        search(vec![
            LivePrestageEvent::CheckpointInitialized(Ok(manifest(7, Some(active(1))))),
            LivePrestageEvent::CompletionRead(Ok(false)),
        ]),
        LivePrestagePhase::Done(Err(HaStartupError::Source(message)))
            if message == "non-empty live successor checkpoint is not an active target snapshot"
    ));
    assert!(matches!(
        unresumable(vec![
            LivePrestageEvent::Inspected(LivePrestageInspection::DataDirNotFresh),
            LivePrestageEvent::DataInspected(Ok(true)),
            LivePrestageEvent::Prepared(Ok(())),
            LivePrestageEvent::Published(Ok(())),
        ]),
        LivePrestagePhase::Done(Ok(LiveSuccessorPrestage::Published))
    ));
    assert!(matches!(
        unresumable(vec![
            LivePrestageEvent::Inspected(LivePrestageInspection::DataDirNotFresh),
            LivePrestageEvent::DataInspected(Ok(false)),
        ]),
        LivePrestagePhase::Done(Err(HaStartupError::Source(message)))
            if message
                == "cannot resume live successor prestage (no stage); local data is not fresh"
    ));
    assert!(matches!(
        unresumable(vec![LivePrestageEvent::Inspected(LivePrestageInspection::Other)]),
        LivePrestagePhase::Done(Err(HaStartupError::Source(message))) if message == "no stage"
    ));
    assert!(matches!(
        unresumable(vec![LivePrestageEvent::Inspected(LivePrestageInspection::Finalized)]),
        LivePrestagePhase::Done(Ok(LiveSuccessorPrestage::Finalized))
    ));
}

fn identity(config_id: u64) -> CheckpointIdentity {
    CheckpointIdentity {
        cluster_id: "cluster-a".to_string(),
        epoch: 1,
        config_id,
        config_digest: hash(config_id),
        recovery_generation: 1,
    }
}

fn draft_config() -> NodeConfig {
    NodeConfig {
        cluster_id: "cluster-a".to_string(),
        node_id: "node-4".to_string(),
        epoch: 1,
        config_id: 2,
        recovery_generation: 1,
        execution_profile: ExecutionProfile::Sqlite,
        profile_name: "sql".to_string(),
        membership: membership(["node-2", "node-3", "node-4"], 2),
        log_initial_configuration: ConfigurationState::Active { config_id: 2, digest: hash(2) },
        configuration_state: ConfigurationState::Active { config_id: 2, digest: hash(2) },
    }
}

fn prestage() -> HaSuccessorPrestageConfig {
    HaSuccessorPrestageConfig::new(
        ArchiveHandle { id: 10 },
        "/stage".to_string(),
        "node-4".to_string(),
        ExecutionProfile::Sqlite,
        membership(["node-1", "node-2", "node-3"], 1),
        membership(["node-2", "node-3", "node-4"], 2),
        "tail".to_string(),
    )
}

fn serve() -> HaServeConfig {
    HaServeConfig::new(HaRecorderTransport::Http, vec!["node-4".to_string()])
}

#[test]
fn a_live_successor_starts_for_the_next_configuration_only() {
    let startup = || startup_of(draft_config(), HaStartupMode::Rejoin);
    let started = prestage()
        .start_live(startup(), serve(), Ok(identity(1)), Ok(identity(2)))
        .unwrap();
    assert_eq!(started.node.status(), HaNodeStatus::Restoring);
    assert!(!started.serve.owns_listener);
    assert!(matches!(started.live.phase, LivePhase::StartingStaging));
    assert_eq!(started.prestage.target_node_id, "node-4");
    assert_eq!(started.prestage.archive, ArchiveHandle { id: 10 });
    assert_eq!(started.startup.archive, ARCHIVE);
    assert_eq!(started.startup.durability, DurabilityMode::Sync);
    let refusal = |startup: HaStartupConfig,
                   source: Result<CheckpointIdentity, String>,
                   target: Result<CheckpointIdentity, String>| {
        prestage().start_live(startup, serve(), source, target).err().unwrap().message()
    };
    assert_eq!(
        refusal(
            startup_of(draft_config(), HaStartupMode::Disaster),
            Ok(identity(1)),
            Ok(identity(2))
        ),
        "live successor requires an unbound active draft in rejoin mode"
    );
    assert_eq!(
        refusal(startup(), Err("no source".to_string()), Err("no target".to_string())),
        "no source"
    );
    assert_eq!(refusal(startup(), Ok(identity(1)), Err("no target".to_string())), "no target");
    assert_eq!(
        refusal(startup(), Ok(identity(2)), Ok(identity(2))),
        "live successor draft, source checkpoint, and target checkpoint identities differ"
    );
    let mut successor = SuccessorServeConfig::of(serve()).unwrap();
    successor.take_service_listener();
    let (child, phase) = supervise_live_successor_child_after_staging(startup(), successor);
    assert_eq!(child.node.status(), HaNodeStatus::Starting);
    assert!(matches!(phase, ChildPhase::AwaitingService));
}

fn stage_identity() -> HaSuccessorPrestageIdentity {
    HaSuccessorPrestageIdentity {
        cluster_id: "cluster-a".to_string(),
        epoch: 1,
        predecessor_config_id: 1,
        predecessor_membership_digest: hash(1),
        predecessor_recovery_generation: 6,
        node_id: "node-4".to_string(),
        execution_profile: ExecutionProfile::Kv,
        target_config_id: 2,
        target_membership_digest: hash(2),
        seed_anchor: anchor(3),
    }
}

#[test]
fn a_stage_is_made_for_the_next_configuration() {
    let plan = prestage().with_effect_consensus().prepare(identity(1)).unwrap();
    assert_eq!(plan.archive, ArchiveHandle { id: 10 });
    assert_eq!(plan.predecessor_config_id, 1);
    assert_eq!(plan.target_config_id, 2);
    assert_eq!(plan.predecessor_digest, hash(1));
    assert_eq!(plan.target_digest, hash(2));
    assert_eq!(plan.tail_config.config_id, 1);
    assert_eq!(plan.tail_config.tail_token, "tail");
    assert!(plan.effect_consensus);
    let mut running = draft_config();
    running.config_id = 1;
    running.membership = membership(["node-1", "node-2", "node-3"], 1);
    let served = certified_tail_config(&running, 1, "tail");
    assert_eq!(served.cluster_id, plan.tail_config.cluster_id);
    assert_eq!(served.epoch, plan.tail_config.epoch);
    assert_eq!(served.config_id, plan.tail_config.config_id);
    assert_eq!(served.membership, plan.tail_config.membership);
    assert_eq!(served.recovery_generation, plan.tail_config.recovery_generation);
    assert_eq!(served.tail_token, plan.tail_config.tail_token);
    assert_eq!(
        prestage().prepare(identity(u64::MAX)).err().unwrap().message(),
        "successor prestage target config_id cannot advance"
    );
}

#[test]
fn only_ready_or_published_stages_go_on() {
    for state in [SuccessorPrestageState::Ready, SuccessorPrestageState::Published] {
        assert!(require_resumable_successor_prestage(state).is_ok());
        let resumed = HaSuccessorPrestageConfig::resume(
            state,
            stage_identity(),
            membership(["node-1", "node-2", "node-3"], 1),
            "tail".to_string(),
        )
        .unwrap();
        assert_eq!(resumed.tail_config.recovery_generation, 6);
        assert_eq!(resumed.tail_config.cluster_id, "cluster-a");
        assert!(!resumed.effect_consensus);
    }
    for state in [SuccessorPrestageState::Preparing, SuccessorPrestageState::Finalized] {
        assert_eq!(
            require_resumable_successor_prestage(state).unwrap_err().message(),
            "successor prestage resume requires a ready or published stage"
        );
    }
}

#[test]
fn tail_requests_stay_within_their_limit() {
    assert_eq!(tail_request(anchor(3), 10, 10).unwrap().max_entries, 10);
    assert_eq!(tail_request(anchor(3), 1, 10).unwrap().from, anchor(3));
    for max_entries in [0, 11] {
        assert_eq!(
            tail_request(anchor(3), max_entries, 10).unwrap_err().message(),
            "certified tail max_entries must be in 1..=10"
        );
    }
}

fn prepared_stage() -> PreparedHaSuccessorPrestage {
    PreparedHaSuccessorPrestage::of(
        SuccessorPrestageState::Ready,
        stage_identity(),
        TailReaderConfig {
            cluster_id: "cluster-a".to_string(),
            epoch: 1,
            config_id: 1,
            membership: membership(["node-1", "node-2", "node-3"], 1),
            recovery_generation: 6,
            tail_token: "tail".to_string(),
        },
        false,
    )
    .unwrap()
}

#[test]
fn a_stage_keeps_its_identity_until_it_is_finalized() {
    let prepared = prepared_stage();
    assert_eq!(prepared.tail_request(4, 8).unwrap().from, anchor(3));
    let identity = prepared.identity();
    assert_eq!(identity.cluster_id(), "cluster-a");
    assert_eq!(identity.epoch(), 1);
    assert_eq!(identity.predecessor_config_id(), 1);
    assert_eq!(identity.predecessor_membership_digest(), hash(1));
    assert_eq!(identity.predecessor_recovery_generation(), 6);
    assert_eq!(identity.node_id(), "node-4");
    assert_eq!(identity.execution_profile(), ExecutionProfile::Kv);
    assert_eq!(identity.target_config_id(), 2);
    assert_eq!(identity.target_membership_digest(), hash(2));
    assert_eq!(identity.seed_anchor(), anchor(3));
    assert_eq!(
        prepared_stage().publish(Err("moved".to_string()), Ok(())).unwrap_err().message(),
        "moved"
    );
    assert_eq!(
        prepared_stage().publish(Ok(()), Err("opened".to_string())).unwrap_err().message(),
        "opened"
    );
    let published = prepared.publish(Ok(()), Ok(())).unwrap();
    assert_eq!(published.identity(), &stage_identity());

    let descriptor = || SuccessorDescriptor {
        cluster_id: "cluster-a".to_string(),
        predecessor_config_id: 1,
        predecessor_config_digest: hash(1),
        config_id: 2,
        digest: hash(2),
        members: vec!["node-2".to_string(), "node-3".to_string(), "node-4".to_string()],
    };
    let reading = StopReading {
        recomputed_hash: hash(9),
        change: Some(ConfigChange::BoundStop { successor: descriptor() }),
        command_hash: hash(40),
        proof_error: None,
        proof_certifies_entry: true,
    };
    let mut config = draft_config();
    config.log_initial_configuration =
        ConfigurationState::Active { config_id: 1, digest: hash(1) };
    config.configuration_state = ConfigurationState::Stopped {
        config_id: 1,
        digest: hash(1),
        stop: anchor(9),
        binding: StopBinding::Bound { successor: descriptor(), stop_command_hash: hash(40) },
    };
    let startup =
        startup_of(config, HaStartupMode::Rejoin).with_predecessor(predecessor(9));
    assert!(published.finalize(&startup, &reading).is_ok());
    let unbound = startup_of(draft_config(), HaStartupMode::Rejoin);
    assert_eq!(
        published.finalize(&unbound, &reading).unwrap_err().message(),
        "successor prestage finalization requires a predecessor"
    );
    let bootstrap = startup_of(draft_config(), HaStartupMode::Bootstrap);
    assert_eq!(
        published.finalize(&bootstrap, &reading).unwrap_err().message(),
        "successor prestage finalization requires rejoin mode"
    );
}
