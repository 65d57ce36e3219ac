use rhiza_ha::binding::{ConfigChange, HaPredecessor, LogEntry, StopInformation, StopReading};
use rhiza_ha::config::{
    ArchiveHandle, CheckpointIdentity, ConfigurationState, DurabilityMode, ExecutionProfile,
    Membership, NodeConfig, StopBinding, SuccessorDescriptor,
};
use rhiza_ha::error::{fail, HaStartupError};
use rhiza_ha::local_files::{
    encode_local_checkpoint_identity_marker, encode_successor_restore_receipt,
    expected_successor_restore_receipt, validate_successor_restore_controls,
    SuccessorRestoreControlState,
};
use rhiza_ha::log::{LogAnchor, LogHash};
use rhiza_ha::preparation::{LocalRecorderState, RecorderOpenPolicy, StartupPreparation};
use rhiza_ha::prepare::{
    begin_standard_preparation, prepare_standard, recover_local_recorder_before_view_recovery,
    CheckpointInstallMode, CheckpointManifest, InstallOutcome, PreparedCheckpoint,
    RecorderRecovery, RestoreKind, RestoreStep, SnapshotAnchor, StandardEvent, StandardPhase,
};
use rhiza_ha::recorder::HaRecorder;
use rhiza_ha::scope::HaRecorderTransport;
use rhiza_ha::startup::{
    prepare, HaServeConfig, HaStartupConfig, PrepareEvent, PreparePhase, SuccessorServeConfig,
};
use rhiza_ha::status::{HaNodeStatus, HaStartupMode};
use rhiza_ha::successor_prepare::{
    acquire_checkpoint_prepare_permit, open_recorder_after_preflight_under_startup_permit,
    open_recorder_for_preparation, plan_prestage_adoption, prepare_successor, PreparePermitEvent,
    PreparePermitPhase, PrestageInspection, RecorderAction, RecorderOpenEvent, RecorderOpenPhase,
    SuccessorEvent, SuccessorPhase, SuccessorTarget, HA_CHECKPOINT_PREPARE_CONCURRENCY,
};
use rhiza_ha::token::{
    cancel_startup_for_token, ShutdownToken, StartupCancellationToken, StartupIoContext,
};

fn hash(word: u64) -> LogHash {
    LogHash { word0: word, word1: 0, word2: 0, word3: 0 }
}

fn members(names: [&str; 3], digest: u64) -> Membership {
    Membership {
        members: names.iter().map(|name| name.to_string()).collect(),
        digest: hash(digest),
    }
}

fn identity(config_id: u64) -> CheckpointIdentity {
    CheckpointIdentity {
        cluster_id: "cluster-a".to_string(),
        epoch: 1,
        config_id,
        config_digest: hash(1),
        recovery_generation: 1,
    }
}

fn manifest(index: u64, segments_empty: bool) -> CheckpointManifest {
    CheckpointManifest {
        identity: identity(1),
        tip: LogAnchor::new(index, hash(index)),
        segments_empty,
        snapshot: None,
    }
}

fn prepared() -> PreparedCheckpoint {
    PreparedCheckpoint { identity: identity(1), root: LogAnchor::new(8, hash(8)) }
}

fn cancelled() -> HaStartupError {
    HaStartupError::Cancelled(StartupCancellationToken { id: 3 })
}

fn run(mode: HaStartupMode, graph: bool, events: Vec<StandardEvent>) -> StandardPhase {
    let mut phase = begin_standard_preparation(mode);
    for event in events {
        phase = prepare_standard(graph, phase, event);
    }
    phase
}

fn refusal(phase: StandardPhase) -> String {
    match phase {
        StandardPhase::Done(Err(error)) => error.message(),
        other => panic!("preparation went on: {other:?}"),
    }
}

#[test]
fn bootstrap_prepares_a_fresh_directory_with_an_empty_checkpoint() {
    let done = run(
        HaStartupMode::Bootstrap,
        false,
        vec![
            StandardEvent::Checked(Ok(())),
            StandardEvent::DataInspected(Ok(true)),
            StandardEvent::CheckpointLoaded(Ok(Some(manifest(0, true)))),
            StandardEvent::Checked(Ok(())),
            StandardEvent::MarkerWritten(Ok(())),
        ],
    );
    assert!(matches!(
        done,
        StandardPhase::Done(Ok(StartupPreparation::RecorderFirst {
            open_policy: RecorderOpenPolicy::CreateAfterRehydration,
        }))
    ));
    assert_eq!(
        refusal(run(
            HaStartupMode::Bootstrap,
            false,
            vec![StandardEvent::Checked(Ok(())), StandardEvent::DataInspected(Ok(false))],
        )),
        "bootstrap requires a fresh local data directory"
    );
    for checkpoint in [None, Some(manifest(1, true)), Some(manifest(0, false))] {
        assert_eq!(
            refusal(run(
                HaStartupMode::Bootstrap,
                false,
                vec![
                    StandardEvent::Checked(Ok(())),
                    StandardEvent::DataInspected(Ok(true)),
                    StandardEvent::CheckpointLoaded(Ok(checkpoint)),
                    StandardEvent::Checked(Ok(())),
                ],
            )),
            "bootstrap requires an initialized empty checkpoint"
        );
    }
}

#[test]
fn a_cancellation_ends_preparation_unchanged() {
    let done = run(
        HaStartupMode::Bootstrap,
        false,
        vec![StandardEvent::Checked(Err(cancelled())), StandardEvent::DataInspected(Ok(true))],
    );
    assert!(matches!(
        done,
        StandardPhase::Done(Err(HaStartupError::Cancelled(StartupCancellationToken { id: 3 })))
    ));
}

fn fresh_rejoin(events: Vec<StandardEvent>) -> StandardPhase {
    let mut all = vec![
        StandardEvent::DataInspected(Ok(true)),
        StandardEvent::Checked(Ok(())),
        StandardEvent::StateCaptured(Ok(())),
        StandardEvent::RemotePrepared(Ok(prepared())),
        StandardEvent::MarkerEncoded(Ok(())),
    ];
    all.extend(events);
    run(HaStartupMode::Rejoin, false, all)
}

#[test]
fn a_fresh_rejoin_restores_and_then_catches_up() {
    let tip = LogAnchor::new(8, hash(8));
    let done = fresh_rejoin(vec![
        StandardEvent::CheckpointInstalled(InstallOutcome::Installed(tip)),
        StandardEvent::Checked(Ok(())),
        StandardEvent::MarkerValidated(Ok(())),
    ]);
    assert!(matches!(
        done,
        StandardPhase::Done(Ok(StartupPreparation::RuntimeFirstWithPeerCatchup {
            checkpoint_root,
            open_policy: RecorderOpenPolicy::CreateAfterRehydration,
        })) if checkpoint_root == tip
    ));
    assert_eq!(
        refusal(fresh_rejoin(vec![StandardEvent::CheckpointInstalled(InstallOutcome::Failed(
            "disk full".to_string()
        ))])),
        "disk full"
    );
    assert!(matches!(
        fresh_rejoin(vec![StandardEvent::CheckpointInstalled(InstallOutcome::NotAdmitted(
            cancelled()
        ))]),
        StandardPhase::Done(Err(HaStartupError::Cancelled(_)))
    ));
}

#[test]
fn nothing_is_installed_twice_or_before_it_was_fetched() {
    let installing = fresh_rejoin(vec![]);
    assert!(matches!(installing, StandardPhase::Restoring { .. }));
    let still = prepare_standard(
        false,
        installing,
        StandardEvent::RemotePrepared(Ok(prepared())),
    );
    let installed = prepare_standard(
        false,
        still,
        StandardEvent::CheckpointInstalled(InstallOutcome::Installed(LogAnchor::new(1, hash(1)))),
    );
    assert_eq!(installed.check_stage(), Some("rejoin checkpoint marker validation"));
    let again = prepare_standard(
        false,
        installed,
        StandardEvent::CheckpointInstalled(InstallOutcome::Installed(LogAnchor::new(2, hash(2)))),
    );
    assert_eq!(again.check_stage(), Some("rejoin checkpoint marker validation"));
}

#[test]
fn standard_restore_remote_prepare_is_unadmitted_at_entry_and_completion() {
    for (mode, label) in [
        (HaStartupMode::Rejoin, "remote prepare entry"),
        (HaStartupMode::Disaster, "remote prepare completion"),
    ] {
        let closing = ShutdownToken::new(0, 1_000_000_000, StartupCancellationToken { id: 3 });
        let mut startup = StartupIoContext::new();
        let mut admitted = 0;
        let mut data_dir_exists = false;
        let mut phase = begin_standard_preparation(mode);
        let error = loop {
            let check = match startup.cancellation {
                Some(token) => Err(HaStartupError::Cancelled(token.startup_token())),
                None => Ok(()),
            };
            let event = match &phase {
                StandardPhase::InspectingRejoinData => {
                    StandardEvent::DataInspected(Ok(!data_dir_exists))
                }
                StandardPhase::Restoring { step, .. } => match step {
                    RestoreStep::Checking
                    | RestoreStep::CheckingPrepared { .. }
                    | RestoreStep::CheckingInstalled { .. } => StandardEvent::Checked(check),
                    RestoreStep::Capturing => StandardEvent::StateCaptured(Ok(())),
                    RestoreStep::PreparingRemote => {
                        assert_eq!(admitted, 0, "{label} must not own a local-I/O permit");
                        cancel_startup_for_token(&mut startup, &closing);
                        assert!(
                            !data_dir_exists,
                            "close at {label} must leave the fresh local data directory untouched",
                        );
                        StandardEvent::RemotePrepared(Ok(prepared()))
                    }
                    RestoreStep::LookingForMarker { .. } => StandardEvent::MarkerFound(Ok(false)),
                    RestoreStep::LookingForRestore { .. } => StandardEvent::RestoreFound(Ok(false)),
                    RestoreStep::InspectingData { .. } => {
                        StandardEvent::DataInspected(Ok(!data_dir_exists))
                    }
                    RestoreStep::Encoding { .. } => StandardEvent::MarkerEncoded(Ok(())),
                    RestoreStep::Installing { prepared } => {
                        StandardEvent::CheckpointInstalled(match check {
                            Err(error) => InstallOutcome::NotAdmitted(error),
                            Ok(()) => {
                                admitted += 1;
                                data_dir_exists = true;
                                InstallOutcome::Installed(prepared.root)
                            }
                        })
                    }
                    RestoreStep::ValidatingInstalled { .. } => {
                        StandardEvent::MarkerValidated(Ok(()))
                    }
                },
                StandardPhase::Done(Err(error)) => break error.clone(),
                other => panic!("{label} must reject the standard restore: {other:?}"),
            };
            phase = prepare_standard(false, phase, event);
        };
        assert!(
            matches!(error, HaStartupError::Cancelled(token) if token == closing.startup_token()),
            "{label} must report close-first cancellation after release",
        );
        assert_eq!(admitted, 0);
        assert!(!data_dir_exists, "close at {label} must not permit a later local mutation");
    }
}

fn used_rejoin(marked: bool, interrupted: bool, recorder: LocalRecorderState) -> Vec<StandardEvent> {
    vec![
        StandardEvent::DataInspected(Ok(false)),
        StandardEvent::Checked(Ok(())),
        StandardEvent::CheckpointLoaded(Ok(Some(manifest(5, false)))),
        StandardEvent::Checked(Ok(())),
        StandardEvent::MarkerFound(Ok(marked)),
        StandardEvent::RestoreFound(Ok(interrupted)),
        StandardEvent::RecorderPreflighted(Ok(recorder)),
    ]
}

#[test]
fn a_used_rejoin_needs_a_marker_or_an_interrupted_restore() {
    assert_eq!(
        refusal(run(
            HaStartupMode::Rejoin,
            false,
            used_rejoin(false, false, LocalRecorderState::Valid)
        )),
        "rejoin requires a local checkpoint identity marker"
    );
    assert_eq!(
        refusal(run(
            HaStartupMode::Rejoin,
            false,
            vec![
                StandardEvent::DataInspected(Ok(false)),
                StandardEvent::Checked(Ok(())),
                StandardEvent::CheckpointLoaded(Ok(None)),
            ]
        )),
        "rejoin requires an initialized checkpoint"
    );
}

#[test]
fn a_trusted_rejoin_verifies_its_own_log() {
    let mut events = used_rejoin(true, false, LocalRecorderState::Valid);
    events.push(StandardEvent::MarkerValidated(Ok(())));
    events.push(StandardEvent::ViewValidated(Ok(())));
    assert!(matches!(
        run(HaStartupMode::Rejoin, false, events),
        StandardPhase::Done(Ok(StartupPreparation::VerifyLocalCheckpoint { identity, root }))
            if identity.config_id == 1 && root.index == 5
    ));
    let mut events = used_rejoin(true, false, LocalRecorderState::Missing);
    events.push(StandardEvent::MarkerValidated(Ok(())));
    events.push(StandardEvent::ViewValidated(Ok(())));
    assert!(matches!(
        run(HaStartupMode::Rejoin, false, events),
        StandardPhase::Done(Ok(StartupPreparation::RuntimeFirstWithPeerCatchup {
            checkpoint_root,
            open_policy: RecorderOpenPolicy::CreateAfterRehydration,
        })) if checkpoint_root.index == 5
    ));
}

#[test]
fn interrupted_and_untrusted_rejoins_restore_around_the_recorder() {
    for graph in [true, false] {
        let phase = run(
            HaStartupMode::Rejoin,
            graph,
            used_rejoin(false, true, LocalRecorderState::Valid),
        );
        assert_eq!(phase.check_stage(), Some("rejoin interrupted checkpoint restore"));
        let StandardPhase::Restoring { restore, .. } = phase else {
            panic!("an interrupted restore is made up for");
        };
        assert_eq!(restore.kind, RestoreKind::Interrupted { graph });
        let mode = if graph {
            CheckpointInstallMode::Fresh
        } else {
            CheckpointInstallMode::RejoinPreservingRecorder
        };
        assert_eq!(restore.kind.install_mode(), mode);
    }
    let mut events = used_rejoin(true, false, LocalRecorderState::Valid);
    events.push(StandardEvent::MarkerValidated(Ok(())));
    events.push(StandardEvent::ViewValidated(Err(fail("torn view"))));
    let before = run(HaStartupMode::Rejoin, false, events);
    assert!(before.report().is_none());
    let capturing = prepare_standard(false, before, StandardEvent::Checked(Ok(())));
    assert_eq!(
        capturing.report().unwrap(),
        "local recovery view is not trustworthy (torn view); attempting an identity-bound quarantine and verified checkpoint restore"
    );
    let mut events = used_rejoin(true, false, LocalRecorderState::Valid);
    events.push(StandardEvent::MarkerValidated(Ok(())));
    events.push(StandardEvent::ViewValidated(Err(fail("torn view"))));
    events.push(StandardEvent::Checked(Ok(())));
    events.push(StandardEvent::StateCaptured(Ok(())));
    events.push(StandardEvent::RemotePrepared(Ok(prepared())));
    events.push(StandardEvent::MarkerEncoded(Ok(())));
    events.push(StandardEvent::CheckpointInstalled(InstallOutcome::Failed("busy".to_string())));
    assert_eq!(
        refusal(run(HaStartupMode::Rejoin, false, events)),
        "rebuildable local recovery view could not be quarantined and restored from the verified checkpoint: busy"
    );
}

#[test]
fn crashed_recorders_are_recovered_before_anything_else() {
    let recovering = run(
        HaStartupMode::Rejoin,
        false,
        used_rejoin(true, false, LocalRecorderState::Recoverable),
    );
    assert!(matches!(recovering, StandardPhase::RecoveringRecorder { .. }));
    assert_eq!(
        recovering.report().unwrap(),
        "local recorder has normal crash artifacts; completing locked recorder recovery before rebuilding local views"
    );
    let successor = SuccessorPhase::RecoveringRecorder {
        identity: identity(2),
        controls: SuccessorRestoreControlState::Complete,
    };
    assert_eq!(successor.report(), recovering.report());
    assert!(SuccessorPhase::CheckingBinding.report().is_none());
    let recovered = prepare_standard(
        false,
        recovering,
        StandardEvent::RecorderRecovered(RecorderRecovery::Inspected(Ok(
            LocalRecorderState::Valid,
        ))),
    );
    assert!(matches!(
        recovered,
        StandardPhase::ValidatingMarker { recorder: LocalRecorderState::Valid, .. }
    ));
    let message = |recovery| {
        recover_local_recorder_before_view_recovery(recovery).unwrap_err().message()
    };
    assert_eq!(
        message(RecorderRecovery::Inspected(Ok(LocalRecorderState::Missing))),
        "local recorder crash recovery did not produce a valid recorder: Missing"
    );
    assert_eq!(
        message(RecorderRecovery::Inspected(Ok(LocalRecorderState::Recoverable))),
        "local recorder crash recovery did not produce a valid recorder: Recoverable"
    );
    assert_eq!(
        message(RecorderRecovery::Inspected(Err("bad".to_string()))),
        "local recorder is not trustworthy: bad"
    );
    assert_eq!(
        message(RecorderRecovery::OpenFailed("locked".to_string())),
        "local recorder crash recovery failed: locked"
    );
}

fn disaster(interrupted: bool, fresh: bool) -> StandardPhase {
    let mut events = vec![
        StandardEvent::Checked(Ok(())),
        StandardEvent::StateCaptured(Ok(())),
        StandardEvent::RemotePrepared(Ok(prepared())),
        StandardEvent::Checked(Ok(())),
        StandardEvent::MarkerFound(Ok(false)),
        StandardEvent::RestoreFound(Ok(interrupted)),
    ];
    if !interrupted {
        events.push(StandardEvent::DataInspected(Ok(fresh)));
    }
    events.push(StandardEvent::MarkerEncoded(Ok(())));
    events.push(StandardEvent::CheckpointInstalled(InstallOutcome::Installed(LogAnchor::new(
        8,
        hash(8),
    ))));
    events.push(StandardEvent::Checked(Ok(())));
    events.push(StandardEvent::MarkerValidated(Ok(())));
    run(HaStartupMode::Disaster, false, events)
}

#[test]
fn disaster_recovery_installs_into_a_fresh_or_interrupted_directory() {
    for (interrupted, fresh) in [(true, false), (false, true)] {
        assert!(matches!(
            disaster(interrupted, fresh),
            StandardPhase::Done(Ok(StartupPreparation::RecorderFirst {
                open_policy: RecorderOpenPolicy::CreateAfterRehydration,
            }))
        ));
    }
    assert_eq!(
        refusal(disaster(false, false)),
        "disaster startup requires a fresh local data directory"
    );
}

#[test]
fn restore_stages_are_named_after_their_reason() {
    let stages = [
        (
            RestoreKind::FreshRejoin,
            "rejoin checkpoint restore",
            "fresh rejoin checkpoint install",
            "rejoin checkpoint marker validation",
        ),
        (
            RestoreKind::Interrupted { graph: true },
            "rejoin interrupted checkpoint restore",
            "interrupted graph rejoin checkpoint install",
            "rejoin restored checkpoint validation",
        ),
        (
            RestoreKind::Interrupted { graph: false },
            "rejoin interrupted checkpoint restore",
            "interrupted rejoin checkpoint install",
            "rejoin restored checkpoint validation",
        ),
        (
            RestoreKind::RebuildView,
            "rejoin recovery-view restore",
            "rebuildable rejoin checkpoint install",
            "rejoin recovery-view validation",
        ),
        (
            RestoreKind::Disaster,
            "disaster checkpoint inspection",
            "disaster checkpoint install",
            "disaster checkpoint validation",
        ),
    ];
    for (kind, begin, install, validation) in stages {
        assert_eq!(kind.begin_stage(), begin);
        assert_eq!(kind.install_stage(), install);
        assert_eq!(kind.validation_stage(), validation);
    }
}

fn descriptor() -> SuccessorDescriptor {
    SuccessorDescriptor {
        cluster_id: "cluster-a".to_string(),
        predecessor_config_id: 1,
        predecessor_config_digest: hash(1),
        config_id: 2,
        digest: hash(2),
        members: vec!["node-2".to_string(), "node-3".to_string(), "node-4".to_string()],
    }
}

fn predecessor() -> HaPredecessor {
    HaPredecessor::new(
        members(["node-1", "node-2", "node-3"], 1),
        StopInformation {
            entry: LogEntry {
                cluster_id: "cluster-a".to_string(),
                epoch: 1,
                config_id: 1,
                index: 9,
                entry_type: 3,
                payload: vec![1, 2, 3],
                prev_hash: hash(8),
                hash: hash(9),
            },
            proof: vec![4, 5],
        },
    )
}

fn reading() -> StopReading {
    StopReading {
        recomputed_hash: hash(9),
        change: Some(ConfigChange::BoundStop { successor: descriptor() }),
        command_hash: hash(40),
        proof_error: None,
        proof_certifies_entry: true,
    }
}

fn successor_config() -> NodeConfig {
    NodeConfig {
        cluster_id: "cluster-a".to_string(),
        node_id: "node-4".to_string(),
        epoch: 1,
        config_id: 2,
        recovery_generation: 1,
        execution_profile: ExecutionProfile::Sqlite,
        profile_name: "sql".to_string(),
        membership: members(["node-2", "node-3", "node-4"], 2),
        log_initial_configuration: ConfigurationState::Active { config_id: 1, digest: hash(1) },
        configuration_state: ConfigurationState::Stopped {
            config_id: 1,
            digest: hash(1),
            stop: LogAnchor::new(9, hash(9)),
            binding: StopBinding::Bound { successor: descriptor(), stop_command_hash: hash(40) },
        },
    }
}

fn target() -> SuccessorTarget {
    SuccessorTarget {
        config: successor_config(),
        mode: HaStartupMode::Rejoin,
        target_config_id: 2,
        predecessor: predecessor(),
        reading: reading(),
    }
}

fn run_successor(target: &SuccessorTarget, events: Vec<SuccessorEvent>) -> SuccessorPhase {
    let mut phase = SuccessorPhase::CheckingBinding;
    for event in events {
        phase = prepare_successor(target, phase, event);
    }
    phase
}

fn until_controls(
    manifest: CheckpointManifest,
    marked: bool,
    controls: SuccessorRestoreControlState,
) -> Vec<SuccessorEvent> {
    vec![
        SuccessorEvent::Checked(Ok(())),
        SuccessorEvent::PrestageAdopted(Ok(())),
        SuccessorEvent::Checked(Ok(())),
        SuccessorEvent::CheckpointInitialized(Ok(manifest)),
        SuccessorEvent::Checked(Ok(())),
        SuccessorEvent::IdentityRead(Ok(identity(2))),
        SuccessorEvent::MarkerFound(Ok(marked)),
        SuccessorEvent::ReceiptEncoded(Ok(())),
        SuccessorEvent::ControlsRead(Ok(controls)),
    ]
}

fn successor_refusal(phase: SuccessorPhase) -> String {
    match phase {
        SuccessorPhase::Done(Err(error)) => error.message(),
        other => panic!("preparation went on: {other:?}"),
    }
}

#[test]
fn a_successor_installs_its_recorder_and_completes_its_stage() {
    let target = target();
    let mut events = until_controls(manifest(0, true), false, SuccessorRestoreControlState::Intent);
    events.extend(vec![
        SuccessorEvent::Checked(Ok(())),
        SuccessorEvent::RecorderPreflighted(Ok(LocalRecorderState::Missing)),
        SuccessorEvent::RecorderInstalled(Ok(())),
        SuccessorEvent::PrestageCompleted(Ok(())),
        SuccessorEvent::MarkerWritten(Ok(())),
    ]);
    assert!(matches!(
        run_successor(&target, events),
        SuccessorPhase::Done(Ok(StartupPreparation::RecorderFirst {
            open_policy: RecorderOpenPolicy::MustExist,
        }))
    ));
    let mut events =
        until_controls(manifest(0, true), true, SuccessorRestoreControlState::Complete);
    events.extend(vec![
        SuccessorEvent::Checked(Ok(())),
        SuccessorEvent::RecorderPreflighted(Ok(LocalRecorderState::Valid)),
    ]);
    assert!(matches!(run_successor(&target, events), SuccessorPhase::WritingMarker { .. }));
}

#[test]
fn a_successor_needs_rejoin_mode_and_its_exact_binding() {
    let mut bootstrapping = target();
    bootstrapping.mode = HaStartupMode::Bootstrap;
    assert_eq!(
        successor_refusal(run_successor(
            &bootstrapping,
            vec![SuccessorEvent::Checked(Ok(()))]
        )),
        "successor startup requires rejoin mode"
    );
    let mut foreign = target();
    foreign.reading.recomputed_hash = hash(10);
    assert_eq!(
        successor_refusal(run_successor(&foreign, vec![SuccessorEvent::Checked(Ok(()))])),
        "predecessor Stop does not exactly bind the target node configuration"
    );
    let mut uncertified = target();
    uncertified.reading.proof_certifies_entry = false;
    assert_eq!(
        successor_refusal(run_successor(&uncertified, vec![SuccessorEvent::Checked(Ok(()))])),
        "predecessor Stop proof does not certify the exact Stop entry"
    );
    let mut unproved = target();
    unproved.reading.proof_error = Some("NoQuorum".to_string());
    assert_eq!(
        successor_refusal(run_successor(&unproved, vec![SuccessorEvent::Checked(Ok(()))])),
        "predecessor Stop proof is not valid for its membership: NoQuorum"
    );
    let mut unbound = target();
    unbound.config.configuration_state =
        ConfigurationState::Active { config_id: 1, digest: hash(1) };
    assert_eq!(
        successor_refusal(run_successor(&unbound, vec![SuccessorEvent::Checked(Ok(()))])),
        "successor startup configuration does not durably encode the exact Stop binding"
    );
    let mut unreadable = target();
    unreadable.reading.change = None;
    assert_eq!(
        successor_refusal(run_successor(&unreadable, vec![SuccessorEvent::Checked(Ok(()))])),
        "predecessor Stop is not a bound configuration change"
    );
    let mut other = target();
    other.reading.change = Some(ConfigChange::Other);
    assert_eq!(
        successor_refusal(run_successor(&other, vec![SuccessorEvent::Checked(Ok(()))])),
        "predecessor entry is not a bound Stop"
    );
    let mut conflicting = target();
    conflicting.predecessor.membership.digest = hash(3);
    assert_eq!(
        successor_refusal(run_successor(&conflicting, vec![SuccessorEvent::Checked(Ok(()))])),
        "predecessor membership or Stop binding conflicts with the prestage target"
    );
}

#[test]
fn a_successor_trusts_only_its_own_checkpoint() {
    let target = target();
    assert_eq!(
        successor_refusal(run_successor(
            &target,
            until_controls(manifest(0, true), true, SuccessorRestoreControlState::Fresh)
        )),
        "successor startup requires a finalized local prestage receipt"
    );
    let foreign = "non-empty successor checkpoint requires an active target snapshot and exact completed local identity";
    assert_eq!(
        successor_refusal(run_successor(
            &target,
            until_controls(manifest(4, false), true, SuccessorRestoreControlState::Intent)
        )),
        foreign
    );
    let active = |compacted_index: u64| CheckpointManifest {
        snapshot: Some(SnapshotAnchor { active: true, config_id: 2, compacted_index }),
        ..manifest(12, false)
    };
    assert_eq!(
        successor_refusal(run_successor(
            &target,
            until_controls(active(9), true, SuccessorRestoreControlState::Complete)
        )),
        foreign
    );
    assert_eq!(
        successor_refusal(run_successor(
            &target,
            until_controls(active(10), false, SuccessorRestoreControlState::Complete)
        )),
        foreign
    );
    assert!(matches!(
        run_successor(
            &target,
            until_controls(active(10), true, SuccessorRestoreControlState::Complete)
        ),
        SuccessorPhase::CheckingRecorder { .. }
    ));
    let mut endless = SuccessorTarget { ..target };
    endless.predecessor.stop.entry.index = u64::MAX;
    assert_eq!(
        prepare_successor_controls(&endless, active(10)),
        "successor Activate index cannot advance"
    );
}

fn prepare_successor_controls(target: &SuccessorTarget, manifest: CheckpointManifest) -> String {
    rhiza_ha::successor_prepare::validate_successor_checkpoint(
        target,
        &manifest,
        true,
        SuccessorRestoreControlState::Complete,
    )
    .unwrap_err()
    .message()
}

#[test]
fn restore_controls_must_hold_the_exact_receipt() {
    let receipt =
        expected_successor_restore_receipt(&successor_config(), 2, &predecessor(), &reading())
            .unwrap();
    assert_eq!(receipt.stop_index, 9);
    assert_eq!(receipt.predecessor_config_id, 1);
    assert_eq!(receipt.node_id, "node-4");
    assert_eq!(receipt.stop_hash.len(), 64);
    let expected = vec![1u8, 2];
    let state = |intent: Option<Vec<u8>>, complete: Option<Vec<u8>>| {
        validate_successor_restore_controls(Ok(intent), Ok(complete), &expected)
    };
    assert!(matches!(state(None, None), Ok(SuccessorRestoreControlState::Fresh)));
    assert!(matches!(state(Some(vec![1, 2]), None), Ok(SuccessorRestoreControlState::Intent)));
    assert!(matches!(state(None, Some(vec![1, 2])), Ok(SuccessorRestoreControlState::Complete)));
    for (intent, complete) in
        [(Some(vec![1]), None), (None, Some(vec![2])), (Some(vec![1, 2]), Some(vec![1, 2]))]
    {
        assert_eq!(
            state(intent, complete).unwrap_err().message(),
            "successor restore receipt does not exactly match this node and checkpoint"
        );
    }
}

#[test]
fn prestages_are_adopted_where_one_is_found() {
    assert!(matches!(plan_prestage_adoption(PrestageInspection::Found), Ok(true)));
    assert!(matches!(plan_prestage_adoption(PrestageInspection::DataDirNotFresh), Ok(false)));
    assert_eq!(
        plan_prestage_adoption(PrestageInspection::Failed("io".to_string()))
            .unwrap_err()
            .message(),
        "io"
    );
}

#[test]
fn recorders_are_opened_as_prepared() {
    let open = |policy: RecorderOpenPolicy, events: Vec<RecorderOpenEvent>| {
        let mut phase = RecorderOpenPhase::Admission { policy };
        for event in events {
            phase = open_recorder_for_preparation(phase, event);
        }
        phase
    };
    assert!(matches!(
        open(
            RecorderOpenPolicy::MustExist,
            vec![RecorderOpenEvent::Admitted(Ok(())), RecorderOpenEvent::Opened(Ok(()))]
        ),
        RecorderOpenPhase::Done(Ok(()))
    ));
    let message = |phase: RecorderOpenPhase| match phase {
        RecorderOpenPhase::Done(Err(error)) => error.message(),
        other => panic!("the recorder was opened: {other:?}"),
    };
    assert_eq!(
        message(open(
            RecorderOpenPolicy::MustExist,
            vec![
                RecorderOpenEvent::Admitted(Ok(())),
                RecorderOpenEvent::Opened(Err("none".to_string())),
            ]
        )),
        "required local recorder disappeared after startup preparation: none"
    );
    let create = RecorderOpenPolicy::CreateAfterRehydration;
    assert!(matches!(
        open(
            create,
            vec![
                RecorderOpenEvent::Admitted(Ok(())),
                RecorderOpenEvent::Preflighted(Ok(LocalRecorderState::Missing)),
                RecorderOpenEvent::Opened(Ok(())),
            ]
        ),
        RecorderOpenPhase::Done(Ok(()))
    ));
    for state in [LocalRecorderState::Valid, LocalRecorderState::Recoverable] {
        assert_eq!(
            message(open(
                create,
                vec![
                    RecorderOpenEvent::Admitted(Ok(())),
                    RecorderOpenEvent::Preflighted(Ok(state)),
                ]
            )),
            "local recorder appeared after startup preparation; refusing to replace it"
        );
    }
    assert!(matches!(
        open_recorder_after_preflight_under_startup_permit(Ok(LocalRecorderState::Missing)),
        Ok(RecorderAction::Create)
    ));
    assert!(matches!(
        open_recorder_after_preflight_under_startup_permit(Ok(LocalRecorderState::Recoverable)),
        Ok(RecorderAction::OpenExisting)
    ));
}

#[test]
fn checkpoint_prepare_slot_fails_closed_when_admission_is_closed() {
    let waiting = acquire_checkpoint_prepare_permit(
        PreparePermitPhase::Checking,
        PreparePermitEvent::Checked(Ok(())),
    );
    assert!(matches!(waiting, PreparePermitPhase::Waiting));
    assert!(matches!(
        acquire_checkpoint_prepare_permit(waiting, PreparePermitEvent::Acquired { open: false }),
        PreparePermitPhase::Done(Err(HaStartupError::Source(message)))
            if message.contains("admission closed")
                && message == "checkpoint remote prepare admission closed"
    ));
}

#[test]
fn a_cancelled_startup_fetches_no_checkpoint() {
    assert_eq!(HA_CHECKPOINT_PREPARE_CONCURRENCY, 2);
    let confirming = acquire_checkpoint_prepare_permit(
        PreparePermitPhase::Waiting,
        PreparePermitEvent::Acquired { open: true },
    );
    assert!(matches!(
        acquire_checkpoint_prepare_permit(
            confirming,
            PreparePermitEvent::Checked(Err(cancelled()))
        ),
        PreparePermitPhase::Done(Err(HaStartupError::Cancelled(_)))
    ));
    assert!(matches!(
        acquire_checkpoint_prepare_permit(
            PreparePermitPhase::Waiting,
            PreparePermitEvent::Cancelled(cancelled())
        ),
        PreparePermitPhase::Done(Err(HaStartupError::Cancelled(_)))
    ));
}

const ARCHIVE: ArchiveHandle = ArchiveHandle { id: 11 };

fn startup_of(config: NodeConfig, mode: HaStartupMode) -> HaStartupConfig {
    HaStartupConfig::new(config, ARCHIVE, DurabilityMode::Sync, 5_000, mode)
}

fn active_config() -> NodeConfig {
    NodeConfig {
        cluster_id: "cluster-a".to_string(),
        node_id: "node-1".to_string(),
        epoch: 1,
        config_id: 1,
        recovery_generation: 1,
        execution_profile: ExecutionProfile::Sqlite,
        profile_name: "sql".to_string(),
        membership: members(["node-1", "node-2", "node-3"], 1),
        log_initial_configuration: ConfigurationState::Active { config_id: 1, digest: hash(1) },
        configuration_state: ConfigurationState::Active { config_id: 1, digest: hash(1) },
    }
}

#[test]
fn a_startup_keeps_what_it_was_given() {
    let archive = ArchiveHandle { id: 7 };
    let startup = HaStartupConfig::new(
        active_config(),
        archive,
        DurabilityMode::Sync,
        5_000,
        HaStartupMode::Rejoin,
    );
    assert_eq!(startup.node_config, active_config());
    assert_eq!(startup.archive, archive);
    assert_eq!(startup.durability, DurabilityMode::Sync);
    assert_eq!(startup.lease_duration_ms, 5_000);
    assert_eq!(startup.mode, HaStartupMode::Rejoin);
    assert!(startup.predecessor.is_none());
    assert!(startup.auto_activate_stop.is_none());
    let other = HaStartupConfig::new(
        active_config(),
        archive,
        DurabilityMode::Other { id: 3 },
        5_000,
        HaStartupMode::Rejoin,
    )
    .with_predecessor(predecessor());
    assert_eq!(other.durability, DurabilityMode::Other { id: 3 });
    assert_eq!(other.archive, archive);
    assert_eq!(other.predecessor, Some(predecessor()));
}

#[test]
fn a_startup_is_prepared_for_its_own_target() {
    let startup = startup_of(active_config(), HaStartupMode::Rejoin);
    let root = LogAnchor::new(5, hash(5));
    let run = |preparation: StartupPreparation| {
        let mut phase = PreparePhase::CheckingConfiguration;
        for event in [
            PrepareEvent::Checked(Ok(())),
            PrepareEvent::Checked(Ok(())),
            PrepareEvent::IdentityRead(Ok(identity(1))),
            PrepareEvent::Prepared(Ok(preparation)),
            PrepareEvent::Checked(Ok(())),
            PrepareEvent::RecorderOpened(Ok(())),
        ] {
            phase = prepare(&startup, phase, event);
        }
        match phase {
            PreparePhase::Done(Ok(prepared)) => prepared,
            _ => panic!("preparation did not end well"),
        }
    };
    let first = run(StartupPreparation::RecorderFirst {
        open_policy: RecorderOpenPolicy::MustExist,
    });
    assert_eq!(first.recorder_hook, HaRecorder::active());
    assert_eq!(first.target_config_id, 1);
    let later = run(StartupPreparation::RuntimeFirstWithPeerCatchup {
        checkpoint_root: root,
        open_policy: RecorderOpenPolicy::MustExist,
    });
    assert_eq!(later.recorder_hook, HaRecorder::quarantined(root));

    let foreign = prepare(
        &startup,
        PreparePhase::ReadingIdentity,
        PrepareEvent::IdentityRead(Ok(identity(2))),
    );
    assert!(matches!(
        foreign,
        PreparePhase::Done(Err(HaStartupError::Source(message)))
            if message == "checkpoint identity does not match target node configuration"
    ));
}

#[test]
fn a_stopped_configuration_needs_a_predecessor() {
    let stopped = startup_of(successor_config(), HaStartupMode::Rejoin);
    assert!(matches!(
        prepare(
            &stopped,
            PreparePhase::CheckingConfiguration,
            PrepareEvent::Checked(Ok(()))
        ),
        PreparePhase::Done(Err(HaStartupError::Source(message)))
            if message == "stopped configuration requires a predecessor"
    ));
    let bound = stopped.with_predecessor(predecessor());
    assert_eq!(bound.target_config_id().unwrap(), 2);
    assert!(matches!(
        prepare(&bound, PreparePhase::CheckingConfiguration, PrepareEvent::Checked(Ok(()))),
        PreparePhase::CheckingIdentity
    ));
    let mut endless = predecessor();
    endless.stop.entry.config_id = u64::MAX;
    let endless = startup_of(successor_config(), HaStartupMode::Rejoin)
        .with_predecessor(endless);
    assert_eq!(
        endless.target_config_id().unwrap_err().message(),
        "successor config_id cannot advance"
    );
}

#[test]
fn a_live_successor_is_bound_once() {
    let startup = startup_of(active_config(), HaStartupMode::Rejoin);
    let bound = startup
        .bind_live_predecessor(predecessor(), Ok(successor_config()), &reading())
        .unwrap();
    assert_eq!(bound.auto_activate_stop, Some(LogAnchor::new(9, hash(9))));
    assert_eq!(bound.node_config.config_id, 2);
    assert_eq!(
        bound
            .bind_live_predecessor(predecessor(), Ok(successor_config()), &reading())
            .err()
            .unwrap()
            .message(),
        "live successor startup is already bound to a predecessor"
    );
    let unbindable = startup_of(active_config(), HaStartupMode::Rejoin);
    assert_eq!(
        unbindable
            .bind_live_predecessor(predecessor(), Err("not a Stop".to_string()), &reading())
            .err()
            .unwrap()
            .message(),
        "not a Stop"
    );
}

#[test]
fn a_started_node_prepares_with_what_it_was_given() {
    let serve = HaServeConfig::new(
        HaRecorderTransport::TcpPostcard,
        vec!["node-1".to_string(), "node-2".to_string()],
    )
    .with_admin()
    .with_tail_token("token".to_string());
    assert!(serve.admin);
    assert_eq!(serve.tail_token.as_deref(), Some("token"));
    let started =
        startup_of(active_config(), HaStartupMode::Bootstrap).start(serve);
    assert_eq!(started.node.status(), HaNodeStatus::Starting);
    assert_eq!(started.startup.lease_duration_ms, 5_000);
    assert_eq!(started.serve.recorders.len(), 2);

    let mut successor = SuccessorServeConfig::of(HaServeConfig::new(
        HaRecorderTransport::Http,
        vec!["node-4".to_string()],
    ))
    .unwrap();
    assert!(successor.owns_listener);
    successor.take_service_listener();
    let child = successor.into_deferred_child();
    assert_eq!(
        SuccessorServeConfig::of(child).err().unwrap().message(),
        "live successor cannot start from an internally deferred service listener"
    );
}

#[test]
fn encoding_failures_name_what_was_encoded() {
    assert_eq!(encode_local_checkpoint_identity_marker(Ok(vec![1, 2])).unwrap(), vec![1, 2]);
    assert_eq!(
        encode_local_checkpoint_identity_marker(Err("full".to_string())).unwrap_err().message(),
        "cannot encode local checkpoint identity marker: full"
    );
    assert_eq!(encode_successor_restore_receipt(Ok(vec![3])).unwrap(), vec![3]);
    assert_eq!(
        encode_successor_restore_receipt(Err("full".to_string())).unwrap_err().message(),
        "cannot encode successor restore receipt: full"
    );
}

#[test]
fn preparation_decides_who_takes_part_and_what_is_verified() {
    let root = LogAnchor::new(7, hash(7));
    let archived = identity(2);
    let recorder_first =
        StartupPreparation::RecorderFirst { open_policy: RecorderOpenPolicy::MustExist };
    assert!(recorder_first.uses_local_recorder());
    assert!(!recorder_first.uses_log_peers());
    assert!(recorder_first.checkpoint_to_verify(&archived).is_none());
    let verify = StartupPreparation::VerifyLocalCheckpoint { identity: identity(3), root };
    assert!(verify.uses_local_recorder());
    assert!(!verify.uses_log_peers());
    assert_eq!(verify.checkpoint_to_verify(&archived), Some((&identity(3), root)));
    let catch_up = StartupPreparation::RuntimeFirstWithPeerCatchup {
        checkpoint_root: root,
        open_policy: RecorderOpenPolicy::CreateAfterRehydration,
    };
    assert!(!catch_up.uses_local_recorder());
    assert!(catch_up.uses_log_peers());
    assert_eq!(catch_up.checkpoint_to_verify(&archived), Some((&archived, root)));
}
