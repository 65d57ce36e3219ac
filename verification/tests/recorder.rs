use rhiza_ha::config::{
    CheckpointIdentity, ConfigurationState, ExecutionProfile, Membership, NodeConfig,
};
use rhiza_ha::error::{fail, HaStartupError};
use rhiza_ha::local_files::{
    accept_before_read, exact_checkpoint_marker_exists, local_data_is_fresh, local_state_paths,
    marker_from_identity, path_has_state, read_and_validate_local_checkpoint_identity_marker,
    read_bounded_regular_file_no_follow, read_optional_bounded_regular_file_no_follow,
    validate_local_checkpoint_identity_marker, FileMetadata, FileObservation, MarkerReading,
    PathObservation, PathPresence,
};
use rhiza_ha::log::{LogAnchor, LogHash};
use rhiza_ha::marker_write::{
    write_local_checkpoint_identity_marker, LinkFailure, MarkerEvent, MarkerPhase,
};
use rhiza_ha::open::{accept_consensus, plan_consensus};
use rhiza_ha::preparation::{
    recorder_open_policy_for_state, LocalRecorderState, RecorderOpenPolicy, StartupPreparation,
};
use rhiza_ha::recorder::{HaRecorder, RecorderOperation};
use rhiza_ha::rejoin::{verify_local_rejoin_checkpoint, LocalLog, LogicalState};

fn hash(word: u64) -> LogHash {
    LogHash { word0: word, word1: 0, word2: 0, word3: 0 }
}

fn membership() -> Membership {
    Membership {
        members: vec!["node-1".to_string(), "node-2".to_string(), "node-3".to_string()],
        digest: hash(7),
    }
}

fn config() -> NodeConfig {
    NodeConfig {
        cluster_id: "cluster-a".to_string(),
        node_id: "node-1".to_string(),
        epoch: 1,
        config_id: 1,
        recovery_generation: 1,
        execution_profile: ExecutionProfile::Sqlite,
        profile_name: "sql".to_string(),
        membership: membership(),
        log_initial_configuration: ConfigurationState::Active { config_id: 1, digest: hash(7) },
        configuration_state: ConfigurationState::Active { config_id: 1, digest: hash(7) },
    }
}

fn identity() -> CheckpointIdentity {
    CheckpointIdentity {
        cluster_id: "cluster-a".to_string(),
        epoch: 1,
        config_id: 1,
        config_digest: hash(7),
        recovery_generation: 1,
    }
}

fn source(error: HaStartupError) -> String {
    error.message()
}

/// The effects that a recorder holds, behind the hook that admits its
/// operations.
struct EffectStore {
    hook: HaRecorder,
    staged: Option<(Vec<u8>, Vec<u8>)>,
    finalized: Option<(Vec<u8>, Vec<u8>)>,
}

impl EffectStore {
    fn stage_chunk(&mut self, manifest: &[u8], chunk: &[u8]) -> Result<(), String> {
        self.hook.authorize(RecorderOperation::StageEffectBundleChunk)?;
        self.staged = Some((manifest.to_vec(), chunk.to_vec()));
        Ok(())
    }

    fn finalize(&mut self) -> Result<(), String> {
        self.hook.authorize(RecorderOperation::FinalizeStagedEffectBundle)?;
        self.finalized = self.staged.take();
        Ok(())
    }

    fn fetch_manifest(&self) -> Result<Option<Vec<u8>>, String> {
        self.hook.authorize(RecorderOperation::FetchEffectBundleManifest)?;
        Ok(self.finalized.as_ref().map(|(manifest, _)| manifest.clone()))
    }

    fn fetch_chunk(&self) -> Result<Option<Vec<u8>>, String> {
        self.hook.authorize(RecorderOperation::FetchEffectBundleChunk)?;
        Ok(self.finalized.as_ref().map(|(_, chunk)| chunk.clone()))
    }
}

#[test]
fn ha_recorder_forwards_external_effect_operations() {
    let manifest = b"manifest".to_vec();
    let chunks = vec![b"ha-effect".to_vec()];
    let mut recorder = EffectStore { hook: HaRecorder::active(), staged: None, finalized: None };
    recorder.stage_chunk(&manifest, &chunks[0]).unwrap();
    recorder.finalize().unwrap();
    assert_eq!(recorder.fetch_manifest().unwrap(), Some(manifest.clone()));
    assert_eq!(recorder.fetch_chunk().unwrap(), Some(chunks[0].clone()));

    let root = LogAnchor::new(5, hash(1));
    let mut quarantined =
        EffectStore { hook: HaRecorder::quarantined(root), staged: None, finalized: None };
    assert!(quarantined.stage_chunk(&manifest, &chunks[0]).is_err());
    assert!(quarantined.finalize().is_err());
    assert!(quarantined.staged.is_none() && quarantined.finalized.is_none());
    assert_eq!(quarantined.fetch_manifest().unwrap(), None);
    assert_eq!(quarantined.fetch_chunk().unwrap(), None);
}

#[test]
fn quarantined_recorders_do_not_contribute_empty_read_fence_votes() {
    let members = membership().members;
    let mut votes = 0;
    for (index, _node) in members.iter().enumerate() {
        let recorder = if index == 0 {
            HaRecorder::active()
        } else {
            HaRecorder::quarantined(LogAnchor::new(0, LogHash::zero()))
        };
        if recorder.authorize(RecorderOperation::ObserveReadFence { slot: 1 }).is_ok() {
            votes += 1;
        }
    }
    assert_eq!(votes, 1);
    assert!(votes < members.len() / 2 + 1);
}

#[test]
fn quarantine_ends_with_activation_but_hides_history() {
    let mut recorder = HaRecorder::quarantined(LogAnchor::new(5, hash(1)));
    assert_eq!(
        recorder.authorize(RecorderOperation::Record).unwrap_err(),
        "recorder is quarantined during checkpoint recovery"
    );
    assert!(recorder.authorize(RecorderOperation::Identify).is_ok());
    assert_eq!(
        recorder.authorize(RecorderOperation::InspectDecisionProof { slot: 5 }).unwrap_err(),
        "recorder checkpoint root 5 does not expose historical slot 5"
    );
    assert!(recorder.authorize(RecorderOperation::InspectDecisionProof { slot: 6 }).is_ok());
    recorder.activate();
    assert!(recorder.authorize(RecorderOperation::Record).is_ok());
    assert!(recorder.authorize(RecorderOperation::ObserveReadFence { slot: 5 }).is_err());
    assert!(recorder.authorize(RecorderOperation::ObserveReadFence { slot: 6 }).is_ok());
}

#[test]
fn recorders_are_created_only_where_none_was_found() {
    assert_eq!(
        recorder_open_policy_for_state(LocalRecorderState::Missing),
        RecorderOpenPolicy::CreateAfterRehydration
    );
    assert_eq!(
        recorder_open_policy_for_state(LocalRecorderState::Valid),
        RecorderOpenPolicy::MustExist
    );
    assert_eq!(
        recorder_open_policy_for_state(LocalRecorderState::Recoverable),
        RecorderOpenPolicy::MustExist
    );
    let root = LogAnchor::new(3, hash(3));
    let verify = StartupPreparation::VerifyLocalCheckpoint { identity: identity(), root };
    assert_eq!(verify.open_policy(), RecorderOpenPolicy::MustExist);
    assert_eq!(verify.checkpoint_root(), None);
    let catchup = StartupPreparation::RuntimeFirstWithPeerCatchup {
        checkpoint_root: root,
        open_policy: RecorderOpenPolicy::CreateAfterRehydration,
    };
    assert_eq!(catchup.checkpoint_root(), Some(root));
}

fn opened(before: FileMetadata, bytes: Vec<u8>, after: FileMetadata) -> FileObservation {
    FileObservation::Opened { before: Ok(before), read: Ok(bytes), after: Ok(after) }
}

#[test]
fn bounded_reads_hand_out_exactly_what_was_there() {
    let three = FileMetadata { is_file: true, len: 3 };
    assert_eq!(
        read_bounded_regular_file_no_follow(opened(three, vec![1, 2, 3], three), 3, "marker")
            .unwrap(),
        vec![1, 2, 3]
    );
    assert_eq!(
        source(
            read_bounded_regular_file_no_follow(FileObservation::Missing, 3, "marker").unwrap_err()
        ),
        "nonfresh rejoin requires a marker"
    );
    assert!(matches!(
        read_optional_bounded_regular_file_no_follow(FileObservation::Missing, 3, "marker"),
        Ok(None)
    ));
    let read = |observation: FileObservation| {
        source(read_bounded_regular_file_no_follow(observation, 3, "marker").unwrap_err())
    };
    let four = FileMetadata { is_file: true, len: 4 };
    assert_eq!(read(opened(four, vec![1, 2, 3, 4], four)), "marker has an invalid size");
    let nothing = FileMetadata { is_file: true, len: 0 };
    assert_eq!(read(opened(nothing, vec![], nothing)), "marker has an invalid size");
    let directory = FileMetadata { is_file: false, len: 3 };
    assert_eq!(
        read(opened(directory, vec![1, 2, 3], directory)),
        "marker must be a regular file"
    );
    assert_eq!(
        read(opened(three, vec![1, 2], three)),
        "marker changed during bounded read"
    );
    let two = FileMetadata { is_file: true, len: 2 };
    assert_eq!(
        read(opened(three, vec![1, 2, 3], two)),
        "marker changed during bounded read"
    );
    assert_eq!(
        read(FileObservation::OpenFailed {
            symlink: true,
            unix_os_error: None,
            message: "loop".to_string(),
        }),
        "marker must be a regular file"
    );
    assert_eq!(
        read(FileObservation::OpenFailed {
            symlink: false,
            unix_os_error: Some(40),
            message: "loop".to_string(),
        }),
        "marker must be a regular file"
    );
    assert_eq!(
        read(FileObservation::OpenFailed {
            symlink: false,
            unix_os_error: Some(13),
            message: "denied".to_string(),
        }),
        "cannot open marker: denied"
    );
    assert_eq!(
        read(FileObservation::Opened {
            before: Ok(three),
            read: Err("broken".to_string()),
            after: Ok(three),
        }),
        "cannot read marker: broken"
    );
    assert_eq!(
        read(FileObservation::Opened {
            before: Err("gone".to_string()),
            read: Ok(vec![]),
            after: Ok(three),
        }),
        "cannot inspect open marker: gone"
    );
    assert_eq!(accept_before_read(&Ok(three), 3, "marker").unwrap(), 3);
}

#[test]
fn local_data_is_fresh_only_without_any_state() {
    assert_eq!(
        local_state_paths("identity.json"),
        vec![
            "identity.json",
            "consensus/log",
            "sqlite",
            "ladybug",
            "kv",
            "recorder",
            "consensus/recorder",
        ]
    );
    let empty = || PathObservation::Directory { has_entry: Ok(false) };
    assert!(matches!(
        local_data_is_fresh(&vec![PathObservation::Missing, empty(), empty()]),
        Ok(true)
    ));
    assert!(matches!(
        local_data_is_fresh(&vec![
            PathObservation::Missing,
            PathObservation::Directory { has_entry: Ok(true) },
            PathObservation::Unknown("later".to_string()),
        ]),
        Ok(false)
    ));
    assert!(matches!(local_data_is_fresh(&vec![PathObservation::NotDirectory]), Ok(false)));
    assert_eq!(
        source(
            local_data_is_fresh(&vec![PathObservation::Unknown("denied".to_string())]).unwrap_err()
        ),
        "denied"
    );
    assert_eq!(
        path_has_state(&PathObservation::Directory { has_entry: Err("io".to_string()) }),
        Err("io".to_string())
    );
}

#[test]
fn a_marker_identifies_one_checkpoint_of_one_node() {
    let node = "node-1".to_string();
    let other = "node-2".to_string();
    let marker = marker_from_identity(ExecutionProfile::Sqlite, &identity(), "node-1");
    assert!(validate_local_checkpoint_identity_marker(
        &marker,
        ExecutionProfile::Sqlite,
        &identity(),
        &node
    )
    .is_ok());
    assert!(validate_local_checkpoint_identity_marker(
        &marker,
        ExecutionProfile::Graph,
        &identity(),
        &node
    )
    .is_err());
    assert!(validate_local_checkpoint_identity_marker(
        &marker,
        ExecutionProfile::Sqlite,
        &identity(),
        &other
    )
    .is_err());
    let mut later = identity();
    later.config_id = 2;
    assert!(read_and_validate_local_checkpoint_identity_marker(
        MarkerReading::Decoded(marker),
        ExecutionProfile::Sqlite,
        &later,
        &node
    )
    .is_err());
    assert!(matches!(
        exact_checkpoint_marker_exists(
            &PathPresence::Missing,
            MarkerReading::Undecodable,
            ExecutionProfile::Sqlite,
            &identity(),
            &node
        ),
        Ok(false)
    ));
    assert!(exact_checkpoint_marker_exists(
        &PathPresence::Present,
        MarkerReading::Unreadable(fail("torn")),
        ExecutionProfile::Sqlite,
        &identity(),
        &node
    )
    .is_err());
}

#[test]
fn marker_publication_is_admitted_durable_and_exact() {
    let mut phase = MarkerPhase::Admission;
    let refused = write_local_checkpoint_identity_marker(
        MarkerPhase::Admission,
        MarkerEvent::Admitted(Err(fail("closed"))),
    );
    assert!(matches!(
        refused.phase,
        MarkerPhase::Done(Err(HaStartupError::Source(message))) if message == "closed"
    ));
    for event in [
        MarkerEvent::Admitted(Ok(())),
        MarkerEvent::Finished(Ok(())),
        MarkerEvent::DirectoryInspected(Ok(true)),
        MarkerEvent::MarkerInspected(Ok(false)),
        MarkerEvent::Finished(Ok(())),
        MarkerEvent::Finished(Ok(())),
        MarkerEvent::Finished(Ok(())),
        MarkerEvent::Finished(Ok(())),
        MarkerEvent::Linked(Ok(())),
        MarkerEvent::Finished(Ok(())),
        MarkerEvent::Finished(Ok(())),
        MarkerEvent::Validated(Ok(())),
    ] {
        phase = write_local_checkpoint_identity_marker(phase, event).phase;
    }
    assert!(matches!(phase, MarkerPhase::Done(Ok(()))));
    let failed = write_local_checkpoint_identity_marker(
        MarkerPhase::Linking,
        MarkerEvent::Linked(Err(LinkFailure {
            already_exists: false,
            message: "full".to_string(),
        })),
    );
    assert!(matches!(failed.phase, MarkerPhase::Done(Err(_))));
    assert!(failed.remove_temporary);
}

#[test]
fn a_published_marker_is_accepted_again_and_stays_as_it_is() {
    let node = "node-1".to_string();
    let again = |profile: ExecutionProfile, at: &CheckpointIdentity, node: &String| {
        let left = marker_from_identity(ExecutionProfile::Sqlite, &identity(), "node-1");
        let validated = read_and_validate_local_checkpoint_identity_marker(
            MarkerReading::Decoded(left),
            profile,
            at,
            node,
        );
        let mut phase = MarkerPhase::Admission;
        for event in [
            MarkerEvent::Admitted(Ok(())),
            MarkerEvent::Finished(Ok(())),
            MarkerEvent::DirectoryInspected(Ok(true)),
            MarkerEvent::MarkerInspected(Ok(true)),
            MarkerEvent::Validated(validated),
        ] {
            let step = write_local_checkpoint_identity_marker(phase, event);
            assert!(!step.remove_temporary);
            assert!(matches!(
                step.phase,
                MarkerPhase::DirectoryCreation
                    | MarkerPhase::DirectoryInspection
                    | MarkerPhase::MarkerInspection
                    | MarkerPhase::Validation
                    | MarkerPhase::Done(_)
            ));
            phase = step.phase;
        }
        match phase {
            MarkerPhase::Done(result) => result,
            other => panic!("the publication ended: {other:?}"),
        }
    };
    assert!(again(ExecutionProfile::Sqlite, &identity(), &node).is_ok());
    let mismatch =
        "local checkpoint identity marker does not exactly match the authoritative checkpoint";
    let refused = |profile: ExecutionProfile, at: &CheckpointIdentity, node: &str| {
        assert_eq!(source(again(profile, at, &node.to_string()).unwrap_err()), mismatch);
    };
    refused(ExecutionProfile::Kv, &identity(), "node-1");
    refused(ExecutionProfile::Sqlite, &identity(), "node-2");
    let mut cluster = identity();
    cluster.cluster_id = "cluster-b".to_string();
    let mut epoch = identity();
    epoch.epoch = 2;
    let mut configuration = identity();
    configuration.config_id = 2;
    let mut generation = identity();
    generation.recovery_generation = 2;
    for other in [cluster, epoch, configuration, generation] {
        refused(ExecutionProfile::Sqlite, &other, "node-1");
    }
}

#[test]
fn local_logs_must_hold_the_checkpoint() {
    let root = LogAnchor::new(4, hash(4));
    let mut config = config();
    config.cluster_id = "rhiza:sql:a".to_string();
    let mut identity = identity();
    identity.cluster_id = "rhiza:sql:a".to_string();
    let local = |state: LogicalState, entry: Option<LogHash>| LocalLog {
        consensus_config_id: 1,
        configuration_digest: Ok(hash(7)),
        logical_state: Ok(state),
        entry_hash: Ok(entry),
    };
    let ends_at = |index: u64| LogicalState {
        tip: Some(LogAnchor::new(index, hash(index))),
        compacted: None,
    };
    assert!(verify_local_rejoin_checkpoint(
        &config,
        &local(ends_at(9), Some(hash(4))),
        &identity,
        root
    )
    .is_ok());
    let refusal = |state: LogicalState, entry: Option<LogHash>| {
        source(
            verify_local_rejoin_checkpoint(&config, &local(state, entry), &identity, root)
                .unwrap_err(),
        )
    };
    assert_eq!(
        refusal(ends_at(9), Some(hash(5))),
        "nonfresh rejoin local qlog hash at index 4 does not match the authoritative checkpoint"
    );
    assert_eq!(
        refusal(ends_at(3), None),
        "nonfresh rejoin local qlog tip 3 is behind authoritative checkpoint 4"
    );
    let compacted = |index: u64, word: u64| LogicalState {
        tip: Some(LogAnchor::new(9, hash(9))),
        compacted: Some(LogAnchor::new(index, hash(word))),
    };
    assert_eq!(
        refusal(compacted(5, 5), Some(hash(4))),
        "nonfresh rejoin local qlog compacted past the authoritative checkpoint without exact inclusion evidence"
    );
    assert!(verify_local_rejoin_checkpoint(
        &config,
        &local(compacted(4, 4), None),
        &identity,
        root
    )
    .is_ok());
    let genesis = LogAnchor::new(0, hash(1));
    assert_eq!(
        source(
            verify_local_rejoin_checkpoint(&config, &local(ends_at(9), None), &identity, genesis)
                .unwrap_err()
        ),
        "authoritative checkpoint genesis hash is not zero"
    );
    config.profile_name = "other".to_string();
    assert_eq!(
        source(
            verify_local_rejoin_checkpoint(
                &config,
                &local(ends_at(9), Some(hash(4))),
                &identity,
                root
            )
            .unwrap_err()
        ),
        "nonfresh rejoin execution profile does not match the checkpoint identity"
    );
    config.epoch = 2;
    assert_eq!(
        source(
            verify_local_rejoin_checkpoint(
                &config,
                &local(ends_at(9), Some(hash(4))),
                &identity,
                root
            )
            .unwrap_err()
        ),
        "nonfresh rejoin local qlog identity does not match the authoritative checkpoint"
    );
}

#[test]
fn consensus_is_built_from_the_local_recorder_and_its_peers() {
    let ids = vec!["node-1".to_string(), "node-2".to_string(), "node-3".to_string()];
    let plan = plan_consensus(&config(), &ids, &Some(Ok("node-1".to_string())), None).unwrap();
    assert_eq!(plan.local, vec![true, false, false]);
    assert_eq!(
        source(
            plan_consensus(&config(), &ids, &Some(Ok("node-9".to_string())), None).unwrap_err()
        ),
        "local recorder identity mismatch: expected node-1, got node-9"
    );
    assert!(accept_consensus(&config(), &Ok(membership())).is_ok());
    let mut foreign = membership();
    foreign.members.pop();
    assert!(accept_consensus(&config(), &Ok(foreign)).is_err());
}
