//! How a node without a predecessor prepares its local state.
//!
//! Every phase names the one piece of outside work that comes next. Local
//! installations are single transactions under one permit; nothing is fetched
//! from the archive while such a permit is held.
use crate::config::CheckpointIdentity;
use crate::error::{fail, HaStartupError};
use crate::log::LogAnchor;
use crate::preparation::{
    recorder_open_policy_for_state, LocalRecorderState, RecorderOpenPolicy, StartupPreparation,
};
use crate::status::HaStartupMode;
use crate::text::{joined, joined3};
use vstd::prelude::*;

verus! {

/// The base of a checkpoint.
#[derive(Clone, Copy, Debug, PartialEq, Eq, Structural)]
pub struct SnapshotAnchor {
    pub active: bool,
    pub config_id: u64,
    pub compacted_index: u64,
}

/// What an archive says of its checkpoint.
#[derive(Debug)]
pub struct CheckpointManifest {
    pub identity: CheckpointIdentity,
    pub tip: LogAnchor,
    pub segments_empty: bool,
    pub snapshot: Option<SnapshotAnchor>,
}

impl CheckpointManifest {
    /// Nothing was ever checkpointed.
    pub open spec fn spec_is_empty(self) -> bool {
        self.tip.index == 0 && self.segments_empty
    }

    /// Nothing was ever checkpointed.
    pub fn is_empty(&self) -> (empty: bool)
        ensures
            empty == self.spec_is_empty(),
    {
        self.tip.index == 0 && self.segments_empty
    }
}

/// A checkpoint that was fetched and validated, ready to be installed.
#[derive(Debug)]
pub struct PreparedCheckpoint {
    pub identity: CheckpointIdentity,
    pub root: LogAnchor,
}

/// How a checkpoint is installed.
#[derive(Clone, Copy, Debug, PartialEq, Eq, Structural)]
pub enum CheckpointInstallMode {
    Fresh,
    RejoinPreservingRecorder,
}

/// Why a checkpoint is restored.
#[derive(Clone, Copy, Debug, PartialEq, Eq, Structural)]
pub enum RestoreKind {
    /// A member rejoins with a fresh data directory.
    FreshRejoin,
    /// An earlier restore was interrupted. Graph state is always rebuilt.
    Interrupted { graph: bool },
    /// The local recovery view cannot be trusted.
    RebuildView,
    /// The cluster is brought back from its archive.
    Disaster,
}

impl RestoreKind {
    /// How the checkpoint is installed: only a rejoin that is not fresh keeps
    /// the recorder, and not one of graph state.
    #[verifier::allow_in_spec]
    pub fn install_mode(self) -> (mode: CheckpointInstallMode)
        returns
            (match self {
                RestoreKind::FreshRejoin => CheckpointInstallMode::Fresh,
                RestoreKind::Interrupted { graph } => if graph {
                    CheckpointInstallMode::Fresh
                } else {
                    CheckpointInstallMode::RejoinPreservingRecorder
                },
                RestoreKind::RebuildView => CheckpointInstallMode::RejoinPreservingRecorder,
                RestoreKind::Disaster => CheckpointInstallMode::Fresh,
            }),
    {
        match self {
            RestoreKind::FreshRejoin => CheckpointInstallMode::Fresh,
            RestoreKind::Interrupted { graph } => if graph {
                CheckpointInstallMode::Fresh
            } else {
                CheckpointInstallMode::RejoinPreservingRecorder
            },
            RestoreKind::RebuildView => CheckpointInstallMode::RejoinPreservingRecorder,
            RestoreKind::Disaster => CheckpointInstallMode::Fresh,
        }
    }

    pub open spec fn spec_begin_stage(self) -> Seq<char> {
        match self {
            RestoreKind::FreshRejoin => "rejoin checkpoint restore"@,
            RestoreKind::Interrupted { .. } => "rejoin interrupted checkpoint restore"@,
            RestoreKind::RebuildView => "rejoin recovery-view restore"@,
            RestoreKind::Disaster => "disaster checkpoint inspection"@,
        }
    }

    /// The stage that startup is at when the restore begins.
    pub fn begin_stage(self) -> (stage: &'static str)
        ensures
            stage@ == self.spec_begin_stage(),
    {
        match self {
            RestoreKind::FreshRejoin => "rejoin checkpoint restore",
            RestoreKind::Interrupted { .. } => "rejoin interrupted checkpoint restore",
            RestoreKind::RebuildView => "rejoin recovery-view restore",
            RestoreKind::Disaster => "disaster checkpoint inspection",
        }
    }

    pub open spec fn spec_install_stage(self) -> Seq<char> {
        match self {
            RestoreKind::FreshRejoin => "fresh rejoin checkpoint install"@,
            RestoreKind::Interrupted { graph } => if graph {
                "interrupted graph rejoin checkpoint install"@
            } else {
                "interrupted rejoin checkpoint install"@
            },
            RestoreKind::RebuildView => "rebuildable rejoin checkpoint install"@,
            RestoreKind::Disaster => "disaster checkpoint install"@,
        }
    }

    /// The stage that local I/O is admitted for when the checkpoint is
    /// installed.
    pub fn install_stage(self) -> (stage: &'static str)
        ensures
            stage@ == self.spec_install_stage(),
    {
        match self {
            RestoreKind::FreshRejoin => "fresh rejoin checkpoint install",
            RestoreKind::Interrupted { graph } => if graph {
                "interrupted graph rejoin checkpoint install"
            } else {
                "interrupted rejoin checkpoint install"
            },
            RestoreKind::RebuildView => "rebuildable rejoin checkpoint install",
            RestoreKind::Disaster => "disaster checkpoint install",
        }
    }

    pub open spec fn spec_validation_stage(self) -> Seq<char> {
        match self {
            RestoreKind::FreshRejoin => "rejoin checkpoint marker validation"@,
            RestoreKind::Interrupted { .. } => "rejoin restored checkpoint validation"@,
            RestoreKind::RebuildView => "rejoin recovery-view validation"@,
            RestoreKind::Disaster => "disaster checkpoint validation"@,
        }
    }

    /// The stage that startup is at when the installed checkpoint is
    /// validated.
    pub fn validation_stage(self) -> (stage: &'static str)
        ensures
            stage@ == self.spec_validation_stage(),
    {
        match self {
            RestoreKind::FreshRejoin => "rejoin checkpoint marker validation",
            RestoreKind::Interrupted { .. } => "rejoin restored checkpoint validation",
            RestoreKind::RebuildView => "rejoin recovery-view validation",
            RestoreKind::Disaster => "disaster checkpoint validation",
        }
    }
}

/// A restore: why, for which checkpoint where that is known beforehand, with
/// what local recorder, and what is wrong with the local recovery view where
/// that is why.
#[derive(Debug)]
pub struct Restore {
    pub kind: RestoreKind,
    pub identity: Option<CheckpointIdentity>,
    pub recorder: LocalRecorderState,
    pub view_error: Option<HaStartupError>,
}

impl Restore {
    /// The checkpoint that the installed marker must be that of.
    pub open spec fn authoritative(self, prepared: PreparedCheckpoint) -> CheckpointIdentity {
        match self.identity {
            Some(identity) => identity,
            None => prepared.identity,
        }
    }

    /// The checkpoint that the installed marker must be that of.
    pub fn to_validate<'a>(&'a self, prepared: &'a PreparedCheckpoint) -> (identity:
        &'a CheckpointIdentity)
        ensures
            *identity == self.authoritative(*prepared),
    {
        match &self.identity {
            Some(identity) => identity,
            None => &prepared.identity,
        }
    }

    /// What a restore that ended at `tip` comes to.
    pub open spec fn outcome(self, tip: LogAnchor) -> StartupPreparation {
        if self.kind == RestoreKind::Disaster {
            StartupPreparation::RecorderFirst {
                open_policy: RecorderOpenPolicy::CreateAfterRehydration,
            }
        } else {
            StartupPreparation::RuntimeFirstWithPeerCatchup {
                checkpoint_root: tip,
                open_policy: recorder_open_policy_for_state(self.recorder),
            }
        }
    }
}

/// What a restore is waiting for.
#[derive(Debug)]
pub enum RestoreStep {
    /// Startup is asked whether it was cancelled.
    Checking,
    /// The local restore state is captured before anything is fetched.
    Capturing,
    /// The checkpoint is fetched and validated, without a permit.
    PreparingRemote,
    /// Startup is asked again (disaster only, as the next three).
    CheckingPrepared { prepared: PreparedCheckpoint },
    LookingForMarker { prepared: PreparedCheckpoint },
    LookingForRestore { prepared: PreparedCheckpoint },
    InspectingData { prepared: PreparedCheckpoint },
    /// The completion marker is encoded.
    Encoding { prepared: PreparedCheckpoint },
    /// The checkpoint is installed under one permit.
    Installing { prepared: PreparedCheckpoint },
    /// Startup is asked again.
    CheckingInstalled { prepared: PreparedCheckpoint, tip: LogAnchor },
    /// The marker in place is held against the checkpoint.
    ValidatingInstalled { prepared: PreparedCheckpoint, tip: LogAnchor },
}

/// What preparing local state is waiting for.
#[derive(Debug)]
pub enum StandardPhase {
    CheckingBootstrap,
    InspectingBootstrapData,
    LoadingBootstrapCheckpoint,
    CheckingBootstrapCheckpoint { checkpoint: CheckpointManifest },
    WritingBootstrapMarker { identity: CheckpointIdentity },
    InspectingRejoinData,
    CheckingRejoin,
    LoadingRejoinCheckpoint,
    CheckingRecorder { checkpoint: CheckpointManifest },
    LookingForMarker { checkpoint: CheckpointManifest },
    LookingForRestore { checkpoint: CheckpointManifest, marked: bool },
    PreflightingRecorder { checkpoint: CheckpointManifest, interrupted: bool },
    RecoveringRecorder { checkpoint: CheckpointManifest, interrupted: bool },
    ValidatingMarker { checkpoint: CheckpointManifest, recorder: LocalRecorderState },
    ValidatingView { checkpoint: CheckpointManifest, recorder: LocalRecorderState },
    Restoring { restore: Restore, step: RestoreStep },
    Done(Result<StartupPreparation, HaStartupError>),
}

/// What came of recovering a crashed recorder under one permit.
#[derive(Debug)]
pub enum RecorderRecovery {
    NotAdmitted(HaStartupError),
    OpenFailed(String),
    /// It was opened, and inspected again.
    Inspected(Result<LocalRecorderState, String>),
}

/// What came of installing a checkpoint under one permit.
#[derive(Debug)]
pub enum InstallOutcome {
    NotAdmitted(HaStartupError),
    Failed(String),
    Installed(LogAnchor),
}

/// What preparing local state can see happen.
#[derive(Debug)]
pub enum StandardEvent {
    /// Startup's answer whether it was cancelled.
    Checked(Result<(), HaStartupError>),
    /// Whether the data directory is fresh.
    DataInspected(Result<bool, HaStartupError>),
    CheckpointLoaded(Result<Option<CheckpointManifest>, HaStartupError>),
    MarkerWritten(Result<(), HaStartupError>),
    /// Whether the exact marker is there.
    MarkerFound(Result<bool, HaStartupError>),
    /// Whether a restore of this checkpoint was interrupted.
    RestoreFound(Result<bool, HaStartupError>),
    RecorderPreflighted(Result<LocalRecorderState, String>),
    RecorderRecovered(RecorderRecovery),
    MarkerValidated(Result<(), HaStartupError>),
    ViewValidated(Result<(), HaStartupError>),
    StateCaptured(Result<(), HaStartupError>),
    RemotePrepared(Result<PreparedCheckpoint, HaStartupError>),
    MarkerEncoded(Result<(), HaStartupError>),
    CheckpointInstalled(InstallOutcome),
}

impl LocalRecorderState {
    pub open spec fn spec_name(self) -> Seq<char> {
        match self {
            LocalRecorderState::Missing => "Missing"@,
            LocalRecorderState::Valid => "Valid"@,
            LocalRecorderState::Recoverable => "Recoverable"@,
        }
    }

    /// The variant's name.
    pub fn name(self) -> (name: &'static str)
        ensures
            name@ == self.spec_name(),
    {
        match self {
            LocalRecorderState::Missing => "Missing",
            LocalRecorderState::Valid => "Valid",
            LocalRecorderState::Recoverable => "Recoverable",
        }
    }
}

/// `result` is what a preflight of the local recorder is worth.
pub open spec fn preflight_verdict(
    preflight: Result<LocalRecorderState, String>,
    result: Result<LocalRecorderState, HaStartupError>,
) -> bool {
    match preflight {
        Ok(state) => result == Ok::<LocalRecorderState, HaStartupError>(state),
        Err(message) => result matches Err(error) && error.is_source(
            "local recorder is not trustworthy: "@ + message@,
        ),
    }
}

/// What a preflight of the local recorder is worth.
pub fn preflight_local_recorder(preflight: Result<LocalRecorderState, String>) -> (result: Result<
    LocalRecorderState,
    HaStartupError,
>)
    ensures
        preflight_verdict(preflight, result),
{
    match preflight {
        Ok(state) => Ok(state),
        Err(message) => Err(
            HaStartupError::Source(
                joined("local recorder is not trustworthy: ", message.as_str()),
            ),
        ),
    }
}

/// `result` is what recovering a crashed recorder is worth: only a recorder
/// that is valid afterwards is one.
pub open spec fn recovery_verdict(
    recovery: RecorderRecovery,
    result: Result<LocalRecorderState, HaStartupError>,
) -> bool {
    match recovery {
        RecorderRecovery::NotAdmitted(error) => result == Err::<
            LocalRecorderState,
            HaStartupError,
        >(error),
        RecorderRecovery::OpenFailed(message) => result matches Err(error) && error.is_source(
            "local recorder crash recovery failed: "@ + message@,
        ),
        RecorderRecovery::Inspected(preflight) => match preflight {
            Ok(LocalRecorderState::Valid) => result == Ok::<LocalRecorderState, HaStartupError>(
                LocalRecorderState::Valid,
            ),
            Ok(state) => result matches Err(error) && error.is_source(
                "local recorder crash recovery did not produce a valid recorder: "@
                    + state.spec_name(),
            ),
            Err(_) => preflight_verdict(preflight, result),
        },
    }
}

/// What recovering a crashed recorder is worth.
pub fn recover_local_recorder_before_view_recovery(recovery: RecorderRecovery) -> (result: Result<
    LocalRecorderState,
    HaStartupError,
>)
    ensures
        recovery_verdict(recovery, result),
{
    match recovery {
        RecorderRecovery::NotAdmitted(error) => Err(error),
        RecorderRecovery::OpenFailed(message) => Err(
            HaStartupError::Source(
                joined("local recorder crash recovery failed: ", message.as_str()),
            ),
        ),
        RecorderRecovery::Inspected(preflight) => match preflight_local_recorder(preflight) {
            Ok(LocalRecorderState::Valid) => Ok(LocalRecorderState::Valid),
            Ok(state) => Err(
                HaStartupError::Source(
                    joined(
                        "local recorder crash recovery did not produce a valid recorder: ",
                        state.name(),
                    ),
                ),
            ),
            Err(error) => Err(error),
        },
    }
}

/// What the operator is told before a recovery view that failed with `error` is
/// replaced.
pub open spec fn view_report(error: HaStartupError) -> Seq<char> {
    "local recovery view is not trustworthy ("@ + error.spec_message()
        + "); attempting an identity-bound quarantine and verified checkpoint restore"@
}

/// What the operator is told once the recovery of a crashed recorder was
/// admitted.
pub open spec fn recovery_report() -> Seq<char> {
    "local recorder has normal crash artifacts; completing locked recorder recovery before rebuilding local views"@
}

/// What the operator is told once the recovery of a crashed recorder was
/// admitted.
pub fn recorder_recovery_report() -> (report: String)
    ensures
        report@ == recovery_report(),
{
    "local recorder has normal crash artifacts; completing locked recorder recovery before rebuilding local views".to_owned()
}

/// Where preparing local state starts.
#[verifier::allow_in_spec]
pub fn begin_standard_preparation(mode: HaStartupMode) -> (phase: StandardPhase)
    returns
        (match mode {
            HaStartupMode::Bootstrap => StandardPhase::CheckingBootstrap,
            HaStartupMode::Rejoin => StandardPhase::InspectingRejoinData,
            HaStartupMode::Disaster => StandardPhase::Restoring {
                restore: Restore {
                    kind: RestoreKind::Disaster,
                    identity: None,
                    recorder: LocalRecorderState::Missing,
                    view_error: None,
                },
                step: RestoreStep::Checking,
            },
        }),
{
    match mode {
        HaStartupMode::Bootstrap => StandardPhase::CheckingBootstrap,
        HaStartupMode::Rejoin => StandardPhase::InspectingRejoinData,
        HaStartupMode::Disaster => StandardPhase::Restoring {
            restore: Restore {
                kind: RestoreKind::Disaster,
                identity: None,
                recorder: LocalRecorderState::Missing,
                view_error: None,
            },
            step: RestoreStep::Checking,
        },
    }
}

impl StandardPhase {
    /// Preparation fails with this message.
    pub open spec fn fails(next: StandardPhase, message: Seq<char>) -> bool {
        next matches StandardPhase::Done(Err(error)) && error.is_source(message)
    }

    /// Preparation fails with this error.
    pub open spec fn refuses(next: StandardPhase, error: HaStartupError) -> bool {
        next == StandardPhase::Done(Err(error))
    }

    /// Preparation is over.
    pub open spec fn succeeds(next: StandardPhase, preparation: StartupPreparation) -> bool {
        next == StandardPhase::Done(Ok(preparation))
    }

    /// A restore goes on with `step`.
    pub open spec fn restores(next: StandardPhase, restore: Restore, step: RestoreStep) -> bool {
        next == (StandardPhase::Restoring { restore, step })
    }

    /// What follows once the recorder is known to be `recorder`.
    pub open spec fn recorder_known(
        graph: bool,
        checkpoint: CheckpointManifest,
        interrupted: bool,
        recorder: LocalRecorderState,
        next: StandardPhase,
    ) -> bool {
        if interrupted {
            Self::restores(
                next,
                Restore {
                    kind: RestoreKind::Interrupted { graph },
                    identity: Some(checkpoint.identity),
                    recorder,
                    view_error: None,
                },
                RestoreStep::Checking,
            )
        } else {
            next == (StandardPhase::ValidatingMarker { checkpoint, recorder })
        }
    }

    /// What an event does to a bootstrap.
    pub open spec fn bootstraps(self, event: StandardEvent, next: StandardPhase) -> bool {
        match (self, event) {
            (StandardPhase::CheckingBootstrap, StandardEvent::Checked(result)) => match result {
                Ok(_) => next is InspectingBootstrapData,
                Err(error) => Self::refuses(next, error),
            },
            (StandardPhase::InspectingBootstrapData, StandardEvent::DataInspected(result)) => {
                match result {
                    Ok(fresh) => if fresh {
                        next is LoadingBootstrapCheckpoint
                    } else {
                        Self::fails(next, "bootstrap requires a fresh local data directory"@)
                    },
                    Err(error) => Self::refuses(next, error),
                }
            },
            (
                StandardPhase::LoadingBootstrapCheckpoint,
                StandardEvent::CheckpointLoaded(result),
            ) => match result {
                Ok(Some(checkpoint)) => next == (StandardPhase::CheckingBootstrapCheckpoint {
                    checkpoint,
                }),
                Ok(None) => Self::fails(
                    next,
                    "bootstrap requires an initialized empty checkpoint"@,
                ),
                Err(error) => Self::refuses(next, error),
            },
            (
                StandardPhase::CheckingBootstrapCheckpoint { checkpoint },
                StandardEvent::Checked(result),
            ) => match result {
                Ok(_) => if checkpoint.spec_is_empty() {
                    next == (StandardPhase::WritingBootstrapMarker {
                        identity: checkpoint.identity,
                    })
                } else {
                    Self::fails(next, "bootstrap requires an initialized empty checkpoint"@)
                },
                Err(error) => Self::refuses(next, error),
            },
            (
                StandardPhase::WritingBootstrapMarker { .. },
                StandardEvent::MarkerWritten(result),
            ) => match result {
                Ok(_) => Self::succeeds(
                    next,
                    StartupPreparation::RecorderFirst {
                        open_policy: RecorderOpenPolicy::CreateAfterRehydration,
                    },
                ),
                Err(error) => Self::refuses(next, error),
            },
            _ => next == self,
        }
    }

    /// What an event does to a rejoin before anything is restored.
    pub open spec fn rejoins(self, graph: bool, event: StandardEvent, next: StandardPhase) -> bool {
        match (self, event) {
            (StandardPhase::InspectingRejoinData, StandardEvent::DataInspected(result)) => {
                match result {
                    Ok(fresh) => if fresh {
                        Self::restores(
                            next,
                            Restore {
                                kind: RestoreKind::FreshRejoin,
                                identity: None,
                                recorder: LocalRecorderState::Missing,
                                view_error: None,
                            },
                            RestoreStep::Checking,
                        )
                    } else {
                        next is CheckingRejoin
                    },
                    Err(error) => Self::refuses(next, error),
                }
            },
            (StandardPhase::CheckingRejoin, StandardEvent::Checked(result)) => match result {
                Ok(_) => next is LoadingRejoinCheckpoint,
                Err(error) => Self::refuses(next, error),
            },
            (StandardPhase::LoadingRejoinCheckpoint, StandardEvent::CheckpointLoaded(result)) => {
                match result {
                    Ok(Some(checkpoint)) => next == (StandardPhase::CheckingRecorder {
                        checkpoint,
                    }),
                    Ok(None) => Self::fails(next, "rejoin requires an initialized checkpoint"@),
                    Err(error) => Self::refuses(next, error),
                }
            },
            (StandardPhase::CheckingRecorder { checkpoint }, StandardEvent::Checked(result)) => {
                match result {
                    Ok(_) => next == (StandardPhase::LookingForMarker { checkpoint }),
                    Err(error) => Self::refuses(next, error),
                }
            },
            (
                StandardPhase::LookingForMarker { checkpoint },
                StandardEvent::MarkerFound(result),
            ) => match result {
                Ok(marked) => next == (StandardPhase::LookingForRestore { checkpoint, marked }),
                Err(error) => Self::refuses(next, error),
            },
            (
                StandardPhase::LookingForRestore { checkpoint, marked },
                StandardEvent::RestoreFound(result),
            ) => match result {
                Ok(interrupted) => if !marked && !interrupted {
                    Self::fails(next, "rejoin requires a local checkpoint identity marker"@)
                } else {
                    next == (StandardPhase::PreflightingRecorder { checkpoint, interrupted })
                },
                Err(error) => Self::refuses(next, error),
            },
            (
                StandardPhase::PreflightingRecorder { checkpoint, interrupted },
                StandardEvent::RecorderPreflighted(preflight),
            ) => match preflight {
                Ok(LocalRecorderState::Recoverable) => next == (
                StandardPhase::RecoveringRecorder { checkpoint, interrupted }),
                Ok(recorder) => Self::recorder_known(
                    graph,
                    checkpoint,
                    interrupted,
                    recorder,
                    next,
                ),
                Err(message) => Self::fails(
                    next,
                    "local recorder is not trustworthy: "@ + message@,
                ),
            },
            (
                StandardPhase::RecoveringRecorder { checkpoint, interrupted },
                StandardEvent::RecorderRecovered(recovery),
            ) => exists|result: Result<LocalRecorderState, HaStartupError>| #[trigger]
                recovery_verdict(recovery, result) && match result {
                    Ok(recorder) => Self::recorder_known(
                        graph,
                        checkpoint,
                        interrupted,
                        recorder,
                        next,
                    ),
                    Err(error) => Self::refuses(next, error),
                },
            (
                StandardPhase::ValidatingMarker { checkpoint, recorder },
                StandardEvent::MarkerValidated(result),
            ) => match result {
                Ok(_) => next == (StandardPhase::ValidatingView { checkpoint, recorder }),
                Err(error) => Self::refuses(next, error),
            },
            (
                StandardPhase::ValidatingView { checkpoint, recorder },
                StandardEvent::ViewValidated(result),
            ) => match result {
                Err(error) => Self::restores(
                    next,
                    Restore {
                        kind: RestoreKind::RebuildView,
                        identity: Some(checkpoint.identity),
                        recorder,
                        view_error: Some(error),
                    },
                    RestoreStep::Checking,
                ),
                Ok(_) => if recorder == LocalRecorderState::Missing {
                    Self::succeeds(
                        next,
                        StartupPreparation::RuntimeFirstWithPeerCatchup {
                            checkpoint_root: checkpoint.tip,
                            open_policy: RecorderOpenPolicy::CreateAfterRehydration,
                        },
                    )
                } else {
                    Self::succeeds(
                        next,
                        StartupPreparation::VerifyLocalCheckpoint {
                            identity: checkpoint.identity,
                            root: checkpoint.tip,
                        },
                    )
                },
            },
            _ => next == self,
        }
    }

    /// What an event does to a restore.
    pub open spec fn restore_steps(
        restore: Restore,
        step: RestoreStep,
        event: StandardEvent,
        next: StandardPhase,
    ) -> bool {
        match (step, event) {
            (RestoreStep::Checking, StandardEvent::Checked(result)) => match result {
                Ok(_) => Self::restores(next, restore, RestoreStep::Capturing),
                Err(error) => Self::refuses(next, error),
            },
            (RestoreStep::Capturing, StandardEvent::StateCaptured(result)) => match result {
                Ok(_) => Self::restores(next, restore, RestoreStep::PreparingRemote),
                Err(error) => Self::refuses(next, error),
            },
            (RestoreStep::PreparingRemote, StandardEvent::RemotePrepared(result)) => match result {
                Ok(prepared) => Self::restores(
                    next,
                    restore,
                    if restore.kind == RestoreKind::Disaster {
                        RestoreStep::CheckingPrepared { prepared }
                    } else {
                        RestoreStep::Encoding { prepared }
                    },
                ),
                Err(error) => Self::refuses(next, error),
            },
            (RestoreStep::CheckingPrepared { prepared }, StandardEvent::Checked(result)) => {
                match result {
                    Ok(_) => Self::restores(
                        next,
                        restore,
                        RestoreStep::LookingForMarker { prepared },
                    ),
                    Err(error) => Self::refuses(next, error),
                }
            },
            (RestoreStep::LookingForMarker { prepared }, StandardEvent::MarkerFound(result)) => {
                match result {
                    Ok(_) => Self::restores(
                        next,
                        restore,
                        RestoreStep::LookingForRestore { prepared },
                    ),
                    Err(error) => Self::refuses(next, error),
                }
            },
            (RestoreStep::LookingForRestore { prepared }, StandardEvent::RestoreFound(result)) => {
                match result {
                    Ok(interrupted) => Self::restores(
                        next,
                        restore,
                        if interrupted {
                            RestoreStep::Encoding { prepared }
                        } else {
                            RestoreStep::InspectingData { prepared }
                        },
                    ),
                    Err(error) => Self::refuses(next, error),
                }
            },
            (RestoreStep::InspectingData { prepared }, StandardEvent::DataInspected(result)) => {
                match result {
                    Ok(fresh) => if fresh {
                        Self::restores(next, restore, RestoreStep::Encoding { prepared })
                    } else {
                        Self::fails(
                            next,
                            "disaster startup requires a fresh local data directory"@,
                        )
                    },
                    Err(error) => Self::refuses(next, error),
                }
            },
            (RestoreStep::Encoding { prepared }, StandardEvent::MarkerEncoded(result)) => {
                match result {
                    Ok(_) => Self::restores(next, restore, RestoreStep::Installing { prepared }),
                    Err(error) => Self::refuses(next, error),
                }
            },
            (RestoreStep::Installing { prepared }, StandardEvent::CheckpointInstalled(outcome)) => {
                match outcome {
                    InstallOutcome::Installed(tip) => Self::restores(
                        next,
                        restore,
                        RestoreStep::CheckingInstalled { prepared, tip },
                    ),
                    InstallOutcome::NotAdmitted(error) => Self::refuses(next, error),
                    InstallOutcome::Failed(message) => if restore.kind == RestoreKind::RebuildView {
                        Self::fails(
                            next,
                            "rebuildable local recovery view could not be quarantined and restored from the verified checkpoint: "@
                                + message@,
                        )
                    } else {
                        Self::fails(next, message@)
                    },
                }
            },
            (RestoreStep::CheckingInstalled { prepared, tip }, StandardEvent::Checked(result)) => {
                match result {
                    Ok(_) => Self::restores(
                        next,
                        restore,
                        RestoreStep::ValidatingInstalled { prepared, tip },
                    ),
                    Err(error) => Self::refuses(next, error),
                }
            },
            (
                RestoreStep::ValidatingInstalled { prepared, tip },
                StandardEvent::MarkerValidated(result),
            ) => match result {
                Ok(_) => Self::succeeds(next, restore.outcome(tip)),
                Err(error) => Self::refuses(next, error),
            },
            _ => Self::restores(next, restore, step),
        }
    }

    /// `next` is what `event` makes of this phase. `graph` says whether the
    /// node materializes graph state.
    pub open spec fn steps_to(
        self,
        graph: bool,
        event: StandardEvent,
        next: StandardPhase,
    ) -> bool {
        match self {
            StandardPhase::CheckingBootstrap
            | StandardPhase::InspectingBootstrapData
            | StandardPhase::LoadingBootstrapCheckpoint
            | StandardPhase::CheckingBootstrapCheckpoint { .. }
            | StandardPhase::WritingBootstrapMarker { .. } => self.bootstraps(event, next),
            StandardPhase::Restoring { restore, step } => Self::restore_steps(
                restore,
                step,
                event,
                next,
            ),
            StandardPhase::Done(_) => next == self,
            _ => self.rejoins(graph, event, next),
        }
    }
}

impl StandardPhase {
    /// The stage that startup is asked about, where it is asked.
    pub open spec fn spec_check_stage(self) -> Option<Seq<char>> {
        match self {
            StandardPhase::CheckingBootstrap => Some("bootstrap local data inspection"@),
            StandardPhase::CheckingBootstrapCheckpoint { .. } => Some(
                "bootstrap checkpoint validation"@,
            ),
            StandardPhase::CheckingRejoin => Some("rejoin checkpoint inspection"@),
            StandardPhase::CheckingRecorder { .. } => Some("recorder preflight and recovery"@),
            StandardPhase::Restoring { restore, step: RestoreStep::Checking } => Some(
                restore.kind.spec_begin_stage(),
            ),
            StandardPhase::Restoring { step: RestoreStep::CheckingPrepared { .. }, .. } => Some(
                "disaster restore preparation"@,
            ),
            StandardPhase::Restoring { restore, step: RestoreStep::CheckingInstalled { .. } } => {
                Some(restore.kind.spec_validation_stage())
            },
            _ => None,
        }
    }

    /// The stage that startup is asked about, where it is asked.
    pub fn check_stage(&self) -> (stage: Option<&'static str>)
        ensures
            match self.spec_check_stage() {
                Some(text) => stage matches Some(stage) && stage@ == text,
                None => stage is None,
            },
    {
        match self {
            StandardPhase::CheckingBootstrap => Some("bootstrap local data inspection"),
            StandardPhase::CheckingBootstrapCheckpoint { .. } => Some(
                "bootstrap checkpoint validation",
            ),
            StandardPhase::CheckingRejoin => Some("rejoin checkpoint inspection"),
            StandardPhase::CheckingRecorder { .. } => Some("recorder preflight and recovery"),
            StandardPhase::Restoring { restore, step: RestoreStep::Checking } => Some(
                restore.kind.begin_stage(),
            ),
            StandardPhase::Restoring { step: RestoreStep::CheckingPrepared { .. }, .. } => Some(
                "disaster restore preparation",
            ),
            StandardPhase::Restoring { restore, step: RestoreStep::CheckingInstalled { .. } } => {
                Some(restore.kind.validation_stage())
            },
            _ => None,
        }
    }
}

impl StandardPhase {
    /// What the operator is told when the work of this phase begins, if
    /// anything: of a crashed recorder once its recovery was admitted, of a
    /// recovery view that is not trusted before it is replaced.
    pub open spec fn spec_report(self) -> Option<Seq<char>> {
        match self {
            StandardPhase::RecoveringRecorder { .. } => Some(recovery_report()),
            StandardPhase::Restoring { restore, step: RestoreStep::Capturing } => {
                match restore.view_error {
                    Some(error) => Some(view_report(error)),
                    None => None,
                }
            },
            _ => None,
        }
    }

    /// What the operator is told when the work of this phase begins, if
    /// anything: of a crashed recorder once its recovery was admitted, of a
    /// recovery view that is not trusted before it is replaced.
    pub fn report(&self) -> (report: Option<String>)
        ensures
            match self.spec_report() {
                Some(text) => report matches Some(report) && report@ == text,
                None => report is None,
            },
    {
        match self {
            StandardPhase::RecoveringRecorder { .. } => Some(recorder_recovery_report()),
            StandardPhase::Restoring { restore, step: RestoreStep::Capturing } => {
                match &restore.view_error {
                    Some(error) => Some(
                        joined3(
                            "local recovery view is not trustworthy (",
                            error.message().as_str(),
                            "); attempting an identity-bound quarantine and verified checkpoint restore",
                        ),
                    ),
                    None => None,
                }
            },
            _ => None,
        }
    }
}

fn refuse(error: HaStartupError) -> (phase: StandardPhase)
    ensures
        StandardPhase::refuses(phase, error),
{
    StandardPhase::Done(Err(error))
}

fn reject(message: &str) -> (phase: StandardPhase)
    ensures
        StandardPhase::fails(phase, message@),
{
    StandardPhase::Done(Err(fail(message)))
}

fn restore_with(restore: Restore, step: RestoreStep) -> (phase: StandardPhase)
    ensures
        StandardPhase::restores(phase, restore, step),
{
    StandardPhase::Restoring { restore, step }
}

fn bootstrap(phase: StandardPhase, event: StandardEvent) -> (next: StandardPhase)
    ensures
        phase.bootstraps(event, next),
{
    match (phase, event) {
        (StandardPhase::CheckingBootstrap, StandardEvent::Checked(result)) => match result {
            Ok(()) => StandardPhase::InspectingBootstrapData,
            Err(error) => refuse(error),
        },
        (StandardPhase::InspectingBootstrapData, StandardEvent::DataInspected(result)) => {
            match result {
                Ok(fresh) => if fresh {
                    StandardPhase::LoadingBootstrapCheckpoint
                } else {
                    reject("bootstrap requires a fresh local data directory")
                },
                Err(error) => refuse(error),
            }
        },
        (StandardPhase::LoadingBootstrapCheckpoint, StandardEvent::CheckpointLoaded(result)) => {
            match result {
                Ok(Some(checkpoint)) => StandardPhase::CheckingBootstrapCheckpoint { checkpoint },
                Ok(None) => reject("bootstrap requires an initialized empty checkpoint"),
                Err(error) => refuse(error),
            }
        },
        (
            StandardPhase::CheckingBootstrapCheckpoint { checkpoint },
            StandardEvent::Checked(result),
        ) => match result {
            Ok(()) => if checkpoint.is_empty() {
                StandardPhase::WritingBootstrapMarker { identity: checkpoint.identity }
            } else {
                reject("bootstrap requires an initialized empty checkpoint")
            },
            Err(error) => refuse(error),
        },
        (StandardPhase::WritingBootstrapMarker { .. }, StandardEvent::MarkerWritten(result)) => {
            match result {
                Ok(()) => StandardPhase::Done(
                    Ok(
                        StartupPreparation::RecorderFirst {
                            open_policy: RecorderOpenPolicy::CreateAfterRehydration,
                        },
                    ),
                ),
                Err(error) => refuse(error),
            }
        },
        (phase, _) => phase,
    }
}

fn know_recorder(
    graph: bool,
    checkpoint: CheckpointManifest,
    interrupted: bool,
    recorder: LocalRecorderState,
) -> (next: StandardPhase)
    ensures
        StandardPhase::recorder_known(graph, checkpoint, interrupted, recorder, next),
{
    if interrupted {
        restore_with(
            Restore {
                kind: RestoreKind::Interrupted { graph },
                identity: Some(checkpoint.identity),
                recorder,
                view_error: None,
            },
            RestoreStep::Checking,
        )
    } else {
        StandardPhase::ValidatingMarker { checkpoint, recorder }
    }
}

fn rejoin(graph: bool, phase: StandardPhase, event: StandardEvent) -> (next: StandardPhase)
    ensures
        phase.rejoins(graph, event, next),
{
    match (phase, event) {
        (StandardPhase::InspectingRejoinData, StandardEvent::DataInspected(result)) => {
            match result {
                Ok(fresh) => if fresh {
                    restore_with(
                        Restore {
                            kind: RestoreKind::FreshRejoin,
                            identity: None,
                            recorder: LocalRecorderState::Missing,
                            view_error: None,
                        },
                        RestoreStep::Checking,
                    )
                } else {
                    StandardPhase::CheckingRejoin
                },
                Err(error) => refuse(error),
            }
        },
        (StandardPhase::CheckingRejoin, StandardEvent::Checked(result)) => match result {
            Ok(()) => StandardPhase::LoadingRejoinCheckpoint,
            Err(error) => refuse(error),
        },
        (StandardPhase::LoadingRejoinCheckpoint, StandardEvent::CheckpointLoaded(result)) => {
            match result {
                Ok(Some(checkpoint)) => StandardPhase::CheckingRecorder { checkpoint },
                Ok(None) => reject("rejoin requires an initialized checkpoint"),
                Err(error) => refuse(error),
            }
        },
        (StandardPhase::CheckingRecorder { checkpoint }, StandardEvent::Checked(result)) => {
            match result {
                Ok(()) => StandardPhase::LookingForMarker { checkpoint },
                Err(error) => refuse(error),
            }
        },
        (StandardPhase::LookingForMarker { checkpoint }, StandardEvent::MarkerFound(result)) => {
            match result {
                Ok(marked) => StandardPhase::LookingForRestore { checkpoint, marked },
                Err(error) => refuse(error),
            }
        },
        (
            StandardPhase::LookingForRestore { checkpoint, marked },
            StandardEvent::RestoreFound(result),
        ) => match result {
            Ok(interrupted) => if !marked && !interrupted {
                reject("rejoin requires a local checkpoint identity marker")
            } else {
                StandardPhase::PreflightingRecorder { checkpoint, interrupted }
            },
            Err(error) => refuse(error),
        },
        (
            StandardPhase::PreflightingRecorder { checkpoint, interrupted },
            StandardEvent::RecorderPreflighted(preflight),
        ) => match preflight_local_recorder(preflight) {
            Ok(LocalRecorderState::Recoverable) => StandardPhase::RecoveringRecorder {
                checkpoint,
                interrupted,
            },
            Ok(recorder) => know_recorder(graph, checkpoint, interrupted, recorder),
            Err(error) => refuse(error),
        },
        (
            StandardPhase::RecoveringRecorder { checkpoint, interrupted },
            StandardEvent::RecorderRecovered(recovery),
        ) => {
            let result = recover_local_recorder_before_view_recovery(recovery);
            assert(recovery_verdict(recovery, result));
            match result {
                Ok(recorder) => know_recorder(graph, checkpoint, interrupted, recorder),
                Err(error) => refuse(error),
            }
        },
        (
            StandardPhase::ValidatingMarker { checkpoint, recorder },
            StandardEvent::MarkerValidated(result),
        ) => match result {
            Ok(()) => StandardPhase::ValidatingView { checkpoint, recorder },
            Err(error) => refuse(error),
        },
        (
            StandardPhase::ValidatingView { checkpoint, recorder },
            StandardEvent::ViewValidated(result),
        ) => match result {
            Err(error) => restore_with(
                Restore {
                    kind: RestoreKind::RebuildView,
                    identity: Some(checkpoint.identity),
                    recorder,
                    view_error: Some(error),
                },
                RestoreStep::Checking,
            ),
            Ok(()) => if recorder == LocalRecorderState::Missing {
                StandardPhase::Done(
                    Ok(
                        StartupPreparation::RuntimeFirstWithPeerCatchup {
                            checkpoint_root: checkpoint.tip,
                            open_policy: RecorderOpenPolicy::CreateAfterRehydration,
                        },
                    ),
                )
            } else {
                StandardPhase::Done(
                    Ok(
                        StartupPreparation::VerifyLocalCheckpoint {
                            identity: checkpoint.identity,
                            root: checkpoint.tip,
                        },
                    ),
                )
            },
        },
        (phase, _) => phase,
    }
}

fn advance_restore(restore: Restore, step: RestoreStep, event: StandardEvent) -> (next:
    StandardPhase)
    ensures
        StandardPhase::restore_steps(restore, step, event, next),
{
    match (step, event) {
        (RestoreStep::Checking, StandardEvent::Checked(result)) => match result {
            Ok(()) => restore_with(restore, RestoreStep::Capturing),
            Err(error) => refuse(error),
        },
        (RestoreStep::Capturing, StandardEvent::StateCaptured(result)) => match result {
            Ok(()) => restore_with(restore, RestoreStep::PreparingRemote),
            Err(error) => refuse(error),
        },
        (RestoreStep::PreparingRemote, StandardEvent::RemotePrepared(result)) => match result {
            Ok(prepared) => {
                let step = if restore.kind == RestoreKind::Disaster {
                    RestoreStep::CheckingPrepared { prepared }
                } else {
                    RestoreStep::Encoding { prepared }
                };
                restore_with(restore, step)
            },
            Err(error) => refuse(error),
        },
        (RestoreStep::CheckingPrepared { prepared }, StandardEvent::Checked(result)) => {
            match result {
                Ok(()) => restore_with(restore, RestoreStep::LookingForMarker { prepared }),
                Err(error) => refuse(error),
            }
        },
        (RestoreStep::LookingForMarker { prepared }, StandardEvent::MarkerFound(result)) => {
            match result {
                Ok(_) => restore_with(restore, RestoreStep::LookingForRestore { prepared }),
                Err(error) => refuse(error),
            }
        },
        (RestoreStep::LookingForRestore { prepared }, StandardEvent::RestoreFound(result)) => {
            match result {
                Ok(interrupted) => {
                    let step = if interrupted {
                        RestoreStep::Encoding { prepared }
                    } else {
                        RestoreStep::InspectingData { prepared }
                    };
                    restore_with(restore, step)
                },
                Err(error) => refuse(error),
            }
        },
        (RestoreStep::InspectingData { prepared }, StandardEvent::DataInspected(result)) => {
            match result {
                Ok(fresh) => if fresh {
                    restore_with(restore, RestoreStep::Encoding { prepared })
                } else {
                    reject("disaster startup requires a fresh local data directory")
                },
                Err(error) => refuse(error),
            }
        },
        (RestoreStep::Encoding { prepared }, StandardEvent::MarkerEncoded(result)) => {
            match result {
                Ok(()) => restore_with(restore, RestoreStep::Installing { prepared }),
                Err(error) => refuse(error),
            }
        },
        (RestoreStep::Installing { prepared }, StandardEvent::CheckpointInstalled(outcome)) => {
            match outcome {
                InstallOutcome::Installed(tip) => restore_with(
                    restore,
                    RestoreStep::CheckingInstalled { prepared, tip },
                ),
                InstallOutcome::NotAdmitted(error) => refuse(error),
                InstallOutcome::Failed(message) => if restore.kind == RestoreKind::RebuildView {
                    StandardPhase::Done(
                        Err(
                            HaStartupError::Source(
                                joined(
                                    "rebuildable local recovery view could not be quarantined and restored from the verified checkpoint: ",
                                    message.as_str(),
                                ),
                            ),
                        ),
                    )
                } else {
                    reject(message.as_str())
                },
            }
        },
        (RestoreStep::CheckingInstalled { prepared, tip }, StandardEvent::Checked(result)) => {
            match result {
                Ok(()) => restore_with(
                    restore,
                    RestoreStep::ValidatingInstalled { prepared, tip },
                ),
                Err(error) => refuse(error),
            }
        },
        (
            RestoreStep::ValidatingInstalled { prepared: _, tip },
            StandardEvent::MarkerValidated(result),
        ) => match result {
            Ok(()) => {
                let preparation = if restore.kind == RestoreKind::Disaster {
                    StartupPreparation::RecorderFirst {
                        open_policy: RecorderOpenPolicy::CreateAfterRehydration,
                    }
                } else {
                    StartupPreparation::RuntimeFirstWithPeerCatchup {
                        checkpoint_root: tip,
                        open_policy: recorder_open_policy_for_state(restore.recorder),
                    }
                };
                StandardPhase::Done(Ok(preparation))
            },
            Err(error) => refuse(error),
        },
        (step, _) => restore_with(restore, step),
    }
}

/// Advances the preparation of a node without a predecessor by one event. An
/// event that it does not wait for leaves it as it is.
pub fn prepare_standard(graph: bool, phase: StandardPhase, event: StandardEvent) -> (next:
    StandardPhase)
    ensures
        phase.steps_to(graph, event, next),
{
    match phase {
        StandardPhase::CheckingBootstrap => bootstrap(StandardPhase::CheckingBootstrap, event),
        StandardPhase::InspectingBootstrapData => bootstrap(
            StandardPhase::InspectingBootstrapData,
            event,
        ),
        StandardPhase::LoadingBootstrapCheckpoint => bootstrap(
            StandardPhase::LoadingBootstrapCheckpoint,
            event,
        ),
        StandardPhase::CheckingBootstrapCheckpoint { checkpoint } => bootstrap(
            StandardPhase::CheckingBootstrapCheckpoint { checkpoint },
            event,
        ),
        StandardPhase::WritingBootstrapMarker { identity } => bootstrap(
            StandardPhase::WritingBootstrapMarker { identity },
            event,
        ),
        StandardPhase::Restoring { restore, step } => advance_restore(restore, step, event),
        StandardPhase::Done(result) => StandardPhase::Done(result),
        phase => rejoin(graph, phase, event),
    }
}

} // verus!
