//! How a successor prepares its local state, and how the local recorder is
//! opened once local state is prepared.
use crate::binding::{validate_predecessor_binding, HaPredecessor, StopReading};
use crate::config::{CheckpointIdentity, NodeConfig};
use crate::error::{fail, HaStartupError};
use crate::local_files::SuccessorRestoreControlState;
use crate::preparation::{LocalRecorderState, RecorderOpenPolicy, StartupPreparation};
use crate::prepare::{
    preflight_local_recorder, recover_local_recorder_before_view_recovery,
    recorder_recovery_report, CheckpointManifest, RecorderRecovery,
};
use crate::status::HaStartupMode;
use crate::text::joined;
use vstd::prelude::*;

verus! {

/// What a successor's preparation works from.
#[derive(Debug)]
pub struct SuccessorTarget {
    pub config: NodeConfig,
    pub mode: HaStartupMode,
    pub target_config_id: u64,
    pub predecessor: HaPredecessor,
    /// What the codecs make of the predecessor's Stop.
    pub reading: StopReading,
}

/// The checkpoint that was found for a successor.
#[derive(Debug)]
pub struct SuccessorCheckpoint {
    pub identity: CheckpointIdentity,
    pub manifest: CheckpointManifest,
}

/// What preparing a successor is waiting for.
#[derive(Debug)]
pub enum SuccessorPhase {
    CheckingBinding,
    /// A finalized prestage is adopted under one permit.
    AdoptingPrestage,
    CheckingInitialization,
    InitializingCheckpoint,
    CheckingRestore { manifest: CheckpointManifest },
    ReadingIdentity { manifest: CheckpointManifest },
    LookingForMarker { checkpoint: SuccessorCheckpoint },
    /// The expected restore receipt is encoded.
    EncodingReceipt { checkpoint: SuccessorCheckpoint, marked: bool },
    ReadingControls { checkpoint: SuccessorCheckpoint, marked: bool },
    CheckingRecorder { identity: CheckpointIdentity, controls: SuccessorRestoreControlState },
    PreflightingRecorder { identity: CheckpointIdentity, controls: SuccessorRestoreControlState },
    RecoveringRecorder { identity: CheckpointIdentity, controls: SuccessorRestoreControlState },
    /// The recorder is made and recovered under one permit.
    InstallingRecorder { identity: CheckpointIdentity, controls: SuccessorRestoreControlState },
    /// The restore's completion receipt is published under one permit.
    CompletingPrestage { identity: CheckpointIdentity },
    WritingMarker { identity: CheckpointIdentity },
    Done(Result<StartupPreparation, HaStartupError>),
}

/// What preparing a successor can see happen.
#[derive(Debug)]
pub enum SuccessorEvent {
    /// Startup's answer whether it was cancelled.
    Checked(Result<(), HaStartupError>),
    PrestageAdopted(Result<(), HaStartupError>),
    CheckpointInitialized(Result<CheckpointManifest, HaStartupError>),
    IdentityRead(Result<CheckpointIdentity, HaStartupError>),
    MarkerFound(Result<bool, HaStartupError>),
    ReceiptEncoded(Result<(), HaStartupError>),
    ControlsRead(Result<SuccessorRestoreControlState, HaStartupError>),
    RecorderPreflighted(Result<LocalRecorderState, String>),
    RecorderRecovered(RecorderRecovery),
    RecorderInstalled(Result<(), HaStartupError>),
    PrestageCompleted(Result<(), HaStartupError>),
    MarkerWritten(Result<(), HaStartupError>),
}

/// What was found of a prestage in the data directory.
#[derive(Debug)]
pub enum PrestageInspection {
    Found,
    /// The directory holds other state: nothing is left to adopt.
    DataDirNotFresh,
    Failed(String),
}

/// Whether a prestage is adopted. A data directory that is no longer a
/// prestage is left alone.
pub fn plan_prestage_adoption(inspection: PrestageInspection) -> (adopt: Result<
    bool,
    HaStartupError,
>)
    ensures
        match inspection {
            PrestageInspection::Found => adopt == Ok::<bool, HaStartupError>(true),
            PrestageInspection::DataDirNotFresh => adopt == Ok::<bool, HaStartupError>(false),
            PrestageInspection::Failed(message) => adopt == Err::<bool, HaStartupError>(
                HaStartupError::Source(message),
            ),
        },
{
    match inspection {
        PrestageInspection::Found => Ok(true),
        PrestageInspection::DataDirNotFresh => Ok(false),
        PrestageInspection::Failed(message) => Err(HaStartupError::Source(message)),
    }
}

/// The checkpoint's base is a snapshot in which the target is active, taken
/// after the predecessor's Stop.
pub open spec fn has_active_target_baseline(
    manifest: CheckpointManifest,
    target_config_id: u64,
    stop_index: u64,
) -> bool {
    manifest.snapshot matches Some(snapshot) && snapshot.active && snapshot.config_id
        == target_config_id && snapshot.compacted_index > stop_index
}

/// `error` says why the archive's checkpoint cannot be that of this successor,
/// if it cannot.
pub open spec fn refuses_checkpoint(
    target: SuccessorTarget,
    manifest: CheckpointManifest,
    marked: bool,
    controls: SuccessorRestoreControlState,
) -> Option<Seq<char>> {
    if controls == SuccessorRestoreControlState::Fresh {
        Some("successor startup requires a finalized local prestage receipt"@)
    } else if manifest.spec_is_empty() {
        None
    } else if target.predecessor.stop.entry.index == u64::MAX {
        Some("successor Activate index cannot advance"@)
    } else if !has_active_target_baseline(
        manifest,
        target.target_config_id,
        target.predecessor.stop.entry.index,
    ) || (controls == SuccessorRestoreControlState::Complete && !marked) {
        Some(
            "non-empty successor checkpoint requires an active target snapshot and exact completed local identity"@,
        )
    } else {
        None
    }
}

/// Accepts the archive's checkpoint for a successor: an empty one, or one that
/// only the activated target can have written.
pub fn validate_successor_checkpoint(
    target: &SuccessorTarget,
    manifest: &CheckpointManifest,
    marked: bool,
    controls: SuccessorRestoreControlState,
) -> (result: Result<(), HaStartupError>)
    ensures
        match refuses_checkpoint(*target, *manifest, marked, controls) {
            Some(message) => result matches Err(error) && error.is_source(message),
            None => result is Ok,
        },
{
    if controls == SuccessorRestoreControlState::Fresh {
        return Err(fail("successor startup requires a finalized local prestage receipt"));
    }
    if !manifest.is_empty() {
        let minimum_activation_index: u64 = match target.predecessor.stop.entry.index.checked_add(
            1,
        ) {
            Some(index) => index,
            None => {
                return Err(fail("successor Activate index cannot advance"));
            },
        };
        let active_target_baseline = match manifest.snapshot {
            Some(snapshot) => snapshot.active && snapshot.config_id == target.target_config_id
                && snapshot.compacted_index >= minimum_activation_index,
            None => false,
        };
        if !active_target_baseline || (controls == SuccessorRestoreControlState::Complete
            && !marked) {
            return Err(
                fail(
                    "non-empty successor checkpoint requires an active target snapshot and exact completed local identity",
                ),
            );
        }
    }
    Ok(())
}

impl SuccessorPhase {
    pub open spec fn fails(next: SuccessorPhase, message: Seq<char>) -> bool {
        next matches SuccessorPhase::Done(Err(error)) && error.is_source(message)
    }

    pub open spec fn refuses(next: SuccessorPhase, error: HaStartupError) -> bool {
        next == SuccessorPhase::Done(Err(error))
    }

    /// What follows once the recorder is in place.
    pub open spec fn recorder_in_place(
        identity: CheckpointIdentity,
        controls: SuccessorRestoreControlState,
        next: SuccessorPhase,
    ) -> bool {
        if controls == SuccessorRestoreControlState::Intent {
            next == (SuccessorPhase::CompletingPrestage { identity })
        } else {
            next == (SuccessorPhase::WritingMarker { identity })
        }
    }

    /// What follows once the recorder is known to be `recorder`.
    pub open spec fn recorder_known(
        identity: CheckpointIdentity,
        controls: SuccessorRestoreControlState,
        recorder: LocalRecorderState,
        next: SuccessorPhase,
    ) -> bool {
        if recorder == LocalRecorderState::Missing {
            next == (SuccessorPhase::InstallingRecorder { identity, controls })
        } else {
            Self::recorder_in_place(identity, controls, next)
        }
    }

    /// What an event does before the recorder is looked at.
    pub open spec fn validates(
        self,
        target: SuccessorTarget,
        event: SuccessorEvent,
        next: SuccessorPhase,
    ) -> bool {
        match (self, event) {
            (SuccessorPhase::CheckingBinding, SuccessorEvent::Checked(result)) => match result {
                Ok(_) => if target.mode != HaStartupMode::Rejoin {
                    Self::fails(next, "successor startup requires rejoin mode"@)
                } else if crate::binding::binds_exactly(
                    target.config,
                    target.target_config_id,
                    target.predecessor,
                    target.reading,
                ) {
                    next is AdoptingPrestage
                } else {
                    next matches SuccessorPhase::Done(Err(error))
                        && crate::binding::is_binding_error(
                        target.config,
                        target.target_config_id,
                        target.predecessor,
                        target.reading,
                        error,
                    )
                },
                Err(error) => Self::refuses(next, error),
            },
            (SuccessorPhase::AdoptingPrestage, SuccessorEvent::PrestageAdopted(result)) => {
                match result {
                    Ok(_) => next is CheckingInitialization,
                    Err(error) => Self::refuses(next, error),
                }
            },
            (SuccessorPhase::CheckingInitialization, SuccessorEvent::Checked(result)) => {
                match result {
                    Ok(_) => next is InitializingCheckpoint,
                    Err(error) => Self::refuses(next, error),
                }
            },
            (
                SuccessorPhase::InitializingCheckpoint,
                SuccessorEvent::CheckpointInitialized(result),
            ) => match result {
                Ok(manifest) => next == (SuccessorPhase::CheckingRestore { manifest }),
                Err(error) => Self::refuses(next, error),
            },
            (SuccessorPhase::CheckingRestore { manifest }, SuccessorEvent::Checked(result)) => {
                match result {
                    Ok(_) => next == (SuccessorPhase::ReadingIdentity { manifest }),
                    Err(error) => Self::refuses(next, error),
                }
            },
            (SuccessorPhase::ReadingIdentity { manifest }, SuccessorEvent::IdentityRead(result)) => {
                match result {
                    Ok(identity) => next == (SuccessorPhase::LookingForMarker {
                        checkpoint: SuccessorCheckpoint { identity, manifest },
                    }),
                    Err(error) => Self::refuses(next, error),
                }
            },
            (
                SuccessorPhase::LookingForMarker { checkpoint },
                SuccessorEvent::MarkerFound(result),
            ) => match result {
                Ok(marked) => next == (SuccessorPhase::EncodingReceipt { checkpoint, marked }),
                Err(error) => Self::refuses(next, error),
            },
            (
                SuccessorPhase::EncodingReceipt { checkpoint, marked },
                SuccessorEvent::ReceiptEncoded(result),
            ) => match result {
                Ok(_) => next == (SuccessorPhase::ReadingControls { checkpoint, marked }),
                Err(error) => Self::refuses(next, error),
            },
            (
                SuccessorPhase::ReadingControls { checkpoint, marked },
                SuccessorEvent::ControlsRead(result),
            ) => match result {
                Ok(controls) => match refuses_checkpoint(
                    target,
                    checkpoint.manifest,
                    marked,
                    controls,
                ) {
                    Some(message) => Self::fails(next, message),
                    None => next == (SuccessorPhase::CheckingRecorder {
                        identity: checkpoint.identity,
                        controls,
                    }),
                },
                Err(error) => Self::refuses(next, error),
            },
            _ => next == self,
        }
    }

    /// What an event does from the recorder on.
    pub open spec fn installs(self, event: SuccessorEvent, next: SuccessorPhase) -> bool {
        match (self, event) {
            (
                SuccessorPhase::CheckingRecorder { identity, controls },
                SuccessorEvent::Checked(result),
            ) => match result {
                Ok(_) => next == (SuccessorPhase::PreflightingRecorder { identity, controls }),
                Err(error) => Self::refuses(next, error),
            },
            (
                SuccessorPhase::PreflightingRecorder { identity, controls },
                SuccessorEvent::RecorderPreflighted(preflight),
            ) => match preflight {
                Ok(LocalRecorderState::Recoverable) => next == (
                SuccessorPhase::RecoveringRecorder { identity, controls }),
                Ok(recorder) => Self::recorder_known(identity, controls, recorder, next),
                Err(message) => Self::fails(
                    next,
                    "local recorder is not trustworthy: "@ + message@,
                ),
            },
            (
                SuccessorPhase::RecoveringRecorder { identity, controls },
                SuccessorEvent::RecorderRecovered(recovery),
            ) => exists|result: Result<LocalRecorderState, HaStartupError>| #[trigger]
                crate::prepare::recovery_verdict(recovery, result) && match result {
                    Ok(recorder) => Self::recorder_known(identity, controls, recorder, next),
                    Err(error) => Self::refuses(next, error),
                },
            (
                SuccessorPhase::InstallingRecorder { identity, controls },
                SuccessorEvent::RecorderInstalled(result),
            ) => match result {
                Ok(_) => Self::recorder_in_place(identity, controls, next),
                Err(error) => Self::refuses(next, error),
            },
            (
                SuccessorPhase::CompletingPrestage { identity },
                SuccessorEvent::PrestageCompleted(result),
            ) => match result {
                Ok(_) => next == (SuccessorPhase::WritingMarker { identity }),
                Err(error) => Self::refuses(next, error),
            },
            (SuccessorPhase::WritingMarker { .. }, SuccessorEvent::MarkerWritten(result)) => {
                match result {
                    Ok(_) => next == SuccessorPhase::Done(
                        Ok(
                            StartupPreparation::RecorderFirst {
                                open_policy: RecorderOpenPolicy::MustExist,
                            },
                        ),
                    ),
                    Err(error) => Self::refuses(next, error),
                }
            },
            _ => next == self,
        }
    }

    /// The recorder is not looked at yet.
    pub open spec fn is_validating(self) -> bool {
        self is CheckingBinding || self is AdoptingPrestage || self is CheckingInitialization
            || self is InitializingCheckpoint || self is CheckingRestore || self is ReadingIdentity
            || self is LookingForMarker || self is EncodingReceipt || self is ReadingControls
    }

    /// `next` is what `event` makes of this phase.
    pub open spec fn steps_to(
        self,
        target: SuccessorTarget,
        event: SuccessorEvent,
        next: SuccessorPhase,
    ) -> bool {
        if self.is_validating() {
            self.validates(target, event, next)
        } else {
            self.installs(event, next)
        }
    }

    /// The stage that startup is asked about, where it is asked.
    pub open spec fn spec_check_stage(self) -> Option<Seq<char>> {
        match self {
            SuccessorPhase::CheckingBinding => Some("successor binding validation"@),
            SuccessorPhase::CheckingInitialization => Some("successor checkpoint initialization"@),
            SuccessorPhase::CheckingRestore { .. } => Some("successor restore inspection"@),
            SuccessorPhase::CheckingRecorder { .. } => Some("recorder preflight and recovery"@),
            _ => None,
        }
    }

    /// The stage that startup is asked about, where it is asked.
    pub fn check_stage(&self) -> (stage: Option<&'static str>)
        ensures
            match self.spec_check_stage() {
                Some(text) => stage matches Some(stage) && stage@ == text,
                None => stage is None,
            },
    {
        match self {
            SuccessorPhase::CheckingBinding => Some("successor binding validation"),
            SuccessorPhase::CheckingInitialization => Some("successor checkpoint initialization"),
            SuccessorPhase::CheckingRestore { .. } => Some("successor restore inspection"),
            SuccessorPhase::CheckingRecorder { .. } => Some("recorder preflight and recovery"),
            _ => None,
        }
    }

    /// What the operator is told when the work of this phase begins, if
    /// anything: of a crashed recorder once its recovery was admitted.
    pub open spec fn spec_report(self) -> Option<Seq<char>> {
        if self is RecoveringRecorder {
            Some(crate::prepare::recovery_report())
        } else {
            None
        }
    }

    /// What the operator is told when the work of this phase begins, if
    /// anything: of a crashed recorder once its recovery was admitted.
    pub fn report(&self) -> (report: Option<String>)
        ensures
            match self.spec_report() {
                Some(text) => report matches Some(report) && report@ == text,
                None => report is None,
            },
    {
        match self {
            SuccessorPhase::RecoveringRecorder { .. } => Some(recorder_recovery_report()),
            _ => None,
        }
    }
}

fn refuse(error: HaStartupError) -> (phase: SuccessorPhase)
    ensures
        SuccessorPhase::refuses(phase, error),
{
    SuccessorPhase::Done(Err(error))
}

fn place_recorder(identity: CheckpointIdentity, controls: SuccessorRestoreControlState) -> (next:
    SuccessorPhase)
    ensures
        SuccessorPhase::recorder_in_place(identity, controls, next),
{
    if controls == SuccessorRestoreControlState::Intent {
        SuccessorPhase::CompletingPrestage { identity }
    } else {
        SuccessorPhase::WritingMarker { identity }
    }
}

fn know_recorder(
    identity: CheckpointIdentity,
    controls: SuccessorRestoreControlState,
    recorder: LocalRecorderState,
) -> (next: SuccessorPhase)
    ensures
        SuccessorPhase::recorder_known(identity, controls, recorder, next),
{
    if recorder == LocalRecorderState::Missing {
        SuccessorPhase::InstallingRecorder { identity, controls }
    } else {
        place_recorder(identity, controls)
    }
}

fn bind(target: &SuccessorTarget) -> (next: SuccessorPhase)
    ensures
        SuccessorPhase::CheckingBinding.validates(
            *target,
            SuccessorEvent::Checked(Ok(())),
            next,
        ),
{
    if target.mode != HaStartupMode::Rejoin {
        return SuccessorPhase::Done(Err(fail("successor startup requires rejoin mode")));
    }
    match validate_predecessor_binding(
        &target.config,
        target.target_config_id,
        &target.predecessor,
        &target.reading,
    ) {
        Ok(()) => SuccessorPhase::AdoptingPrestage,
        Err(error) => refuse(error),
    }
}

fn validate(target: &SuccessorTarget, phase: SuccessorPhase, event: SuccessorEvent) -> (next:
    SuccessorPhase)
    ensures
        phase.validates(*target, event, next),
{
    match (phase, event) {
        (SuccessorPhase::CheckingBinding, SuccessorEvent::Checked(result)) => match result {
            Ok(()) => bind(target),
            Err(error) => refuse(error),
        },
        (SuccessorPhase::AdoptingPrestage, SuccessorEvent::PrestageAdopted(result)) => {
            match result {
                Ok(()) => SuccessorPhase::CheckingInitialization,
                Err(error) => refuse(error),
            }
        },
        (SuccessorPhase::CheckingInitialization, SuccessorEvent::Checked(result)) => match result {
            Ok(()) => SuccessorPhase::InitializingCheckpoint,
            Err(error) => refuse(error),
        },
        (SuccessorPhase::InitializingCheckpoint, SuccessorEvent::CheckpointInitialized(result)) => {
            match result {
                Ok(manifest) => SuccessorPhase::CheckingRestore { manifest },
                Err(error) => refuse(error),
            }
        },
        (SuccessorPhase::CheckingRestore { manifest }, SuccessorEvent::Checked(result)) => {
            match result {
                Ok(()) => SuccessorPhase::ReadingIdentity { manifest },
                Err(error) => refuse(error),
            }
        },
        (SuccessorPhase::ReadingIdentity { manifest }, SuccessorEvent::IdentityRead(result)) => {
            match result {
                Ok(identity) => SuccessorPhase::LookingForMarker {
                    checkpoint: SuccessorCheckpoint { identity, manifest },
                },
                Err(error) => refuse(error),
            }
        },
        (SuccessorPhase::LookingForMarker { checkpoint }, SuccessorEvent::MarkerFound(result)) => {
            match result {
                Ok(marked) => SuccessorPhase::EncodingReceipt { checkpoint, marked },
                Err(error) => refuse(error),
            }
        },
        (
            SuccessorPhase::EncodingReceipt { checkpoint, marked },
            SuccessorEvent::ReceiptEncoded(result),
        ) => match result {
            Ok(()) => SuccessorPhase::ReadingControls { checkpoint, marked },
            Err(error) => refuse(error),
        },
        (
            SuccessorPhase::ReadingControls { checkpoint, marked },
            SuccessorEvent::ControlsRead(result),
        ) => match result {
            Ok(controls) => match validate_successor_checkpoint(
                target,
                &checkpoint.manifest,
                marked,
                controls,
            ) {
                Ok(()) => SuccessorPhase::CheckingRecorder {
                    identity: checkpoint.identity,
                    controls,
                },
                Err(error) => refuse(error),
            },
            Err(error) => refuse(error),
        },
        (phase, _) => phase,
    }
}

fn install(phase: SuccessorPhase, event: SuccessorEvent) -> (next: SuccessorPhase)
    ensures
        phase.installs(event, next),
{
    match (phase, event) {
        (
            SuccessorPhase::CheckingRecorder { identity, controls },
            SuccessorEvent::Checked(result),
        ) => match result {
            Ok(()) => SuccessorPhase::PreflightingRecorder { identity, controls },
            Err(error) => refuse(error),
        },
        (
            SuccessorPhase::PreflightingRecorder { identity, controls },
            SuccessorEvent::RecorderPreflighted(preflight),
        ) => match preflight_local_recorder(preflight) {
            Ok(LocalRecorderState::Recoverable) => SuccessorPhase::RecoveringRecorder {
                identity,
                controls,
            },
            Ok(recorder) => know_recorder(identity, controls, recorder),
            Err(error) => refuse(error),
        },
        (
            SuccessorPhase::RecoveringRecorder { identity, controls },
            SuccessorEvent::RecorderRecovered(recovery),
        ) => {
            let result = recover_local_recorder_before_view_recovery(recovery);
            assert(crate::prepare::recovery_verdict(recovery, result));
            match result {
                Ok(recorder) => know_recorder(identity, controls, recorder),
                Err(error) => refuse(error),
            }
        },
        (
            SuccessorPhase::InstallingRecorder { identity, controls },
            SuccessorEvent::RecorderInstalled(result),
        ) => match result {
            Ok(()) => place_recorder(identity, controls),
            Err(error) => refuse(error),
        },
        (
            SuccessorPhase::CompletingPrestage { identity },
            SuccessorEvent::PrestageCompleted(result),
        ) => match result {
            Ok(()) => SuccessorPhase::WritingMarker { identity },
            Err(error) => refuse(error),
        },
        (SuccessorPhase::WritingMarker { .. }, SuccessorEvent::MarkerWritten(result)) => {
            match result {
                Ok(()) => SuccessorPhase::Done(
                    Ok(
                        StartupPreparation::RecorderFirst {
                            open_policy: RecorderOpenPolicy::MustExist,
                        },
                    ),
                ),
                Err(error) => refuse(error),
            }
        },
        (phase, _) => phase,
    }
}

/// Advances the preparation of a successor by one event. An event that it
/// does not wait for leaves it as it is.
pub fn prepare_successor(target: &SuccessorTarget, phase: SuccessorPhase, event: SuccessorEvent) -> (next:
    SuccessorPhase)
    ensures
        phase.steps_to(*target, event, next),
{
    match phase {
        SuccessorPhase::CheckingRecorder { .. }
        | SuccessorPhase::PreflightingRecorder { .. }
        | SuccessorPhase::RecoveringRecorder { .. }
        | SuccessorPhase::InstallingRecorder { .. }
        | SuccessorPhase::CompletingPrestage { .. }
        | SuccessorPhase::WritingMarker { .. }
        | SuccessorPhase::Done(_) => install(phase, event),
        _ => validate(target, phase, event),
    }
}

/// What opening a prepared recorder is waiting for. All of it happens under
/// one permit.
#[derive(Debug)]
pub enum RecorderOpenPhase {
    Admission { policy: RecorderOpenPolicy },
    OpeningExisting,
    Preflighting,
    Creating,
    Done(Result<(), HaStartupError>),
}

/// What opening a prepared recorder can see happen.
#[derive(Debug)]
pub enum RecorderOpenEvent {
    /// Local I/O was admitted, or startup was cancelled.
    Admitted(Result<(), HaStartupError>),
    Preflighted(Result<LocalRecorderState, String>),
    /// The recorder was opened or created.
    Opened(Result<(), String>),
}

impl RecorderOpenPhase {
    pub open spec fn fails(next: RecorderOpenPhase, message: Seq<char>) -> bool {
        next matches RecorderOpenPhase::Done(Err(error)) && error.is_source(message)
    }

    /// `next` is what `event` makes of this phase.
    pub open spec fn steps_to(self, event: RecorderOpenEvent, next: RecorderOpenPhase) -> bool {
        match (self, event) {
            (RecorderOpenPhase::Admission { policy }, RecorderOpenEvent::Admitted(result)) => {
                match result {
                    Ok(_) => match policy {
                        RecorderOpenPolicy::MustExist => next is OpeningExisting,
                        RecorderOpenPolicy::CreateAfterRehydration => next is Preflighting,
                    },
                    Err(error) => next == RecorderOpenPhase::Done(Err(error)),
                }
            },
            (RecorderOpenPhase::OpeningExisting, RecorderOpenEvent::Opened(result)) => {
                match result {
                    Ok(_) => next matches RecorderOpenPhase::Done(Ok(_)),
                    Err(message) => Self::fails(
                        next,
                        "required local recorder disappeared after startup preparation: "@
                            + message@,
                    ),
                }
            },
            (RecorderOpenPhase::Preflighting, RecorderOpenEvent::Preflighted(preflight)) => {
                match preflight {
                    Ok(LocalRecorderState::Missing) => next is Creating,
                    Ok(_) => Self::fails(
                        next,
                        "local recorder appeared after startup preparation; refusing to replace it"@,
                    ),
                    Err(message) => Self::fails(
                        next,
                        "local recorder is not trustworthy: "@ + message@,
                    ),
                }
            },
            (RecorderOpenPhase::Creating, RecorderOpenEvent::Opened(result)) => match result {
                Ok(_) => next matches RecorderOpenPhase::Done(Ok(_)),
                Err(message) => Self::fails(next, message@),
            },
            _ => next == self,
        }
    }
}

/// Advances the opening of a prepared recorder by one event. A recorder that
/// must exist is never created, and one that must not exist is never replaced.
/// An event that it does not wait for leaves it as it is.
pub fn open_recorder_for_preparation(phase: RecorderOpenPhase, event: RecorderOpenEvent) -> (next:
    RecorderOpenPhase)
    ensures
        phase.steps_to(event, next),
{
    match (phase, event) {
        (RecorderOpenPhase::Admission { policy }, RecorderOpenEvent::Admitted(result)) => {
            match result {
                Ok(()) => match policy {
                    RecorderOpenPolicy::MustExist => RecorderOpenPhase::OpeningExisting,
                    RecorderOpenPolicy::CreateAfterRehydration => RecorderOpenPhase::Preflighting,
                },
                Err(error) => RecorderOpenPhase::Done(Err(error)),
            }
        },
        (RecorderOpenPhase::OpeningExisting, RecorderOpenEvent::Opened(result)) => match result {
            Ok(()) => RecorderOpenPhase::Done(Ok(())),
            Err(message) => RecorderOpenPhase::Done(
                Err(
                    HaStartupError::Source(
                        joined(
                            "required local recorder disappeared after startup preparation: ",
                            message.as_str(),
                        ),
                    ),
                ),
            ),
        },
        (RecorderOpenPhase::Preflighting, RecorderOpenEvent::Preflighted(preflight)) => {
            match preflight_local_recorder(preflight) {
                Ok(LocalRecorderState::Missing) => RecorderOpenPhase::Creating,
                Ok(_) => RecorderOpenPhase::Done(
                    Err(
                        fail(
                            "local recorder appeared after startup preparation; refusing to replace it",
                        ),
                    ),
                ),
                Err(error) => RecorderOpenPhase::Done(Err(error)),
            }
        },
        (RecorderOpenPhase::Creating, RecorderOpenEvent::Opened(result)) => match result {
            Ok(()) => RecorderOpenPhase::Done(Ok(())),
            Err(message) => RecorderOpenPhase::Done(Err(fail(message.as_str()))),
        },
        (phase, _) => phase,
    }
}

/// How a successor's recorder is opened.
#[derive(Clone, Copy, Debug, PartialEq, Eq, Structural)]
pub enum RecorderAction {
    Create,
    OpenExisting,
}

/// A successor creates its recorder where none is, and opens the one that is
/// there.
pub fn open_recorder_after_preflight_under_startup_permit(
    preflight: Result<LocalRecorderState, String>,
) -> (action: Result<RecorderAction, HaStartupError>)
    ensures
        match preflight {
            Ok(LocalRecorderState::Missing) => action == Ok::<RecorderAction, HaStartupError>(
                RecorderAction::Create,
            ),
            Ok(_) => action == Ok::<RecorderAction, HaStartupError>(RecorderAction::OpenExisting),
            Err(message) => action matches Err(error) && error.is_source(
                "local recorder is not trustworthy: "@ + message@,
            ),
        },
{
    match preflight_local_recorder(preflight) {
        Ok(LocalRecorderState::Missing) => Ok(RecorderAction::Create),
        Ok(_) => Ok(RecorderAction::OpenExisting),
        Err(error) => Err(error),
    }
}

/// How many checkpoints one process fetches at a time. One that was fetched
/// can be as large as the archive allows.
pub const HA_CHECKPOINT_PREPARE_CONCURRENCY: usize = 2;

/// What waiting for a slot to fetch a checkpoint stands at.
#[derive(Debug)]
pub enum PreparePermitPhase {
    Checking,
    /// A cancellation is looked at before a free slot.
    Waiting,
    Confirming,
    Done(Result<(), HaStartupError>),
}

/// What waiting for a slot can see happen.
#[derive(Debug)]
pub enum PreparePermitEvent {
    Checked(Result<(), HaStartupError>),
    Cancelled(HaStartupError),
    /// A slot is free, or there will never be one again.
    Acquired { open: bool },
}

impl PreparePermitPhase {
    /// `next` is what `event` makes of this phase.
    pub open spec fn steps_to(self, event: PreparePermitEvent, next: PreparePermitPhase) -> bool {
        match (self, event) {
            (PreparePermitPhase::Checking, PreparePermitEvent::Checked(result)) => match result {
                Ok(_) => next is Waiting,
                Err(error) => next == PreparePermitPhase::Done(Err(error)),
            },
            (PreparePermitPhase::Waiting, PreparePermitEvent::Cancelled(error)) => next
                == PreparePermitPhase::Done(Err(error)),
            (PreparePermitPhase::Waiting, PreparePermitEvent::Acquired { open }) => if open {
                next is Confirming
            } else {
                next matches PreparePermitPhase::Done(Err(error)) && error.is_source(
                    "checkpoint remote prepare admission closed"@,
                )
            },
            (PreparePermitPhase::Confirming, PreparePermitEvent::Checked(result)) => next
                == PreparePermitPhase::Done(result),
            _ => next == self,
        }
    }
}

/// Advances the wait for a slot to fetch a checkpoint by one event. Startup is
/// asked once more after the slot was given. An event that it does not wait
/// for leaves it as it is.
pub fn acquire_checkpoint_prepare_permit(phase: PreparePermitPhase, event: PreparePermitEvent) -> (next:
    PreparePermitPhase)
    ensures
        phase.steps_to(event, next),
{
    match (phase, event) {
        (PreparePermitPhase::Checking, PreparePermitEvent::Checked(result)) => match result {
            Ok(()) => PreparePermitPhase::Waiting,
            Err(error) => PreparePermitPhase::Done(Err(error)),
        },
        (PreparePermitPhase::Waiting, PreparePermitEvent::Cancelled(error)) => {
            PreparePermitPhase::Done(Err(error))
        },
        (PreparePermitPhase::Waiting, PreparePermitEvent::Acquired { open }) => if open {
            PreparePermitPhase::Confirming
        } else {
            PreparePermitPhase::Done(Err(fail("checkpoint remote prepare admission closed")))
        },
        (PreparePermitPhase::Confirming, PreparePermitEvent::Checked(result)) => {
            PreparePermitPhase::Done(result)
        },
        (phase, _) => phase,
    }
}

/// A run of a successor's preparation: `phases[i + 1]` is what `events[i]`
/// makes of `phases[i]`.
pub open spec fn is_successor_preparation(
    target: SuccessorTarget,
    phases: Seq<SuccessorPhase>,
    events: Seq<SuccessorEvent>,
) -> bool {
    &&& phases.len() == events.len() + 1
    &&& phases[0] is CheckingBinding
    &&& forall|i: int|
        0 <= i < events.len() ==> (#[trigger] phases[i]).steps_to(target, events[i], phases[i + 1])
}

/// What the preparation of a successor has made sure of by the time it is in
/// `phase`.
pub open spec fn successor_evidence(target: SuccessorTarget, phase: SuccessorPhase) -> bool {
    let admitted = target.mode == HaStartupMode::Rejoin && crate::binding::binds_exactly(
        target.config,
        target.target_config_id,
        target.predecessor,
        target.reading,
    );
    match phase {
        SuccessorPhase::CheckingBinding => true,
        SuccessorPhase::Done(Err(_)) => true,
        SuccessorPhase::Done(Ok(preparation)) => admitted && preparation == (
        StartupPreparation::RecorderFirst { open_policy: RecorderOpenPolicy::MustExist }),
        SuccessorPhase::CheckingRecorder { controls, .. } => admitted && controls
            != SuccessorRestoreControlState::Fresh,
        SuccessorPhase::PreflightingRecorder { controls, .. } => admitted && controls
            != SuccessorRestoreControlState::Fresh,
        SuccessorPhase::RecoveringRecorder { controls, .. } => admitted && controls
            != SuccessorRestoreControlState::Fresh,
        SuccessorPhase::InstallingRecorder { controls, .. } => admitted && controls
            != SuccessorRestoreControlState::Fresh,
        _ => admitted,
    }
}

/// Nothing local is touched for a successor before its exact binding was
/// accepted in rejoin mode, its recorder is never looked at without a
/// finalized prestage, and where it succeeds its recorder must exist.
pub proof fn law_successor_prepares_only_its_exact_binding(
    target: SuccessorTarget,
    phases: Seq<SuccessorPhase>,
    events: Seq<SuccessorEvent>,
)
    requires
        is_successor_preparation(target, phases, events),
    ensures
        successor_evidence(target, phases.last()),
    decreases events.len(),
{
    if events.len() > 0 {
        let n = events.len() - 1;
        let before = phases.drop_last();
        let old_events = events.drop_last();
        assert forall|i: int| 0 <= i < n implies (#[trigger] before[i]).steps_to(
            target,
            old_events[i],
            before[i + 1],
        ) by {
            assert(phases[i].steps_to(target, events[i], phases[i + 1]));
        }
        law_successor_prepares_only_its_exact_binding(target, before, old_events);
        assert(before.last() == phases[n]);
        assert(phases[n].steps_to(target, events[n], phases[n + 1]));
    }
}

/// Preparation promises that a recorder is there exactly where it must exist:
/// a recorder is created only after a preflight that found none.
pub proof fn law_recorder_is_created_only_where_none_is(
    phase: RecorderOpenPhase,
    event: RecorderOpenEvent,
    next: RecorderOpenPhase,
)
    requires
        phase.steps_to(event, next),
    ensures
        next is Creating && !(phase is Creating) ==> phase is Preflighting && event
            == RecorderOpenEvent::Preflighted(Ok(LocalRecorderState::Missing)),
        next is Preflighting && !(phase is Preflighting) ==> phase == (
        RecorderOpenPhase::Admission { policy: RecorderOpenPolicy::CreateAfterRehydration }),
        next is OpeningExisting && !(phase is OpeningExisting) ==> phase == (
        RecorderOpenPhase::Admission { policy: RecorderOpenPolicy::MustExist }),
{
}

/// The archive's checkpoint is refused for a successor without a finalized
/// stage, whatever it holds. An empty one is taken otherwise. One that is not
/// is taken exactly where its base is a snapshot of the active target from
/// after the predecessor's Stop, and where a completed restore also left the
/// exact marker.
pub proof fn law_a_successor_takes_only_a_checkpoint_of_its_own(
    target: SuccessorTarget,
    manifest: CheckpointManifest,
    marked: bool,
    controls: SuccessorRestoreControlState,
    result: Result<(), HaStartupError>,
)
    requires
        call_ensures(validate_successor_checkpoint, (&target, &manifest, marked, controls), result),
    ensures
        ({
            let empty = manifest.tip.index == 0 && manifest.segments_empty;
            let stop = target.predecessor.stop.entry.index;
            let own = manifest.snapshot is Some && manifest.snapshot->0.active
                && manifest.snapshot->0.config_id == target.target_config_id
                && manifest.snapshot->0.compacted_index > stop;
            &&& controls == SuccessorRestoreControlState::Fresh ==> (result matches Err(error)
                && error.is_source(
                "successor startup requires a finalized local prestage receipt"@,
            ))
            &&& controls != SuccessorRestoreControlState::Fresh && empty ==> result is Ok
            &&& controls != SuccessorRestoreControlState::Fresh && !empty && stop == u64::MAX ==> (
            result matches Err(error) && error.is_source(
                "successor Activate index cannot advance"@,
            ))
            &&& controls != SuccessorRestoreControlState::Fresh && !empty && stop < u64::MAX ==> {
                &&& result is Ok <==> own && (controls == SuccessorRestoreControlState::Complete
                    ==> marked)
                &&& result matches Err(error) ==> error.is_source(
                    "non-empty successor checkpoint requires an active target snapshot and exact completed local identity"@,
                )
            }
        }),
{
}

/// A stage is adopted exactly where one was found; a directory that holds other
/// state is left alone, and a failure to look is passed on.
pub proof fn law_only_a_stage_that_was_found_is_adopted(
    inspection: PrestageInspection,
    adopt: Result<bool, HaStartupError>,
)
    requires
        call_ensures(plan_prestage_adoption, (inspection,), adopt),
    ensures
        adopt == Ok::<bool, HaStartupError>(true) <==> inspection is Found,
        adopt == Ok::<bool, HaStartupError>(false) <==> inspection is DataDirNotFresh,
        inspection matches PrestageInspection::Failed(message) ==> adopt == Err::<
            bool,
            HaStartupError,
        >(HaStartupError::Source(message)),
{
}

/// The preparation waits for this event.
pub open spec fn successor_waits_for(phase: SuccessorPhase, event: SuccessorEvent) -> bool {
    match phase {
        SuccessorPhase::CheckingBinding
        | SuccessorPhase::CheckingInitialization
        | SuccessorPhase::CheckingRestore { .. }
        | SuccessorPhase::CheckingRecorder { .. } => event is Checked,
        SuccessorPhase::AdoptingPrestage => event is PrestageAdopted,
        SuccessorPhase::InitializingCheckpoint => event is CheckpointInitialized,
        SuccessorPhase::ReadingIdentity { .. } => event is IdentityRead,
        SuccessorPhase::LookingForMarker { .. } => event is MarkerFound,
        SuccessorPhase::EncodingReceipt { .. } => event is ReceiptEncoded,
        SuccessorPhase::ReadingControls { .. } => event is ControlsRead,
        SuccessorPhase::PreflightingRecorder { .. } => event is RecorderPreflighted,
        SuccessorPhase::RecoveringRecorder { .. } => event is RecorderRecovered,
        SuccessorPhase::InstallingRecorder { .. } => event is RecorderInstalled,
        SuccessorPhase::CompletingPrestage { .. } => event is PrestageCompleted,
        SuccessorPhase::WritingMarker { .. } => event is MarkerWritten,
        SuccessorPhase::Done(_) => false,
    }
}

/// The failure that the event brings, if it brings one of startup.
pub open spec fn successor_failure(event: SuccessorEvent) -> Option<HaStartupError> {
    match event {
        SuccessorEvent::Checked(Err(error)) => Some(error),
        SuccessorEvent::PrestageAdopted(Err(error)) => Some(error),
        SuccessorEvent::CheckpointInitialized(Err(error)) => Some(error),
        SuccessorEvent::IdentityRead(Err(error)) => Some(error),
        SuccessorEvent::MarkerFound(Err(error)) => Some(error),
        SuccessorEvent::ReceiptEncoded(Err(error)) => Some(error),
        SuccessorEvent::ControlsRead(Err(error)) => Some(error),
        SuccessorEvent::RecorderRecovered(RecorderRecovery::NotAdmitted(error)) => Some(error),
        SuccessorEvent::RecorderInstalled(Err(error)) => Some(error),
        SuccessorEvent::PrestageCompleted(Err(error)) => Some(error),
        SuccessorEvent::MarkerWritten(Err(error)) => Some(error),
        _ => None,
    }
}

/// Every failure of what a successor's preparation waits for ends it with that
/// very failure, and what it does not wait for changes nothing.
pub proof fn law_a_successor_fails_as_it_was_told(
    target: SuccessorTarget,
    phase: SuccessorPhase,
    event: SuccessorEvent,
    next: SuccessorPhase,
)
    requires
        phase.steps_to(target, event, next),
    ensures
        !successor_waits_for(phase, event) ==> next == phase,
        successor_waits_for(phase, event) ==> (successor_failure(event) matches Some(error) ==> next
            == SuccessorPhase::Done(Err(error))),
        phase is PreflightingRecorder ==> (event matches SuccessorEvent::RecorderPreflighted(
            Err(message),
        ) ==> (next matches SuccessorPhase::Done(Err(error)) && error.is_source(
            "local recorder is not trustworthy: "@ + message@,
        ))),
        phase is RecoveringRecorder ==> (event matches SuccessorEvent::RecorderRecovered(recovery)
            ==> match recovery {
            RecorderRecovery::NotAdmitted(_) => true,
            RecorderRecovery::OpenFailed(message) => next matches SuccessorPhase::Done(Err(error))
                && error.is_source("local recorder crash recovery failed: "@ + message@),
            RecorderRecovery::Inspected(Err(message)) => next matches SuccessorPhase::Done(
                Err(error),
            ) && error.is_source("local recorder is not trustworthy: "@ + message@),
            RecorderRecovery::Inspected(Ok(LocalRecorderState::Valid)) => true,
            RecorderRecovery::Inspected(Ok(LocalRecorderState::Missing)) => next matches
                SuccessorPhase::Done(Err(error)) && error.is_source(
                "local recorder crash recovery did not produce a valid recorder: "@ + "Missing"@,
            ),
            RecorderRecovery::Inspected(Ok(LocalRecorderState::Recoverable)) => next matches
                SuccessorPhase::Done(Err(error)) && error.is_source(
                "local recorder crash recovery did not produce a valid recorder: "@
                    + "Recoverable"@,
            ),
        }),
        phase.spec_check_stage() == match phase {
            SuccessorPhase::CheckingBinding => Some("successor binding validation"@),
            SuccessorPhase::CheckingInitialization => Some("successor checkpoint initialization"@),
            SuccessorPhase::CheckingRestore { .. } => Some("successor restore inspection"@),
            SuccessorPhase::CheckingRecorder { .. } => Some("recorder preflight and recovery"@),
            _ => None,
        },
{
    if let SuccessorEvent::RecorderRecovered(RecorderRecovery::NotAdmitted(error)) = event {
        assert(forall|result: Result<LocalRecorderState, HaStartupError>|
            crate::prepare::recovery_verdict(RecorderRecovery::NotAdmitted(error), result)
                ==> result == Err::<LocalRecorderState, HaStartupError>(error));
    }
}

/// How the preparation of a successor that meets no failure goes on, up to its
/// recorder: it needs rejoin mode first and then its exact binding, adopts its
/// stage, initializes its checkpoint, and reads who and what it is of. Nothing
/// that was read on the way is lost.
pub proof fn law_a_successor_is_prepared_step_by_step(
    target: SuccessorTarget,
    phase: SuccessorPhase,
    event: SuccessorEvent,
    next: SuccessorPhase,
)
    requires
        phase.steps_to(target, event, next),
    ensures
        phase is CheckingBinding ==> (event matches SuccessorEvent::Checked(Ok(_))
            ==> if target.mode != HaStartupMode::Rejoin {
            next matches SuccessorPhase::Done(Err(error)) && error.is_source(
                "successor startup requires rejoin mode"@,
            )
        } else {
            (next is AdoptingPrestage <==> crate::binding::binds_exactly(
                target.config,
                target.target_config_id,
                target.predecessor,
                target.reading,
            )) && (next is AdoptingPrestage || (next matches SuccessorPhase::Done(result) && result
                is Err))
        }),
        phase is AdoptingPrestage ==> (event matches SuccessorEvent::PrestageAdopted(Ok(_)) ==> next
            is CheckingInitialization),
        phase is CheckingInitialization ==> (event matches SuccessorEvent::Checked(Ok(_)) ==> next
            is InitializingCheckpoint),
        phase is InitializingCheckpoint ==> (event matches SuccessorEvent::CheckpointInitialized(
            Ok(found),
        ) ==> (next matches SuccessorPhase::CheckingRestore { manifest } && manifest == found)),
        phase matches SuccessorPhase::CheckingRestore { manifest } ==> (event matches
            SuccessorEvent::Checked(Ok(_)) ==> next == (SuccessorPhase::ReadingIdentity {
            manifest,
        })),
        phase matches SuccessorPhase::ReadingIdentity { manifest } ==> (event matches
            SuccessorEvent::IdentityRead(Ok(identity)) ==> (next matches
            SuccessorPhase::LookingForMarker { checkpoint } && checkpoint.identity == identity
            && checkpoint.manifest == manifest)),
        phase matches SuccessorPhase::LookingForMarker { checkpoint } ==> (event matches
            SuccessorEvent::MarkerFound(Ok(found)) ==> next == (SuccessorPhase::EncodingReceipt {
            checkpoint,
            marked: found,
        })),
        phase matches SuccessorPhase::EncodingReceipt { checkpoint, marked } ==> (event matches
            SuccessorEvent::ReceiptEncoded(Ok(_)) ==> next == (SuccessorPhase::ReadingControls {
            checkpoint,
            marked,
        })),
        phase matches SuccessorPhase::ReadingControls { checkpoint, marked } ==> (event matches
            SuccessorEvent::ControlsRead(Ok(controls)) ==> match next {
            SuccessorPhase::CheckingRecorder { identity, controls: kept } => identity
                == checkpoint.identity && kept == controls && controls
                != SuccessorRestoreControlState::Fresh,
            SuccessorPhase::Done(result) => result is Err,
            _ => false,
        }),
{
}

/// The recorder of a successor: one that is missing is installed, a crashed one
/// recovered, and a valid one taken as it is. Once it is in place, a restore
/// that was only intended is completed, and one that was completed is not
/// again; then the marker is written, and the recorder must exist from then on.
pub proof fn law_a_successor_ends_with_a_recorder_and_a_marker(
    target: SuccessorTarget,
    phase: SuccessorPhase,
    event: SuccessorEvent,
    next: SuccessorPhase,
)
    requires
        phase.steps_to(target, event, next),
    ensures
        phase matches SuccessorPhase::CheckingRecorder { identity, controls } ==> (event matches
            SuccessorEvent::Checked(Ok(_)) ==> next == (SuccessorPhase::PreflightingRecorder {
            identity,
            controls,
        })),
        phase matches SuccessorPhase::PreflightingRecorder { identity, controls } ==> (event matches
            SuccessorEvent::RecorderPreflighted(Ok(recorder)) ==> match recorder {
            LocalRecorderState::Missing => next == (SuccessorPhase::InstallingRecorder {
                identity,
                controls,
            }),
            LocalRecorderState::Recoverable => next == (SuccessorPhase::RecoveringRecorder {
                identity,
                controls,
            }),
            LocalRecorderState::Valid => if controls == SuccessorRestoreControlState::Intent {
                next == (SuccessorPhase::CompletingPrestage { identity })
            } else {
                next == (SuccessorPhase::WritingMarker { identity })
            },
        }),
        phase matches SuccessorPhase::RecoveringRecorder { identity, controls } ==> (event matches
            SuccessorEvent::RecorderRecovered(
            RecorderRecovery::Inspected(Ok(LocalRecorderState::Valid)),
        ) ==> if controls == SuccessorRestoreControlState::Intent {
            next == (SuccessorPhase::CompletingPrestage { identity })
        } else {
            next == (SuccessorPhase::WritingMarker { identity })
        }),
        phase matches SuccessorPhase::InstallingRecorder { identity, controls } ==> (event matches
            SuccessorEvent::RecorderInstalled(Ok(_)) ==> if controls
            == SuccessorRestoreControlState::Intent {
            next == (SuccessorPhase::CompletingPrestage { identity })
        } else {
            next == (SuccessorPhase::WritingMarker { identity })
        }),
        phase matches SuccessorPhase::CompletingPrestage { identity } ==> (event matches
            SuccessorEvent::PrestageCompleted(Ok(_)) ==> next == (SuccessorPhase::WritingMarker {
            identity,
        })),
        phase is WritingMarker ==> (event matches SuccessorEvent::MarkerWritten(Ok(_)) ==> next
            == SuccessorPhase::Done(
            Ok(StartupPreparation::RecorderFirst { open_policy: RecorderOpenPolicy::MustExist }),
        )),
{
    if let SuccessorEvent::RecorderRecovered(recovery) = event {
        assert(recovery == RecorderRecovery::Inspected(Ok(LocalRecorderState::Valid)) ==> forall|
            result: Result<LocalRecorderState, HaStartupError>,
        |
            crate::prepare::recovery_verdict(recovery, result) ==> result == Ok::<
                LocalRecorderState,
                HaStartupError,
            >(LocalRecorderState::Valid));
    }
}

/// A prepared recorder is opened as its policy says once local I/O was
/// admitted. One that must exist is opened as it is. One that must not exist is
/// looked for first, and is created only where none was found.
pub proof fn law_a_prepared_recorder_is_opened_as_its_policy_says(
    phase: RecorderOpenPhase,
    event: RecorderOpenEvent,
    next: RecorderOpenPhase,
)
    requires
        call_ensures(open_recorder_for_preparation, (phase, event), next),
    ensures
        phase == (RecorderOpenPhase::Admission { policy: RecorderOpenPolicy::MustExist }) && (
        event matches RecorderOpenEvent::Admitted(Ok(_))) ==> next is OpeningExisting,
        phase == (RecorderOpenPhase::Admission {
            policy: RecorderOpenPolicy::CreateAfterRehydration,
        }) && (event matches RecorderOpenEvent::Admitted(Ok(_))) ==> next is Preflighting,
        phase is Preflighting && event == RecorderOpenEvent::Preflighted(
            Ok(LocalRecorderState::Missing),
        ) ==> next is Creating,
        (phase is OpeningExisting || phase is Creating) && (event matches RecorderOpenEvent::Opened(
            Ok(_),
        )) ==> next matches RecorderOpenPhase::Done(Ok(_)),
        (next matches RecorderOpenPhase::Done(Ok(_))) && !(phase is Done) ==> (
        event matches RecorderOpenEvent::Opened(Ok(_))),
{
}

/// The opening of a prepared recorder fails with the failure that it was told
/// of, and names a recorder that disappeared, one that appeared, and one that
/// cannot be trusted.
pub proof fn law_opening_a_recorder_fails_as_it_was_told(
    phase: RecorderOpenPhase,
    event: RecorderOpenEvent,
    next: RecorderOpenPhase,
)
    requires
        call_ensures(open_recorder_for_preparation, (phase, event), next),
    ensures
        phase is Admission ==> (event matches RecorderOpenEvent::Admitted(Err(error)) ==> next
            == RecorderOpenPhase::Done(Err(error))),
        phase is OpeningExisting ==> (event matches RecorderOpenEvent::Opened(Err(message)) ==> (
        next matches RecorderOpenPhase::Done(Err(HaStartupError::Source(told))) && told@
            == "required local recorder disappeared after startup preparation: "@ + message@)),
        phase is Preflighting ==> (event matches RecorderOpenEvent::Preflighted(Ok(found)) ==> (
        found != LocalRecorderState::Missing ==> (next matches RecorderOpenPhase::Done(
            Err(HaStartupError::Source(told)),
        ) && told@
            == "local recorder appeared after startup preparation; refusing to replace it"@))),
        phase is Preflighting ==> (event matches RecorderOpenEvent::Preflighted(Err(message)) ==> (
        next matches RecorderOpenPhase::Done(Err(HaStartupError::Source(told))) && told@
            == "local recorder is not trustworthy: "@ + message@)),
        phase is Creating ==> (event matches RecorderOpenEvent::Opened(Err(message)) ==> (
        next matches RecorderOpenPhase::Done(Err(HaStartupError::Source(told))) && told@
            == message@)),
{
}

/// The opening of a prepared recorder stays where it is on every event that it
/// does not wait for, and for good once it is done.
pub proof fn law_opening_a_recorder_ignores_what_it_does_not_wait_for(
    phase: RecorderOpenPhase,
    event: RecorderOpenEvent,
    next: RecorderOpenPhase,
)
    requires
        call_ensures(open_recorder_for_preparation, (phase, event), next),
    ensures
        phase is Done ==> next == phase,
        phase is Admission && !(event is Admitted) ==> next == phase,
        phase is Preflighting && !(event is Preflighted) ==> next == phase,
        (phase is OpeningExisting || phase is Creating) && !(event is Opened) ==> next == phase,
{
}

/// A slot to fetch a checkpoint is given only where startup was not cancelled
/// before the wait, while it lasted, or after the slot came free.
pub proof fn law_a_slot_is_given_only_to_a_startup_that_goes_on(
    phase: PreparePermitPhase,
    event: PreparePermitEvent,
    next: PreparePermitPhase,
)
    requires
        call_ensures(acquire_checkpoint_prepare_permit, (phase, event), next),
    ensures
        phase is Checking && (event matches PreparePermitEvent::Checked(Ok(_))) ==> next is Waiting,
        phase is Checking ==> (event matches PreparePermitEvent::Checked(Err(error)) ==> next
            == PreparePermitPhase::Done(Err(error))),
        phase is Waiting ==> (event matches PreparePermitEvent::Cancelled(error) ==> next
            == PreparePermitPhase::Done(Err(error))),
        phase is Waiting && event == (PreparePermitEvent::Acquired { open: true })
            ==> next is Confirming,
        phase is Waiting && event == (PreparePermitEvent::Acquired { open: false }) ==> (
        next matches PreparePermitPhase::Done(Err(HaStartupError::Source(told))) && told@
            == "checkpoint remote prepare admission closed"@),
        phase is Confirming && (event matches PreparePermitEvent::Checked(Ok(_))) ==> (
        next matches PreparePermitPhase::Done(Ok(_))),
        phase is Confirming ==> (event matches PreparePermitEvent::Checked(Err(error)) ==> next
            == PreparePermitPhase::Done(Err(error))),
        (next matches PreparePermitPhase::Done(Ok(_))) && !(phase is Done) ==> phase is Confirming,
        phase is Done ==> next == phase,
        (phase is Checking || phase is Confirming) && !(event is Checked) ==> next == phase,
        phase is Waiting && event is Checked ==> next == phase,
{
}

/// A successor never replaces a recorder that is there: it creates one exactly
/// where none was found, and nothing where it cannot tell.
pub proof fn law_a_successor_never_replaces_a_recorder(
    preflight: Result<LocalRecorderState, String>,
    action: Result<RecorderAction, HaStartupError>,
)
    requires
        call_ensures(open_recorder_after_preflight_under_startup_permit, (preflight,), action),
    ensures
        preflight == Ok::<LocalRecorderState, String>(LocalRecorderState::Missing) <==> action
            == Ok::<RecorderAction, HaStartupError>(RecorderAction::Create),
        preflight is Ok <==> action is Ok,
        preflight matches Err(message) ==> (action matches Err(HaStartupError::Source(told))
            && told@ == "local recorder is not trustworthy: "@ + message@),
{
}

/// What holds of a step of a successor's preparation holds of the function that
/// takes it.
pub proof fn law_a_successor_is_prepared_by_its_steps(
    target: SuccessorTarget,
    phase: SuccessorPhase,
    event: SuccessorEvent,
    next: SuccessorPhase,
)
    requires
        call_ensures(prepare_successor, (&target, phase, event), next),
    ensures
        phase.steps_to(target, event, next),
        phase is Done ==> next == phase,
{
}

/// The operator is told of a crashed recorder exactly while it is recovered.
pub proof fn law_a_successor_reports_the_recovery_of_its_recorder(
    phase: SuccessorPhase,
    report: Option<String>,
)
    requires
        call_ensures(SuccessorPhase::report, (&phase,), report),
    ensures
        report is Some <==> phase is RecoveringRecorder,
{
}

} // verus!
