//! How a live successor finds or makes its stage before it follows the
//! predecessor's log.
use crate::error::{fail, HaStartupError};
use crate::prepare::CheckpointManifest;
use crate::text::joined3;
use vstd::prelude::*;

verus! {

/// What a live successor starts from.
#[derive(Clone, Copy, Debug, PartialEq, Eq, Structural)]
pub enum LiveSuccessorPrestage {
    /// A stage that follows the predecessor's log.
    Published,
    /// A stage that already holds the predecessor's Stop.
    Finalized,
    /// The target was active before: its own checkpoint is there.
    TargetCheckpoint,
}

/// What was found of a stage that could not be resumed.
#[derive(Debug)]
pub enum LivePrestageInspection {
    Finalized,
    /// A stage that is neither finalized nor to be resumed.
    Other,
    /// The directory holds no stage.
    DataDirNotFresh,
    Failed(String),
}

/// What finding the stage is waiting for.
#[derive(Debug)]
pub enum LivePrestagePhase {
    InitializingCheckpoint,
    /// The receipt of a completed restore is looked for.
    ReadingCompletion { manifest: CheckpointManifest },
    /// The predecessor's checkpoint identity is read.
    ReadingIdentity,
    Resuming,
    Inspecting { resume_error: HaStartupError },
    InspectingData { resume_error: HaStartupError },
    /// The predecessor's checkpoint is restored into a new stage.
    Preparing,
    /// The stage is moved into place and opened.
    Publishing,
    Done(Result<LiveSuccessorPrestage, HaStartupError>),
}

/// What finding the stage can see happen.
#[derive(Debug)]
pub enum LivePrestageEvent {
    CheckpointInitialized(Result<CheckpointManifest, HaStartupError>),
    /// Whether the receipt of a completed restore is there.
    CompletionRead(Result<bool, HaStartupError>),
    IdentityRead(Result<(), HaStartupError>),
    Resumed(Result<(), HaStartupError>),
    Inspected(LivePrestageInspection),
    /// Whether the data directory is fresh.
    DataInspected(Result<bool, HaStartupError>),
    Prepared(Result<(), HaStartupError>),
    Published(Result<(), HaStartupError>),
}

/// The checkpoint's base is a snapshot in which the target is active.
pub open spec fn has_active_target_snapshot(
    manifest: CheckpointManifest,
    target_config_id: u64,
) -> bool {
    manifest.snapshot matches Some(snapshot) && snapshot.active && snapshot.config_id
        == target_config_id
}

impl LivePrestagePhase {
    pub open spec fn fails(next: LivePrestagePhase, message: Seq<char>) -> bool {
        next matches LivePrestagePhase::Done(Err(error)) && error.is_source(message)
    }

    pub open spec fn refuses(next: LivePrestagePhase, error: HaStartupError) -> bool {
        next == LivePrestagePhase::Done(Err(error))
    }

    pub open spec fn finds(next: LivePrestagePhase, prestage: LiveSuccessorPrestage) -> bool {
        next == LivePrestagePhase::Done(Ok(prestage))
    }

    /// `next` is what `event` makes of this phase, for a node of configuration
    /// `config_id`.
    pub open spec fn steps_to(
        self,
        config_id: u64,
        event: LivePrestageEvent,
        next: LivePrestagePhase,
    ) -> bool {
        match (self, event) {
            (
                LivePrestagePhase::InitializingCheckpoint,
                LivePrestageEvent::CheckpointInitialized(result),
            ) => match result {
                Ok(manifest) => next == (LivePrestagePhase::ReadingCompletion { manifest }),
                Err(error) => Self::refuses(next, error),
            },
            (
                LivePrestagePhase::ReadingCompletion { manifest },
                LivePrestageEvent::CompletionRead(result),
            ) => match result {
                Ok(complete) => if complete {
                    Self::finds(next, LiveSuccessorPrestage::Finalized)
                } else if manifest.spec_is_empty() {
                    next is ReadingIdentity
                } else if has_active_target_snapshot(manifest, config_id) {
                    Self::finds(next, LiveSuccessorPrestage::TargetCheckpoint)
                } else {
                    Self::fails(
                        next,
                        "non-empty live successor checkpoint is not an active target snapshot"@,
                    )
                },
                Err(error) => Self::refuses(next, error),
            },
            (LivePrestagePhase::ReadingIdentity, LivePrestageEvent::IdentityRead(result)) => {
                match result {
                    Ok(_) => next is Resuming,
                    Err(error) => Self::refuses(next, error),
                }
            },
            (LivePrestagePhase::Resuming, LivePrestageEvent::Resumed(result)) => match result {
                Ok(_) => next is Publishing,
                Err(resume_error) => next == (LivePrestagePhase::Inspecting { resume_error }),
            },
            (
                LivePrestagePhase::Inspecting { resume_error },
                LivePrestageEvent::Inspected(inspection),
            ) => match inspection {
                LivePrestageInspection::Finalized => Self::finds(
                    next,
                    LiveSuccessorPrestage::Finalized,
                ),
                LivePrestageInspection::Other => Self::refuses(next, resume_error),
                LivePrestageInspection::DataDirNotFresh => next == (
                LivePrestagePhase::InspectingData { resume_error }),
                LivePrestageInspection::Failed(message) => Self::refuses(
                    next,
                    HaStartupError::Source(message),
                ),
            },
            (
                LivePrestagePhase::InspectingData { resume_error },
                LivePrestageEvent::DataInspected(result),
            ) => match result {
                Ok(fresh) => if fresh {
                    next is Preparing
                } else {
                    Self::fails(
                        next,
                        "cannot resume live successor prestage ("@ + resume_error.spec_message()
                            + "); local data is not fresh"@,
                    )
                },
                Err(error) => Self::refuses(next, error),
            },
            (LivePrestagePhase::Preparing, LivePrestageEvent::Prepared(result)) => match result {
                Ok(_) => next is Publishing,
                Err(error) => Self::refuses(next, error),
            },
            (LivePrestagePhase::Publishing, LivePrestageEvent::Published(result)) => match result {
                Ok(_) => Self::finds(next, LiveSuccessorPrestage::Published),
                Err(error) => Self::refuses(next, error),
            },
            _ => next == self,
        }
    }
}

fn refuse(error: HaStartupError) -> (phase: LivePrestagePhase)
    ensures
        LivePrestagePhase::refuses(phase, error),
{
    LivePrestagePhase::Done(Err(error))
}

fn find(prestage: LiveSuccessorPrestage) -> (phase: LivePrestagePhase)
    ensures
        LivePrestagePhase::finds(phase, prestage),
{
    LivePrestagePhase::Done(Ok(prestage))
}

/// Advances a live successor's search for its stage by one event. An event
/// that it does not wait for leaves it as it is.
pub fn prepare_live_successor(config_id: u64, phase: LivePrestagePhase, event: LivePrestageEvent) -> (next:
    LivePrestagePhase)
    ensures
        phase.steps_to(config_id, event, next),
{
    match (phase, event) {
        (
            LivePrestagePhase::InitializingCheckpoint,
            LivePrestageEvent::CheckpointInitialized(result),
        ) => match result {
            Ok(manifest) => LivePrestagePhase::ReadingCompletion { manifest },
            Err(error) => refuse(error),
        },
        (
            LivePrestagePhase::ReadingCompletion { manifest },
            LivePrestageEvent::CompletionRead(result),
        ) => match result {
            Ok(complete) => {
                if complete {
                    return find(LiveSuccessorPrestage::Finalized);
                }
                if manifest.is_empty() {
                    return LivePrestagePhase::ReadingIdentity;
                }
                let active_target_snapshot = match manifest.snapshot {
                    Some(snapshot) => snapshot.active && snapshot.config_id == config_id,
                    None => false,
                };
                if active_target_snapshot {
                    find(LiveSuccessorPrestage::TargetCheckpoint)
                } else {
                    refuse(
                        fail("non-empty live successor checkpoint is not an active target snapshot"),
                    )
                }
            },
            Err(error) => refuse(error),
        },
        (LivePrestagePhase::ReadingIdentity, LivePrestageEvent::IdentityRead(result)) => {
            match result {
                Ok(()) => LivePrestagePhase::Resuming,
                Err(error) => refuse(error),
            }
        },
        (LivePrestagePhase::Resuming, LivePrestageEvent::Resumed(result)) => match result {
            Ok(()) => LivePrestagePhase::Publishing,
            Err(resume_error) => LivePrestagePhase::Inspecting { resume_error },
        },
        (
            LivePrestagePhase::Inspecting { resume_error },
            LivePrestageEvent::Inspected(inspection),
        ) => match inspection {
            LivePrestageInspection::Finalized => find(LiveSuccessorPrestage::Finalized),
            LivePrestageInspection::Other => refuse(resume_error),
            LivePrestageInspection::DataDirNotFresh => {
                LivePrestagePhase::InspectingData { resume_error }
            },
            LivePrestageInspection::Failed(message) => refuse(HaStartupError::Source(message)),
        },
        (
            LivePrestagePhase::InspectingData { resume_error },
            LivePrestageEvent::DataInspected(result),
        ) => match result {
            Ok(fresh) => if fresh {
                LivePrestagePhase::Preparing
            } else {
                let reason = resume_error.message();
                refuse(
                    HaStartupError::Source(
                        joined3(
                            "cannot resume live successor prestage (",
                            reason.as_str(),
                            "); local data is not fresh",
                        ),
                    ),
                )
            },
            Err(error) => refuse(error),
        },
        (LivePrestagePhase::Preparing, LivePrestageEvent::Prepared(result)) => match result {
            Ok(()) => LivePrestagePhase::Publishing,
            Err(error) => refuse(error),
        },
        (LivePrestagePhase::Publishing, LivePrestageEvent::Published(result)) => match result {
            Ok(()) => find(LiveSuccessorPrestage::Published),
            Err(error) => refuse(error),
        },
        (phase, _) => phase,
    }
}

/// A new stage is made only in a fresh directory where none could be resumed,
/// and a stage is published only once it was resumed or made.
pub proof fn law_stage_is_made_only_in_a_fresh_directory(
    config_id: u64,
    phase: LivePrestagePhase,
    event: LivePrestageEvent,
    next: LivePrestagePhase,
)
    requires
        phase.steps_to(config_id, event, next),
    ensures
        next is Preparing && !(phase is Preparing) ==> phase is InspectingData && event
            == LivePrestageEvent::DataInspected(Ok(true)),
        next is InspectingData && !(phase is InspectingData) ==> phase is Inspecting,
        next is Inspecting && !(phase is Inspecting) ==> phase is Resuming && (event matches
            LivePrestageEvent::Resumed(result) && result is Err),
        next is Publishing && !(phase is Publishing) ==> phase is Resuming || phase is Preparing,
        LivePrestagePhase::finds(next, LiveSuccessorPrestage::Published) && !(phase is Done)
            ==> phase is Publishing,
{
}

/// What a live successor finds of its stage: the receipt of a completed restore
/// makes it a finalized one, whatever the checkpoint holds. Without it an empty
/// checkpoint means that the stage is still to follow the log, and one that is
/// not empty must be the active target's own.
pub proof fn law_the_checkpoint_tells_what_a_stage_is(
    config_id: u64,
    manifest: CheckpointManifest,
    complete: bool,
    next: LivePrestagePhase,
)
    requires
        (LivePrestagePhase::ReadingCompletion { manifest }).steps_to(
            config_id,
            LivePrestageEvent::CompletionRead(Ok(complete)),
            next,
        ),
    ensures
        ({
            let empty = manifest.tip.index == 0 && manifest.segments_empty;
            let own = manifest.snapshot is Some && manifest.snapshot->0.active
                && manifest.snapshot->0.config_id == config_id;
            &&& complete ==> next == LivePrestagePhase::Done(Ok(LiveSuccessorPrestage::Finalized))
            &&& !complete && empty ==> next is ReadingIdentity
            &&& !complete && !empty && own ==> next == LivePrestagePhase::Done(
                Ok(LiveSuccessorPrestage::TargetCheckpoint),
            )
            &&& !complete && !empty && !own ==> (next matches LivePrestagePhase::Done(Err(error))
                && error.is_source(
                "non-empty live successor checkpoint is not an active target snapshot"@,
            ))
        }),
{
}

/// How a live successor comes by its stage: it resumes one where it can, and
/// otherwise looks at what is there. A finalized stage is taken, any other is
/// refused with what kept it from being resumed, and only where there is none,
/// in a fresh directory, a new one is made. One that was resumed or made is
/// published.
pub proof fn law_a_stage_is_resumed_taken_or_made(
    config_id: u64,
    phase: LivePrestagePhase,
    event: LivePrestageEvent,
    next: LivePrestagePhase,
)
    requires
        phase.steps_to(config_id, event, next),
    ensures
        phase is InitializingCheckpoint ==> (event matches LivePrestageEvent::CheckpointInitialized(
            Ok(found),
        ) ==> (next matches LivePrestagePhase::ReadingCompletion { manifest } && manifest
            == found)),
        phase is ReadingIdentity ==> (event matches LivePrestageEvent::IdentityRead(Ok(_)) ==> next
            is Resuming),
        phase is Resuming ==> (event matches LivePrestageEvent::Resumed(result) ==> match result {
            Ok(_) => next is Publishing,
            Err(error) => next == (LivePrestagePhase::Inspecting { resume_error: error }),
        }),
        phase matches LivePrestagePhase::Inspecting { resume_error } ==> (event matches
            LivePrestageEvent::Inspected(inspection) ==> match inspection {
            LivePrestageInspection::Finalized => next == LivePrestagePhase::Done(
                Ok(LiveSuccessorPrestage::Finalized),
            ),
            LivePrestageInspection::Other => next == LivePrestagePhase::Done(Err(resume_error)),
            LivePrestageInspection::DataDirNotFresh => next == (LivePrestagePhase::InspectingData {
                resume_error,
            }),
            LivePrestageInspection::Failed(message) => next == LivePrestagePhase::Done(
                Err(HaStartupError::Source(message)),
            ),
        }),
        phase matches LivePrestagePhase::InspectingData { resume_error } ==> (event matches
            LivePrestageEvent::DataInspected(Ok(fresh)) ==> if fresh {
            next is Preparing
        } else {
            next matches LivePrestagePhase::Done(Err(error)) && error.is_source(
                "cannot resume live successor prestage ("@ + match resume_error {
                    HaStartupError::Source(message) => message@,
                    HaStartupError::Cancelled(_) => "startup cancelled"@,
                } + "); local data is not fresh"@,
            )
        }),
        phase is Preparing ==> (event matches LivePrestageEvent::Prepared(Ok(_)) ==> next
            is Publishing),
        phase is Publishing ==> (event matches LivePrestageEvent::Published(Ok(_)) ==> next
            == LivePrestagePhase::Done(Ok(LiveSuccessorPrestage::Published))),
{
}

/// Every failure of what the search waits for ends it with that very failure,
/// except that a stage which cannot be resumed is looked at. What it does not
/// wait for changes nothing.
pub proof fn law_a_search_for_a_stage_fails_as_it_was_told(
    config_id: u64,
    phase: LivePrestagePhase,
    event: LivePrestageEvent,
    next: LivePrestagePhase,
)
    requires
        phase.steps_to(config_id, event, next),
    ensures
        ({
            let awaited = match phase {
                LivePrestagePhase::InitializingCheckpoint => event is CheckpointInitialized,
                LivePrestagePhase::ReadingCompletion { .. } => event is CompletionRead,
                LivePrestagePhase::ReadingIdentity => event is IdentityRead,
                LivePrestagePhase::Resuming => event is Resumed,
                LivePrestagePhase::Inspecting { .. } => event is Inspected,
                LivePrestagePhase::InspectingData { .. } => event is DataInspected,
                LivePrestagePhase::Preparing => event is Prepared,
                LivePrestagePhase::Publishing => event is Published,
                LivePrestagePhase::Done(_) => false,
            };
            &&& !awaited ==> next == phase
            &&& awaited ==> match event {
                LivePrestageEvent::CheckpointInitialized(Err(error)) => next
                    == LivePrestagePhase::Done(Err(error)),
                LivePrestageEvent::CompletionRead(Err(error)) => next == LivePrestagePhase::Done(
                    Err(error),
                ),
                LivePrestageEvent::IdentityRead(Err(error)) => next == LivePrestagePhase::Done(
                    Err(error),
                ),
                LivePrestageEvent::DataInspected(Err(error)) => next == LivePrestagePhase::Done(
                    Err(error),
                ),
                LivePrestageEvent::Prepared(Err(error)) => next == LivePrestagePhase::Done(
                    Err(error),
                ),
                LivePrestageEvent::Published(Err(error)) => next == LivePrestagePhase::Done(
                    Err(error),
                ),
                _ => true,
            }
        }),
{
}

/// What holds of a step of a live stage's preparation holds of the function
/// that takes it.
pub proof fn law_a_live_stage_is_prepared_by_its_steps(
    config_id: u64,
    phase: LivePrestagePhase,
    event: LivePrestageEvent,
    next: LivePrestagePhase,
)
    requires
        call_ensures(prepare_live_successor, (config_id, phase, event), next),
    ensures
        phase.steps_to(config_id, event, next),
{
}

} // verus!
