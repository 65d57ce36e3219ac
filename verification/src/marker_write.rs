//! The durable publication of a local checkpoint identity marker.
//!
//! One permit covers the whole transaction. The marker is staged in a
//! temporary file, made durable, and linked into place; whoever linked it,
//! the marker that is there in the end must be the exact one.
use crate::config::{CheckpointIdentity, ExecutionProfile};
use crate::error::{fail, HaStartupError};
use crate::local_files::MarkerReading;
use crate::text::joined;
use vstd::prelude::*;

verus! {

/// What the publication of a marker is waiting for.
#[derive(Debug)]
pub enum MarkerPhase {
    /// The permit for local I/O.
    Admission,
    DirectoryCreation,
    DirectoryInspection,
    MarkerInspection,
    Encoding,
    TemporaryCreation,
    TemporaryWrite,
    TemporarySync,
    Linking,
    TemporaryRemoval,
    DirectorySync,
    /// The marker that is there is held against the checkpoint.
    Validation,
    Done(Result<(), HaStartupError>),
}

/// What the publication of a marker can see happen.
#[derive(Debug)]
pub enum MarkerEvent {
    Admitted(Result<(), HaStartupError>),
    /// The pending step on the file system is over.
    Finished(Result<(), String>),
    /// The data directory is a real directory, or not.
    DirectoryInspected(Result<bool, String>),
    /// A marker is there, or not.
    MarkerInspected(Result<bool, String>),
    /// The temporary file was linked into place. A marker that is already
    /// there is no failure.
    Linked(Result<(), LinkFailure>),
    Validated(Result<(), HaStartupError>),
}

/// Why the temporary file could not be linked into place.
#[derive(Debug)]
pub struct LinkFailure {
    pub already_exists: bool,
    pub message: String,
}

/// The next phase, and whether the temporary file is removed on the way.
#[derive(Debug)]
pub struct MarkerStep {
    pub phase: MarkerPhase,
    pub remove_temporary: bool,
}

impl MarkerPhase {
    /// The phase that follows where the pending step succeeded.
    pub open spec fn following(self) -> MarkerPhase {
        match self {
            MarkerPhase::DirectoryCreation => MarkerPhase::DirectoryInspection,
            MarkerPhase::Encoding => MarkerPhase::TemporaryCreation,
            MarkerPhase::TemporaryCreation => MarkerPhase::TemporaryWrite,
            MarkerPhase::TemporaryWrite => MarkerPhase::TemporarySync,
            MarkerPhase::TemporarySync => MarkerPhase::Linking,
            MarkerPhase::TemporaryRemoval => MarkerPhase::DirectorySync,
            MarkerPhase::DirectorySync => MarkerPhase::Validation,
            _ => self,
        }
    }

    /// How a failure of the pending step is reported.
    pub open spec fn spec_failure(self) -> Seq<char> {
        match self {
            MarkerPhase::DirectoryCreation => "cannot create local data directory: "@,
            MarkerPhase::Encoding => "cannot encode local checkpoint identity marker: "@,
            MarkerPhase::TemporaryCreation => "cannot create checkpoint identity marker: "@,
            MarkerPhase::TemporaryWrite => "cannot write checkpoint identity marker: "@,
            MarkerPhase::TemporarySync => "cannot sync checkpoint identity marker: "@,
            MarkerPhase::TemporaryRemoval => "cannot remove checkpoint marker staging file: "@,
            _ => "cannot sync local data directory: "@,
        }
    }

    /// The pending step is one that just succeeds or fails.
    pub open spec fn is_plain(self) -> bool {
        ||| self is DirectoryCreation
        ||| self is Encoding
        ||| self.is_staged_plain()
    }

    /// The same, once the temporary file may be there.
    pub open spec fn is_staged_plain(self) -> bool {
        ||| self is TemporaryCreation
        ||| self is TemporaryWrite
        ||| self is TemporarySync
        ||| self is TemporaryRemoval
        ||| self is DirectorySync
    }

    /// The publication fails with this message.
    pub open spec fn fails(step: MarkerStep, message: Seq<char>, remove_temporary: bool) -> bool {
        &&& step.phase matches MarkerPhase::Done(Err(error)) && error.is_source(message)
        &&& step.remove_temporary == remove_temporary
    }

    /// The publication goes on in `phase`.
    pub open spec fn goes_on(step: MarkerStep, phase: MarkerPhase) -> bool {
        step.phase == phase && !step.remove_temporary
    }

    /// `step` is what `event` makes of this phase.
    pub open spec fn steps_to(self, event: MarkerEvent, step: MarkerStep) -> bool {
        match (self, event) {
            (MarkerPhase::Admission, MarkerEvent::Admitted(result)) => match result {
                Ok(_) => Self::goes_on(step, MarkerPhase::DirectoryCreation),
                Err(error) => Self::goes_on(step, MarkerPhase::Done(Err(error))),
            },
            (MarkerPhase::DirectoryInspection, MarkerEvent::DirectoryInspected(result)) => {
                match result {
                    Err(message) => Self::fails(
                        step,
                        "cannot inspect local data directory: "@ + message@,
                        false,
                    ),
                    Ok(is_directory) => if is_directory {
                        Self::goes_on(step, MarkerPhase::MarkerInspection)
                    } else {
                        Self::fails(step, "local data directory must be a real directory"@, false)
                    },
                }
            },
            (MarkerPhase::MarkerInspection, MarkerEvent::MarkerInspected(result)) => match result {
                Err(message) => Self::fails(
                    step,
                    "cannot inspect local checkpoint identity marker: "@ + message@,
                    false,
                ),
                Ok(present) => if present {
                    Self::goes_on(step, MarkerPhase::Validation)
                } else {
                    Self::goes_on(step, MarkerPhase::Encoding)
                },
            },
            (MarkerPhase::Linking, MarkerEvent::Linked(result)) => match result {
                Ok(_) => Self::goes_on(step, MarkerPhase::TemporaryRemoval),
                Err(failure) => if failure.already_exists {
                    Self::goes_on(step, MarkerPhase::TemporaryRemoval)
                } else {
                    Self::fails(
                        step,
                        "cannot atomically publish checkpoint identity marker: "@
                            + failure.message@,
                        true,
                    )
                },
            },
            (MarkerPhase::Validation, MarkerEvent::Validated(result)) => Self::goes_on(
                step,
                MarkerPhase::Done(result),
            ),
            (_, MarkerEvent::Finished(result)) => if self.is_plain() {
                match result {
                    Ok(_) => Self::goes_on(step, self.following()),
                    Err(message) => Self::fails(
                        step,
                        self.spec_failure() + message@,
                        self.is_staged_plain(),
                    ),
                }
            } else {
                Self::goes_on(step, self)
            },
            _ => Self::goes_on(step, self),
        }
    }
}

fn go_on(phase: MarkerPhase) -> (step: MarkerStep)
    ensures
        MarkerPhase::goes_on(step, phase),
{
    MarkerStep { phase, remove_temporary: false }
}

fn give_up(reason: &str, message: &str, remove_temporary: bool) -> (step: MarkerStep)
    ensures
        MarkerPhase::fails(step, reason@ + message@, remove_temporary),
{
    MarkerStep {
        phase: MarkerPhase::Done(Err(HaStartupError::Source(joined(reason, message)))),
        remove_temporary,
    }
}

fn finish_plain(
    result: Result<(), String>,
    following: MarkerPhase,
    failure: &str,
    staged: bool,
) -> (step: MarkerStep)
    ensures
        match result {
            Ok(_) => MarkerPhase::goes_on(step, following),
            Err(message) => MarkerPhase::fails(step, failure@ + message@, staged),
        },
{
    match result {
        Ok(()) => go_on(following),
        Err(message) => give_up(failure, message.as_str(), staged),
    }
}

/// Advances the publication of a marker by one event. An event that it does
/// not wait for leaves it as it is.
pub fn write_local_checkpoint_identity_marker(phase: MarkerPhase, event: MarkerEvent) -> (step:
    MarkerStep)
    ensures
        phase.steps_to(event, step),
{
    match (phase, event) {
        (MarkerPhase::Admission, MarkerEvent::Admitted(result)) => match result {
            Ok(()) => go_on(MarkerPhase::DirectoryCreation),
            Err(error) => go_on(MarkerPhase::Done(Err(error))),
        },
        (MarkerPhase::DirectoryInspection, MarkerEvent::DirectoryInspected(result)) => {
            match result {
                Err(message) => give_up(
                    "cannot inspect local data directory: ",
                    message.as_str(),
                    false,
                ),
                Ok(is_directory) => if is_directory {
                    go_on(MarkerPhase::MarkerInspection)
                } else {
                    MarkerStep {
                        phase: MarkerPhase::Done(
                            Err(fail("local data directory must be a real directory")),
                        ),
                        remove_temporary: false,
                    }
                },
            }
        },
        (MarkerPhase::MarkerInspection, MarkerEvent::MarkerInspected(result)) => match result {
            Err(message) => give_up(
                "cannot inspect local checkpoint identity marker: ",
                message.as_str(),
                false,
            ),
            Ok(present) => if present {
                go_on(MarkerPhase::Validation)
            } else {
                go_on(MarkerPhase::Encoding)
            },
        },
        (MarkerPhase::Linking, MarkerEvent::Linked(result)) => match result {
            Ok(()) => go_on(MarkerPhase::TemporaryRemoval),
            Err(failure) => if failure.already_exists {
                go_on(MarkerPhase::TemporaryRemoval)
            } else {
                give_up(
                    "cannot atomically publish checkpoint identity marker: ",
                    failure.message.as_str(),
                    true,
                )
            },
        },
        (MarkerPhase::Validation, MarkerEvent::Validated(result)) => go_on(
            MarkerPhase::Done(result),
        ),
        (MarkerPhase::DirectoryCreation, MarkerEvent::Finished(result)) => finish_plain(
            result,
            MarkerPhase::DirectoryInspection,
            "cannot create local data directory: ",
            false,
        ),
        (MarkerPhase::Encoding, MarkerEvent::Finished(result)) => finish_plain(
            result,
            MarkerPhase::TemporaryCreation,
            "cannot encode local checkpoint identity marker: ",
            false,
        ),
        (MarkerPhase::TemporaryCreation, MarkerEvent::Finished(result)) => finish_plain(
            result,
            MarkerPhase::TemporaryWrite,
            "cannot create checkpoint identity marker: ",
            true,
        ),
        (MarkerPhase::TemporaryWrite, MarkerEvent::Finished(result)) => finish_plain(
            result,
            MarkerPhase::TemporarySync,
            "cannot write checkpoint identity marker: ",
            true,
        ),
        (MarkerPhase::TemporarySync, MarkerEvent::Finished(result)) => finish_plain(
            result,
            MarkerPhase::Linking,
            "cannot sync checkpoint identity marker: ",
            true,
        ),
        (MarkerPhase::TemporaryRemoval, MarkerEvent::Finished(result)) => finish_plain(
            result,
            MarkerPhase::DirectorySync,
            "cannot remove checkpoint marker staging file: ",
            true,
        ),
        (MarkerPhase::DirectorySync, MarkerEvent::Finished(result)) => finish_plain(
            result,
            MarkerPhase::Validation,
            "cannot sync local data directory: ",
            true,
        ),
        (phase, _) => go_on(phase),
    }
}

/// A run of the publication: `steps[i + 1]` is what `events[i]` makes of
/// `steps[i]`.
pub open spec fn is_marker_run(steps: Seq<MarkerStep>, events: Seq<MarkerEvent>) -> bool {
    &&& steps.len() == events.len() + 1
    &&& steps[0].phase is Admission
    &&& forall|i: int|
        0 <= i < events.len() ==> (#[trigger] steps[i]).phase.steps_to(events[i], steps[i + 1])
}

/// The permit was granted at some point of the run.
pub open spec fn was_admitted(events: Seq<MarkerEvent>) -> bool {
    exists|i: int|
        0 <= i < events.len() && (#[trigger] events[i] matches MarkerEvent::Admitted(result)
            && result is Ok)
}

/// The marker in place was found to be the exact one at some point of the run.
pub open spec fn was_validated(events: Seq<MarkerEvent>) -> bool {
    exists|i: int|
        0 <= i < events.len() && (#[trigger] events[i] matches MarkerEvent::Validated(result)
            && result is Ok)
}

/// Nothing touches the file system before the permit was granted, and a
/// publication succeeds only where the marker in place is the exact one.
pub proof fn law_marker_publication_is_admitted_and_exact(
    steps: Seq<MarkerStep>,
    events: Seq<MarkerEvent>,
)
    requires
        is_marker_run(steps, events),
    ensures
        !(steps.last().phase is Admission) && !(steps.last().phase is Done) ==> was_admitted(
            events,
        ),
        steps.last().phase == MarkerPhase::Done(Ok(())) ==> was_admitted(events) && was_validated(
            events,
        ),
    decreases events.len(),
{
    if events.len() > 0 {
        let n = events.len() - 1;
        let before = steps.drop_last();
        let old_events = events.drop_last();
        assert forall|i: int| 0 <= i < n implies (#[trigger] before[i]).phase.steps_to(
            old_events[i],
            before[i + 1],
        ) by {
            assert(steps[i].phase.steps_to(events[i], steps[i + 1]));
        }
        law_marker_publication_is_admitted_and_exact(before, old_events);
        assert(before.last() == steps[n]);
        assert(steps[n].phase.steps_to(events[n], steps[n + 1]));
        if was_admitted(old_events) {
            let i = choose|i: int|
                0 <= i < old_events.len() && (#[trigger] old_events[i] matches
                    MarkerEvent::Admitted(result) && result is Ok);
            assert(events[i] == old_events[i]);
        }
        if was_validated(old_events) {
            let i = choose|i: int|
                0 <= i < old_events.len() && (#[trigger] old_events[i] matches
                    MarkerEvent::Validated(result) && result is Ok);
            assert(events[i] == old_events[i]);
        }
    }
}

/// A marker is linked into place only once its bytes are durable, and a
/// temporary file that failed on the way is removed.
pub proof fn law_marker_is_durable_before_it_is_published(
    phase: MarkerPhase,
    event: MarkerEvent,
    step: MarkerStep,
)
    requires
        phase.steps_to(event, step),
    ensures
        step.phase is Linking && !(phase is Linking) ==> phase is TemporarySync && (
        event matches MarkerEvent::Finished(result) && result is Ok),
        (phase is TemporaryWrite || phase is TemporarySync || phase is Linking || phase
            is TemporaryRemoval || phase is DirectorySync) && step.phase is Done
            ==> step.remove_temporary,
{
}

/// A phase that writes: the temporary file, the marker, or their directory
/// entries.
pub open spec fn is_writing(phase: MarkerPhase) -> bool {
    ||| phase is Encoding
    ||| phase is TemporaryCreation
    ||| phase is TemporaryWrite
    ||| phase is TemporarySync
    ||| phase is Linking
    ||| phase is TemporaryRemoval
    ||| phase is DirectorySync
}

/// A marker is in place while the run lasts: no inspection finds none.
pub open spec fn finds_a_marker(events: Seq<MarkerEvent>) -> bool {
    forall|i: int|
        0 <= i < events.len() ==> (#[trigger] events[i] matches MarkerEvent::MarkerInspected(found)
            ==> found != Ok::<bool, String>(false))
}

/// The marker in place reads as `reading`, and every validation of the run
/// holds it against this node at this checkpoint.
pub open spec fn is_held_against(
    events: Seq<MarkerEvent>,
    reading: MarkerReading,
    execution_profile: ExecutionProfile,
    identity: CheckpointIdentity,
    node_id: Seq<char>,
) -> bool {
    forall|i: int|
        0 <= i < events.len() ==> (#[trigger] events[i] matches MarkerEvent::Validated(result)
            ==> crate::local_files::marker_verdict(
            reading,
            execution_profile,
            identity,
            node_id,
            result,
        ))
}

/// A publication that finds a marker writes nothing: the marker stays as it
/// is, and no temporary file comes to be.
pub proof fn law_a_found_marker_is_never_rewritten(
    steps: Seq<MarkerStep>,
    events: Seq<MarkerEvent>,
)
    requires
        is_marker_run(steps, events),
        finds_a_marker(events),
    ensures
        forall|i: int| 0 <= i < steps.len() ==> !is_writing((#[trigger] steps[i]).phase),
    decreases events.len(),
{
    if events.len() > 0 {
        let n = events.len() - 1;
        let before = steps.drop_last();
        let old_events = events.drop_last();
        assert forall|i: int| 0 <= i < n implies (#[trigger] before[i]).phase.steps_to(
            old_events[i],
            before[i + 1],
        ) by {
            assert(steps[i].phase.steps_to(events[i], steps[i + 1]));
        }
        assert forall|i: int| 0 <= i < old_events.len() implies (#[trigger] old_events[i] matches
            MarkerEvent::MarkerInspected(found) ==> found != Ok::<bool, String>(false)) by {
            assert(events[i] == old_events[i]);
        }
        law_a_found_marker_is_never_rewritten(before, old_events);
        assert(!is_writing(before[n].phase));
        assert(steps[n].phase.steps_to(events[n], steps[n + 1]));
        assert(events[n] matches MarkerEvent::MarkerInspected(found) ==> found != Ok::<
            bool,
            String,
        >(false));
        assert forall|i: int| 0 <= i < steps.len() implies !is_writing(
            (#[trigger] steps[i]).phase,
        ) by {
            if i <= n {
                assert(steps[i] == before[i]);
            }
        }
    }
}

/// A publication ends well exactly where the marker in place is that of this
/// node at this checkpoint. Any other marker is refused as such.
pub proof fn law_the_marker_in_place_decides(
    event: MarkerEvent,
    step: MarkerStep,
    reading: MarkerReading,
    execution_profile: ExecutionProfile,
    identity: CheckpointIdentity,
    node_id: Seq<char>,
)
    requires
        MarkerPhase::Validation.steps_to(event, step),
        event matches MarkerEvent::Validated(result) && crate::local_files::marker_verdict(
            reading,
            execution_profile,
            identity,
            node_id,
            result,
        ),
    ensures
        step.phase == MarkerPhase::Done(Ok(())) <==> (reading matches MarkerReading::Decoded(marker)
            && marker.marks(execution_profile, identity, node_id)),
        reading matches MarkerReading::Decoded(marker) && !marker.marks(
            execution_profile,
            identity,
            node_id,
        ) ==> MarkerPhase::fails(
            step,
            "local checkpoint identity marker does not exactly match the authoritative checkpoint"@,
            false,
        ),
        !step.remove_temporary,
{
    if let MarkerEvent::Validated(Ok(unit)) = event {
        assert(unit == ());
    }
}

/// The two name the same node at the same checkpoint, as far as a marker says.
pub open spec fn same_mark(
    execution_profile: ExecutionProfile,
    identity: CheckpointIdentity,
    node_id: Seq<char>,
    other_profile: ExecutionProfile,
    other_identity: CheckpointIdentity,
    other_node_id: Seq<char>,
) -> bool {
    &&& execution_profile == other_profile
    &&& node_id == other_node_id
    &&& identity.cluster_id@ == other_identity.cluster_id@
    &&& identity.epoch == other_identity.epoch
    &&& identity.config_id == other_identity.config_id
    &&& identity.recovery_generation == other_identity.recovery_generation
}

/// What a publication left is accepted from then on: reading it back for the
/// same node at the same checkpoint succeeds. A later publication writes
/// nothing, and where its validation is reached it ends well exactly if it is
/// for the same profile, node, cluster, epoch, configuration and recovery
/// generation; otherwise it is refused for the mismatch.
pub proof fn law_a_published_marker_is_accepted_again(
    steps: Seq<MarkerStep>,
    events: Seq<MarkerEvent>,
    reading: MarkerReading,
    execution_profile: ExecutionProfile,
    identity: CheckpointIdentity,
    node_id: Seq<char>,
    later_steps: Seq<MarkerStep>,
    later_events: Seq<MarkerEvent>,
    later_profile: ExecutionProfile,
    later_identity: CheckpointIdentity,
    later_node_id: Seq<char>,
)
    requires
        is_marker_run(steps, events),
        is_held_against(events, reading, execution_profile, identity, node_id),
        steps.last().phase == MarkerPhase::Done(Ok(())),
        is_marker_run(later_steps, later_events),
        is_held_against(later_events, reading, later_profile, later_identity, later_node_id),
        finds_a_marker(later_events),
    ensures
        reading matches MarkerReading::Decoded(marker) && marker.marks(
            execution_profile,
            identity,
            node_id,
        ),
        forall|result: Result<(), HaStartupError>| #[trigger]
            crate::local_files::marker_verdict(
                reading,
                execution_profile,
                identity,
                node_id,
                result,
            ) ==> result is Ok,
        forall|i: int|
            0 <= i < later_steps.len() ==> !is_writing((#[trigger] later_steps[i]).phase),
        later_steps.last().phase == MarkerPhase::Done(Ok(())) ==> same_mark(
            execution_profile,
            identity,
            node_id,
            later_profile,
            later_identity,
            later_node_id,
        ),
        forall|i: int|
            0 <= i < later_events.len() && (#[trigger] later_steps[i]).phase is Validation
                && later_events[i] is Validated ==> if same_mark(
                execution_profile,
                identity,
                node_id,
                later_profile,
                later_identity,
                later_node_id,
            ) {
                later_steps[i + 1].phase == MarkerPhase::Done(Ok(()))
            } else {
                MarkerPhase::fails(
                    later_steps[i + 1],
                    "local checkpoint identity marker does not exactly match the authoritative checkpoint"@,
                    false,
                )
            },
{
    lemma_success_means_the_exact_marker(
        steps,
        events,
        reading,
        execution_profile,
        identity,
        node_id,
    );
    law_a_found_marker_is_never_rewritten(later_steps, later_events);
    if later_steps.last().phase == MarkerPhase::Done(Ok(())) {
        lemma_success_means_the_exact_marker(
            later_steps,
            later_events,
            reading,
            later_profile,
            later_identity,
            later_node_id,
        );
    }
    assert forall|i: int|
        0 <= i < later_events.len() && (#[trigger] later_steps[i]).phase is Validation
            && later_events[i] is Validated implies if same_mark(
        execution_profile,
        identity,
        node_id,
        later_profile,
        later_identity,
        later_node_id,
    ) {
        later_steps[i + 1].phase == MarkerPhase::Done(Ok(()))
    } else {
        MarkerPhase::fails(
            later_steps[i + 1],
            "local checkpoint identity marker does not exactly match the authoritative checkpoint"@,
            false,
        )
    } by {
        assert(later_steps[i].phase.steps_to(later_events[i], later_steps[i + 1]));
        law_the_marker_in_place_decides(
            later_events[i],
            later_steps[i + 1],
            reading,
            later_profile,
            later_identity,
            later_node_id,
        );
    }
}

proof fn lemma_success_means_the_exact_marker(
    steps: Seq<MarkerStep>,
    events: Seq<MarkerEvent>,
    reading: MarkerReading,
    execution_profile: ExecutionProfile,
    identity: CheckpointIdentity,
    node_id: Seq<char>,
)
    requires
        is_marker_run(steps, events),
        is_held_against(events, reading, execution_profile, identity, node_id),
        steps.last().phase == MarkerPhase::Done(Ok(())),
    ensures
        reading matches MarkerReading::Decoded(marker) && marker.marks(
            execution_profile,
            identity,
            node_id,
        ),
{
    law_marker_publication_is_admitted_and_exact(steps, events);
    let i = choose|i: int|
        0 <= i < events.len() && (#[trigger] events[i] matches MarkerEvent::Validated(result)
            && result is Ok);
    assert(events[i] is Validated);
}

/// Whether the temporary file may be there after the run: it was asked for,
/// and neither removed nor given up since.
pub open spec fn may_be_staged(steps: Seq<MarkerStep>, events: Seq<MarkerEvent>) -> bool
    decreases events.len(),
{
    if events.len() == 0 {
        false
    } else if steps.last().remove_temporary {
        false
    } else {
        match (steps[events.len() - 1].phase, events.last()) {
            (MarkerPhase::TemporaryCreation, MarkerEvent::Finished(_)) => true,
            (MarkerPhase::TemporaryRemoval, MarkerEvent::Finished(_)) => false,
            _ => may_be_staged(steps.drop_last(), events.drop_last()),
        }
    }
}

/// However a publication ends, its temporary file was removed or its removal
/// was asked for.
pub proof fn law_no_temporary_file_outlives_the_publication(
    steps: Seq<MarkerStep>,
    events: Seq<MarkerEvent>,
)
    requires
        is_marker_run(steps, events),
        steps.last().phase is Done,
    ensures
        !may_be_staged(steps, events),
{
    lemma_staged_phases(steps, events);
}

proof fn lemma_staged_phases(steps: Seq<MarkerStep>, events: Seq<MarkerEvent>)
    requires
        is_marker_run(steps, events),
    ensures
        may_be_staged(steps, events) ==> steps.last().phase is TemporaryWrite
            || steps.last().phase is TemporarySync || steps.last().phase is Linking
            || steps.last().phase is TemporaryRemoval,
    decreases events.len(),
{
    if events.len() > 0 {
        let n = events.len() - 1;
        let before = steps.drop_last();
        let old_events = events.drop_last();
        assert forall|i: int| 0 <= i < n implies (#[trigger] before[i]).phase.steps_to(
            old_events[i],
            before[i + 1],
        ) by {
            assert(steps[i].phase.steps_to(events[i], steps[i + 1]));
        }
        lemma_staged_phases(before, old_events);
        assert(before.last() == steps[n]);
        assert(steps[n].phase.steps_to(events[n], steps[n + 1]));
    }
}

/// How a publication that meets no failure goes on: one permit, a real data
/// directory, and then either the marker that is there or a new one, which is
/// encoded, staged, written, synced and linked, and whose staging file is
/// removed and directory synced. Either way the marker in place is validated
/// last.
pub proof fn law_a_publication_takes_its_steps_in_order(
    phase: MarkerPhase,
    event: MarkerEvent,
    step: MarkerStep,
)
    requires
        phase.steps_to(event, step),
    ensures
        phase is Admission ==> (event matches MarkerEvent::Admitted(Ok(_)) ==> step.phase
            is DirectoryCreation && !step.remove_temporary),
        phase is DirectoryInspection && event == MarkerEvent::DirectoryInspected(Ok(true))
            ==> step.phase is MarkerInspection && !step.remove_temporary,
        phase is MarkerInspection ==> (event matches MarkerEvent::MarkerInspected(Ok(present))
            ==> !step.remove_temporary && (step.phase is Validation <==> present) && (step.phase
            is Encoding <==> !present)),
        phase is Linking ==> (event matches MarkerEvent::Linked(result) ==> (step.phase
            is TemporaryRemoval <==> result is Ok || result->Err_0.already_exists)),
        event matches MarkerEvent::Finished(Ok(_)) ==> !step.remove_temporary && match phase {
            MarkerPhase::DirectoryCreation => step.phase is DirectoryInspection,
            MarkerPhase::Encoding => step.phase is TemporaryCreation,
            MarkerPhase::TemporaryCreation => step.phase is TemporaryWrite,
            MarkerPhase::TemporaryWrite => step.phase is TemporarySync,
            MarkerPhase::TemporarySync => step.phase is Linking,
            MarkerPhase::TemporaryRemoval => step.phase is DirectorySync,
            MarkerPhase::DirectorySync => step.phase is Validation,
            _ => step.phase == phase,
        },
        phase is Validation ==> (event matches MarkerEvent::Validated(result) ==> step.phase
            == MarkerPhase::Done(result)),
{
}

/// Every failure of a publication ends it, and is told by the step that it
/// came in. What was staged is removed then, and not before anything was.
pub proof fn law_a_publication_says_where_it_failed(
    phase: MarkerPhase,
    event: MarkerEvent,
    step: MarkerStep,
)
    requires
        phase.steps_to(event, step),
    ensures
        phase is Admission ==> (event matches MarkerEvent::Admitted(Err(error)) ==> step.phase
            == MarkerPhase::Done(Err(error)) && !step.remove_temporary),
        phase is DirectoryInspection && event == MarkerEvent::DirectoryInspected(Ok(false)) ==> (
        step.phase matches MarkerPhase::Done(Err(error)) && error.is_source(
            "local data directory must be a real directory"@,
        ) && !step.remove_temporary),
        phase is DirectoryInspection ==> (event matches MarkerEvent::DirectoryInspected(
            Err(message),
        ) ==> (step.phase matches MarkerPhase::Done(Err(error)) && error.is_source(
            "cannot inspect local data directory: "@ + message@,
        ) && !step.remove_temporary)),
        phase is MarkerInspection ==> (event matches MarkerEvent::MarkerInspected(Err(message)) ==> (
        step.phase matches MarkerPhase::Done(Err(error)) && error.is_source(
            "cannot inspect local checkpoint identity marker: "@ + message@,
        ) && !step.remove_temporary)),
        phase is Linking ==> (event matches MarkerEvent::Linked(Err(failure))
            ==> if failure.already_exists {
            !step.remove_temporary
        } else {
            step.phase matches MarkerPhase::Done(Err(error)) && error.is_source(
                "cannot atomically publish checkpoint identity marker: "@ + failure.message@,
            ) && step.remove_temporary
        }),
        event matches MarkerEvent::Finished(Err(message)) ==> match phase {
            MarkerPhase::DirectoryCreation => says_and_removes(
                step,
                "cannot create local data directory: "@ + message@,
                false,
            ),
            MarkerPhase::Encoding => says_and_removes(
                step,
                "cannot encode local checkpoint identity marker: "@ + message@,
                false,
            ),
            MarkerPhase::TemporaryCreation => says_and_removes(
                step,
                "cannot create checkpoint identity marker: "@ + message@,
                true,
            ),
            MarkerPhase::TemporaryWrite => says_and_removes(
                step,
                "cannot write checkpoint identity marker: "@ + message@,
                true,
            ),
            MarkerPhase::TemporarySync => says_and_removes(
                step,
                "cannot sync checkpoint identity marker: "@ + message@,
                true,
            ),
            MarkerPhase::TemporaryRemoval => says_and_removes(
                step,
                "cannot remove checkpoint marker staging file: "@ + message@,
                true,
            ),
            MarkerPhase::DirectorySync => says_and_removes(
                step,
                "cannot sync local data directory: "@ + message@,
                true,
            ),
            _ => step.phase == phase && !step.remove_temporary,
        },
{
}

/// The publication ends with this message, and removes what was staged or has
/// nothing to remove.
pub open spec fn says_and_removes(step: MarkerStep, message: Seq<char>, removes: bool) -> bool {
    step.phase matches MarkerPhase::Done(Err(error)) && error.is_source(message)
        && step.remove_temporary == removes
}

/// What a publication does not wait for changes nothing.
pub proof fn law_a_publication_ignores_what_it_does_not_wait_for(
    phase: MarkerPhase,
    event: MarkerEvent,
    step: MarkerStep,
)
    requires
        phase.steps_to(event, step),
        !(match event {
            MarkerEvent::Admitted(_) => phase is Admission,
            MarkerEvent::DirectoryInspected(_) => phase is DirectoryInspection,
            MarkerEvent::MarkerInspected(_) => phase is MarkerInspection,
            MarkerEvent::Linked(_) => phase is Linking,
            MarkerEvent::Validated(_) => phase is Validation,
            MarkerEvent::Finished(_) => phase is DirectoryCreation || phase is Encoding || phase
                is TemporaryCreation || phase is TemporaryWrite || phase is TemporarySync || phase
                is TemporaryRemoval || phase is DirectorySync,
        }),
    ensures
        step.phase == phase,
        !step.remove_temporary,
{
}

/// What holds of a step of a marker's write holds of the function that takes
/// it.
pub proof fn law_a_marker_is_written_by_its_steps(
    phase: MarkerPhase,
    event: MarkerEvent,
    step: MarkerStep,
)
    requires
        call_ensures(write_local_checkpoint_identity_marker, (phase, event), step),
    ensures
        phase.steps_to(event, step),
{
}

} // verus!
