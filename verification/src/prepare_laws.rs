//! What holds of every run of the preparation of local state.
use crate::error::HaStartupError;
use crate::log::LogAnchor;
use crate::prepare::{
    begin_standard_preparation, CheckpointInstallMode, CheckpointManifest, InstallOutcome,
    PreparedCheckpoint, RecorderRecovery, Restore, RestoreKind, RestoreStep, StandardEvent, StandardPhase,
};
use crate::preparation::{LocalRecorderState, RecorderOpenPolicy, StartupPreparation};
use crate::status::HaStartupMode;
use vstd::prelude::*;

verus! {

impl RestoreStep {
    /// How far a restore got.
    pub open spec fn progress(self) -> nat {
        match self {
            RestoreStep::Checking => 20,
            RestoreStep::Capturing => 21,
            RestoreStep::PreparingRemote => 22,
            RestoreStep::CheckingPrepared { .. } => 23,
            RestoreStep::LookingForMarker { .. } => 24,
            RestoreStep::LookingForRestore { .. } => 25,
            RestoreStep::InspectingData { .. } => 26,
            RestoreStep::Encoding { .. } => 27,
            RestoreStep::Installing { .. } => 28,
            RestoreStep::CheckingInstalled { .. } => 29,
            RestoreStep::ValidatingInstalled { .. } => 30,
        }
    }

    /// The checkpoint that was fetched, once one was.
    pub open spec fn prepared(self) -> Option<PreparedCheckpoint> {
        match self {
            RestoreStep::CheckingPrepared { prepared } => Some(prepared),
            RestoreStep::LookingForMarker { prepared } => Some(prepared),
            RestoreStep::LookingForRestore { prepared } => Some(prepared),
            RestoreStep::InspectingData { prepared } => Some(prepared),
            RestoreStep::Encoding { prepared } => Some(prepared),
            RestoreStep::Installing { prepared } => Some(prepared),
            RestoreStep::CheckingInstalled { prepared, .. } => Some(prepared),
            RestoreStep::ValidatingInstalled { prepared, .. } => Some(prepared),
            _ => None,
        }
    }
}

impl StandardPhase {
    /// How far a preparation got.
    pub open spec fn progress(self) -> nat {
        match self {
            StandardPhase::CheckingBootstrap => 0,
            StandardPhase::InspectingBootstrapData => 1,
            StandardPhase::LoadingBootstrapCheckpoint => 2,
            StandardPhase::CheckingBootstrapCheckpoint { .. } => 3,
            StandardPhase::WritingBootstrapMarker { .. } => 4,
            StandardPhase::InspectingRejoinData => 0,
            StandardPhase::CheckingRejoin => 1,
            StandardPhase::LoadingRejoinCheckpoint => 2,
            StandardPhase::CheckingRecorder { .. } => 3,
            StandardPhase::LookingForMarker { .. } => 4,
            StandardPhase::LookingForRestore { .. } => 5,
            StandardPhase::PreflightingRecorder { .. } => 6,
            StandardPhase::RecoveringRecorder { .. } => 7,
            StandardPhase::ValidatingMarker { .. } => 8,
            StandardPhase::ValidatingView { .. } => 9,
            StandardPhase::Restoring { step, .. } => step.progress(),
            StandardPhase::Done(_) => 31,
        }
    }

    /// The phase belongs to a bootstrap, or preparation is over.
    pub open spec fn is_bootstrap(self) -> bool {
        self is CheckingBootstrap || self is InspectingBootstrapData || self
            is LoadingBootstrapCheckpoint || self is CheckingBootstrapCheckpoint || self
            is WritingBootstrapMarker || self is Done
    }

    /// A checkpoint is being installed.
    pub open spec fn is_installing(self) -> bool {
        self matches StandardPhase::Restoring { step, .. } && step is Installing
    }

    /// The local restore state is being captured.
    pub open spec fn is_capturing(self) -> bool {
        self matches StandardPhase::Restoring { step, .. } && step is Capturing
    }

    /// A checkpoint is being fetched.
    pub open spec fn is_fetching(self) -> bool {
        self matches StandardPhase::Restoring { step, .. } && step is PreparingRemote
    }
}

/// A run of the preparation in `mode`: `phases[i + 1]` is what `events[i]`
/// makes of `phases[i]`.
pub open spec fn is_preparation(
    graph: bool,
    mode: HaStartupMode,
    phases: Seq<StandardPhase>,
    events: Seq<StandardEvent>,
) -> bool {
    &&& phases.len() == events.len() + 1
    &&& phases[0] == begin_standard_preparation(mode)
    &&& forall|i: int|
        0 <= i < events.len() ==> (#[trigger] phases[i]).steps_to(graph, events[i], phases[i + 1])
}

/// The run without its last event is a run, and ends right before it.
proof fn shorter_preparation(
    graph: bool,
    mode: HaStartupMode,
    phases: Seq<StandardPhase>,
    events: Seq<StandardEvent>,
)
    requires
        is_preparation(graph, mode, phases, events),
        events.len() > 0,
    ensures
        is_preparation(graph, mode, phases.drop_last(), events.drop_last()),
        phases.drop_last().last() == phases[events.len() - 1],
        phases[events.len() - 1].steps_to(graph, events.last(), phases.last()),
{
    let before = phases.drop_last();
    let old_events = events.drop_last();
    assert forall|i: int| 0 <= i < old_events.len() implies (#[trigger] before[i]).steps_to(
        graph,
        old_events[i],
        before[i + 1],
    ) by {
        assert(phases[i].steps_to(graph, events[i], phases[i + 1]));
    }
    assert(phases[events.len() - 1].steps_to(
        graph,
        events[events.len() - 1],
        phases[events.len() - 1 + 1],
    ));
}

/// An event either changes nothing or moves preparation forward.
pub proof fn law_each_event_stutters_or_moves_preparation_forward(
    graph: bool,
    phase: StandardPhase,
    event: StandardEvent,
    next: StandardPhase,
)
    requires
        phase.steps_to(graph, event, next),
    ensures
        next == phase || phase.progress() < next.progress(),
{
}

/// Preparation never goes back, so no step of it is made twice: a checkpoint
/// is fetched and installed at most once, and nothing is fetched once the
/// installation has begun.
pub proof fn law_preparation_never_goes_back(
    graph: bool,
    mode: HaStartupMode,
    phases: Seq<StandardPhase>,
    events: Seq<StandardEvent>,
    early: int,
    late: int,
)
    requires
        is_preparation(graph, mode, phases, events),
        0 <= early <= late < phases.len(),
    ensures
        phases[early] == phases[late] || phases[early].progress() < phases[late].progress(),
        phases[early].is_installing() ==> !phases[late].is_fetching(),
        phases[early].is_installing() && phases[late].is_installing() ==> phases[early]
            == phases[late],
    decreases late - early,
{
    if early < late {
        law_preparation_never_goes_back(graph, mode, phases, events, early, late - 1);
        assert(phases[late - 1].steps_to(graph, events[late - 1], phases[late - 1 + 1]));
        law_each_event_stutters_or_moves_preparation_forward(
            graph,
            phases[late - 1],
            events[late - 1],
            phases[late],
        );
    }
}

/// The local restore state was captured at some point of the run.
pub open spec fn captured(events: Seq<StandardEvent>) -> bool {
    exists|i: int|
        0 <= i < events.len() && (#[trigger] events[i] matches StandardEvent::StateCaptured(result)
            && result is Ok)
}

/// This checkpoint was fetched at some point of the run.
pub open spec fn fetched(events: Seq<StandardEvent>, prepared: PreparedCheckpoint) -> bool {
    exists|i: int|
        0 <= i < events.len() && #[trigger] events[i] == StandardEvent::RemotePrepared(
            Ok(prepared),
        )
}

/// A checkpoint with this tip was installed at some point of the run.
pub open spec fn installed(events: Seq<StandardEvent>, tip: LogAnchor) -> bool {
    exists|i: int|
        0 <= i < events.len() && #[trigger] events[i] == StandardEvent::CheckpointInstalled(
            InstallOutcome::Installed(tip),
        )
}

/// The archive's checkpoint was read at some point of the run, and was this.
pub open spec fn loaded(events: Seq<StandardEvent>, checkpoint: CheckpointManifest) -> bool {
    exists|i: int|
        0 <= i < events.len() && #[trigger] events[i] == StandardEvent::CheckpointLoaded(
            Ok(Some(checkpoint)),
        )
}

/// The data directory was found fresh at some point of the run.
pub open spec fn found_fresh(events: Seq<StandardEvent>) -> bool {
    exists|i: int|
        0 <= i < events.len() && (#[trigger] events[i] matches StandardEvent::DataInspected(
            Ok(fresh),
        ) && fresh)
}

/// A marker in place was found to be the exact one at some point of the run.
pub open spec fn marker_validated(events: Seq<StandardEvent>) -> bool {
    exists|i: int|
        0 <= i < events.len() && (#[trigger] events[i] matches StandardEvent::MarkerValidated(
            result,
        ) && result is Ok)
}

/// The local recovery view was found wanting with this error at some point of
/// the run.
pub open spec fn distrusted(events: Seq<StandardEvent>, error: HaStartupError) -> bool {
    exists|i: int|
        0 <= i < events.len() && #[trigger] events[i] == StandardEvent::ViewValidated(Err(error))
}

/// What was seen stays seen.
proof fn events_grow(events: Seq<StandardEvent>)
    requires
        events.len() > 0,
    ensures
        captured(events.drop_last()) ==> captured(events),
        found_fresh(events.drop_last()) ==> found_fresh(events),
        marker_validated(events.drop_last()) ==> marker_validated(events),
        forall|prepared: PreparedCheckpoint| #[trigger]
            fetched(events.drop_last(), prepared) ==> fetched(events, prepared),
        forall|tip: LogAnchor| #[trigger]
            installed(events.drop_last(), tip) ==> installed(events, tip),
        forall|checkpoint: CheckpointManifest| #[trigger]
            loaded(events.drop_last(), checkpoint) ==> loaded(events, checkpoint),
        forall|error: HaStartupError| #[trigger]
            distrusted(events.drop_last(), error) ==> distrusted(events, error),
{
    let before = events.drop_last();
    if captured(before) {
        let i = choose|i: int|
            0 <= i < before.len() && (#[trigger] before[i] matches StandardEvent::StateCaptured(
                result,
            ) && result is Ok);
        assert(events[i] == before[i]);
    }
    if found_fresh(before) {
        let i = choose|i: int|
            0 <= i < before.len() && (#[trigger] before[i] matches StandardEvent::DataInspected(
                Ok(fresh),
            ) && fresh);
        assert(events[i] == before[i]);
    }
    if marker_validated(before) {
        let i = choose|i: int|
            0 <= i < before.len() && (#[trigger] before[i] matches StandardEvent::MarkerValidated(
                result,
            ) && result is Ok);
        assert(events[i] == before[i]);
    }
    assert forall|prepared: PreparedCheckpoint| #[trigger] fetched(before, prepared) implies fetched(
        events,
        prepared,
    ) by {
        let i = choose|i: int|
            0 <= i < before.len() && #[trigger] before[i] == StandardEvent::RemotePrepared(
                Ok(prepared),
            );
        assert(events[i] == before[i]);
    }
    assert forall|tip: LogAnchor| #[trigger] installed(before, tip) implies installed(
        events,
        tip,
    ) by {
        let i = choose|i: int|
            0 <= i < before.len() && #[trigger] before[i] == StandardEvent::CheckpointInstalled(
                InstallOutcome::Installed(tip),
            );
        assert(events[i] == before[i]);
    }
    assert forall|checkpoint: CheckpointManifest| #[trigger] loaded(before, checkpoint) implies loaded(
        events,
        checkpoint,
    ) by {
        let i = choose|i: int|
            0 <= i < before.len() && #[trigger] before[i] == StandardEvent::CheckpointLoaded(
                Ok(Some(checkpoint)),
            );
        assert(events[i] == before[i]);
    }
    assert forall|error: HaStartupError| #[trigger] distrusted(before, error) implies distrusted(
        events,
        error,
    ) by {
        let i = choose|i: int|
            0 <= i < before.len() && #[trigger] before[i] == StandardEvent::ViewValidated(
                Err(error),
            );
        assert(events[i] == before[i]);
    }
}

/// A recovery view is rebuilt only because it was found wanting, and what the
/// operator is then told is what was found.
pub proof fn law_a_rebuild_reports_what_is_wrong_with_the_view(
    graph: bool,
    mode: HaStartupMode,
    phases: Seq<StandardPhase>,
    events: Seq<StandardEvent>,
)
    requires
        is_preparation(graph, mode, phases, events),
    ensures
        phases.last() matches StandardPhase::Restoring { restore, .. } ==> if restore.kind
            == RestoreKind::RebuildView {
            restore.view_error matches Some(error) && distrusted(events, error) && (
            phases.last().is_capturing() ==> phases.last().spec_report() == Some(
                crate::prepare::view_report(error),
            ))
        } else {
            restore.view_error is None && phases.last().spec_report() is None
        },
    decreases events.len(),
{
    if events.len() > 0 {
        shorter_preparation(graph, mode, phases, events);
        law_a_rebuild_reports_what_is_wrong_with_the_view(
            graph,
            mode,
            phases.drop_last(),
            events.drop_last(),
        );
        events_grow(events);
        assert(events[events.len() - 1] == events.last());
    }
}

/// The local state is captured before a checkpoint is fetched, and a
/// checkpoint is installed only once it was fetched.
pub proof fn law_capture_comes_before_fetch_and_fetch_before_install(
    graph: bool,
    mode: HaStartupMode,
    phases: Seq<StandardPhase>,
    events: Seq<StandardEvent>,
)
    requires
        is_preparation(graph, mode, phases, events),
    ensures
        phases.last().is_fetching() ==> captured(events),
        phases.last() matches StandardPhase::Restoring { step, .. } ==> (step.prepared() matches
            Some(prepared) ==> captured(events) && fetched(events, prepared)),
    decreases events.len(),
{
    if events.len() > 0 {
        shorter_preparation(graph, mode, phases, events);
        law_capture_comes_before_fetch_and_fetch_before_install(
            graph,
            mode,
            phases.drop_last(),
            events.drop_last(),
        );
        events_grow(events);
        assert(events[events.len() - 1] == events.last());
    }
}

/// What a bootstrap has seen by the time it is in `phase`.
pub open spec fn bootstrap_evidence(phase: StandardPhase, events: Seq<StandardEvent>) -> bool {
    match phase {
        StandardPhase::LoadingBootstrapCheckpoint => found_fresh(events),
        StandardPhase::CheckingBootstrapCheckpoint { checkpoint } => found_fresh(events)
            && loaded(events, checkpoint),
        StandardPhase::WritingBootstrapMarker { identity } => found_fresh(events) && exists|
            checkpoint: CheckpointManifest,
        | #[trigger]
            loaded(events, checkpoint) && checkpoint.spec_is_empty() && checkpoint.identity
                == identity,
        StandardPhase::Done(Ok(_)) => found_fresh(events) && exists|
            checkpoint: CheckpointManifest,
        | #[trigger] loaded(events, checkpoint) && checkpoint.spec_is_empty(),
        _ => true,
    }
}

/// A bootstrap never restores anything, and succeeds only on a fresh data
/// directory with an empty checkpoint in the archive.
pub proof fn law_bootstrap_needs_a_fresh_directory_and_an_empty_checkpoint(
    graph: bool,
    phases: Seq<StandardPhase>,
    events: Seq<StandardEvent>,
)
    requires
        is_preparation(graph, HaStartupMode::Bootstrap, phases, events),
    ensures
        phases.last().is_bootstrap(),
        bootstrap_evidence(phases.last(), events),
    decreases events.len(),
{
    if events.len() > 0 {
        shorter_preparation(graph, HaStartupMode::Bootstrap, phases, events);
        law_bootstrap_needs_a_fresh_directory_and_an_empty_checkpoint(
            graph,
            phases.drop_last(),
            events.drop_last(),
        );
        events_grow(events);
        let last = events.last();
        assert(events[events.len() - 1] == last);
        if let StandardPhase::CheckingBootstrapCheckpoint { checkpoint } =
            phases.drop_last().last() {
            assert(loaded(events, checkpoint));
        }
    }
}

/// Where the log that a rejoin starts from comes from, by the time it is in
/// `phase`.
pub open spec fn rejoin_evidence(phase: StandardPhase, events: Seq<StandardEvent>) -> bool {
    match phase {
        StandardPhase::CheckingRecorder { checkpoint } => loaded(events, checkpoint),
        StandardPhase::LookingForMarker { checkpoint } => loaded(events, checkpoint),
        StandardPhase::LookingForRestore { checkpoint, .. } => loaded(events, checkpoint),
        StandardPhase::PreflightingRecorder { checkpoint, .. } => loaded(events, checkpoint),
        StandardPhase::RecoveringRecorder { checkpoint, .. } => loaded(events, checkpoint),
        StandardPhase::ValidatingMarker { checkpoint, .. } => loaded(events, checkpoint),
        StandardPhase::ValidatingView { checkpoint, .. } => loaded(events, checkpoint)
            && marker_validated(events),
        StandardPhase::Restoring { restore, step } => {
            &&& restore.kind != RestoreKind::Disaster
            &&& step matches RestoreStep::CheckingInstalled { tip, .. } ==> installed(events, tip)
            &&& step matches RestoreStep::ValidatingInstalled { tip, .. } ==> installed(events, tip)
        },
        StandardPhase::Done(Ok(StartupPreparation::RuntimeFirstWithPeerCatchup {
            checkpoint_root,
            ..
        })) => marker_validated(events) && (installed(events, checkpoint_root) || exists|
            checkpoint: CheckpointManifest,
        | #[trigger] loaded(events, checkpoint) && checkpoint.tip == checkpoint_root),
        StandardPhase::Done(Ok(StartupPreparation::VerifyLocalCheckpoint { identity, root })) => {
            marker_validated(events) && exists|checkpoint: CheckpointManifest| #[trigger]
                loaded(events, checkpoint) && checkpoint.identity == identity && checkpoint.tip
                    == root
        },
        StandardPhase::Done(Ok(StartupPreparation::RecorderFirst { .. })) => false,
        _ => true,
    }
}

/// A rejoin starts from the tip of the checkpoint that it installed or that
/// the archive holds, never without a validated marker, and never as a node
/// that needs no checkpoint.
pub proof fn law_rejoin_starts_from_a_validated_checkpoint(
    graph: bool,
    phases: Seq<StandardPhase>,
    events: Seq<StandardEvent>,
)
    requires
        is_preparation(graph, HaStartupMode::Rejoin, phases, events),
    ensures
        !(phases.last().is_bootstrap()) || phases.last() is Done,
        rejoin_evidence(phases.last(), events),
    decreases events.len(),
{
    if events.len() > 0 {
        shorter_preparation(graph, HaStartupMode::Rejoin, phases, events);
        law_rejoin_starts_from_a_validated_checkpoint(
            graph,
            phases.drop_last(),
            events.drop_last(),
        );
        events_grow(events);
        let last = events.last();
        assert(events[events.len() - 1] == last);
        if let StandardPhase::ValidatingView { checkpoint, .. } = phases.drop_last().last() {
            assert(loaded(events, checkpoint));
        }
    }
}

/// What a disaster recovery has seen by the time it is in `phase`.
pub open spec fn disaster_evidence(phase: StandardPhase, events: Seq<StandardEvent>) -> bool {
    match phase {
        StandardPhase::Restoring { restore, step } => {
            &&& restore.kind == RestoreKind::Disaster
            &&& restore.identity is None
            &&& step matches RestoreStep::CheckingInstalled { tip, .. } ==> installed(events, tip)
            &&& step matches RestoreStep::ValidatingInstalled { tip, .. } ==> installed(events, tip)
        },
        StandardPhase::Done(Ok(preparation)) => {
            &&& preparation is RecorderFirst
            &&& marker_validated(events)
            &&& exists|tip: LogAnchor| #[trigger] installed(events, tip)
        },
        StandardPhase::Done(Err(_)) => true,
        _ => false,
    }
}

/// A disaster recovery always restores, and succeeds only once a checkpoint
/// was installed and its marker validated.
pub proof fn law_disaster_recovery_always_installs(
    graph: bool,
    phases: Seq<StandardPhase>,
    events: Seq<StandardEvent>,
)
    requires
        is_preparation(graph, HaStartupMode::Disaster, phases, events),
    ensures
        disaster_evidence(phases.last(), events),
    decreases events.len(),
{
    if events.len() > 0 {
        shorter_preparation(graph, HaStartupMode::Disaster, phases, events);
        law_disaster_recovery_always_installs(graph, phases.drop_last(), events.drop_last());
        events_grow(events);
        let last = events.last();
        assert(events[events.len() - 1] == last);
        if let StandardPhase::Restoring { step: RestoreStep::ValidatingInstalled { tip, .. }, .. } =
            phases.drop_last().last() {
            assert(installed(events, tip));
        }
    }
}

/// An interrupted restore was found at some point of the run.
pub open spec fn found_interrupted(events: Seq<StandardEvent>) -> bool {
    exists|i: int|
        0 <= i < events.len() && #[trigger] events[i] == StandardEvent::RestoreFound(Ok(true))
}

/// What was found of an interrupted restore is what the phase goes by.
pub open spec fn goes_by_what_was_found(phase: StandardPhase, events: Seq<StandardEvent>) -> bool {
    match phase {
        StandardPhase::InspectingRejoinData => true,
        StandardPhase::CheckingRejoin => true,
        StandardPhase::LoadingRejoinCheckpoint => true,
        StandardPhase::CheckingRecorder { .. } => true,
        StandardPhase::LookingForMarker { .. } => true,
        StandardPhase::LookingForRestore { .. } => true,
        StandardPhase::PreflightingRecorder { interrupted, .. } => interrupted
            ==> found_interrupted(events),
        StandardPhase::RecoveringRecorder { interrupted, .. } => interrupted ==> found_interrupted(
            events,
        ),
        StandardPhase::Restoring { restore, .. } => restore.kind is Interrupted
            ==> found_interrupted(events),
        _ => true,
    }
}

/// Once the recorder of a rejoin is known, an interrupted restore that was
/// found is resumed: the phase is a restore of that kind, for the checkpoint
/// that was loaded and with that recorder, whatever the recorder is. Only where
/// none was found, the marker is validated.
pub proof fn law_an_interrupted_restore_is_resumed(
    graph: bool,
    phase: StandardPhase,
    event: StandardEvent,
    next: StandardPhase,
)
    requires
        phase.steps_to(graph, event, next),
    ensures
        phase matches StandardPhase::LookingForRestore { checkpoint, marked } ==> (event matches
            StandardEvent::RestoreFound(Ok(interrupted)) ==> if marked || interrupted {
            next == (StandardPhase::PreflightingRecorder { checkpoint, interrupted })
        } else {
            next matches StandardPhase::Done(Err(error)) && error.is_source(
                "rejoin requires a local checkpoint identity marker"@,
            )
        }),
        phase matches StandardPhase::PreflightingRecorder { checkpoint, interrupted } ==> (
        event matches StandardEvent::RecorderPreflighted(Ok(recorder)) ==> if recorder
            == LocalRecorderState::Recoverable {
            next == (StandardPhase::RecoveringRecorder { checkpoint, interrupted })
        } else if interrupted {
            next matches StandardPhase::Restoring { restore, step } && restore.kind == (
            RestoreKind::Interrupted { graph }) && restore.identity == Some(checkpoint.identity)
                && restore.recorder == recorder && restore.view_error is None && step is Checking
        } else {
            next == (StandardPhase::ValidatingMarker { checkpoint, recorder })
        }),
        phase matches StandardPhase::RecoveringRecorder { checkpoint, interrupted } ==> (
        event matches StandardEvent::RecorderRecovered(
            RecorderRecovery::Inspected(Ok(LocalRecorderState::Valid)),
        ) ==> if interrupted {
            next matches StandardPhase::Restoring { restore, step } && restore.kind == (
            RestoreKind::Interrupted { graph }) && restore.identity == Some(checkpoint.identity)
                && restore.recorder == LocalRecorderState::Valid && restore.view_error is None
                && step is Checking
        } else {
            next == (StandardPhase::ValidatingMarker {
                checkpoint,
                recorder: LocalRecorderState::Valid,
            })
        }),
        next is ValidatingMarker && !(phase is ValidatingMarker) ==> (phase matches
            StandardPhase::PreflightingRecorder { interrupted, .. } && !interrupted) || (
        phase matches StandardPhase::RecoveringRecorder { interrupted, .. } && !interrupted),
{
    if let StandardEvent::RecorderRecovered(recovery) = event {
        assert(recovery == RecorderRecovery::Inspected(Ok(LocalRecorderState::Valid)) ==> forall|
            result: Result<LocalRecorderState, HaStartupError>,
        |
            crate::prepare::recovery_verdict(recovery, result) ==> result == Ok::<
                LocalRecorderState,
                HaStartupError,
            >(LocalRecorderState::Valid));
    }
}

/// A rejoin that looked for an interrupted restore in `looked`, and found one,
/// resumes it: it learns of its recorder, restores the checkpoint that it held
/// then as one that was interrupted, or is over.
pub open spec fn resumes(graph: bool, looked: StandardPhase, phase: StandardPhase) -> bool {
    match phase {
        StandardPhase::PreflightingRecorder { checkpoint, interrupted } => interrupted
            && checkpoint == looked->LookingForRestore_checkpoint,
        StandardPhase::RecoveringRecorder { checkpoint, interrupted } => interrupted && checkpoint
            == looked->LookingForRestore_checkpoint,
        StandardPhase::Restoring { restore, .. } => restore.kind == (RestoreKind::Interrupted {
            graph,
        }) && restore.identity == Some(looked->LookingForRestore_checkpoint.identity),
        StandardPhase::Done(_) => true,
        _ => false,
    }
}

/// A rejoin that found no interrupted restore holds what it has against the
/// checkpoint, and restores only what it then finds wanting.
pub open spec fn validates(phase: StandardPhase) -> bool {
    match phase {
        StandardPhase::PreflightingRecorder { interrupted, .. } => !interrupted,
        StandardPhase::RecoveringRecorder { interrupted, .. } => !interrupted,
        StandardPhase::ValidatingMarker { .. } => true,
        StandardPhase::ValidatingView { .. } => true,
        StandardPhase::Restoring { restore, .. } => restore.kind == RestoreKind::RebuildView,
        StandardPhase::Done(_) => true,
        _ => false,
    }
}

/// In every rejoin in which an interrupted restore was found, nothing is
/// validated in its place: the marker is validated, and the view after it, only
/// where none was found, and a restore that was not asked for by the view, nor
/// by a fresh directory, resumes the interrupted one for the checkpoint that
/// was loaded.
pub proof fn law_a_rejoin_resumes_what_was_interrupted(
    graph: bool,
    phases: Seq<StandardPhase>,
    events: Seq<StandardEvent>,
)
    requires
        is_preparation(graph, HaStartupMode::Rejoin, phases, events),
    ensures
        forall|i: int|
            0 <= i < events.len() && events[i] == StandardEvent::RestoreFound(Ok(true))
                && #[trigger] phases[i] is LookingForRestore ==> resumes(
                graph,
                phases[i],
                phases.last(),
            ),
        forall|i: int|
            0 <= i < events.len() && events[i] == StandardEvent::RestoreFound(Ok(false))
                && #[trigger] phases[i] is LookingForRestore ==> validates(phases.last()),
        goes_by_what_was_found(phases.last(), events),
    decreases events.len(),
{
    if events.len() > 0 {
        let before = phases.drop_last();
        let old_events = events.drop_last();
        let n = events.len() - 1;
        shorter_preparation(graph, HaStartupMode::Rejoin, phases, events);
        law_a_rejoin_resumes_what_was_interrupted(graph, before, old_events);
        law_an_interrupted_restore_is_resumed(graph, phases[n], events[n], phases[n + 1]);
        assert forall|i: int|
            0 <= i < events.len() && events[i] == StandardEvent::RestoreFound(Ok(true))
                && #[trigger] phases[i] is LookingForRestore implies resumes(
            graph,
            phases[i],
            phases.last(),
        ) by {
            if i < n {
                assert(before[i] == phases[i] && old_events[i] == events[i]);
            }
        }
        assert forall|i: int|
            0 <= i < events.len() && events[i] == StandardEvent::RestoreFound(Ok(false))
                && #[trigger] phases[i] is LookingForRestore implies validates(phases.last()) by {
            if i < n {
                assert(before[i] == phases[i] && old_events[i] == events[i]);
            }
        }
        if found_interrupted(old_events) {
            let i = choose|i: int|
                0 <= i < old_events.len() && #[trigger] old_events[i]
                    == StandardEvent::RestoreFound(Ok(true));
            assert(events[i] == old_events[i]);
        }
        assert(events[n] == events.last());
    }
}

/// Preparation waits for this event.
pub open spec fn is_awaited(phase: StandardPhase, event: StandardEvent) -> bool {
    match phase {
        StandardPhase::CheckingBootstrap
        | StandardPhase::CheckingBootstrapCheckpoint { .. }
        | StandardPhase::CheckingRejoin
        | StandardPhase::CheckingRecorder { .. } => event is Checked,
        StandardPhase::InspectingBootstrapData | StandardPhase::InspectingRejoinData => event
            is DataInspected,
        StandardPhase::LoadingBootstrapCheckpoint | StandardPhase::LoadingRejoinCheckpoint => event
            is CheckpointLoaded,
        StandardPhase::WritingBootstrapMarker { .. } => event is MarkerWritten,
        StandardPhase::LookingForMarker { .. } => event is MarkerFound,
        StandardPhase::LookingForRestore { .. } => event is RestoreFound,
        StandardPhase::PreflightingRecorder { .. } => event is RecorderPreflighted,
        StandardPhase::RecoveringRecorder { .. } => event is RecorderRecovered,
        StandardPhase::ValidatingMarker { .. } => event is MarkerValidated,
        StandardPhase::ValidatingView { .. } => event is ViewValidated,
        StandardPhase::Restoring { step, .. } => match step {
            RestoreStep::Checking
            | RestoreStep::CheckingPrepared { .. }
            | RestoreStep::CheckingInstalled { .. } => event is Checked,
            RestoreStep::Capturing => event is StateCaptured,
            RestoreStep::PreparingRemote => event is RemotePrepared,
            RestoreStep::LookingForMarker { .. } => event is MarkerFound,
            RestoreStep::LookingForRestore { .. } => event is RestoreFound,
            RestoreStep::InspectingData { .. } => event is DataInspected,
            RestoreStep::Encoding { .. } => event is MarkerEncoded,
            RestoreStep::Installing { .. } => event is CheckpointInstalled,
            RestoreStep::ValidatingInstalled { .. } => event is MarkerValidated,
        },
        StandardPhase::Done(_) => false,
    }
}

/// The failure that the event brings, if it brings one of startup.
pub open spec fn brought(event: StandardEvent) -> Option<HaStartupError> {
    match event {
        StandardEvent::Checked(Err(error)) => Some(error),
        StandardEvent::DataInspected(Err(error)) => Some(error),
        StandardEvent::CheckpointLoaded(Err(error)) => Some(error),
        StandardEvent::MarkerWritten(Err(error)) => Some(error),
        StandardEvent::MarkerFound(Err(error)) => Some(error),
        StandardEvent::RestoreFound(Err(error)) => Some(error),
        StandardEvent::RecorderRecovered(RecorderRecovery::NotAdmitted(error)) => Some(error),
        StandardEvent::MarkerValidated(Err(error)) => Some(error),
        StandardEvent::StateCaptured(Err(error)) => Some(error),
        StandardEvent::RemotePrepared(Err(error)) => Some(error),
        StandardEvent::MarkerEncoded(Err(error)) => Some(error),
        StandardEvent::CheckpointInstalled(InstallOutcome::NotAdmitted(error)) => Some(error),
        _ => None,
    }
}

/// Every failure of what preparation waits for ends it with that very failure.
/// Only a recovery view that is found wanting is no failure: the checkpoint is
/// restored in its place. What is not waited for changes nothing.
pub proof fn law_preparation_fails_as_it_was_told(
    graph: bool,
    phase: StandardPhase,
    event: StandardEvent,
    next: StandardPhase,
)
    requires
        phase.steps_to(graph, event, next),
    ensures
        !is_awaited(phase, event) ==> next == phase,
        is_awaited(phase, event) ==> (brought(event) matches Some(error) ==> next
            == StandardPhase::Done(Err(error))),
        phase matches StandardPhase::ValidatingView { checkpoint, recorder } ==> (event matches
            StandardEvent::ViewValidated(Err(error)) ==> (next matches StandardPhase::Restoring {
            restore,
            step,
        } && restore.kind == RestoreKind::RebuildView && restore.identity == Some(
            checkpoint.identity,
        ) && restore.recorder == recorder && restore.view_error == Some(error) && step
            is Checking)),
{
    if let StandardEvent::RecorderRecovered(RecorderRecovery::NotAdmitted(error)) = event {
        assert(forall|result: Result<LocalRecorderState, HaStartupError>|
            crate::prepare::recovery_verdict(RecorderRecovery::NotAdmitted(error), result)
                ==> result == Err::<LocalRecorderState, HaStartupError>(error));
    }
}

/// Why preparation refuses, in its own words, where the outside work it waited
/// for went well or gave only a message.
pub proof fn law_preparation_says_what_it_lacks(
    graph: bool,
    phase: StandardPhase,
    event: StandardEvent,
    next: StandardPhase,
)
    requires
        phase.steps_to(graph, event, next),
    ensures
        phase is InspectingBootstrapData && event == StandardEvent::DataInspected(Ok(false)) ==> (
        next matches StandardPhase::Done(Err(error)) && error.is_source(
            "bootstrap requires a fresh local data directory"@,
        )),
        phase is LoadingBootstrapCheckpoint && event == StandardEvent::CheckpointLoaded(Ok(None))
            ==> (next matches StandardPhase::Done(Err(error)) && error.is_source(
            "bootstrap requires an initialized empty checkpoint"@,
        )),
        phase is LoadingRejoinCheckpoint && event == StandardEvent::CheckpointLoaded(Ok(None)) ==> (
        next matches StandardPhase::Done(Err(error)) && error.is_source(
            "rejoin requires an initialized checkpoint"@,
        )),
        phase matches StandardPhase::CheckingBootstrapCheckpoint { checkpoint } ==> (event matches
            StandardEvent::Checked(Ok(_)) ==> if checkpoint.tip.index == 0
            && checkpoint.segments_empty {
            next == (StandardPhase::WritingBootstrapMarker { identity: checkpoint.identity })
        } else {
            next matches StandardPhase::Done(Err(error)) && error.is_source(
                "bootstrap requires an initialized empty checkpoint"@,
            )
        }),
        phase matches StandardPhase::PreflightingRecorder { .. } ==> (event matches
            StandardEvent::RecorderPreflighted(Err(message)) ==> (next matches StandardPhase::Done(
            Err(error),
        ) && error.is_source("local recorder is not trustworthy: "@ + message@))),
        phase matches StandardPhase::RecoveringRecorder { .. } ==> (event matches
            StandardEvent::RecorderRecovered(recovery) ==> match recovery {
            RecorderRecovery::NotAdmitted(_) => true,
            RecorderRecovery::OpenFailed(message) => next matches StandardPhase::Done(Err(error))
                && error.is_source("local recorder crash recovery failed: "@ + message@),
            RecorderRecovery::Inspected(Err(message)) => next matches StandardPhase::Done(
                Err(error),
            ) && error.is_source("local recorder is not trustworthy: "@ + message@),
            RecorderRecovery::Inspected(Ok(LocalRecorderState::Valid)) => true,
            RecorderRecovery::Inspected(Ok(LocalRecorderState::Missing)) => next matches
                StandardPhase::Done(Err(error)) && error.is_source(
                "local recorder crash recovery did not produce a valid recorder: "@ + "Missing"@,
            ),
            RecorderRecovery::Inspected(Ok(LocalRecorderState::Recoverable)) => next matches
                StandardPhase::Done(Err(error)) && error.is_source(
                "local recorder crash recovery did not produce a valid recorder: "@
                    + "Recoverable"@,
            ),
        }),
        phase matches StandardPhase::Restoring { restore, step } ==> {
            &&& step is InspectingData && event == StandardEvent::DataInspected(Ok(false)) ==> (
            next matches StandardPhase::Done(Err(error)) && error.is_source(
                "disaster startup requires a fresh local data directory"@,
            ))
            &&& step is Installing ==> (event matches StandardEvent::CheckpointInstalled(
                InstallOutcome::Failed(message),
            ) ==> (next matches StandardPhase::Done(Err(error)) && error.is_source(
                if restore.kind == RestoreKind::RebuildView {
                    "rebuildable local recovery view could not be quarantined and restored from the verified checkpoint: "@
                        + message@
                } else {
                    message@
                },
            )))
        },
{
}

/// How a bootstrap or a rejoin that meets no failure goes on, up to the
/// recorder: nothing that was read on the way is lost.
pub proof fn law_preparation_takes_its_steps_in_order(
    graph: bool,
    phase: StandardPhase,
    event: StandardEvent,
    next: StandardPhase,
)
    requires
        phase.steps_to(graph, event, next),
    ensures
        phase is CheckingBootstrap ==> (event matches StandardEvent::Checked(Ok(_)) ==> next
            is InspectingBootstrapData),
        phase is InspectingBootstrapData && event == StandardEvent::DataInspected(Ok(true)) ==> next
            is LoadingBootstrapCheckpoint,
        phase is LoadingBootstrapCheckpoint ==> (event matches StandardEvent::CheckpointLoaded(
            Ok(Some(loaded)),
        ) ==> (next matches StandardPhase::CheckingBootstrapCheckpoint { checkpoint } && checkpoint
            == loaded)),
        phase is WritingBootstrapMarker ==> (event matches StandardEvent::MarkerWritten(Ok(_))
            ==> next == StandardPhase::Done(
            Ok(
                StartupPreparation::RecorderFirst {
                    open_policy: RecorderOpenPolicy::CreateAfterRehydration,
                },
            ),
        )),
        phase is InspectingRejoinData ==> (event matches StandardEvent::DataInspected(Ok(fresh))
            ==> if fresh {
            next matches StandardPhase::Restoring { restore, step } && restore.kind
                == RestoreKind::FreshRejoin && restore.identity is None && restore.recorder
                == LocalRecorderState::Missing && restore.view_error is None && step is Checking
        } else {
            next is CheckingRejoin
        }),
        phase is CheckingRejoin ==> (event matches StandardEvent::Checked(Ok(_)) ==> next
            is LoadingRejoinCheckpoint),
        phase is LoadingRejoinCheckpoint ==> (event matches StandardEvent::CheckpointLoaded(
            Ok(Some(loaded)),
        ) ==> (next matches StandardPhase::CheckingRecorder { checkpoint } && checkpoint
            == loaded)),
        phase matches StandardPhase::CheckingRecorder { checkpoint } ==> (event matches
            StandardEvent::Checked(Ok(_)) ==> next == (StandardPhase::LookingForMarker {
            checkpoint,
        })),
        phase matches StandardPhase::LookingForMarker { checkpoint } ==> (event matches
            StandardEvent::MarkerFound(Ok(found)) ==> next == (StandardPhase::LookingForRestore {
            checkpoint,
            marked: found,
        })),
        phase matches StandardPhase::ValidatingMarker { checkpoint, recorder } ==> (event matches
            StandardEvent::MarkerValidated(Ok(_)) ==> next == (StandardPhase::ValidatingView {
            checkpoint,
            recorder,
        })),
{
}

/// A rejoin whose own state holds the checkpoint starts from the checkpoint's
/// tip: from its recorder where there is one, and from its peers where there is
/// none, creating the recorder then.
pub proof fn law_a_rejoin_without_a_recorder_catches_up_from_its_peers(
    graph: bool,
    phase: StandardPhase,
    event: StandardEvent,
    next: StandardPhase,
)
    requires
        phase.steps_to(graph, event, next),
        phase is ValidatingView,
        event matches StandardEvent::ViewValidated(result) && result is Ok,
    ensures
        next is Done,
        phase matches StandardPhase::ValidatingView { checkpoint, recorder } ==> (next matches
            StandardPhase::Done(Ok(preparation)) && match preparation {
            StartupPreparation::RecorderFirst { .. } => false,
            StartupPreparation::RuntimeFirstWithPeerCatchup { checkpoint_root, open_policy } => {
                recorder == LocalRecorderState::Missing && checkpoint_root == checkpoint.tip
                    && open_policy == RecorderOpenPolicy::CreateAfterRehydration
            },
            StartupPreparation::VerifyLocalCheckpoint { identity, root } => recorder
                != LocalRecorderState::Missing && identity == checkpoint.identity && root
                == checkpoint.tip,
        }),
{
}

/// How a restore that meets no failure goes on: it captures the local state,
/// fetches the checkpoint, encodes the marker, installs both, and validates
/// what it installed. A disaster looks at what is there between the fetch and
/// the marker, and needs a fresh directory unless it was interrupted. The
/// restore itself stays what it is, and so do the checkpoint that was fetched
/// and the tip that was installed.
pub proof fn law_a_restore_takes_its_steps_in_order(
    graph: bool,
    phase: StandardPhase,
    event: StandardEvent,
    next: StandardPhase,
)
    requires
        phase.steps_to(graph, event, next),
    ensures
        phase matches StandardPhase::Restoring { restore, step } ==> {
            &&& next matches StandardPhase::Restoring { restore: kept, .. } ==> kept == restore
            &&& next is Restoring || next is Done
            &&& next matches StandardPhase::Restoring { step: reached, .. } ==> {
                &&& step.prepared() matches Some(prepared) ==> reached.prepared() == Some(prepared)
                &&& step is Checking ==> (event matches StandardEvent::Checked(Ok(_)) ==> reached
                    is Capturing)
                &&& step is Capturing ==> (event matches StandardEvent::StateCaptured(Ok(_))
                    ==> reached is PreparingRemote)
                &&& step is PreparingRemote ==> (event matches StandardEvent::RemotePrepared(
                    Ok(prepared),
                ) ==> reached.prepared() == Some(prepared) && (reached is CheckingPrepared
                    <==> restore.kind == RestoreKind::Disaster) && (reached is Encoding
                    <==> restore.kind != RestoreKind::Disaster))
                &&& step is CheckingPrepared ==> (event matches StandardEvent::Checked(Ok(_))
                    ==> reached is LookingForMarker)
                &&& step is LookingForMarker ==> (event matches StandardEvent::MarkerFound(Ok(_))
                    ==> reached is LookingForRestore)
                &&& step is LookingForRestore ==> (event matches StandardEvent::RestoreFound(
                    Ok(interrupted),
                ) ==> (reached is Encoding <==> interrupted) && (reached is InspectingData
                    <==> !interrupted))
                &&& step is InspectingData && event == StandardEvent::DataInspected(Ok(true))
                    ==> reached is Encoding
                &&& step is Encoding ==> (event matches StandardEvent::MarkerEncoded(Ok(_))
                    ==> reached is Installing)
                &&& step is Installing ==> (event matches StandardEvent::CheckpointInstalled(
                    InstallOutcome::Installed(at),
                ) ==> (reached matches RestoreStep::CheckingInstalled { tip, .. } && tip == at))
                &&& step matches RestoreStep::CheckingInstalled { tip: at, .. } ==> (event matches
                    StandardEvent::Checked(Ok(_)) ==> (reached matches
                    RestoreStep::ValidatingInstalled { tip, .. } && tip == at))
            }
            &&& is_awaited(phase, event) && !(next is Restoring) ==> step is ValidatingInstalled || (
            next matches StandardPhase::Done(result) && result is Err)
            &&& is_awaited(phase, event) && brought(event) is None && !(event
                == StandardEvent::DataInspected(Ok(false))) && !(event matches
                StandardEvent::CheckpointInstalled(InstallOutcome::Failed(_))) && !(step
                is ValidatingInstalled) ==> next is Restoring
        },
{
}

/// What a restore comes to: after a disaster the recorder takes part at once;
/// after any other restore the runtime catches up from the tip that was
/// installed, and the recorder is created only where none was found.
pub proof fn law_a_restore_starts_from_the_tip_it_installed(
    graph: bool,
    phase: StandardPhase,
    event: StandardEvent,
    next: StandardPhase,
)
    requires
        phase.steps_to(graph, event, next),
        event matches StandardEvent::MarkerValidated(result) && result is Ok,
    ensures
        phase matches StandardPhase::Restoring {
            restore,
            step: RestoreStep::ValidatingInstalled { tip, .. },
        } ==> (next matches StandardPhase::Done(Ok(preparation)) && match preparation {
            StartupPreparation::RecorderFirst { open_policy } => restore.kind
                == RestoreKind::Disaster && open_policy
                == RecorderOpenPolicy::CreateAfterRehydration,
            StartupPreparation::RuntimeFirstWithPeerCatchup { checkpoint_root, open_policy } => {
                restore.kind != RestoreKind::Disaster && checkpoint_root == tip && (open_policy
                    == RecorderOpenPolicy::CreateAfterRehydration <==> restore.recorder
                    == LocalRecorderState::Missing)
            },
            StartupPreparation::VerifyLocalCheckpoint { .. } => false,
        }),
{
}

/// Only a rejoin that was not fresh, and not one of interrupted graph state,
/// keeps its recorder through an installation.
pub proof fn law_only_a_rejoin_with_a_past_keeps_its_recorder(kind: RestoreKind)
    ensures
        kind.install_mode() == CheckpointInstallMode::RejoinPreservingRecorder <==> (kind
            == RestoreKind::RebuildView || kind == (RestoreKind::Interrupted { graph: false })),
{
}

/// A marker that was installed is held against the checkpoint that the restore
/// is of, where that was known beforehand, and against the one that was fetched
/// otherwise.
pub proof fn law_a_restore_validates_the_checkpoint_that_it_is_of(
    restore: Restore,
    prepared: PreparedCheckpoint,
)
    ensures
        restore.identity matches Some(identity) ==> restore.authoritative(prepared) == identity,
        restore.identity is None ==> restore.authoritative(prepared) == prepared.identity,
{
}

/// Preparation begins where its mode says: only a disaster restores at once,
/// for no checkpoint known beforehand and without a recorder.
pub proof fn law_preparation_begins_where_its_mode_says(mode: HaStartupMode)
    ensures
        begin_standard_preparation(mode) is CheckingBootstrap <==> mode == HaStartupMode::Bootstrap,
        begin_standard_preparation(mode) is InspectingRejoinData <==> mode == HaStartupMode::Rejoin,
        mode == HaStartupMode::Disaster ==> (begin_standard_preparation(mode) matches
            StandardPhase::Restoring { restore, step } && restore.kind == RestoreKind::Disaster
            && restore.identity is None && restore.recorder == LocalRecorderState::Missing
            && restore.view_error is None && step is Checking),
{
}

/// The words by which startup is asked about a stage, and local I/O admitted
/// for one, name what is being done.
pub proof fn law_a_stage_is_named_for_what_is_done(phase: StandardPhase, graph: bool)
    ensures
        phase.spec_check_stage() == match phase {
            StandardPhase::CheckingBootstrap => Some("bootstrap local data inspection"@),
            StandardPhase::CheckingBootstrapCheckpoint { .. } => Some(
                "bootstrap checkpoint validation"@,
            ),
            StandardPhase::CheckingRejoin => Some("rejoin checkpoint inspection"@),
            StandardPhase::CheckingRecorder { .. } => Some("recorder preflight and recovery"@),
            StandardPhase::Restoring { restore, step } => match step {
                RestoreStep::Checking => Some(restore.kind.spec_begin_stage()),
                RestoreStep::CheckingPrepared { .. } => Some("disaster restore preparation"@),
                RestoreStep::CheckingInstalled { .. } => Some(
                    restore.kind.spec_validation_stage(),
                ),
                _ => None,
            },
            _ => None,
        },
        RestoreKind::FreshRejoin.spec_begin_stage() == "rejoin checkpoint restore"@,
        (RestoreKind::Interrupted { graph }).spec_begin_stage()
            == "rejoin interrupted checkpoint restore"@,
        RestoreKind::RebuildView.spec_begin_stage() == "rejoin recovery-view restore"@,
        RestoreKind::Disaster.spec_begin_stage() == "disaster checkpoint inspection"@,
        RestoreKind::FreshRejoin.spec_validation_stage() == "rejoin checkpoint marker validation"@,
        (RestoreKind::Interrupted { graph }).spec_validation_stage()
            == "rejoin restored checkpoint validation"@,
        RestoreKind::RebuildView.spec_validation_stage() == "rejoin recovery-view validation"@,
        RestoreKind::Disaster.spec_validation_stage() == "disaster checkpoint validation"@,
        RestoreKind::FreshRejoin.spec_install_stage() == "fresh rejoin checkpoint install"@,
        (RestoreKind::Interrupted { graph: true }).spec_install_stage()
            == "interrupted graph rejoin checkpoint install"@,
        (RestoreKind::Interrupted { graph: false }).spec_install_stage()
            == "interrupted rejoin checkpoint install"@,
        RestoreKind::RebuildView.spec_install_stage() == "rebuildable rejoin checkpoint install"@,
        RestoreKind::Disaster.spec_install_stage() == "disaster checkpoint install"@,
{
}

/// What holds of a step of a preparation holds of the function that takes it.
pub proof fn law_a_node_is_prepared_by_its_steps(
    graph: bool,
    phase: StandardPhase,
    event: StandardEvent,
    next: StandardPhase,
)
    requires
        call_ensures(crate::prepare::prepare_standard, (graph, phase, event), next),
    ensures
        phase.steps_to(graph, event, next),
{
}

/// A recorder is what its preflight found, and one whose preflight failed is not
/// trusted.
pub proof fn law_a_recorder_that_cannot_be_read_is_not_trusted(
    preflight: Result<LocalRecorderState, String>,
    result: Result<LocalRecorderState, HaStartupError>,
)
    requires
        call_ensures(crate::prepare::preflight_local_recorder, (preflight,), result),
    ensures
        preflight matches Ok(found) ==> result == Ok::<LocalRecorderState, HaStartupError>(found),
        preflight matches Err(message) ==> (result matches Err(HaStartupError::Source(told))
            && told@ == "local recorder is not trustworthy: "@ + message@),
{
}

/// A checkpoint is empty exactly where its tip never moved and it has no
/// segments.
pub proof fn law_an_empty_checkpoint_has_neither_tip_nor_segments(
    manifest: CheckpointManifest,
    empty: bool,
)
    requires
        call_ensures(CheckpointManifest::is_empty, (&manifest,), empty),
    ensures
        empty <==> manifest.tip.index == 0 && manifest.segments_empty,
        empty == manifest.spec_is_empty(),
{
}

/// The operator is told of a crashed recorder before its recovery.
pub proof fn law_a_recovery_is_told_in_these_words(report: String)
    requires
        call_ensures(crate::prepare::recorder_recovery_report, (), report),
    ensures
        report@
            == "local recorder has normal crash artifacts; completing locked recorder recovery before rebuilding local views"@,
        report@ == crate::prepare::recovery_report(),
{
}

} // verus!
