//! The way from a prepared startup to an opened node.
use crate::error::{HaNodeError, HaStartupError};
use crate::open::{HaOpenError, OpenEffect};
use crate::preparation::StartupPreparation;
use crate::token::{shutdown_deadline, ShutdownSignal};
use vstd::prelude::*;

verus! {

/// A runtime that was opened and is not owned by a node yet.
#[derive(Clone, Copy, Debug, PartialEq, Eq, Structural)]
pub struct PendingHaRuntime {
    pub present: bool,
}

/// How opening failed, and whether the runtime's operations are cancelled.
#[derive(Debug)]
pub struct PendingFailure {
    pub error: HaOpenError,
    pub cancel_runtime: bool,
}

impl PendingHaRuntime {
    /// Opening failed with `error`.
    pub fn fail(self, error: HaStartupError) -> (failure: PendingFailure)
        ensures
            failure.error == HaOpenError::of_startup(error),
            failure.cancel_runtime == self.present,
    {
        PendingFailure {
            error: HaOpenError::Startup { error, cleanup: Ok(()) },
            cancel_runtime: self.present,
        }
    }

    /// Opening was cancelled after `prior` had been cleaned up.
    pub fn cancel(self, deadline: u64, prior: Result<(), HaNodeError>) -> (failure: PendingFailure)
        ensures
            failure.error == (HaOpenError::Cancelled { deadline, cleanup: prior }),
            failure.cancel_runtime == self.present,
    {
        PendingFailure {
            error: HaOpenError::Cancelled { deadline, cleanup: prior },
            cancel_runtime: self.present,
        }
    }

    /// Opening failed below; what had been cleaned up there is kept.
    pub fn merge(self, error: HaOpenError) -> (failure: PendingFailure)
        ensures
            failure.error == error,
            failure.cancel_runtime == self.present,
    {
        PendingFailure { error, cancel_runtime: self.present }
    }
}

/// Where opening a prepared node stands.
#[derive(Debug)]
pub enum OpenPhase {
    /// Consensus is built.
    BuildingConsensus,
    /// The runtime is opened, and tried again while its quorum is not there.
    OpeningRuntime,
    /// The local log is held against the checkpoint.
    VerifyingCheckpoint,
    /// The recorder is rehydrated from the runtime.
    RehydratingRecorder,
    /// The checkpoint coordinator is opened.
    OpeningCoordinator,
    /// The coordinator is open; a shutdown may have come meanwhile.
    CoordinatorOpen,
    /// The runtime is asked how far it has applied the log.
    ReadingAppliedIndex,
    Done(Result<(), HaOpenError>),
}

/// Opening a prepared node.
#[derive(Debug)]
pub struct OpeningNode {
    pub phase: OpenPhase,
    pub preparation: StartupPreparation,
    /// The node succeeds a predecessor with a Stop.
    pub has_successor_stop: bool,
}

/// What opening a prepared node can see happen.
pub enum OpenEvent {
    ConsensusBuilt(Result<(), HaStartupError>),
    RuntimeOpened(Result<(), HaOpenError>),
    CheckpointVerified(Result<(), HaStartupError>),
    RecorderRehydrated(Result<(), HaOpenError>),
    /// The shutdown signal changed, or its sender is gone.
    ShutdownChanged { closed: bool, signal: ShutdownSignal, now: u64 },
    /// The coordinator is open, with a durable tip at this index.
    CoordinatorOpened(Result<u64, String>),
    /// The shutdown in force once the coordinator was open.
    CoordinatorSettled { signal: ShutdownSignal },
    AppliedIndexRead(Result<u64, String>),
}

impl OpeningNode {
    /// Only the phase changes, to `phase`, with these effects.
    pub open spec fn moves(
        self,
        phase: OpenPhase,
        asked: Seq<OpenEffect>,
        next: OpeningNode,
        effects: Seq<OpenEffect>,
    ) -> bool {
        next == (OpeningNode { phase, ..self }) && effects == asked
    }

    /// Opening fails with `error`; the runtime that is open is cancelled.
    pub open spec fn fails(
        self,
        error: HaOpenError,
        next: OpeningNode,
        effects: Seq<OpenEffect>,
    ) -> bool {
        self.moves(
            OpenPhase::Done(Err(error)),
            seq![OpenEffect::CancelRuntime],
            next,
            effects,
        )
    }

    /// `next` and `effects` are what `event` makes of this.
    pub open spec fn steps_to(
        self,
        event: OpenEvent,
        next: OpeningNode,
        effects: Seq<OpenEffect>,
    ) -> bool {
        match (self.phase, event) {
            (OpenPhase::BuildingConsensus, OpenEvent::ConsensusBuilt(result)) => match result {
                Ok(_) => self.moves(OpenPhase::OpeningRuntime, Seq::empty(), next, effects),
                Err(error) => self.moves(
                    OpenPhase::Done(Err(HaOpenError::of_startup(error))),
                    Seq::empty(),
                    next,
                    effects,
                ),
            },
            (OpenPhase::OpeningRuntime, OpenEvent::RuntimeOpened(result)) => match result {
                Ok(_) => self.moves(
                    if self.preparation is RecorderFirst {
                        OpenPhase::OpeningCoordinator
                    } else {
                        OpenPhase::VerifyingCheckpoint
                    },
                    Seq::empty(),
                    next,
                    effects,
                ),
                Err(error) => self.moves(
                    OpenPhase::Done(Err(error)),
                    Seq::empty(),
                    next,
                    effects,
                ),
            },
            (OpenPhase::VerifyingCheckpoint, OpenEvent::CheckpointVerified(result)) => {
                match result {
                    Ok(_) => self.moves(
                        if self.preparation is RuntimeFirstWithPeerCatchup {
                            OpenPhase::RehydratingRecorder
                        } else {
                            OpenPhase::OpeningCoordinator
                        },
                        Seq::empty(),
                        next,
                        effects,
                    ),
                    Err(error) => self.fails(HaOpenError::of_startup(error), next, effects),
                }
            },
            (OpenPhase::RehydratingRecorder, OpenEvent::RecorderRehydrated(result)) => {
                match result {
                    Ok(_) => self.moves(
                        OpenPhase::OpeningCoordinator,
                        seq![OpenEffect::ActivateRecorder],
                        next,
                        effects,
                    ),
                    Err(error) => self.fails(error, next, effects),
                }
            },
            (
                OpenPhase::OpeningCoordinator,
                OpenEvent::ShutdownChanged { closed, signal, now },
            ) => if closed || signal is Some {
                self.fails(
                    HaOpenError::of_cancellation(crate::token::deadline_of(signal, now)),
                    next,
                    effects,
                )
            } else {
                self.moves(self.phase, Seq::empty(), next, effects)
            },
            (OpenPhase::OpeningCoordinator, OpenEvent::CoordinatorOpened(result)) => match result {
                Ok(durable_tip) => self.moves(
                    OpenPhase::CoordinatorOpen,
                    if self.has_successor_stop && durable_tip == 0 {
                        seq![OpenEffect::RequireBaseline]
                    } else {
                        Seq::empty()
                    },
                    next,
                    effects,
                ),
                Err(message) => self.fails(
                    HaOpenError::of_startup(HaStartupError::Source(message)),
                    next,
                    effects,
                ),
            },
            (OpenPhase::CoordinatorOpen, OpenEvent::CoordinatorSettled { signal }) => {
                match signal {
                    Some(token) => self.fails(
                        HaOpenError::of_cancellation(token.spec_deadline()),
                        next,
                        effects,
                    ),
                    None => self.moves(
                        OpenPhase::ReadingAppliedIndex,
                        Seq::empty(),
                        next,
                        effects,
                    ),
                }
            },
            (OpenPhase::ReadingAppliedIndex, OpenEvent::AppliedIndexRead(result)) => match result {
                Ok(applied) => self.moves(
                    OpenPhase::Done(Ok(())),
                    seq![OpenEffect::NoteRecovered(applied)],
                    next,
                    effects,
                ),
                Err(message) => self.fails(
                    HaOpenError::of_startup(HaStartupError::Source(message)),
                    next,
                    effects,
                ),
            },
            _ => self.moves(self.phase, Seq::empty(), next, effects),
        }
    }
}

fn quiet(phase: OpenPhase) -> (step: (OpenPhase, Vec<OpenEffect>))
    ensures
        step.0 == phase,
        step.1@ == Seq::<OpenEffect>::empty(),
{
    (phase, Vec::new())
}

fn asking(phase: OpenPhase, effect: OpenEffect) -> (step: (OpenPhase, Vec<OpenEffect>))
    ensures
        step.0 == phase,
        step.1@ == seq![effect],
{
    let mut effects: Vec<OpenEffect> = Vec::new();
    effects.push(effect);
    (phase, effects)
}

fn failing(failure: PendingFailure) -> (step: (OpenPhase, Vec<OpenEffect>))
    requires
        failure.cancel_runtime,
    ensures
        step.0 == OpenPhase::Done(Err(failure.error)),
        step.1@ == seq![OpenEffect::CancelRuntime],
{
    asking(OpenPhase::Done(Err(failure.error)), OpenEffect::CancelRuntime)
}

/// Advances opening a prepared node by one event. An event that it does not
/// wait for leaves it as it is.
pub fn open_inner(opening: OpeningNode, event: OpenEvent) -> (step: (OpeningNode, Vec<OpenEffect>))
    ensures
        opening.steps_to(event, step.0, step.1@),
{
    let OpeningNode { phase, preparation, has_successor_stop } = opening;
    let pending = PendingHaRuntime { present: true };
    let step = match (phase, event) {
        (OpenPhase::BuildingConsensus, OpenEvent::ConsensusBuilt(result)) => match result {
            Ok(()) => quiet(OpenPhase::OpeningRuntime),
            Err(error) => quiet(
                OpenPhase::Done(Err(HaOpenError::Startup { error, cleanup: Ok(()) })),
            ),
        },
        (OpenPhase::OpeningRuntime, OpenEvent::RuntimeOpened(result)) => match result {
            Ok(()) => match &preparation {
                StartupPreparation::RecorderFirst { .. } => quiet(OpenPhase::OpeningCoordinator),
                _ => quiet(OpenPhase::VerifyingCheckpoint),
            },
            Err(error) => quiet(OpenPhase::Done(Err(error))),
        },
        (OpenPhase::VerifyingCheckpoint, OpenEvent::CheckpointVerified(result)) => match result {
            Ok(()) => match &preparation {
                StartupPreparation::RuntimeFirstWithPeerCatchup { .. } => quiet(
                    OpenPhase::RehydratingRecorder,
                ),
                _ => quiet(OpenPhase::OpeningCoordinator),
            },
            Err(error) => failing(pending.fail(error)),
        },
        (OpenPhase::RehydratingRecorder, OpenEvent::RecorderRehydrated(result)) => match result {
            Ok(()) => asking(OpenPhase::OpeningCoordinator, OpenEffect::ActivateRecorder),
            Err(error) => failing(pending.merge(error)),
        },
        (OpenPhase::OpeningCoordinator, OpenEvent::ShutdownChanged { closed, signal, now }) => {
            if closed || signal.is_some() {
                let deadline: u64 = shutdown_deadline(&signal, now);
                failing(pending.cancel(deadline, Ok(())))
            } else {
                quiet(OpenPhase::OpeningCoordinator)
            }
        },
        (OpenPhase::OpeningCoordinator, OpenEvent::CoordinatorOpened(result)) => match result {
            Ok(durable_tip) => if has_successor_stop && durable_tip == 0 {
                asking(OpenPhase::CoordinatorOpen, OpenEffect::RequireBaseline)
            } else {
                quiet(OpenPhase::CoordinatorOpen)
            },
            Err(message) => failing(pending.fail(HaStartupError::Source(message))),
        },
        (OpenPhase::CoordinatorOpen, OpenEvent::CoordinatorSettled { signal }) => match signal {
            Some(token) => failing(pending.cancel(token.deadline(), Ok(()))),
            None => quiet(OpenPhase::ReadingAppliedIndex),
        },
        (OpenPhase::ReadingAppliedIndex, OpenEvent::AppliedIndexRead(result)) => match result {
            Ok(applied) => asking(OpenPhase::Done(Ok(())), OpenEffect::NoteRecovered(applied)),
            Err(message) => failing(pending.fail(HaStartupError::Source(message))),
        },
        (phase, _) => quiet(phase),
    };
    (OpeningNode { phase: step.0, preparation, has_successor_stop }, step.1)
}

/// A run of opening: `states[i + 1]` and `effects[i]` are what `events[i]`
/// makes of `states[i]`.
pub open spec fn is_open_run(
    states: Seq<OpeningNode>,
    events: Seq<OpenEvent>,
    effects: Seq<Seq<OpenEffect>>,
) -> bool {
    &&& states.len() == events.len() + 1
    &&& effects.len() == events.len()
    &&& states[0].phase is BuildingConsensus
    &&& forall|i: int|
        0 <= i < events.len() ==> (#[trigger] states[i]).steps_to(
            events[i],
            states[i + 1],
            effects[i],
        )
}

/// The recorder was activated at some point of the run.
pub open spec fn recorder_activated(effects: Seq<Seq<OpenEffect>>) -> bool {
    exists|i: int|
        0 <= i < effects.len() && (#[trigger] effects[i]).contains(OpenEffect::ActivateRecorder)
}

/// The local log passed its check at some point of the run.
pub open spec fn checkpoint_verified(events: Seq<OpenEvent>) -> bool {
    exists|i: int|
        0 <= i < events.len() && (#[trigger] events[i] matches OpenEvent::CheckpointVerified(result)
            && result is Ok)
}

/// The recorder was rehydrated at some point of the run.
pub open spec fn recorder_rehydrated(events: Seq<OpenEvent>) -> bool {
    exists|i: int|
        0 <= i < events.len() && (#[trigger] events[i] matches OpenEvent::RecorderRehydrated(result)
            && result is Ok)
}

/// A quarantined recorder takes part only after the local log was shown to
/// hold the checkpoint and the recorder was rehydrated from it, and a node
/// that had to show its log opens only after it did.
pub proof fn law_recorder_joins_after_recovery(
    states: Seq<OpeningNode>,
    events: Seq<OpenEvent>,
    effects: Seq<Seq<OpenEffect>>,
)
    requires
        is_open_run(states, events, effects),
    ensures
        recorder_activated(effects) ==> checkpoint_verified(events) && recorder_rehydrated(events)
            && states[0].preparation is RuntimeFirstWithPeerCatchup,
        states.last().phase == OpenPhase::Done(Ok(())) && !(states[0].preparation is RecorderFirst)
            ==> checkpoint_verified(events),
        states.last().phase == OpenPhase::Done(Ok(())) && states[0].preparation
            is RuntimeFirstWithPeerCatchup ==> recorder_activated(effects),
{
    lemma_recovery_order(states, events, effects);
}

proof fn lemma_recovery_order(
    states: Seq<OpeningNode>,
    events: Seq<OpenEvent>,
    effects: Seq<Seq<OpenEffect>>,
)
    requires
        is_open_run(states, events, effects),
    ensures
        states.last().preparation == states[0].preparation,
        states.last().phase is RehydratingRecorder ==> checkpoint_verified(events)
            && states[0].preparation is RuntimeFirstWithPeerCatchup,
        recorder_activated(effects) ==> checkpoint_verified(events) && recorder_rehydrated(events)
            && states[0].preparation is RuntimeFirstWithPeerCatchup,
        is_past_recovery(states.last().phase) && !(states[0].preparation is RecorderFirst)
            ==> checkpoint_verified(events),
        is_past_recovery(states.last().phase) && states[0].preparation
            is RuntimeFirstWithPeerCatchup ==> recorder_activated(effects),
    decreases events.len(),
{
    if events.len() > 0 {
        let n = events.len() - 1;
        let before = states.drop_last();
        let old_events = events.drop_last();
        let old_effects = effects.drop_last();
        assert forall|i: int| 0 <= i < n implies (#[trigger] before[i]).steps_to(
            old_events[i],
            before[i + 1],
            old_effects[i],
        ) by {
            assert(states[i].steps_to(events[i], states[i + 1], effects[i]));
        }
        lemma_recovery_order(before, old_events, old_effects);
        assert(before.last() == states[n]);
        assert(states[n].steps_to(events[n], states[n + 1], effects[n]));
        if checkpoint_verified(old_events) {
            let i = choose|i: int|
                0 <= i < old_events.len() && (#[trigger] old_events[i] matches
                    OpenEvent::CheckpointVerified(result) && result is Ok);
            assert(events[i] == old_events[i]);
        }
        if recorder_rehydrated(old_events) {
            let i = choose|i: int|
                0 <= i < old_events.len() && (#[trigger] old_events[i] matches
                    OpenEvent::RecorderRehydrated(result) && result is Ok);
            assert(events[i] == old_events[i]);
        }
        if recorder_activated(old_effects) {
            let i = choose|i: int|
                0 <= i < old_effects.len() && (#[trigger] old_effects[i]).contains(
                    OpenEffect::ActivateRecorder,
                );
            assert(effects[i] == old_effects[i]);
        }
        if recorder_activated(effects) && !recorder_activated(old_effects) {
            let i = choose|i: int|
                0 <= i < effects.len() && (#[trigger] effects[i]).contains(
                    OpenEffect::ActivateRecorder,
                );
            if i < n {
                assert(old_effects[i] == effects[i]);
            }
            assert(effects[n].contains(OpenEffect::ActivateRecorder));
            assert(states[n].phase is RehydratingRecorder);
        }
        if states[n].phase is RehydratingRecorder && (events[n] matches
            OpenEvent::RecorderRehydrated(result) && result is Ok) {
            let asked = seq![OpenEffect::ActivateRecorder];
            assert(asked[0] == OpenEffect::ActivateRecorder);
            assert(effects[n].contains(OpenEffect::ActivateRecorder));
        }
    }
}

/// The recovery of the local recorder is behind.
pub open spec fn is_past_recovery(phase: OpenPhase) -> bool {
    ||| phase is OpeningCoordinator
    ||| phase is CoordinatorOpen
    ||| phase is ReadingAppliedIndex
    ||| phase == OpenPhase::Done(Ok(()))
}

/// A runtime that was opened is never left behind: opening that fails after
/// the runtime was there cancels its operations.
pub proof fn law_failed_opening_cancels_the_runtime(
    state: OpeningNode,
    event: OpenEvent,
    next: OpeningNode,
    effects: Seq<OpenEffect>,
)
    requires
        state.steps_to(event, next, effects),
        state.phase is VerifyingCheckpoint || state.phase is RehydratingRecorder || (
        is_past_recovery(state.phase) && !(state.phase is Done)),
        next.phase matches OpenPhase::Done(Err(_)),
    ensures
        effects == seq![OpenEffect::CancelRuntime],
{
}

/// Opening that a shutdown cancels is cancelled by the deadline of that
/// shutdown.
pub proof fn law_opening_is_cancelled_by_the_requested_deadline(
    state: OpeningNode,
    event: OpenEvent,
    next: OpeningNode,
    effects: Seq<OpenEffect>,
)
    requires
        state.steps_to(event, next, effects),
        !(state.phase is Done),
        next.phase matches OpenPhase::Done(Err(HaOpenError::Cancelled { .. })),
    ensures
        next.phase matches OpenPhase::Done(Err(HaOpenError::Cancelled { deadline, .. }))
            && match event {
            OpenEvent::RuntimeOpened(result) => result matches Err(
                HaOpenError::Cancelled { deadline: below, .. },
            ) && deadline == below,
            OpenEvent::RecorderRehydrated(result) => result matches Err(
                HaOpenError::Cancelled { deadline: below, .. },
            ) && deadline == below,
            OpenEvent::ShutdownChanged { signal, now, .. } => deadline
                == crate::token::deadline_of(signal, now),
            OpenEvent::CoordinatorSettled { signal } => signal matches Some(token) && deadline
                == token.spec_deadline(),
            _ => false,
        },
{
}

/// What was asked for at some point of the run.
pub open spec fn asked_for(effects: Seq<Seq<OpenEffect>>, effect: OpenEffect) -> bool {
    exists|i: int| 0 <= i < effects.len() && (#[trigger] effects[i]).contains(effect)
}

/// The coordinator was opened at some point of the run, with nothing durable.
pub open spec fn opened_empty(events: Seq<OpenEvent>) -> bool {
    exists|i: int|
        0 <= i < events.len() && #[trigger] events[i] == OpenEvent::CoordinatorOpened(Ok(0))
}

/// The coordinator is open.
pub open spec fn is_past_coordinator(phase: OpenPhase) -> bool {
    phase is CoordinatorOpen || phase is ReadingAppliedIndex || phase == OpenPhase::Done(Ok(()))
}

/// A coordinator opened with nothing durable is opened for a successor exactly
/// where a baseline is required.
pub proof fn law_a_baseline_is_required_of_a_successor_with_nothing_durable(
    state: OpeningNode,
    durable_tip: u64,
    next: OpeningNode,
    effects: Seq<OpenEffect>,
)
    requires
        state.phase is OpeningCoordinator,
        state.steps_to(OpenEvent::CoordinatorOpened(Ok(durable_tip)), next, effects),
    ensures
        next.phase is CoordinatorOpen,
        next.has_successor_stop == state.has_successor_stop,
        next.preparation == state.preparation,
        effects.contains(OpenEffect::RequireBaseline) <==> state.has_successor_stop && durable_tip
            == 0,
        forall|k: int| 0 <= k < effects.len() ==> #[trigger] effects[k] is RequireBaseline,
        effects.len() <= 1,
{
    if state.has_successor_stop && durable_tip == 0 {
        let asked = seq![OpenEffect::RequireBaseline];
        assert(asked[0] == OpenEffect::RequireBaseline);
        assert(effects.contains(OpenEffect::RequireBaseline));
    }
}

/// In every opening, a baseline is required exactly where the node succeeds a
/// predecessor's Stop and its coordinator was opened with nothing durable.
/// Where neither is so, none is required, however the opening ends.
pub proof fn law_an_opening_requires_a_baseline_exactly_where_one_is_missing(
    states: Seq<OpeningNode>,
    events: Seq<OpenEvent>,
    effects: Seq<Seq<OpenEffect>>,
)
    requires
        is_open_run(states, events, effects),
    ensures
        asked_for(effects, OpenEffect::RequireBaseline) ==> states[0].has_successor_stop
            && opened_empty(events),
        states.last().phase == OpenPhase::Done(Ok(())) ==> (exists|i: int|
            0 <= i < events.len() && states[i].phase is OpeningCoordinator && (
            #[trigger] events[i] matches OpenEvent::CoordinatorOpened(Ok(tip)) && (asked_for(
                effects,
                OpenEffect::RequireBaseline,
            ) <==> states[0].has_successor_stop && tip == 0))),
{
    lemma_baseline(states, events, effects);
}

proof fn lemma_baseline(
    states: Seq<OpeningNode>,
    events: Seq<OpenEvent>,
    effects: Seq<Seq<OpenEffect>>,
)
    requires
        is_open_run(states, events, effects),
    ensures
        states.last().has_successor_stop == states[0].has_successor_stop,
        asked_for(effects, OpenEffect::RequireBaseline) ==> states[0].has_successor_stop
            && opened_empty(events) && (is_past_coordinator(states.last().phase)
            || states.last().phase is Done),
        is_past_coordinator(states.last().phase) ==> (exists|i: int|
            0 <= i < events.len() && states[i].phase is OpeningCoordinator && (
            #[trigger] events[i] matches OpenEvent::CoordinatorOpened(Ok(tip)) && (asked_for(
                effects,
                OpenEffect::RequireBaseline,
            ) <==> states[0].has_successor_stop && tip == 0))),
    decreases events.len(),
{
    if events.len() > 0 {
        let n = events.len() - 1;
        let before = states.drop_last();
        let old_events = events.drop_last();
        let old_effects = effects.drop_last();
        assert forall|i: int| 0 <= i < n implies (#[trigger] before[i]).steps_to(
            old_events[i],
            before[i + 1],
            old_effects[i],
        ) by {
            assert(states[i].steps_to(events[i], states[i + 1], effects[i]));
        }
        lemma_baseline(before, old_events, old_effects);
        assert(before.last() == states[n]);
        assert(states[n].steps_to(events[n], states[n + 1], effects[n]));
        let required = OpenEffect::RequireBaseline;
        if asked_for(old_effects, required) {
            let i = choose|i: int|
                0 <= i < old_effects.len() && (#[trigger] old_effects[i]).contains(required);
            assert(effects[i] == old_effects[i]);
        }
        if opened_empty(old_events) {
            let i = choose|i: int|
                0 <= i < old_events.len() && #[trigger] old_events[i]
                    == OpenEvent::CoordinatorOpened(Ok(0));
            assert(events[i] == old_events[i]);
        }
        if asked_for(effects, required) && !asked_for(old_effects, required) {
            let i = choose|i: int|
                0 <= i < effects.len() && (#[trigger] effects[i]).contains(required);
            if i < n {
                assert(old_effects[i] == effects[i]);
            }
            assert(effects[n].contains(required));
            assert(states[n].phase is OpeningCoordinator);
        }
        if let OpenEvent::CoordinatorOpened(Ok(tip)) = events[n] {
            if states[n].phase is OpeningCoordinator {
                law_a_baseline_is_required_of_a_successor_with_nothing_durable(
                    states[n],
                    tip,
                    states[n + 1],
                    effects[n],
                );
                assert(!asked_for(old_effects, required));
            }
        }
        if is_past_coordinator(states[n].phase) && is_past_coordinator(states.last().phase) {
            let i = choose|i: int|
                0 <= i < old_events.len() && before[i].phase is OpeningCoordinator && (
                #[trigger] old_events[i] matches OpenEvent::CoordinatorOpened(Ok(tip)) && (
                asked_for(old_effects, required) <==> before[0].has_successor_stop && tip == 0));
            assert(events[i] == old_events[i]);
            assert(states[i] == before[i]);
        }
    }
}

/// How an opening that meets no failure goes on: consensus, then the runtime.
/// A node whose recorder takes part at once opens its coordinator next; every
/// other one has its log verified first, and one that caught up from its peers
/// rehydrates its recorder and activates it before the coordinator. At last the
/// index that was applied is noted as recovered.
pub proof fn law_an_opening_takes_its_steps_in_order(
    state: OpeningNode,
    event: OpenEvent,
    next: OpeningNode,
    effects: Seq<OpenEffect>,
)
    requires
        state.steps_to(event, next, effects),
    ensures
        next.preparation == state.preparation,
        next.has_successor_stop == state.has_successor_stop,
        state.phase is BuildingConsensus && (event matches OpenEvent::ConsensusBuilt(result)
            && result is Ok) ==> next.phase is OpeningRuntime && effects.len() == 0,
        state.phase is OpeningRuntime && (event matches OpenEvent::RuntimeOpened(result) && result
            is Ok) ==> effects.len() == 0 && match state.preparation {
            StartupPreparation::RecorderFirst { .. } => next.phase is OpeningCoordinator,
            StartupPreparation::VerifyLocalCheckpoint { .. } => next.phase is VerifyingCheckpoint,
            StartupPreparation::RuntimeFirstWithPeerCatchup { .. } => next.phase
                is VerifyingCheckpoint,
        },
        state.phase is VerifyingCheckpoint && (event matches OpenEvent::CheckpointVerified(result)
            && result is Ok) ==> effects.len() == 0 && (next.phase is RehydratingRecorder
            <==> state.preparation is RuntimeFirstWithPeerCatchup) && (next.phase
            is OpeningCoordinator <==> !(state.preparation is RuntimeFirstWithPeerCatchup)),
        state.phase is RehydratingRecorder && (event matches OpenEvent::RecorderRehydrated(result)
            && result is Ok) ==> next.phase is OpeningCoordinator && effects.len() == 1
            && effects[0] is ActivateRecorder,
        state.phase is CoordinatorOpen ==> (event matches OpenEvent::CoordinatorSettled { signal }
            ==> (signal is None ==> next.phase is ReadingAppliedIndex && effects.len() == 0)),
        state.phase is ReadingAppliedIndex ==> (event matches OpenEvent::AppliedIndexRead(Ok(applied))
            ==> next.phase == OpenPhase::Done(Ok(())) && effects.len() == 1 && effects[0]
            == OpenEffect::NoteRecovered(applied)),
{
}

/// Every failure of opening is passed on with its own source, and with nothing
/// wrong in its cleanup yet.
pub proof fn law_an_opening_fails_with_its_own_source(
    state: OpeningNode,
    event: OpenEvent,
    next: OpeningNode,
    effects: Seq<OpenEffect>,
)
    requires
        state.steps_to(event, next, effects),
    ensures
        state.phase is BuildingConsensus ==> (event matches OpenEvent::ConsensusBuilt(Err(error))
            ==> effects.len() == 0 && (next.phase matches OpenPhase::Done(
            Err(HaOpenError::Startup { error: kept, cleanup }),
        ) && kept == error && cleanup is Ok)),
        state.phase is OpeningRuntime ==> (event matches OpenEvent::RuntimeOpened(Err(error))
            ==> effects.len() == 0 && next.phase == OpenPhase::Done(Err(error))),
        state.phase is VerifyingCheckpoint ==> (event matches OpenEvent::CheckpointVerified(
            Err(error),
        ) ==> (next.phase matches OpenPhase::Done(
            Err(HaOpenError::Startup { error: kept, cleanup }),
        ) && kept == error && cleanup is Ok)),
        state.phase is RehydratingRecorder ==> (event matches OpenEvent::RecorderRehydrated(
            Err(error),
        ) ==> next.phase == OpenPhase::Done(Err(error))),
        state.phase is OpeningCoordinator ==> (event matches OpenEvent::CoordinatorOpened(
            Err(message),
        ) ==> (next.phase matches OpenPhase::Done(
            Err(HaOpenError::Startup { error: kept, cleanup }),
        ) && kept == HaStartupError::Source(message) && cleanup is Ok)),
        state.phase is ReadingAppliedIndex ==> (event matches OpenEvent::AppliedIndexRead(
            Err(message),
        ) ==> (next.phase matches OpenPhase::Done(
            Err(HaOpenError::Startup { error: kept, cleanup }),
        ) && kept == HaStartupError::Source(message) && cleanup is Ok)),
{
}

/// A shutdown is seen while the coordinator is opened and once it is open, and
/// then cancels opening by its own deadline, or now where nobody can ask any
/// more. Elsewhere it is not looked for, and what is not waited for changes
/// nothing.
pub proof fn law_an_opening_is_cancelled_only_at_its_coordinator(
    state: OpeningNode,
    event: OpenEvent,
    next: OpeningNode,
    effects: Seq<OpenEffect>,
)
    requires
        state.steps_to(event, next, effects),
    ensures
        state.phase is OpeningCoordinator ==> (event matches OpenEvent::ShutdownChanged {
            closed,
            signal,
            now,
        } ==> if closed || signal is Some {
            next.phase matches OpenPhase::Done(
                Err(HaOpenError::Cancelled { deadline, cleanup }),
            ) && cleanup is Ok && deadline == match signal {
                Some(token) => token.spec_deadline(),
                None => now,
            }
        } else {
            next == state && effects.len() == 0
        }),
        state.phase is CoordinatorOpen ==> (event matches OpenEvent::CoordinatorSettled {
            signal: Some(token),
        } ==> (next.phase matches OpenPhase::Done(
            Err(HaOpenError::Cancelled { deadline, cleanup }),
        ) && cleanup is Ok && deadline == token.spec_deadline())),
        !(match state.phase {
            OpenPhase::BuildingConsensus => event is ConsensusBuilt,
            OpenPhase::OpeningRuntime => event is RuntimeOpened,
            OpenPhase::VerifyingCheckpoint => event is CheckpointVerified,
            OpenPhase::RehydratingRecorder => event is RecorderRehydrated,
            OpenPhase::OpeningCoordinator => event is ShutdownChanged || event is CoordinatorOpened,
            OpenPhase::CoordinatorOpen => event is CoordinatorSettled,
            OpenPhase::ReadingAppliedIndex => event is AppliedIndexRead,
            OpenPhase::Done(_) => false,
        }) ==> next == state && effects.len() == 0,
{
}

/// A runtime that was opened is cancelled with whatever ends its opening, and
/// what was cleaned up before is reported with it.
pub proof fn law_a_pending_runtime_is_cancelled_with_its_opening(
    pending: PendingHaRuntime,
    error: HaStartupError,
    deadline: u64,
    prior: Result<(), HaNodeError>,
    below: HaOpenError,
    failed: PendingFailure,
    cancelled: PendingFailure,
    merged: PendingFailure,
)
    requires
        call_ensures(PendingHaRuntime::fail, (pending, error), failed),
        call_ensures(PendingHaRuntime::cancel, (pending, deadline, prior), cancelled),
        call_ensures(PendingHaRuntime::merge, (pending, below), merged),
    ensures
        failed.error == (HaOpenError::Startup { error, cleanup: Ok(()) }),
        cancelled.error == (HaOpenError::Cancelled { deadline, cleanup: prior }),
        merged.error == below,
        failed.cancel_runtime == pending.present,
        cancelled.cancel_runtime == pending.present,
        merged.cancel_runtime == pending.present,
{
}

/// What holds of a step of the opening holds of the function that takes it.
pub proof fn law_a_node_is_opened_by_its_steps(
    opening: OpeningNode,
    event: OpenEvent,
    step: (OpeningNode, Vec<OpenEffect>),
)
    requires
        call_ensures(open_inner, (opening, event), step),
    ensures
        opening.steps_to(event, step.0, step.1@),
        step.0.preparation == opening.preparation,
        step.0.has_successor_stop == opening.has_successor_stop,
        opening.phase is Done ==> step.0 == opening && step.1@.len() == 0,
{
}

} // verus!
