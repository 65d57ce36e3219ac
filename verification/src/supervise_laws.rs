//! What holds of every run of the supervisor of a prepared node.
use crate::activation::{ServiceActivation, ServiceListener, ServiceStartup};
use crate::error::HaNodeError;
use crate::node::HaNodeSnapshot;
use crate::open::HaOpenError;
use crate::scope::{
    AdminDrainLease, HaTaskScope, ScopeEffect, ServiceTaskState, ServiceTaskUnstarted,
};
use crate::status::{HaNodeStatus, IngressDisposition, TaskDisposition};
use crate::supervise::{
    AfterInstall, DrainReport, Ending, PreparedPhase, PreparedSupervisor, SupervisorEffect,
    SupervisorEvent,
};
use crate::task::TaskExit;
use crate::token::{
    ShutdownSignal, ShutdownToken, StartupCancellationAuthority, StartupCancellationToken,
};
use vstd::prelude::*;

verus! {

/// A run of a supervisor: `states[i + 1]` and `effects[i]` are what
/// `events[i]` makes of `states[i]`.
pub open spec fn is_prepared_run(
    states: Seq<PreparedSupervisor>,
    events: Seq<SupervisorEvent>,
    effects: Seq<Seq<SupervisorEffect>>,
) -> bool {
    &&& states.len() == events.len() + 1
    &&& effects.len() == events.len()
    &&& states[0].phase is Opening
    &&& forall|i: int|
        0 <= i < events.len() ==> (#[trigger] states[i]).steps_to(
            events[i],
            states[i + 1],
            effects[i],
        )
}

/// What is published once `effects` took place, where `before` was.
pub open spec fn published_after(
    before: Option<HaNodeSnapshot>,
    effects: Seq<SupervisorEffect>,
) -> Option<HaNodeSnapshot>
    decreases effects.len(),
{
    if effects.len() == 0 {
        before
    } else {
        match effects.last() {
            SupervisorEffect::Publish(snapshot) => Some(snapshot),
            _ => published_after(before, effects.drop_last()),
        }
    }
}

/// What a run has published last.
pub open spec fn last_published(effects: Seq<Seq<SupervisorEffect>>) -> Option<HaNodeSnapshot>
    decreases effects.len(),
{
    if effects.len() == 0 {
        None
    } else {
        published_after(last_published(effects.drop_last()), effects.last())
    }
}

/// The error that was told is the one that is returned, or the very failure
/// that the returned one adds a failed cleanup to.
pub open spec fn is_told_of(told: HaNodeError, returned: HaNodeError) -> bool {
    ||| told == returned
    ||| (returned matches HaNodeError::Cleanup { primary, .. } && told == *primary)
}

/// What is published agrees with how the supervisor ends.
pub open spec fn published_as_ended(
    phase: PreparedPhase,
    published: Option<HaNodeSnapshot>,
) -> bool {
    match phase {
        PreparedPhase::StoppingRecorder { ending: Ending::Reported(error), .. } => published
            == Some(HaNodeSnapshot::failure(error)),
        PreparedPhase::AwaitingOpen { ending: Ending::Reported(error), .. } => published == Some(
            HaNodeSnapshot::failure(error),
        ),
        PreparedPhase::Draining { ending: Ending::Reported(error), .. } => published == Some(
            HaNodeSnapshot::failure(error),
        ),
        PreparedPhase::Finished(Ok(_)) => published == Some(
            HaNodeSnapshot::plain(HaNodeStatus::Stopped),
        ),
        PreparedPhase::Finished(Err(error)) => published matches Some(snapshot) && snapshot.status
            == HaNodeStatus::Failed && snapshot.handle is None && (snapshot.terminal_error matches
            Some(told) && is_told_of(told, error)),
        _ => true,
    }
}

proof fn lemma_published_after_append(
    before: Option<HaNodeSnapshot>,
    first: Seq<SupervisorEffect>,
    second: Seq<SupervisorEffect>,
)
    ensures
        published_after(before, first + second) == published_after(
            published_after(before, first),
            second,
        ),
    decreases second.len(),
{
    if second.len() == 0 {
        assert(first + second =~= first);
    } else {
        assert((first + second).drop_last() =~= first + second.drop_last());
        assert((first + second).last() == second.last());
        lemma_published_after_append(before, first, second.drop_last());
    }
}

proof fn lemma_draining_publishes_nothing(before: Option<HaNodeSnapshot>, scope: HaTaskScope)
    ensures
        published_after(before, crate::supervise::begin_effects(scope)) == before,
{
    reveal_with_fuel(published_after, 5);
    let effects = crate::supervise::begin_effects(scope);
    assert forall|i: int| 0 <= i < effects.len() implies !(#[trigger] effects[i] is Publish) by {}
    lemma_silent(before, effects);
}

proof fn lemma_silent(before: Option<HaNodeSnapshot>, effects: Seq<SupervisorEffect>)
    requires
        forall|i: int| 0 <= i < effects.len() ==> !(#[trigger] effects[i] is Publish),
    ensures
        published_after(before, effects) == before,
    decreases effects.len(),
{
    if effects.len() > 0 {
        assert(!(effects[effects.len() - 1] is Publish));
        lemma_silent(before, effects.drop_last());
    }
}

proof fn lemma_finish_publishes_as_ended(
    ending: Ending,
    cleanup: Result<(), HaNodeError>,
    before: Option<HaNodeSnapshot>,
)
    requires
        ending matches Ending::Reported(error) ==> before == Some(HaNodeSnapshot::failure(error)),
    ensures
        published_as_ended(
            PreparedPhase::Finished(ending.result(cleanup)),
            published_after(before, ending.closing_effects(cleanup)),
        ),
{
}

proof fn lemma_drain_publishes_as_ended(
    scope: HaTaskScope,
    ending: Ending,
    first: Seq<SupervisorEffect>,
    effects: Seq<SupervisorEffect>,
    before: Option<HaNodeSnapshot>,
)
    requires
        effects == first + crate::supervise::begin_effects(scope),
        ending matches Ending::Reported(error) ==> published_after(before, first) == Some(
            HaNodeSnapshot::failure(error),
        ),
    ensures
        ending matches Ending::Reported(error) ==> published_after(before, effects) == Some(
            HaNodeSnapshot::failure(error),
        ),
{
    lemma_published_after_append(before, first, crate::supervise::begin_effects(scope));
    lemma_draining_publishes_nothing(published_after(before, first), scope);
}

proof fn lemma_told(before: Option<HaNodeSnapshot>, snapshot: HaNodeSnapshot)
    ensures
        published_after(before, seq![SupervisorEffect::Publish(snapshot)]) == Some(snapshot),
        published_after(
            before,
            seq![SupervisorEffect::Publish(snapshot), SupervisorEffect::SignalRecorder],
        ) == Some(snapshot),
{
    let told = seq![SupervisorEffect::Publish(snapshot)];
    let signalled = seq![SupervisorEffect::Publish(snapshot), SupervisorEffect::SignalRecorder];
    assert(signalled.drop_last() =~= told);
}

proof fn lemma_step_publishes_as_ended(
    state: PreparedSupervisor,
    event: SupervisorEvent,
    next: PreparedSupervisor,
    effects: Seq<SupervisorEffect>,
    before: Option<HaNodeSnapshot>,
)
    requires
        state.steps_to(event, next, effects),
        published_as_ended(state.phase, before),
    ensures
        published_as_ended(next.phase, published_after(before, effects)),
{
    match state.phase {
        PreparedPhase::Opening => {
            if let SupervisorEvent::OpenFinished { result, signal, now } = event {
                lemma_told(before, HaNodeSnapshot::failure(HaNodeError::Cancelled));
                if let Err(HaOpenError::Startup { error, cleanup }) = result {
                    lemma_told(before, HaNodeSnapshot::failure(HaNodeError::Startup(error)));
                }
            }
        },
        PreparedPhase::StoppingRecorder { startup_cleanup, ending, .. } => {
            if let SupervisorEvent::RecorderStopped(result) = event {
                lemma_finish_publishes_as_ended(
                    ending,
                    crate::error::combined(crate::supervise::error_of(startup_cleanup), result),
                    before,
                );
            }
        },
        PreparedPhase::Installing(after) => {
            if let SupervisorEvent::ShutdownInstalled(token) = event {
                if let AfterInstall::AwaitOpen { error, .. } = after {
                    let told = SupervisorEffect::Publish(HaNodeSnapshot::failure(error));
                    assert(effects.last() == told);
                }
            }
        },
        PreparedPhase::AwaitingOpen { deadline, evidence, ending } => {
            if let SupervisorEvent::OpenFinished { result, .. } = event {
                match result {
                    Ok(_) => {
                        let scope = crate::supervise::unstarted_scope(
                            AdminDrainLease::Disabled,
                            crate::supervise::given_up(state.listener),
                        );
                        lemma_drain_publishes_as_ended(
                            scope,
                            ending,
                            Seq::empty(),
                            effects,
                            before,
                        );
                    },
                    Err(HaOpenError::Cancelled { cleanup, .. }) => {
                        lemma_finish_publishes_as_ended(ending, cleanup, before);
                    },
                    Err(HaOpenError::Startup { error, cleanup }) => {
                        lemma_finish_publishes_as_ended(
                            ending,
                            crate::error::combined(Some(HaNodeError::Startup(error)), cleanup),
                            before,
                        );
                    },
                }
            } else if let SupervisorEvent::OpenDeadline { stage } = event {
                lemma_finish_publishes_as_ended(
                    ending,
                    Err(HaNodeError::StartupIoDeadlineExceeded { stage }),
                    before,
                );
            }
        },
        PreparedPhase::BuildingRouter => {
            if let SupervisorEvent::RouterBuilt { result: Err(error), .. } = event {
                lemma_failure_publishes_as_ended(
                    crate::supervise::unstarted_scope(
                        AdminDrainLease::Disabled,
                        crate::supervise::given_up(state.listener),
                    ),
                    error,
                    effects,
                    before,
                );
            }
        },
        PreparedPhase::Activating { scope } => {
            if let SupervisorEvent::Activated { result: Err(error), .. } = event {
                lemma_failure_publishes_as_ended(
                    HaTaskScope {
                        service: ServiceTaskState::Unstarted(
                            ServiceTaskUnstarted::DeferredOwnerUnknown,
                        ),
                        ..scope
                    },
                    error,
                    effects,
                    before,
                );
            }
        },
        PreparedPhase::StartingService { scope } => {
            if let SupervisorEvent::ServiceStarted { result: Err(error), .. } = event {
                lemma_failure_publishes_as_ended(scope, error, effects, before);
            }
        },
        PreparedPhase::CheckingReadiness { .. } => {},
        PreparedPhase::Serving { .. } => {},
        PreparedPhase::Draining { drain, ending } => {
            if let SupervisorEvent::Drained(report) = event {
                lemma_finish_publishes_as_ended(ending, drain.cleanup(report), before);
            }
        },
        PreparedPhase::Finished(_) => {},
    }
}

proof fn lemma_failure_publishes_as_ended(
    scope: HaTaskScope,
    error: HaNodeError,
    effects: Seq<SupervisorEffect>,
    before: Option<HaNodeSnapshot>,
)
    requires
        effects == seq![SupervisorEffect::Publish(HaNodeSnapshot::failure(error))]
            + crate::supervise::begin_effects(scope),
    ensures
        published_after(before, effects) == Some(HaNodeSnapshot::failure(error)),
{
    lemma_told(before, HaNodeSnapshot::failure(error));
    lemma_drain_publishes_as_ended(
        scope,
        Ending::Reported(error),
        seq![SupervisorEffect::Publish(HaNodeSnapshot::failure(error))],
        effects,
        before,
    );
}

/// However a run goes, a node that ended cleanly has published that it
/// stopped, and one that failed has published the error that the supervisor
/// returns, or the one that it returns a failed cleanup on top of.
pub proof fn law_a_node_ends_as_it_is_published(
    states: Seq<PreparedSupervisor>,
    events: Seq<SupervisorEvent>,
    effects: Seq<Seq<SupervisorEffect>>,
)
    requires
        is_prepared_run(states, events, effects),
    ensures
        published_as_ended(states.last().phase, last_published(effects)),
    decreases events.len(),
{
    if events.len() > 0 {
        let n = events.len() - 1;
        let before = states.drop_last();
        assert forall|i: int| 0 <= i < n implies (#[trigger] before[i]).steps_to(
            events.drop_last()[i],
            before[i + 1],
            effects.drop_last()[i],
        ) by {
            assert(states[i].steps_to(events[i], states[i + 1], effects[i]));
        }
        law_a_node_ends_as_it_is_published(before, events.drop_last(), effects.drop_last());
        assert(before.last() == states[n]);
        lemma_step_publishes_as_ended(
            states[n],
            events[n],
            states[n + 1],
            effects[n],
            last_published(effects.drop_last()),
        );
    }
}

/// The runtime of the node is open.
pub open spec fn is_open(phase: PreparedPhase) -> bool {
    ||| phase is BuildingRouter
    ||| phase is Activating
    ||| phase is StartingService
    ||| phase is CheckingReadiness
    ||| phase is Serving
    ||| phase is Draining
    ||| (phase matches PreparedPhase::Installing(after) && after is Drain)
}

/// A node whose runtime is open ends only by draining everything that it
/// owns, and an ended one stays ended and asks for nothing.
pub proof fn law_an_open_node_ends_by_draining(
    state: PreparedSupervisor,
    event: SupervisorEvent,
    next: PreparedSupervisor,
    effects: Seq<SupervisorEffect>,
)
    requires
        state.steps_to(event, next, effects),
    ensures
        is_open(state.phase) ==> is_open(next.phase) || next.phase is Finished,
        is_open(state.phase) && next.phase is Finished ==> state.phase is Draining,
        state.phase is Finished ==> next == state && effects.len() == 0,
{
}

/// Nothing in `effects` publishes readiness, a handle, or a failure under
/// another status than `Failed`.
pub open spec fn publishes_no_readiness(effects: Seq<SupervisorEffect>) -> bool {
    forall|i: int|
        0 <= i < effects.len() ==> (#[trigger] effects[i] matches SupervisorEffect::Publish(
            snapshot,
        ) ==> snapshot.handle is None && (snapshot.status == HaNodeStatus::ShuttingDown
            || snapshot.status == HaNodeStatus::Stopped || snapshot.status == HaNodeStatus::Failed)
            && (snapshot.status == HaNodeStatus::Failed <==> snapshot.terminal_error is Some))
}

proof fn lemma_no_readiness_append(
    first: Seq<SupervisorEffect>,
    second: Seq<SupervisorEffect>,
)
    requires
        publishes_no_readiness(first),
        publishes_no_readiness(second),
    ensures
        publishes_no_readiness(first + second),
{
}

proof fn lemma_draining_is_silent_on_readiness(
    scope: HaTaskScope,
    first: Seq<SupervisorEffect>,
    effects: Seq<SupervisorEffect>,
)
    requires
        effects == first + crate::supervise::begin_effects(scope),
        publishes_no_readiness(first),
    ensures
        publishes_no_readiness(effects),
{
    assert(publishes_no_readiness(crate::supervise::begin_effects(scope)));
    lemma_no_readiness_append(first, crate::supervise::begin_effects(scope));
}

/// A supervisor never publishes readiness by itself.
pub proof fn law_supervisor_never_publishes_readiness(
    state: PreparedSupervisor,
    event: SupervisorEvent,
    next: PreparedSupervisor,
    effects: Seq<SupervisorEffect>,
)
    requires
        state.steps_to(event, next, effects),
    ensures
        publishes_no_readiness(effects),
{
    if next.phase is Draining && !(state.phase is Draining) {
        let drain = next.phase->drain;
        let opened = HaTaskScope { shutdown_started: false, ..drain.scope };
        let shutting = SupervisorEffect::Publish(HaNodeSnapshot::plain(HaNodeStatus::ShuttingDown));
        match state.phase {
            PreparedPhase::Installing(AfterInstall::Drain { scope, terminal, .. }) => {
                if let SupervisorEvent::ShutdownInstalled(token) = event {
                    let told = match terminal {
                        Some(error) => seq![
                            SupervisorEffect::Publish(HaNodeSnapshot::failure(error)),
                        ],
                        None => Seq::<SupervisorEffect>::empty(),
                    };
                    let first = told + seq![SupervisorEffect::CancelStartup(token)];
                    assert(publishes_no_readiness(first));
                    lemma_draining_is_silent_on_readiness(scope, first, effects);
                }
            },
            PreparedPhase::AwaitingOpen { .. } => {
                let scope = crate::supervise::unstarted_scope(
                    AdminDrainLease::Disabled,
                    crate::supervise::given_up(state.listener),
                );
                assert(publishes_no_readiness(Seq::empty()));
                lemma_draining_is_silent_on_readiness(scope, Seq::empty(), effects);
            },
            PreparedPhase::Serving { scope } => {
                if let SupervisorEvent::ShutdownChanged { signal: Some(token), .. } = event {
                    let first = seq![shutting, SupervisorEffect::CancelStartup(token)];
                    assert(publishes_no_readiness(first));
                    lemma_draining_is_silent_on_readiness(scope, first, effects);
                }
            },
            PreparedPhase::BuildingRouter => {
                if let SupervisorEvent::RouterBuilt { result, .. } = event {
                    match result {
                        Err(error) => {
                            let scope = crate::supervise::unstarted_scope(
                                AdminDrainLease::Disabled,
                                crate::supervise::given_up(state.listener),
                            );
                            lemma_failure_is_silent_on_readiness(scope, error, effects);
                        },
                        Ok(admin) => {
                            let scope = crate::supervise::unstarted_scope(
                                admin,
                                crate::supervise::given_up(state.listener),
                            );
                            lemma_stop_is_silent_on_readiness(scope, effects);
                        },
                    }
                }
            },
            PreparedPhase::Activating { scope } => {
                if let SupervisorEvent::Activated { result, .. } = event {
                    match result {
                        Err(error) => {
                            let scope = HaTaskScope {
                                service: ServiceTaskState::Unstarted(
                                    ServiceTaskUnstarted::DeferredOwnerUnknown,
                                ),
                                ..scope
                            };
                            lemma_failure_is_silent_on_readiness(scope, error, effects);
                        },
                        Ok(ServiceActivation::Shutdown { listener_closed, .. }) => {
                            let scope = HaTaskScope {
                                service: ServiceTaskState::Unstarted(
                                    if listener_closed {
                                        ServiceTaskUnstarted::OwnedListenerDropped
                                    } else {
                                        ServiceTaskUnstarted::DeferredOwnerUnknown
                                    },
                                ),
                                ..scope
                            };
                            lemma_stop_is_silent_on_readiness(scope, effects);
                        },
                        _ => {},
                    }
                }
            },
            PreparedPhase::StartingService { scope } => {
                if let SupervisorEvent::ServiceStarted { result, .. } = event {
                    match result {
                        Err(error) => {
                            lemma_failure_is_silent_on_readiness(scope, error, effects);
                        },
                        Ok(_) => {
                            lemma_stop_is_silent_on_readiness(scope, effects);
                        },
                    }
                }
            },
            _ => {},
        }
    }
}

proof fn lemma_stop_is_silent_on_readiness(scope: HaTaskScope, effects: Seq<SupervisorEffect>)
    requires
        effects == seq![
            SupervisorEffect::Publish(HaNodeSnapshot::plain(HaNodeStatus::ShuttingDown)),
        ] + crate::supervise::begin_effects(scope),
    ensures
        publishes_no_readiness(effects),
{
    let first = seq![
        SupervisorEffect::Publish(HaNodeSnapshot::plain(HaNodeStatus::ShuttingDown)),
    ];
    assert(publishes_no_readiness(first));
    lemma_draining_is_silent_on_readiness(scope, first, effects);
}

proof fn lemma_failure_is_silent_on_readiness(
    scope: HaTaskScope,
    error: HaNodeError,
    effects: Seq<SupervisorEffect>,
)
    requires
        effects == seq![SupervisorEffect::Publish(HaNodeSnapshot::failure(error))]
            + crate::supervise::begin_effects(scope),
    ensures
        publishes_no_readiness(effects),
{
    let first = seq![SupervisorEffect::Publish(HaNodeSnapshot::failure(error))];
    assert(publishes_no_readiness(first));
    lemma_draining_is_silent_on_readiness(scope, first, effects);
}

/// The deadline that a requested shutdown fixes where `event` comes in `phase`,
/// if it ends the node without a failure of a step of its start.
pub open spec fn requested_deadline(phase: PreparedPhase, event: SupervisorEvent) -> Option<u64> {
    match (phase, event) {
        (
            PreparedPhase::Opening,
            SupervisorEvent::OpenFinished {
                result: Err(HaOpenError::Cancelled { deadline, .. }),
                signal: Some(_),
                ..
            },
        ) => Some(deadline),
        (PreparedPhase::Opening, SupervisorEvent::RecorderExited { signal: Some(token), .. }) => {
            Some(token.spec_deadline())
        },
        (PreparedPhase::Installing(_), SupervisorEvent::ShutdownInstalled(token)) => Some(
            token.spec_deadline(),
        ),
        (
            PreparedPhase::BuildingRouter,
            SupervisorEvent::RouterBuilt { result: Ok(_), signal: Some(token), .. },
        ) => Some(token.spec_deadline()),
        (
            PreparedPhase::Activating { .. },
            SupervisorEvent::Activated {
                result: Ok(ServiceActivation::Shutdown { deadline, .. }),
                ..
            },
        ) => Some(deadline),
        (
            PreparedPhase::StartingService { .. },
            SupervisorEvent::ServiceStarted {
                result: Ok(ServiceStartup::Started),
                signal: Some(token),
                ..
            },
        ) => Some(token.spec_deadline()),
        (
            PreparedPhase::StartingService { .. },
            SupervisorEvent::ServiceStarted { result: Ok(ServiceStartup::Shutdown(deadline)), .. },
        ) => Some(deadline),
        (
            PreparedPhase::Serving { .. },
            SupervisorEvent::ShutdownChanged { signal: Some(token), .. },
        ) => Some(token.spec_deadline()),
        _ => None,
    }
}

/// The deadline that a node which stops is bound by.
pub open spec fn stopping_deadline(phase: PreparedPhase) -> Option<u64> {
    match phase {
        PreparedPhase::StoppingRecorder { deadline, .. } => Some(deadline),
        PreparedPhase::AwaitingOpen { deadline, .. } => Some(deadline),
        PreparedPhase::Draining { drain, .. } => Some(drain.deadline),
        _ => None,
    }
}

/// A shutdown that was requested fixes the deadline by which the node stops,
/// in whatever phase it comes: the supervisor neither extends nor shortens it.
pub proof fn law_requested_deadline_is_kept(
    state: PreparedSupervisor,
    event: SupervisorEvent,
    next: PreparedSupervisor,
    effects: Seq<SupervisorEffect>,
)
    requires
        state.steps_to(event, next, effects),
    ensures
        requested_deadline(state.phase, event) matches Some(deadline) ==> stopping_deadline(
            next.phase,
        ) == Some(deadline),
{
}

/// A node that stops keeps the deadline that it began to stop under until it
/// has ended.
pub proof fn law_a_stopping_node_keeps_its_deadline(
    state: PreparedSupervisor,
    event: SupervisorEvent,
    next: PreparedSupervisor,
    effects: Seq<SupervisorEffect>,
)
    requires
        state.steps_to(event, next, effects),
        stopping_deadline(state.phase) is Some,
    ensures
        next.phase is Finished || stopping_deadline(next.phase) == stopping_deadline(state.phase),
{
}

/// A node begins to stop under another deadline than a requested one only
/// because a step of its start failed; it then reports that failure.
pub proof fn law_only_a_failed_start_sets_its_own_deadline(
    state: PreparedSupervisor,
    event: SupervisorEvent,
    next: PreparedSupervisor,
    effects: Seq<SupervisorEffect>,
)
    requires
        state.steps_to(event, next, effects),
        stopping_deadline(state.phase) is None,
        stopping_deadline(next.phase) is Some,
        requested_deadline(state.phase, event) is None,
    ensures
        match next.phase {
            PreparedPhase::StoppingRecorder { ending, .. } => ending is Reported,
            PreparedPhase::Draining { ending, .. } => ending is Reported,
            _ => false,
        },
        match event {
            SupervisorEvent::OpenFinished { now, .. }
            | SupervisorEvent::RouterBuilt { now, .. }
            | SupervisorEvent::Activated { now, .. }
            | SupervisorEvent::ServiceStarted { now, .. } => stopping_deadline(next.phase) == Some(
                crate::supervise::default_deadline(now),
            ),
            _ => false,
        },
{
}

/// Everybody is told this status, with neither handle nor failure.
pub open spec fn tells(effect: SupervisorEffect, status: HaNodeStatus) -> bool {
    effect matches SupervisorEffect::Publish(snapshot) && snapshot.status == status
        && snapshot.handle is None && snapshot.terminal_error is None
}

/// Everybody is told that the node failed, with this very error.
pub open spec fn tells_failure(effect: SupervisorEffect, error: HaNodeError) -> bool {
    effect matches SupervisorEffect::Publish(snapshot) && snapshot.status == HaNodeStatus::Failed
        && snapshot.handle is None && snapshot.terminal_error == Some(error)
}

/// Twenty-five seconds after `now`.
pub open spec fn in_time(deadline: u64, now: u64) -> bool {
    now + 25_000_000_000 <= u64::MAX ==> deadline == now + 25_000_000_000
}

/// Everything stops in order: the admin routes where there are any, the
/// service, the operations of the runtime, and the recorder server.
pub open spec fn stops_everything(scope: HaTaskScope, effects: Seq<SupervisorEffect>) -> bool {
    let admin: int = if !scope.shutdown_started && scope.admin == AdminDrainLease::Enabled {
        1
    } else {
        0
    };
    let service: int = if scope.shutdown_started {
        0
    } else {
        1
    };
    &&& effects.len() == admin + service + 2
    &&& admin == 1 ==> effects[0] == SupervisorEffect::Scope(ScopeEffect::StopAdminAdmission)
    &&& service == 1 ==> effects[admin] == SupervisorEffect::Scope(ScopeEffect::SignalService)
    &&& effects[admin + service] == SupervisorEffect::Scope(ScopeEffect::CancelRuntimeOperations)
    &&& effects[admin + service + 1] is SignalRecorder
}

/// The scope drains, and its shutdown has begun; nothing else of it changed.
pub open spec fn scope_drains(scope: HaTaskScope, drained: HaTaskScope) -> bool {
    drained.service == scope.service && drained.admin == scope.admin && drained.shutdown_started
}

/// `error` is what an end of the recorder server that nobody asked for means.
pub open spec fn recorder_blamed(exit: TaskExit, error: HaNodeError) -> bool {
    match exit {
        TaskExit::Returned(Ok(_)) => error.is_recorder_server(
            "recorder server stopped unexpectedly"@,
        ),
        TaskExit::Returned(Err(own)) => error == own,
        TaskExit::Failed(failure) => error.is_recorder_server(
            "recorder server"@ + " task failed: "@ + failure@,
        ),
    }
}

/// `error` is what an end of the service that nobody asked for means.
pub open spec fn service_blamed(exit: TaskExit, error: HaNodeError) -> bool {
    match exit {
        TaskExit::Returned(Ok(_)) => error.is_service_server(
            "service server stopped unexpectedly"@,
        ),
        TaskExit::Returned(Err(own)) => error == own,
        TaskExit::Failed(failure) => error.is_service_server(
            "service server"@ + " task failed: "@ + failure@,
        ),
    }
}

/// The failure that brings a node down which checks its readiness or serves.
pub open spec fn brings_down(
    phase: PreparedPhase,
    event: SupervisorEvent,
    error: HaNodeError,
) -> bool {
    match event {
        SupervisorEvent::RecorderExited { exit, .. } => phase is Serving && recorder_blamed(
            exit,
            error,
        ),
        SupervisorEvent::ServiceExited { exit, .. } => phase is Serving && service_blamed(
            exit,
            error,
        ),
        SupervisorEvent::WorkersEnded { failure: Some(classification), .. } => phase is Serving
            && error == HaNodeError::WorkerFailure(classification),
        SupervisorEvent::WorkersEnded { failure: None, .. } => phase is Serving
            && error.is_service_server("HA workers stopped before node shutdown"@),
        SupervisorEvent::ReadinessChecked { result: Err(own), .. } => (phase is Serving || phase
            is CheckingReadiness) && error == own,
        _ => false,
    }
}

/// The event is a failure of a node that checks its readiness or serves.
pub open spec fn is_a_failure(phase: PreparedPhase, event: SupervisorEvent) -> bool {
    match event {
        SupervisorEvent::RecorderExited { .. } => phase is Serving,
        SupervisorEvent::ServiceExited { .. } => phase is Serving,
        SupervisorEvent::WorkersEnded { .. } => phase is Serving,
        SupervisorEvent::ReadinessChecked { result, .. } => result is Err && (phase is Serving
            || phase is CheckingReadiness),
        _ => false,
    }
}

/// The one effect asks for a shutdown on the node's own behalf, which closes
/// admission and expires twenty-five seconds after `now`.
pub open spec fn asks_for_its_own_shutdown(
    effect: SupervisorEffect,
    now: u64,
    fresh: StartupCancellationToken,
) -> bool {
    effect matches SupervisorEffect::RequestShutdown { token, close_admission } && close_admission
        && in_time(token.spec_deadline(), now) && token.spec_startup_token() == fresh
        && token.spec_startup_authority() == StartupCancellationAuthority::Internal
}

/// No failure of a serving node is lost: an end of the recorder server, of the
/// service or of the workers that nobody asked for, and a failed readiness
/// check, each ask for a shutdown that drains because of that very failure.
pub proof fn law_no_failure_of_a_serving_node_is_lost(
    state: PreparedSupervisor,
    event: SupervisorEvent,
    next: PreparedSupervisor,
    effects: Seq<SupervisorEffect>,
)
    requires
        state.steps_to(event, next, effects),
        is_a_failure(state.phase, event),
    ensures
        next.phase matches PreparedPhase::Installing(AfterInstall::Drain { terminal, .. })
            && terminal is Some && brings_down(state.phase, event, terminal->0),
        effects.len() == 1,
        match event {
            SupervisorEvent::RecorderExited { now, fresh, .. }
            | SupervisorEvent::ServiceExited { now, fresh, .. }
            | SupervisorEvent::WorkersEnded { now, fresh, .. }
            | SupervisorEvent::ReadinessChecked { now, fresh, .. } => asks_for_its_own_shutdown(
                effects[0],
                now,
                fresh,
            ),
            _ => true,
        },
        next.listener == state.listener,
{
    broadcast use crate::token::ShutdownToken::lemma_parts;

}

/// What a serving node owned when it failed is drained with it: a recorder
/// server that ended is not waited for and leaves the evidence of its end, a
/// service that ended leaves its own, and all else still runs.
pub proof fn law_a_failed_node_drains_what_it_owned(
    state: PreparedSupervisor,
    event: SupervisorEvent,
    next: PreparedSupervisor,
    effects: Seq<SupervisorEffect>,
)
    requires
        state.well_formed(),
        state.steps_to(event, next, effects),
        is_a_failure(state.phase, event),
    ensures
        next.phase matches PreparedPhase::Installing(AfterInstall::Drain {
            scope,
            recorder_running,
            recorder_evidence,
            ..
        }) && match state.phase {
            PreparedPhase::Serving { scope: owned } | PreparedPhase::CheckingReadiness {
                scope: owned,
            } => {
                &&& scope.admin == owned.admin && scope.shutdown_started == owned.shutdown_started
                &&& recorder_running <==> !(event is RecorderExited)
                &&& !(event is ServiceExited) ==> scope == owned
                &&& !(event is RecorderExited) ==> recorder_evidence is None && next.recorder
                    == state.recorder
                &&& event matches SupervisorEvent::RecorderExited { exit, receipt, reported, .. }
                    ==> next.recorder == state.recorder.after_exit(
                    exit is Returned,
                    receipt,
                    reported,
                ) && recorder_evidence == next.recorder.spec_completed_shutdown_evidence()
                &&& event matches SupervisorEvent::ServiceExited { exit, receipt, .. } ==> (
                scope.service matches ServiceTaskState::Completed { result, evidence } && result
                    is None && (evidence.ingress == IngressDisposition::Closed <==> (
                owned.service->Running_0.listener_receipted || receipt)) && (evidence.tasks
                    == TaskDisposition::Quiesced <==> (exit matches TaskExit::Returned(returned)
                    && returned is Ok) && !owned.service->Running_0.forced))
            },
            _ => false,
        },
{
}

/// Once the token in force is known, everything drains by its deadline: a
/// failure is told first, then startup is cancelled under that token, and then
/// everything stops.
pub proof fn law_a_failed_node_tells_and_drains(
    state: PreparedSupervisor,
    token: ShutdownToken,
    next: PreparedSupervisor,
    effects: Seq<SupervisorEffect>,
)
    requires
        state.steps_to(SupervisorEvent::ShutdownInstalled(token), next, effects),
        state.phase matches PreparedPhase::Installing(after) && after is Drain,
    ensures
        next.listener == state.listener && next.recorder == state.recorder,
        state.phase matches PreparedPhase::Installing(AfterInstall::Drain {
            scope,
            terminal,
            recorder_running,
            recorder_evidence,
        }) && (next.phase matches PreparedPhase::Draining { drain, ending } && scope_drains(
            scope,
            drain.scope,
        ) && drain.recorder_running == recorder_running && drain.recorder_evidence
            == recorder_evidence && drain.deadline == token.spec_deadline() && ending
            == Ending::Terminal(terminal)) && match terminal {
            Some(error) => effects.len() > 2 && tells_failure(effects[0], error) && effects[1]
                == SupervisorEffect::CancelStartup(token) && stops_everything(
                scope,
                effects.skip(2),
            ),
            None => effects.len() > 1 && effects[0] == SupervisorEffect::CancelStartup(token)
                && stops_everything(scope, effects.skip(1)),
        },
{
}

/// Where a node stands that ends because of `error`.
pub open spec fn ends_because_of(phase: PreparedPhase, error: HaNodeError) -> bool {
    match phase {
        PreparedPhase::Installing(AfterInstall::Drain { terminal, .. }) => terminal == Some(error),
        PreparedPhase::Draining { ending, .. } => ending == Ending::Terminal(Some(error)),
        PreparedPhase::Finished(result) => result matches Err(returned) && returned.root()
            == error.root(),
        _ => false,
    }
}

proof fn lemma_ends_because_of(
    state: PreparedSupervisor,
    event: SupervisorEvent,
    next: PreparedSupervisor,
    effects: Seq<SupervisorEffect>,
    error: HaNodeError,
)
    requires
        state.steps_to(event, next, effects),
        ends_because_of(state.phase, error),
    ensures
        ends_because_of(next.phase, error),
{
    reveal_with_fuel(HaNodeError::root, 2);
}

/// In every run, a serving node that failed ends because of that failure: it
/// drains with it, and its supervisor returns an error whose root is the root
/// of the failure. Nothing that happens meanwhile, and no cleanup, hides it.
pub proof fn law_a_failed_node_ends_with_its_failure(
    states: Seq<PreparedSupervisor>,
    events: Seq<SupervisorEvent>,
    effects: Seq<Seq<SupervisorEffect>>,
    i: int,
    j: int,
)
    requires
        is_prepared_run(states, events, effects),
        0 <= i < j < states.len(),
        is_a_failure(states[i].phase, events[i]),
    ensures
        exists|error: HaNodeError| #[trigger]
            brings_down(states[i].phase, events[i], error) && ends_because_of(
                states[j].phase,
                error,
            ),
    decreases j,
{
    assert(states[i].steps_to(events[i], states[i + 1], effects[i]));
    law_no_failure_of_a_serving_node_is_lost(states[i], events[i], states[i + 1], effects[i]);
    if j > i + 1 {
        law_a_failed_node_ends_with_its_failure(states, events, effects, i, j - 1);
        let error = choose|error: HaNodeError| #[trigger]
            brings_down(states[i].phase, events[i], error) && ends_because_of(
                states[j - 1].phase,
                error,
            );
        assert(states[j - 1].steps_to(events[j - 1], states[j - 1 + 1], effects[j - 1]));
        lemma_ends_because_of(states[j - 1], events[j - 1], states[j], effects[j - 1], error);
    } else if let PreparedPhase::Installing(AfterInstall::Drain { terminal: Some(error), .. }) =
        states[j].phase {
        assert(brings_down(states[i].phase, events[i], error));
    }
}

/// The event asks for a stop: a shutdown is in force, or nobody can ask for
/// one any more.
pub open spec fn asks_to_stop(event: SupervisorEvent) -> bool {
    match event {
        SupervisorEvent::OpenFinished { signal, .. } => signal is Some,
        SupervisorEvent::RecorderExited { signal, .. } => signal is Some,
        SupervisorEvent::RouterBuilt { signal, .. } => signal is Some,
        SupervisorEvent::Activated { result, .. } => result matches Ok(activation) && activation
            is Shutdown,
        SupervisorEvent::ServiceStarted { result, signal, .. } => signal is Some || (result matches
            Ok(startup) && startup is Shutdown),
        SupervisorEvent::ShutdownChanged { closed, signal, .. } => closed || signal is Some,
        _ => false,
    }
}

/// The node may still end without a failure.
pub open spec fn may_end_well(phase: PreparedPhase) -> bool {
    match phase {
        PreparedPhase::StoppingRecorder { ending, .. } => ending is Cancelled || ending
            == Ending::Terminal(None),
        PreparedPhase::AwaitingOpen { ending, .. } => ending is Cancelled || ending
            == Ending::Terminal(None),
        PreparedPhase::Draining { ending, .. } => ending is Cancelled || ending == Ending::Terminal(
            None,
        ),
        PreparedPhase::Installing(AfterInstall::Drain { terminal, .. }) => terminal is None,
        PreparedPhase::Finished(result) => result is Ok,
        _ => false,
    }
}

/// A supervisor returns success only where a stop was asked for: a shutdown
/// was requested, or its channel was closed.
pub proof fn law_only_a_node_that_was_asked_to_stop_ends_well(
    states: Seq<PreparedSupervisor>,
    events: Seq<SupervisorEvent>,
    effects: Seq<Seq<SupervisorEffect>>,
)
    requires
        is_prepared_run(states, events, effects),
        may_end_well(states.last().phase),
    ensures
        exists|i: int| 0 <= i < events.len() && asks_to_stop(#[trigger] events[i]),
    decreases events.len(),
{
    if events.len() > 0 {
        let n = events.len() - 1;
        let before = states.drop_last();
        let old_events = events.drop_last();
        assert forall|i: int| 0 <= i < n implies (#[trigger] before[i]).steps_to(
            old_events[i],
            before[i + 1],
            effects.drop_last()[i],
        ) by {
            assert(states[i].steps_to(events[i], states[i + 1], effects[i]));
        }
        assert(before.last() == states[n]);
        assert(states[n].steps_to(events[n], states[n + 1], effects[n]));
        if may_end_well(states[n].phase) {
            law_only_a_node_that_was_asked_to_stop_ends_well(
                before,
                old_events,
                effects.drop_last(),
            );
            let i = choose|i: int| 0 <= i < old_events.len() && asks_to_stop(
                #[trigger] old_events[i],
            );
            assert(events[i] == old_events[i]);
        } else {
            assert(asks_to_stop(events[n]));
        }
    }
}

/// What a supervisor returns: a requested stop is a success where its cleanup
/// is, and otherwise a cancellation with the failed cleanup added; a failure is
/// returned as it is, with a failed cleanup added to it; and without a failure
/// the cleanup decides.
pub proof fn law_a_failure_is_returned_with_its_failed_cleanup(
    ending: Ending,
    cleanup: Result<(), HaNodeError>,
)
    ensures
        match (ending, cleanup) {
            (Ending::Cancelled, Ok(_)) => ending.result(cleanup) is Ok,
            (Ending::Cancelled, Err(failed)) => ending.result(cleanup) matches Err(
                HaNodeError::Cleanup { primary, cleanup: added },
            ) && *primary == HaNodeError::Cancelled && *added == failed,
            (Ending::Reported(error), Ok(_)) => ending.result(cleanup) == Err::<(), HaNodeError>(
                error,
            ),
            (Ending::Reported(error), Err(failed)) => ending.result(cleanup) matches Err(
                HaNodeError::Cleanup { primary, cleanup: added },
            ) && *primary == error && *added == failed,
            (Ending::Terminal(None), _) => ending.result(cleanup) == cleanup,
            (Ending::Terminal(Some(error)), Ok(_)) => ending.result(cleanup) == Err::<
                (),
                HaNodeError,
            >(error),
            (Ending::Terminal(Some(error)), Err(failed)) => ending.result(cleanup) matches Err(
                HaNodeError::Cleanup { primary, cleanup: added },
            ) && *primary == error && *added == failed,
        },
        ending is Reported ==> ending.closing_effects(cleanup).len() == 0,
        !(ending is Reported) ==> ending.closing_effects(cleanup).len() == 1 && match ending.result(
            cleanup,
        ) {
            Ok(_) => tells(ending.closing_effects(cleanup)[0], HaNodeStatus::Stopped),
            Err(error) => tells_failure(ending.closing_effects(cleanup)[0], error),
        },
{
    if cleanup == Ok::<(), HaNodeError>(()) {
    } else if let Ok(unit) = cleanup {
        assert(unit == ());
    }
}

/// What the end of opening means: the router is built next, or the recorder
/// server stops first. A failure is told at once and given twenty-five seconds;
/// a cancellation keeps its own deadline where a shutdown asked for it, and is
/// itself the failure where none did.
pub proof fn law_the_end_of_opening_decides_how_the_node_goes_on(
    state: PreparedSupervisor,
    result: Result<(), HaOpenError>,
    signal: ShutdownSignal,
    now: u64,
    next: PreparedSupervisor,
    effects: Seq<SupervisorEffect>,
)
    requires
        state.phase is Opening,
        state.steps_to(SupervisorEvent::OpenFinished { result, signal, now }, next, effects),
    ensures
        next.listener == state.listener && next.recorder == state.recorder,
        result is Ok ==> next.phase is BuildingRouter && effects.len() == 0,
        result matches Err(HaOpenError::Startup { error, cleanup }) ==> effects.len() == 2
            && tells_failure(effects[0], HaNodeError::Startup(error)) && effects[1]
            is SignalRecorder && (next.phase matches PreparedPhase::StoppingRecorder {
            deadline,
            startup_cleanup,
            ending,
        } && in_time(deadline, now) && startup_cleanup == cleanup && ending == Ending::Reported(
            HaNodeError::Startup(error),
        )),
        result matches Err(HaOpenError::Cancelled { deadline, cleanup }) ==> if signal is Some {
            effects.len() == 2 && tells(effects[0], HaNodeStatus::ShuttingDown) && effects[1]
                is SignalRecorder && next.phase == (PreparedPhase::StoppingRecorder {
                deadline,
                startup_cleanup: cleanup,
                ending: Ending::Terminal(None),
            })
        } else {
            effects.len() == 1 && tells_failure(effects[0], HaNodeError::Cancelled) && (
            next.phase matches PreparedPhase::Finished(Err(returned)) && match cleanup {
                Ok(_) => returned == HaNodeError::Cancelled,
                Err(failed) => returned matches HaNodeError::Cleanup { primary, cleanup: added }
                    && *primary == HaNodeError::Cancelled && *added == failed,
            })
        },
{
}

/// What the end of the recorder server means while the node is opening. Where
/// a shutdown was requested the end is awaited by its deadline, and is a
/// failure unless the task succeeded. Where none was, the end is a failure
/// whatever it was, and asks for a shutdown that leaves admission alone; that
/// failure is told, and startup cancelled, once the token in force is known.
pub proof fn law_a_recorder_that_ends_while_the_node_opens_is_accounted_for(
    state: PreparedSupervisor,
    event: SupervisorEvent,
    next: PreparedSupervisor,
    effects: Seq<SupervisorEffect>,
)
    requires
        state.steps_to(event, next, effects),
    ensures
        state.phase is Opening ==> (event matches SupervisorEvent::RecorderExited {
            exit,
            receipt,
            reported,
            signal,
            now,
            fresh,
        } ==> {
            &&& next.listener == state.listener
            &&& next.recorder == state.recorder.after_exit(exit is Returned, receipt, reported)
            &&& effects.len() == 1
            &&& signal matches Some(token) ==> tells(effects[0], HaNodeStatus::ShuttingDown) && (
            next.phase matches PreparedPhase::AwaitingOpen { deadline, evidence, ending }
                && deadline == token.spec_deadline() && evidence
                == next.recorder.spec_completed_shutdown_evidence() && (ending matches
                Ending::Terminal(primary) && match primary {
                None => exit matches TaskExit::Returned(returned) && returned is Ok,
                Some(error) => !(exit matches TaskExit::Returned(returned) && returned is Ok)
                    && recorder_blamed(exit, error),
            }))
            &&& signal is None ==> (next.phase matches PreparedPhase::Installing(
                AfterInstall::AwaitOpen { error, evidence },
            ) && recorder_blamed(exit, error) && evidence
                == next.recorder.spec_completed_shutdown_evidence()) && (effects[0] matches
                SupervisorEffect::RequestShutdown { token, close_admission } && !close_admission
                && in_time(token.spec_deadline(), now) && token.spec_startup_token() == fresh
                && token.spec_startup_authority() == StartupCancellationAuthority::Internal)
        }),
        state.phase matches PreparedPhase::Installing(AfterInstall::AwaitOpen { error, evidence })
            ==> (event matches SupervisorEvent::ShutdownInstalled(token) ==> next.phase == (
        PreparedPhase::AwaitingOpen {
            deadline: token.spec_deadline(),
            evidence,
            ending: Ending::Reported(error),
        }) && effects.len() == 2 && effects[0] == SupervisorEffect::CancelStartup(token)
            && tells_failure(effects[1], error) && next.listener == state.listener && next.recorder
            == state.recorder),
{
    broadcast use crate::token::ShutdownToken::lemma_parts;

}

/// A node whose recorder server ended before opening did: a runtime that
/// opened after all is drained with the evidence of that end, under the same
/// deadline and ending, and a failed opening is a failed cleanup.
pub proof fn law_a_late_opening_is_drained_or_added(
    state: PreparedSupervisor,
    event: SupervisorEvent,
    next: PreparedSupervisor,
    effects: Seq<SupervisorEffect>,
)
    requires
        state.phase is AwaitingOpen,
        state.steps_to(event, next, effects),
    ensures
        next.listener == state.listener && next.recorder == state.recorder,
        state.phase matches PreparedPhase::AwaitingOpen { deadline, evidence, ending } ==> {
            &&& event matches SupervisorEvent::OpenFinished { result: Ok(_), .. } ==> (
            next.phase matches PreparedPhase::Draining { drain, ending: kept } && kept == ending
                && drain.deadline == deadline && !drain.recorder_running && drain.recorder_evidence
                == evidence && drain.scope.admin == AdminDrainLease::Disabled
                && drain.scope.shutdown_started && drain.scope.service
                == ServiceTaskState::Unstarted(
                match state.listener {
                    ServiceListener::Bound => ServiceTaskUnstarted::OwnedListenerDropped,
                    ServiceListener::Deferred => ServiceTaskUnstarted::DeferredOwnerUnknown,
                },
            )) && effects.len() == 3 && effects[0] == SupervisorEffect::Scope(
                ScopeEffect::SignalService,
            ) && effects[1] == SupervisorEffect::Scope(ScopeEffect::CancelRuntimeOperations)
                && effects[2] is SignalRecorder
            &&& event matches SupervisorEvent::OpenFinished {
                result: Err(HaOpenError::Cancelled { cleanup, .. }),
                ..
            } ==> next.phase == PreparedPhase::Finished(ending.result(cleanup)) && effects
                == ending.closing_effects(cleanup)
            &&& event matches SupervisorEvent::OpenFinished {
                result: Err(HaOpenError::Startup { error, cleanup }),
                ..
            } ==> {
                let failed: Result<(), HaNodeError> = match cleanup {
                    Ok(_) => Err(HaNodeError::Startup(error)),
                    Err(added) => Err(
                        HaNodeError::Cleanup {
                            primary: Box::new(HaNodeError::Startup(error)),
                            cleanup: Box::new(added),
                        },
                    ),
                };
                next.phase == PreparedPhase::Finished(ending.result(failed)) && effects
                    == ending.closing_effects(failed)
            }
            &&& event matches SupervisorEvent::OpenDeadline { stage } ==> {
                let failed: Result<(), HaNodeError> = Err(
                    HaNodeError::StartupIoDeadlineExceeded { stage },
                );
                next.phase == PreparedPhase::Finished(ending.result(failed)) && effects
                    == ending.closing_effects(failed)
            }
        },
{
}

/// A recorder server that stopped after opening failed ends the node: what
/// went wrong below startup comes before what went wrong in the stop.
pub proof fn law_a_stopped_recorder_ends_a_node_that_did_not_open(
    state: PreparedSupervisor,
    stopped: Result<(), HaNodeError>,
    next: PreparedSupervisor,
    effects: Seq<SupervisorEffect>,
)
    requires
        state.phase is StoppingRecorder,
        state.steps_to(SupervisorEvent::RecorderStopped(stopped), next, effects),
    ensures
        state.phase matches PreparedPhase::StoppingRecorder { startup_cleanup, ending, .. } ==> {
            let cleanup: Result<(), HaNodeError> = match (startup_cleanup, stopped) {
                (Ok(_), _) => stopped,
                (Err(first), Ok(_)) => Err(first),
                (Err(first), Err(second)) => Err(
                    HaNodeError::Cleanup { primary: Box::new(first), cleanup: Box::new(second) },
                ),
            };
            next.phase == PreparedPhase::Finished(ending.result(cleanup)) && effects
                == ending.closing_effects(cleanup)
        },
{
}

/// A requested stop begins: everybody is told, and everything that `scope`
/// owns drains by `deadline`, the recorder server included.
pub open spec fn begins_to_stop(
    state: PreparedSupervisor,
    scope: HaTaskScope,
    deadline: u64,
    next: PreparedSupervisor,
    effects: Seq<SupervisorEffect>,
) -> bool {
    &&& next.listener == state.listener && next.recorder == state.recorder
    &&& next.phase matches PreparedPhase::Draining { drain, ending } && scope_drains(
        scope,
        drain.scope,
    ) && drain.recorder_running && drain.recorder_evidence is None && drain.deadline == deadline
        && ending is Cancelled
    &&& effects.len() > 1 && tells(effects[0], HaNodeStatus::ShuttingDown) && stops_everything(
        scope,
        effects.skip(1),
    )
}

/// A step of the start failed: the failure is told, and everything that
/// `scope` owns drains within twenty-five seconds.
pub open spec fn begins_to_fail(
    state: PreparedSupervisor,
    scope: HaTaskScope,
    error: HaNodeError,
    now: u64,
    next: PreparedSupervisor,
    effects: Seq<SupervisorEffect>,
) -> bool {
    &&& next.listener == state.listener && next.recorder == state.recorder
    &&& next.phase matches PreparedPhase::Draining { drain, ending } && scope_drains(
        scope,
        drain.scope,
    ) && drain.recorder_running && drain.recorder_evidence is None && in_time(drain.deadline, now)
        && ending == Ending::Reported(error)
    &&& effects.len() > 1 && tells_failure(effects[0], error) && stops_everything(
        scope,
        effects.skip(1),
    )
}

/// A listener that the node bound is dropped and so closed; one that staging
/// still owns is none to claim anything of.
pub open spec fn without_service(
    listener: ServiceListener,
    admin: AdminDrainLease,
) -> HaTaskScope {
    HaTaskScope {
        service: ServiceTaskState::Unstarted(
            match listener {
                ServiceListener::Bound => ServiceTaskUnstarted::OwnedListenerDropped,
                ServiceListener::Deferred => ServiceTaskUnstarted::DeferredOwnerUnknown,
            },
        ),
        admin,
        shutdown_started: false,
    }
}

/// How a node whose runtime is open gets to serve: its router is built, its
/// listener activated, its service started and its readiness checked, in this
/// order. A shutdown that is in force after a step stops it by its deadline,
/// and a failure of a step fails it.
pub proof fn law_an_open_node_serves_once_every_step_went_well(
    state: PreparedSupervisor,
    event: SupervisorEvent,
    next: PreparedSupervisor,
    effects: Seq<SupervisorEffect>,
)
    requires
        state.steps_to(event, next, effects),
    ensures
        state.phase is BuildingRouter ==> (event matches SupervisorEvent::RouterBuilt {
            result,
            signal,
            now,
        } ==> match (result, signal) {
            (Err(error), _) => begins_to_fail(
                state,
                without_service(state.listener, AdminDrainLease::Disabled),
                error,
                now,
                next,
                effects,
            ),
            (Ok(admin), Some(token)) => begins_to_stop(
                state,
                without_service(state.listener, admin),
                token.spec_deadline(),
                next,
                effects,
            ),
            (Ok(admin), None) => effects.len() == 0 && next.listener == state.listener
                && next.recorder == state.recorder && (next.phase matches
                PreparedPhase::Activating { scope } && scope == without_service(
                ServiceListener::Deferred,
                admin,
            )),
        }),
        state.phase matches PreparedPhase::Activating { scope } ==> (event matches
            SupervisorEvent::Activated { result, now } ==> match result {
            Err(error) => begins_to_fail(
                state,
                HaTaskScope {
                    service: ServiceTaskState::Unstarted(
                        ServiceTaskUnstarted::DeferredOwnerUnknown,
                    ),
                    ..scope
                },
                error,
                now,
                next,
                effects,
            ),
            Ok(ServiceActivation::Listener) => effects.len() == 1 && effects[0] is StartService
                && next.listener == state.listener && next.recorder == state.recorder && (
            next.phase matches PreparedPhase::StartingService { scope: started } && (
            started.service matches ServiceTaskState::Running(ingress)
                && !ingress.listener_receipted && !ingress.forced) && started.admin == scope.admin
                && started.shutdown_started == scope.shutdown_started),
            Ok(ServiceActivation::Shutdown { deadline, listener_closed }) => begins_to_stop(
                state,
                HaTaskScope {
                    service: ServiceTaskState::Unstarted(
                        if listener_closed {
                            ServiceTaskUnstarted::OwnedListenerDropped
                        } else {
                            ServiceTaskUnstarted::DeferredOwnerUnknown
                        },
                    ),
                    ..scope
                },
                deadline,
                next,
                effects,
            ),
        }),
        state.phase matches PreparedPhase::StartingService { scope } ==> (event matches
            SupervisorEvent::ServiceStarted { result, signal, now } ==> match result {
            Err(error) => begins_to_fail(state, scope, error, now, next, effects),
            Ok(ServiceStartup::Shutdown(deadline)) => begins_to_stop(
                state,
                scope,
                deadline,
                next,
                effects,
            ),
            Ok(ServiceStartup::Started) => match signal {
                Some(token) => begins_to_stop(state, scope, token.spec_deadline(), next, effects),
                None => effects.len() == 0 && next == (PreparedSupervisor {
                    phase: PreparedPhase::CheckingReadiness { scope },
                    ..state
                }),
            },
        }),
        state.phase matches PreparedPhase::CheckingReadiness { scope } ==> (event matches
            SupervisorEvent::ReadinessChecked { result: Ok(_), .. } ==> effects.len() == 0 && next
            == (PreparedSupervisor { phase: PreparedPhase::Serving { scope }, ..state })),
{
}

/// A serving node that is asked to stop tells so, cancels startup under that
/// shutdown, and drains by its deadline. One that nobody can ask any more asks
/// for its own shutdown. A signal that says nothing, and a readiness check
/// that went well, change nothing.
pub proof fn law_a_serving_node_stops_when_asked(
    state: PreparedSupervisor,
    event: SupervisorEvent,
    next: PreparedSupervisor,
    effects: Seq<SupervisorEffect>,
)
    requires
        state.phase is Serving,
        state.steps_to(event, next, effects),
    ensures
        state.phase matches PreparedPhase::Serving { scope } ==> (event matches
            SupervisorEvent::ShutdownChanged { closed, signal, now, fresh } ==> match signal {
            Some(token) => next.listener == state.listener && next.recorder == state.recorder && (
            next.phase matches PreparedPhase::Draining { drain, ending } && scope_drains(
                scope,
                drain.scope,
            ) && drain.recorder_running && drain.recorder_evidence is None && drain.deadline
                == token.spec_deadline() && ending == Ending::Terminal(None)) && effects.len() > 2
                && tells(effects[0], HaNodeStatus::ShuttingDown) && effects[1]
                == SupervisorEffect::CancelStartup(token) && stops_everything(
                scope,
                effects.skip(2),
            ),
            None => if closed {
                next.listener == state.listener && next.recorder == state.recorder && next.phase
                    == PreparedPhase::Installing(
                    AfterInstall::Drain {
                        scope,
                        terminal: None,
                        recorder_running: true,
                        recorder_evidence: None,
                    },
                ) && effects.len() == 2 && tells(effects[0], HaNodeStatus::ShuttingDown)
                    && asks_for_its_own_shutdown(effects[1], now, fresh)
            } else {
                next == state && effects.len() == 0
            },
        }),
        event matches SupervisorEvent::ReadinessChecked { result: Ok(_), .. } ==> next == state
            && effects.len() == 0,
{
    broadcast use crate::token::ShutdownToken::lemma_parts;

}

/// A drained node ends as its ending says once everything that it owned was
/// accounted for: its service and admin routes, its recorder server and the
/// owner below.
pub proof fn law_a_drained_node_ends_as_everything_it_owned_did(
    state: PreparedSupervisor,
    report: DrainReport,
    next: PreparedSupervisor,
    effects: Seq<SupervisorEffect>,
)
    requires
        state.phase is Draining,
        state.steps_to(SupervisorEvent::Drained(report), next, effects),
        state.phase matches PreparedPhase::Draining { drain, .. } && drain.accepts(report),
    ensures
        state.phase matches PreparedPhase::Draining { drain, ending } ==> {
            &&& next.phase == PreparedPhase::Finished(ending.result(drain.cleanup(report)))
            &&& effects == ending.closing_effects(drain.cleanup(report))
            &&& drain.cleanup(report) is Ok <==> {
                &&& report.owner is Ok
                &&& report.recorder matches Some(recorder) ==> recorder.result is Ok
                &&& drain.scope.admin == AdminDrainLease::Disabled || report.admin_idle
                &&& match drain.scope.service {
                    ServiceTaskState::Unstarted(_) => true,
                    ServiceTaskState::Running(_) => report.service->0.result is Ok,
                    ServiceTaskState::Completed { result, .. } => result matches Some(ended)
                        ==> ended is Ok,
                }
            }
        },
{
}

/// The supervisor waits for this event.
pub open spec fn supervisor_waits_for(phase: PreparedPhase, event: SupervisorEvent) -> bool {
    match phase {
        PreparedPhase::Opening => event is OpenFinished || event is RecorderExited,
        PreparedPhase::StoppingRecorder { .. } => event is RecorderStopped,
        PreparedPhase::Installing(_) => event is ShutdownInstalled,
        PreparedPhase::AwaitingOpen { .. } => event is OpenFinished || event is OpenDeadline,
        PreparedPhase::BuildingRouter => event is RouterBuilt,
        PreparedPhase::Activating { .. } => event is Activated,
        PreparedPhase::StartingService { .. } => event is ServiceStarted,
        PreparedPhase::CheckingReadiness { .. } => event is ReadinessChecked,
        PreparedPhase::Serving { .. } => event is ShutdownChanged || event is RecorderExited
            || event is ServiceExited || event is WorkersEnded || event is ReadinessChecked,
        PreparedPhase::Draining { .. } => event is Drained,
        PreparedPhase::Finished(_) => false,
    }
}

/// What a supervisor does not wait for changes nothing.
pub proof fn law_a_supervisor_ignores_what_it_does_not_wait_for(
    state: PreparedSupervisor,
    event: SupervisorEvent,
    next: PreparedSupervisor,
    effects: Seq<SupervisorEffect>,
)
    requires
        state.steps_to(event, next, effects),
        !supervisor_waits_for(state.phase, event),
    ensures
        next == state,
        effects.len() == 0,
{
}

/// What holds of a step of a supervisor holds of the function that takes it.
pub proof fn law_a_node_is_supervised_by_its_steps(
    supervisor: PreparedSupervisor,
    event: SupervisorEvent,
    step: (PreparedSupervisor, Vec<SupervisorEffect>),
)
    requires
        call_ensures(
            crate::supervise::supervise_prepared_ha_node,
            (supervisor, event),
            step,
        ),
    ensures
        supervisor.steps_to(event, step.0, step.1@),
        step.0.well_formed(),
{
}

} // verus!
