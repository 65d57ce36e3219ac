//! What holds of every step of a readiness check.
use crate::cancellation::StartupExit;
use crate::error::{HaNodeError, HaStartupError, NodeError, NodeErrorKind};
use crate::log::LogAnchor;
use crate::readiness::{
    plan_activation, status_of, ActivationPlan, AttemptExit, DurabilityErrorKind, NodeStatus,
    ReadinessCheck, ReadinessEvent, ReadinessPhase,
};
use crate::scope::ScopeEffect;
use crate::status::HaNodeStatus;
use crate::supervise::SupervisorEffect;
use crate::token::{ShutdownSignal, StartupIoContext};
use vstd::prelude::*;

verus! {

/// Exactly one thing is asked for: that the node, with its handle and without
/// a failure, is said to be `status`.
pub open spec fn says_only(
    check: ReadinessCheck,
    effects: Seq<SupervisorEffect>,
    status: HaNodeStatus,
) -> bool {
    effects.len() == 1 && (effects[0] matches SupervisorEffect::Publish(snapshot) && snapshot.status
        == status && snapshot.handle == Some(check.handle) && snapshot.terminal_error is None)
}

/// A check is about its node only: whatever happens, its handle and its two
/// Stops stay what they are.
pub open spec fn same_node(check: ReadinessCheck, next: ReadinessCheck) -> bool {
    next.handle == check.handle && next.auto_activate_stop == check.auto_activate_stop
        && next.successor_stop == check.successor_stop
}

/// What was found is always said, unless a shutdown was requested: a node that
/// is not active awaits its activation, one that is active and ready, with
/// writes allowed, is ready, and every other one is degraded.
pub proof fn law_what_was_found_is_published(
    check: ReadinessCheck,
    found: NodeStatus,
    write_allowed: bool,
    signal: ShutdownSignal,
    next: ReadinessCheck,
    effects: Seq<SupervisorEffect>,
)
    requires
        check.phase == (ReadinessPhase::Publishing { status: Ok(found) }),
        check.steps_to(ReadinessEvent::Evaluated { write_allowed, signal }, next, effects),
    ensures
        next.phase == ReadinessPhase::Done(Ok(())),
        same_node(check, next),
        signal is Some ==> effects.len() == 0,
        signal is None ==> effects.len() == 1,
        signal is None && !found.active ==> says_only(
            check,
            effects,
            HaNodeStatus::AwaitingActivation,
        ),
        signal is None && found.active && found.ready && write_allowed ==> says_only(
            check,
            effects,
            HaNodeStatus::Ready,
        ),
        signal is None && found.active && !(found.ready && write_allowed) ==> says_only(
            check,
            effects,
            HaNodeStatus::Degraded,
        ),
{
}

/// A status that could not be had ends a node that was to activate by itself,
/// where trying again is no use. Otherwise the node is degraded, and says so
/// unless a shutdown was requested.
pub proof fn law_a_status_that_cannot_be_had_degrades_or_ends_the_node(
    check: ReadinessCheck,
    error: NodeError,
    write_allowed: bool,
    signal: ShutdownSignal,
    next: ReadinessCheck,
    effects: Seq<SupervisorEffect>,
)
    requires
        check.phase == (ReadinessPhase::Publishing { status: Err(error) }),
        check.steps_to(ReadinessEvent::Evaluated { write_allowed, signal }, next, effects),
    ensures
        same_node(check, next),
        check.auto_activate_stop is Some && !error.retryable ==> effects.len() == 0 && next.phase
            == ReadinessPhase::Done(
            Err(HaNodeError::Startup(HaStartupError::Source(error.message))),
        ),
        check.auto_activate_stop is None || error.retryable ==> next.phase == ReadinessPhase::Done(
            Ok(()),
        ) && if signal is Some {
            effects.len() == 0
        } else {
            says_only(check, effects, HaNodeStatus::Degraded)
        },
{
}

/// What an attempt returned is published as it is, except that a successor
/// that is active and still lacks its checkpoint baseline establishes that
/// first, from its predecessor's Stop.
pub proof fn law_an_attempt_is_published_once_its_baseline_is_there(
    check: ReadinessCheck,
    exit: AttemptExit,
    baseline_required: bool,
    startup: StartupIoContext,
    next: ReadinessCheck,
    effects: Seq<SupervisorEffect>,
)
    requires
        check.phase is Attempting,
        check.steps_to(
            ReadinessEvent::AttemptEnded { exit, baseline_required, startup },
            next,
            effects,
        ),
    ensures
        same_node(check, next),
        effects.len() == 0,
        exit matches AttemptExit::Returned(status) ==> (next.phase == (
        ReadinessPhase::Publishing { status }) <==> !(baseline_required && status is Ok
            && status->Ok_0.active)),
        exit matches AttemptExit::Returned(Ok(status)) ==> (baseline_required && status.active
            && check.successor_stop is Some ==> next.phase == (
        ReadinessPhase::EstablishingBaseline {
            predecessor_stop: check.successor_stop->0,
            status,
        })),
        exit matches AttemptExit::Returned(Ok(status)) ==> (baseline_required && status.active
            && check.successor_stop is None ==> (next.phase matches ReadinessPhase::Done(Err(error))
            && error.is_startup(
            "successor checkpoint baseline is missing its predecessor Stop capability"@,
        ))),
        exit matches AttemptExit::Failed(failure) ==> (next.phase matches ReadinessPhase::Done(
            Err(error),
        ) && error.is_startup("activation status task failed: "@ + failure@)),
{
}

/// A baseline that was established lets the status be published as it was
/// found. One that the archive may still take degrades the node meanwhile, and
/// any other failure ends it with the failure's own message.
pub proof fn law_a_baseline_is_established_or_reported(
    check: ReadinessCheck,
    event: ReadinessEvent,
    next: ReadinessCheck,
    effects: Seq<SupervisorEffect>,
)
    requires
        check.phase is EstablishingBaseline,
        check.steps_to(event, next, effects),
    ensures
        same_node(check, next),
        check.phase matches ReadinessPhase::EstablishingBaseline { status, .. } ==> (event matches
            ReadinessEvent::BaselineEnded(Ok(_)) ==> next.phase == (ReadinessPhase::Publishing {
            status: Ok(status),
        }) && effects.len() == 0),
        event matches ReadinessEvent::BaselineEnded(Err(error)) ==> if error.kind
            == DurabilityErrorKind::Other {
            effects.len() == 0 && next.phase == ReadinessPhase::Done(
                Err(HaNodeError::Startup(HaStartupError::Source(error.message))),
            )
        } else {
            next.phase == ReadinessPhase::Done(Ok(())) && says_only(
                check,
                effects,
                HaNodeStatus::Degraded,
            )
        },
        event is ShutdownChanged ==> next.phase == ReadinessPhase::Done(Ok(())) && effects.len()
            == 0,
        !(event is ShutdownChanged || event is BaselineEnded) ==> next == check && effects.len()
            == 0,
{
}

/// Startup that goes on is attempted; startup that was stopped ends the check,
/// as a success only where this very shutdown stopped it.
pub proof fn law_an_attempt_begins_only_while_startup_goes_on(
    check: ReadinessCheck,
    result: Result<(), NodeError>,
    signal: ShutdownSignal,
    startup: StartupIoContext,
    next: ReadinessCheck,
    effects: Seq<SupervisorEffect>,
)
    requires
        check.phase is Checking,
        check.steps_to(
            ReadinessEvent::StartupChecked { result, signal, startup },
            next,
            effects,
        ),
    ensures
        same_node(check, next),
        effects.len() == 0,
        next.phase is Attempting <==> result is Ok,
        result matches Err(error) ==> (next.phase == ReadinessPhase::Done(Ok(())) <==> (signal
            is Some && error.kind == NodeErrorKind::StartupCancelled(
            signal->0.spec_startup_token(),
        ) && startup.spec_is_cancelled_by(signal->0.spec_startup_token()))),
        result matches Err(error) ==> (next.phase matches ReadinessPhase::Done(Err(HaNodeError::Startup(
            source,
        ))) ==> source == match error.kind {
            NodeErrorKind::StartupCancelled(token) => HaStartupError::Cancelled(token),
            _ => HaStartupError::Source(error.message),
        }),
        result is Err ==> (next.phase matches ReadinessPhase::Done(ended) && (ended is Ok
            || ended->Err_0 is Startup)),
{
}

/// `ended` is how a check ends whose attempt ended with `exit` once a shutdown
/// was requested: a status is worth nothing any more, a failure is kept unless
/// it is the cancellation that this very shutdown asked for, and a task that
/// broke down is reported.
pub open spec fn ends_after_shutdown(
    exit: AttemptExit,
    signal: ShutdownSignal,
    startup: StartupIoContext,
    ended: Result<(), HaNodeError>,
) -> bool {
    match exit {
        AttemptExit::Returned(Ok(_)) => ended is Ok,
        AttemptExit::Returned(Err(error)) => {
            let forgiven = signal is Some && error.kind == NodeErrorKind::StartupCancelled(
                signal->0.spec_startup_token(),
            ) && startup.spec_is_cancelled_by(signal->0.spec_startup_token());
            match ended {
                Ok(_) => forgiven,
                Err(kept) => !forgiven && kept == HaNodeError::Startup(
                    match error.kind {
                        NodeErrorKind::StartupCancelled(token) => HaStartupError::Cancelled(token),
                        _ => HaStartupError::Source(error.message),
                    },
                ),
            }
        },
        AttemptExit::Failed(failure) => ended matches Err(error) && error.is_startup(
            "activation status task failed during shutdown: "@ + failure@,
        ),
    }
}

/// A shutdown that finds an attempt under way cancels startup under that very
/// shutdown, or now where nobody can ask any more, and waits for the attempt
/// no longer than that. An attempt that had ended already is not waited for.
pub proof fn law_a_shutdown_cancels_the_attempt(
    check: ReadinessCheck,
    closed: bool,
    signal: ShutdownSignal,
    now: u64,
    finished: Option<AttemptExit>,
    startup: StartupIoContext,
    next: ReadinessCheck,
    effects: Seq<SupervisorEffect>,
)
    requires
        check.phase is Attempting,
        check.steps_to(
            ReadinessEvent::ShutdownChanged { closed, signal, now, finished, startup },
            next,
            effects,
        ),
    ensures
        same_node(check, next),
        !closed && signal is None ==> next == check && effects.len() == 0,
        (closed || signal is Some) && finished is Some ==> effects.len() == 0 && (next.phase matches
            ReadinessPhase::Done(ended) && ends_after_shutdown(
            finished->0,
            signal,
            startup,
            ended,
        )),
        (closed || signal is Some) && finished is None ==> effects.len() == 1 && match signal {
            Some(token) => effects[0] == SupervisorEffect::CancelStartup(token) && next.phase == (
            ReadinessPhase::CancellingAttempt { signal, deadline: token.spec_deadline() }),
            None => effects[0] == SupervisorEffect::CancelStartupAt(now) && next.phase == (
            ReadinessPhase::CancellingAttempt { signal, deadline: now }),
        },
{
}

/// A cancelled attempt ends the check as it ended; one that does not end in
/// time ends it with the stage that it hung in, and what it had of the runtime
/// is cancelled.
pub proof fn law_a_cancelled_attempt_ends_the_check(
    check: ReadinessCheck,
    event: ReadinessEvent,
    next: ReadinessCheck,
    effects: Seq<SupervisorEffect>,
)
    requires
        check.phase is CancellingAttempt,
        check.steps_to(event, next, effects),
    ensures
        same_node(check, next),
        check.phase matches ReadinessPhase::CancellingAttempt { signal, .. } ==> (event matches
            ReadinessEvent::AttemptEnded { exit, startup, .. } ==> effects.len() == 0 && (next.phase
            matches ReadinessPhase::Done(ended) && ends_after_shutdown(
            exit,
            signal,
            startup,
            ended,
        ))),
        event matches ReadinessEvent::AttemptDeadline { stage } ==> next.phase
            == ReadinessPhase::Done(Err(HaNodeError::StartupIoDeadlineExceeded { stage }))
            && effects.len() == 1 && effects[0] == SupervisorEffect::Scope(
            ScopeEffect::CancelRuntimeOperations,
        ),
        !(event is AttemptEnded || event is AttemptDeadline) ==> next == check && effects.len()
            == 0,
{
}

/// What a check does not wait for changes nothing, and a check that is over
/// stays over.
pub proof fn law_a_check_ignores_what_it_does_not_wait_for(
    check: ReadinessCheck,
    event: ReadinessEvent,
    next: ReadinessCheck,
    effects: Seq<SupervisorEffect>,
)
    requires
        check.steps_to(event, next, effects),
        check.phase is Done || (check.phase is Checking && !(event is StartupChecked)) || (
        check.phase is Attempting && !(event is ShutdownChanged || event is AttemptEnded)) || (
        check.phase is Publishing && !(event is Evaluated)),
    ensures
        next == check,
        effects.len() == 0,
{
}

/// What an activation is worth afterwards: the status that was then read,
/// whatever it is, unless it shows a configuration that is still inactive
/// after a failure that no retry mends. Only then the failure is kept.
pub proof fn law_only_a_lasting_failure_that_left_the_node_inactive_is_kept(
    activation: Result<(), NodeError>,
    current: Result<NodeStatus, NodeError>,
)
    ensures
        crate::readiness::settled(activation, current) != current ==> activation is Err
            && !activation->Err_0.retryable && current is Ok && !current->Ok_0.active,
        activation is Err && !activation->Err_0.retryable && current is Ok
            && !current->Ok_0.active ==> crate::readiness::settled(activation, current) == Err::<
            NodeStatus,
            NodeError,
        >(activation->Err_0),
{
}

/// A node that was not told to activate by itself only reports, and so does
/// one that is active; one that was told, and is inactive, either activates or
/// refuses.
pub proof fn law_a_node_activates_refuses_or_reports(
    status: NodeStatus,
    auto_activate_stop: Option<LogAnchor>,
)
    ensures
        plan_activation(status, auto_activate_stop) == ActivationPlan::Report <==> (
        auto_activate_stop is None || status.active),
        plan_activation(status, auto_activate_stop) == ActivationPlan::Refuse <==> (
        auto_activate_stop is Some && !status.active && status.stop != auto_activate_stop),
{
}

/// A node is said to be ready only where nothing is missing, and what is
/// missing is told apart: activation comes before everything else.
pub proof fn law_a_published_status_tells_what_is_missing(status: NodeStatus, write_allowed: bool)
    ensures
        status_of(status, write_allowed) == HaNodeStatus::AwaitingActivation <==> !status.active,
        status_of(status, write_allowed) == HaNodeStatus::Ready <==> status.active && status.ready
            && write_allowed,
        status_of(status, write_allowed) == HaNodeStatus::Degraded <==> status.active && !(
        status.ready && write_allowed),
{
}

/// Every failure of the archive but one that has no class of its own may pass.
pub proof fn law_only_an_unclassified_durability_failure_lasts(kind: DurabilityErrorKind)
    ensures
        kind.is_transient() <==> kind != DurabilityErrorKind::Other,
{
}

/// What an attempt's end is handed on as keeps its failure, and nothing of its
/// status.
pub proof fn law_an_attempt_hands_on_its_failure(exit: AttemptExit)
    ensures
        exit.spec_startup_exit() is Returned <==> exit is Returned,
        exit matches AttemptExit::Returned(Err(error)) ==> exit.spec_startup_exit()
            == StartupExit::<NodeError>::Returned(Err(error)),
        exit matches AttemptExit::Returned(Ok(_)) ==> (exit.spec_startup_exit() matches
            StartupExit::Returned(result) && result is Ok),
        exit matches AttemptExit::Failed(failure) ==> exit.spec_startup_exit() == StartupExit::<
            NodeError,
        >::Failed(failure),
{
}

/// What holds of a step of a readiness check holds of the function that takes
/// it.
pub proof fn law_readiness_is_updated_by_its_steps(
    check: ReadinessCheck,
    event: ReadinessEvent,
    step: (ReadinessCheck, Vec<SupervisorEffect>),
)
    requires
        call_ensures(crate::readiness::update_ha_readiness, (check, event), step),
    ensures
        check.steps_to(event, step.0, step.1@),
{
}

/// A readiness check begins with the check of startup, for the handle and the
/// Stops that it was given.
pub proof fn law_a_check_begins_with_startup(
    handle: crate::status::RhizaHandle,
    auto_activate_stop: Option<LogAnchor>,
    successor_stop: Option<LogAnchor>,
    check: ReadinessCheck,
)
    requires
        call_ensures(ReadinessCheck::start, (handle, auto_activate_stop, successor_stop), check),
    ensures
        check.phase is Checking,
        check.handle == handle,
        check.auto_activate_stop == auto_activate_stop,
        check.successor_stop == successor_stop,
{
}

} // verus!
