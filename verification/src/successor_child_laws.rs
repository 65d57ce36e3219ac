//! What holds of every supervision of a live successor's child.
use crate::error::HaNodeError;
use crate::node::HaNodeSnapshot;
use crate::staging::{StagingExit, StagingTaskExit, StagingWait};
use crate::status::HaNodeStatus;
use crate::successor::{Moment, SuccessorEffect};
use crate::successor_child::{ChildCleanup, ChildEvent, ChildPhase, StagingCleanup};
use crate::token::ShutdownToken;
use vstd::prelude::*;

verus! {

impl ChildPhase {
    /// How far the supervision got.
    pub open spec fn progress(self) -> nat {
        match self {
            ChildPhase::AwaitingService => 0,
            ChildPhase::HandingOver { .. } => 1,
            ChildPhase::Delivering { .. } => 2,
            ChildPhase::Serving => 3,
            ChildPhase::Cleaning(_) => 4,
            ChildPhase::Finished(_) => 5,
        }
    }
}

/// The listener is given to the child.
pub open spec fn sends_listener(effects: Seq<SuccessorEffect>) -> bool {
    exists|k: int| 0 <= k < effects.len() && #[trigger] effects[k] is SendListener
}

/// The child is shut down or dropped.
pub open spec fn ends_child(effects: Seq<SuccessorEffect>) -> bool {
    exists|k: int|
        0 <= k < effects.len() && (#[trigger] effects[k] is ShutdownChild || effects[k]
            is AbandonChild)
}

/// The staging service is stopped or aborted only by `deadline`.
pub open spec fn staging_ends_by(effects: Seq<SuccessorEffect>, deadline: u64) -> bool {
    forall|k: int|
        0 <= k < effects.len() ==> {
            &&& #[trigger] effects[k] is StopStaging ==> effects[k]
                == (SuccessorEffect::StopStaging { deadline })
            &&& effects[k] is AbortStaging ==> effects[k] == (SuccessorEffect::AbortStaging {
                deadline,
            })
        }
}

/// What the effects of a cleanup hold.
proof fn cleanup_effects(
    cleanup: ChildCleanup,
    before: Seq<SuccessorEffect>,
    token: ShutdownToken,
    staging: StagingCleanup,
    next: ChildPhase,
    effects: Seq<SuccessorEffect>,
)
    requires
        ChildPhase::cleans(cleanup, before, token, staging, next, effects),
        !sends_listener(before),
        !ends_child(before),
        staging_ends_by(before, token.spec_deadline()),
    ensures
        !sends_listener(effects),
        ends_child(effects),
        staging_ends_by(effects, token.spec_deadline()),
        forall|k: int|
            0 <= k < effects.len() && #[trigger] effects[k] is ShutdownChild ==> effects[k]
                == SuccessorEffect::ShutdownChild(token),
        forall|k: int|
            0 <= k < effects.len() && #[trigger] effects[k] is Publish ==> k < before.len()
                && effects[k] == before[k],
{
    let added = crate::successor_child::shutdown_effects(token, staging);
    assert(effects == before + added);
    assert(effects[before.len() as int] == added[0]);
    assert(added[0] == SuccessorEffect::ShutdownChild(token));
    assert forall|k: int| 0 <= k < effects.len() implies !(#[trigger] effects[k] is SendListener) by {
        if k < before.len() {
            assert(effects[k] == before[k]);
        } else {
            assert(effects[k] == added[k - before.len()]);
        }
    }
    assert forall|k: int| 0 <= k < effects.len() && #[trigger] effects[k] is ShutdownChild implies
        effects[k] == SuccessorEffect::ShutdownChild(token) by {
        if k < before.len() {
            assert(effects[k] == before[k]);
        } else {
            assert(effects[k] == added[k - before.len()]);
        }
    }
    assert forall|k: int| 0 <= k < effects.len() implies {
        &&& #[trigger] effects[k] is StopStaging ==> effects[k] == (SuccessorEffect::StopStaging {
            deadline: token.spec_deadline(),
        })
        &&& effects[k] is AbortStaging ==> effects[k] == (SuccessorEffect::AbortStaging {
            deadline: token.spec_deadline(),
        })
    } by {
        if k < before.len() {
            assert(effects[k] == before[k]);
        } else {
            assert(effects[k] == added[k - before.len()]);
        }
    }
    assert forall|k: int| 0 <= k < effects.len() && #[trigger] effects[k] is Publish implies k
        < before.len() && effects[k] == before[k] by {
        if k < before.len() {
            assert(effects[k] == before[k]);
        } else {
            assert(effects[k] == added[k - before.len()]);
        }
    }
}

/// The token that a cleanup which begins in `phase` at `moment` runs under.
pub open spec fn cleanup_authority(phase: ChildPhase, moment: Moment) -> ShutdownToken {
    match phase {
        ChildPhase::HandingOver { deadline } => moment.cleanup_token(deadline),
        ChildPhase::Delivering { deadline } => moment.cleanup_token(deadline),
        _ => moment.cleanup_token(moment.spec_own_deadline()),
    }
}

/// A snapshot that says no more than that the successor is going down.
pub open spec fn is_closing(snapshot: HaNodeSnapshot) -> bool {
    snapshot.status == HaNodeStatus::ShuttingDown || snapshot.status == HaNodeStatus::Failed
        || snapshot.status == HaNodeStatus::Stopped
}

/// What one step may ask for.
pub open spec fn step_is_sound(
    phase: ChildPhase,
    moment: Moment,
    next: ChildPhase,
    effects: Seq<SuccessorEffect>,
) -> bool {
    &&& next == phase || phase.progress() < next.progress() || (phase is Serving && next is Serving)
    &&& sends_listener(effects) <==> phase is HandingOver && next is Delivering
    &&& ends_child(effects) <==> phase.progress() < 4 && next.progress() >= 4
    &&& forall|k: int|
        0 <= k < effects.len() && #[trigger] effects[k] is ShutdownChild ==> effects[k]
            == SuccessorEffect::ShutdownChild(cleanup_authority(phase, moment))
    &&& staging_ends_by(effects, cleanup_authority(phase, moment).spec_deadline())
    &&& forall|k: int|
        0 <= k < effects.len() && !(phase is Serving) ==> (#[trigger] effects[k] matches
            SuccessorEffect::Publish(snapshot) ==> is_closing(snapshot))
}

proof fn awaiting_is_sound(
    event: ChildEvent,
    moment: Moment,
    next: ChildPhase,
    effects: Seq<SuccessorEffect>,
)
    requires
        ChildPhase::awaits(event, moment, next, effects),
    ensures
        step_is_sound(ChildPhase::AwaitingService, moment, next, effects),
{
    if let ChildPhase::Cleaning(cleanup) = next {
        let closing = SuccessorEffect::Publish(HaNodeSnapshot::plain(HaNodeStatus::ShuttingDown));
        let publishing = seq![closing];
        assert(publishing[0] == closing);
        let nothing = Seq::<SuccessorEffect>::empty();
        let token = moment.cleanup_token(moment.spec_own_deadline());
        if event is ShutdownChanged {
            cleanup_effects(cleanup, publishing, token, StagingCleanup::Stop, next, effects);
        } else if event is StagingExited {
            cleanup_effects(cleanup, nothing, token, StagingCleanup::Nothing, next, effects);
        } else {
            cleanup_effects(cleanup, nothing, token, StagingCleanup::Stop, next, effects);
        }
    } else if next is Finished {
        assert(effects[1] is AbandonChild);
    } else if event is ServiceReady {
        assert(effects[0] is RequestHandoff);
    }
}

proof fn handover_is_sound(
    deadline: u64,
    event: ChildEvent,
    moment: Moment,
    next: ChildPhase,
    effects: Seq<SuccessorEffect>,
)
    requires
        ChildPhase::hands_over(deadline, event, moment, next, effects),
    ensures
        step_is_sound(ChildPhase::HandingOver { deadline }, moment, next, effects),
{
    if let ChildPhase::Cleaning(cleanup) = next {
        let nothing = Seq::<SuccessorEffect>::empty();
        let abandoning = seq![SuccessorEffect::AbandonStaging];
        assert(abandoning[0] == SuccessorEffect::AbandonStaging);
        let token = moment.cleanup_token(deadline);
        match event {
            ChildEvent::ShutdownChanged => {
                cleanup_effects(cleanup, nothing, token, StagingCleanup::Abort, next, effects);
            },
            ChildEvent::HandoffEnded(wait) => {
                let before = if wait is DeadlineReached {
                    abandoning
                } else {
                    nothing
                };
                cleanup_effects(cleanup, before, token, StagingCleanup::Nothing, next, effects);
            },
            _ => {},
        }
    } else if next is Delivering {
        assert(effects[0] is SendListener);
    }
}

proof fn serving_is_sound(
    event: ChildEvent,
    moment: Moment,
    next: ChildPhase,
    effects: Seq<SuccessorEffect>,
)
    requires
        ChildPhase::serves(event, moment, next, effects),
    ensures
        step_is_sound(ChildPhase::Serving, moment, next, effects),
{
    if let ChildPhase::Cleaning(cleanup) = next {
        let token = moment.cleanup_token(moment.spec_own_deadline());
        let nothing = Seq::<SuccessorEffect>::empty();
        match event {
            ChildEvent::ChildObserved(snapshot) => {
                let publishing = seq![SuccessorEffect::Publish(snapshot)];
                assert(publishing[0] == SuccessorEffect::Publish(snapshot));
                cleanup_effects(cleanup, publishing, token, StagingCleanup::Nothing, next, effects);
            },
            ChildEvent::ShutdownChanged => {
                let closing = SuccessorEffect::Publish(
                    HaNodeSnapshot::plain(HaNodeStatus::ShuttingDown),
                );
                let publishing = seq![closing];
                assert(publishing[0] == closing);
                cleanup_effects(cleanup, publishing, token, StagingCleanup::Nothing, next, effects);
            },
            _ => {
                cleanup_effects(cleanup, nothing, token, StagingCleanup::Nothing, next, effects);
            },
        }
    } else if next is Finished {
        assert(effects[1] is AbandonChild);
    }
}

proof fn delivery_is_sound(
    phase: ChildPhase,
    event: ChildEvent,
    moment: Moment,
    next: ChildPhase,
    effects: Seq<SuccessorEffect>,
)
    requires
        phase is Delivering,
        phase.steps_to(event, moment, next, effects),
    ensures
        step_is_sound(phase, moment, next, effects),
{
    if let ChildPhase::Cleaning(cleanup) = next {
        cleanup_effects(
            cleanup,
            Seq::<SuccessorEffect>::empty(),
            cleanup_authority(phase, moment),
            StagingCleanup::Nothing,
            next,
            effects,
        );
    }
}

/// Supervision never goes back. The child is shut down only where its
/// supervision ends, and then under the shutdown that was asked for, if one
/// was, by whose deadline staging ends too; the listener is given away only where it just came out of staging;
/// and until the child serves nothing but the successor's end is published.
pub proof fn law_child_supervision_is_sound(
    phase: ChildPhase,
    event: ChildEvent,
    moment: Moment,
    next: ChildPhase,
    effects: Seq<SuccessorEffect>,
)
    requires
        phase.steps_to(event, moment, next, effects),
    ensures
        step_is_sound(phase, moment, next, effects),
        forall|k: int|
            0 <= k < effects.len() && #[trigger] effects[k] is ShutdownChild ==> (
            moment.signal matches Some(token) ==> effects[k] == SuccessorEffect::ShutdownChild(
                token,
            )),
        moment.signal matches Some(token) ==> staging_ends_by(effects, token.spec_deadline()),
{
    match phase {
        ChildPhase::AwaitingService => awaiting_is_sound(event, moment, next, effects),
        ChildPhase::HandingOver { deadline } => handover_is_sound(
            deadline,
            event,
            moment,
            next,
            effects,
        ),
        ChildPhase::Delivering { .. } => delivery_is_sound(phase, event, moment, next, effects),
        ChildPhase::Serving => serving_is_sound(event, moment, next, effects),
        _ => {},
    }
}

/// A supervision of a child: `phases[i + 1]` and `effects[i]` are what
/// `events[i]` makes of `phases[i]` at `moments[i]`.
pub open spec fn is_child_run(
    phases: Seq<ChildPhase>,
    events: Seq<ChildEvent>,
    moments: Seq<Moment>,
    effects: Seq<Seq<SuccessorEffect>>,
) -> bool {
    &&& phases.len() == events.len() + 1
    &&& moments.len() == events.len()
    &&& effects.len() == events.len()
    &&& phases[0] is AwaitingService
    &&& forall|i: int|
        0 <= i < events.len() ==> (#[trigger] phases[i]).steps_to(
            events[i],
            moments[i],
            phases[i + 1],
            effects[i],
        )
}

/// How often the listener is given to the child.
pub open spec fn sendings(effects: Seq<Seq<SuccessorEffect>>) -> nat
    decreases effects.len(),
{
    if effects.len() == 0 {
        0
    } else {
        sendings(effects.drop_last()) + if sends_listener(effects.last()) {
            1nat
        } else {
            0nat
        }
    }
}

/// How often the child is shut down or dropped.
pub open spec fn endings(effects: Seq<Seq<SuccessorEffect>>) -> nat
    decreases effects.len(),
{
    if effects.len() == 0 {
        0
    } else {
        endings(effects.drop_last()) + if ends_child(effects.last()) {
            1nat
        } else {
            0nat
        }
    }
}

/// The child gets the listener at most once, and serves only once it has it.
/// The child is shut down or dropped exactly once on every way to the end, and
/// never before.
pub proof fn law_listener_moves_once_and_the_child_ends_once(
    phases: Seq<ChildPhase>,
    events: Seq<ChildEvent>,
    moments: Seq<Moment>,
    effects: Seq<Seq<SuccessorEffect>>,
)
    requires
        is_child_run(phases, events, moments, effects),
    ensures
        sendings(effects) <= 1,
        phases.last().progress() < 2 ==> sendings(effects) == 0,
        phases.last() is Delivering || phases.last() is Serving ==> sendings(effects) == 1,
        endings(effects) == if phases.last().progress() < 4 {
            0nat
        } else {
            1nat
        },
    decreases events.len(),
{
    if events.len() > 0 {
        let n = events.len() - 1;
        let before = phases.drop_last();
        assert forall|i: int| 0 <= i < n implies (#[trigger] before[i]).steps_to(
            events.drop_last()[i],
            moments.drop_last()[i],
            before[i + 1],
            effects.drop_last()[i],
        ) by {
            assert(phases[i].steps_to(events[i], moments[i], phases[i + 1], effects[i]));
        }
        law_listener_moves_once_and_the_child_ends_once(
            before,
            events.drop_last(),
            moments.drop_last(),
            effects.drop_last(),
        );
        assert(before.last() == phases[n]);
        assert(phases[n].steps_to(events[n], moments[n], phases[n + 1], effects[n]));
        law_child_supervision_is_sound(
            phases[n],
            events[n],
            moments[n],
            phases[n + 1],
            effects[n],
        );
    }
}

/// Where only the child is shut down and nothing failed before, its own result
/// is the outcome.
pub proof fn law_lone_child_result_is_the_outcome(
    cleanup: ChildCleanup,
    child: Result<(), HaNodeError>,
    staging: Result<(), HaNodeError>,
)
    requires
        cleanup.primary is None,
        !cleanup.with_staging,
    ensures
        crate::successor::failure_of(cleanup.result(child, staging))
            == crate::successor::failure_of(child),
{
    let errors = crate::successor_child::failures(child, Ok(()));
    match child {
        Ok(_) => {
            assert(errors =~= Seq::<HaNodeError>::empty());
        },
        Err(error) => {
            assert(errors =~= seq![error]);
            assert(errors.skip(1) =~= Seq::<HaNodeError>::empty());
        },
    }
}

/// A failure that caused a cleanup is never lost in its outcome: the outcome
/// is a failure whose root is that of the cause, unless the child's own result
/// took its place.
pub proof fn law_cause_of_a_cleanup_is_kept(
    cleanup: ChildCleanup,
    child: Result<(), HaNodeError>,
    staging: Result<(), HaNodeError>,
)
    requires
        cleanup.primary is Some,
    ensures
        cleanup.result(child, staging) is Err,
        !cleanup.normalize || child is Ok ==> cleanup.result(child, staging)->Err_0.root()
            == cleanup.primary->0.root(),
{
}

/// What the shutdown of the child under `token` asks for, after everything
/// before it: the child's shutdown, and where staging goes with it its stop or
/// its abort by the same deadline.
pub open spec fn shuts_down(
    effects: Seq<SuccessorEffect>,
    token: ShutdownToken,
    staging: StagingCleanup,
) -> bool {
    &&& effects.len() == if staging == StagingCleanup::Nothing {
        1nat
    } else {
        2nat
    }
    &&& effects[0] == SuccessorEffect::ShutdownChild(token)
    &&& staging == StagingCleanup::Stop ==> effects[1] == (SuccessorEffect::StopStaging {
        deadline: token.spec_deadline(),
    })
    &&& staging == StagingCleanup::Abort ==> effects[1] == (SuccessorEffect::AbortStaging {
        deadline: token.spec_deadline(),
    })
}

/// The token is the shutdown in force, or else one of the supervisor's own
/// that is due by `deadline`.
pub open spec fn in_force_or_own(token: ShutdownToken, moment: Moment, deadline: int) -> bool {
    match moment.signal {
        Some(requested) => token == requested,
        None => token.spec_deadline() == deadline && token.spec_startup_token() == moment.fresh
            && token.spec_startup_authority()
            == crate::token::StartupCancellationAuthority::Internal,
    }
}

/// The child, and staging as `staging` says, are shut down after the first
/// `before` effects, under the shutdown in force or one of the supervisor's own
/// that is due by `deadline`.
pub open spec fn cleans_up(
    next: ChildPhase,
    effects: Seq<SuccessorEffect>,
    before: int,
    moment: Moment,
    deadline: int,
    staging: StagingCleanup,
) -> bool {
    &&& next matches ChildPhase::Cleaning(cleanup) && cleanup.with_staging == (staging
        != StagingCleanup::Nothing)
    &&& effects.len() > before
    &&& effects[before] matches SuccessorEffect::ShutdownChild(token) && in_force_or_own(
        token,
        moment,
        deadline,
    ) && shuts_down(effects.skip(before), token, staging)
}

/// What is known of the failure behind a cleanup, and who tells of it.
pub open spec fn accounts_for(
    next: ChildPhase,
    primary: Option<HaNodeError>,
    normalize: bool,
    publish: bool,
) -> bool {
    next matches ChildPhase::Cleaning(cleanup) && cleanup.primary == primary && cleanup.normalize
        == normalize && cleanup.publish == publish
}

/// The cleanup blames the service with this message.
pub open spec fn blames_service(
    next: ChildPhase,
    message: Seq<char>,
    normalize: bool,
    publish: bool,
) -> bool {
    next matches ChildPhase::Cleaning(cleanup) && (cleanup.primary matches Some(error)
        && error.is_service_server(message)) && cleanup.normalize == normalize && cleanup.publish
        == publish
}

/// A child that waits for its listener gets it asked for as soon as it is
/// ready, by twenty-five seconds from then. Whatever ends it before is
/// accounted for, and takes staging with it: the failure that the child
/// reported, its stop, the loss of its state or of its request, or the end of
/// staging itself. A state that says none of this changes nothing.
pub proof fn law_a_child_that_waits_is_served_or_cleaned_up(
    event: ChildEvent,
    moment: Moment,
    next: ChildPhase,
    effects: Seq<SuccessorEffect>,
)
    requires
        ChildPhase::AwaitingService.steps_to(event, moment, next, effects),
        moment.now + 25_000_000_000 <= u64::MAX,
    ensures
        ({
            let own = moment.now + 25_000_000_000;
            match event {
                ChildEvent::ServiceReady => next matches ChildPhase::HandingOver { deadline }
                    && deadline == own && effects.len() == 1 && effects[0] == (
                SuccessorEffect::RequestHandoff { deadline }),
                ChildEvent::ChildObserved(snapshot) => match snapshot.terminal_error {
                    Some(error) => cleans_up(next, effects, 0, moment, own, StagingCleanup::Stop)
                        && accounts_for(next, Some(error), true, false),
                    None => if snapshot.status == HaNodeStatus::Stopped {
                        cleans_up(next, effects, 0, moment, own, StagingCleanup::Stop)
                            && accounts_for(next, None, true, true)
                    } else {
                        next is AwaitingService && effects.len() == 0
                    },
                },
                ChildEvent::ServiceReadyClosed(snapshot) => cleans_up(
                    next,
                    effects,
                    0,
                    moment,
                    own,
                    StagingCleanup::Stop,
                ) && match snapshot.terminal_error {
                    Some(error) => accounts_for(next, Some(error), true, false),
                    None => if snapshot.status == HaNodeStatus::Stopped {
                        accounts_for(next, None, true, true)
                    } else {
                        blames_service(
                            next,
                            "live successor child stopped before service activation"@,
                            true,
                            false,
                        )
                    },
                },
                ChildEvent::ChildStateClosed => cleans_up(
                    next,
                    effects,
                    0,
                    moment,
                    own,
                    StagingCleanup::Stop,
                ) && blames_service(
                    next,
                    "HA child supervisor state channel closed before service activation"@,
                    false,
                    false,
                ),
                ChildEvent::StagingExited(exit) => cleans_up(
                    next,
                    effects,
                    0,
                    moment,
                    own,
                    StagingCleanup::Nothing,
                ) && (next matches ChildPhase::Cleaning(cleanup) && !cleanup.normalize
                    && !cleanup.publish && (cleanup.primary matches Some(error) && match exit {
                    StagingTaskExit::Returned(Ok(StagingExit::Closed)) => error.is_service_server(
                        "successor staging service stopped unexpectedly"@,
                    ),
                    StagingTaskExit::Returned(Ok(StagingExit::Handoff)) => error.is_service_server(
                        "successor staging service handed off unexpectedly"@,
                    ),
                    StagingTaskExit::Returned(Err(own_error)) => error == own_error,
                    StagingTaskExit::Failed { message, .. } => error.is_service_server(
                        "successor staging service"@ + " task failed: "@ + message@,
                    ),
                })),
                ChildEvent::ShutdownChanged => match moment.signal {
                    Some(_) => cleans_up(next, effects, 1, moment, own, StagingCleanup::Stop)
                        && accounts_for(next, None, false, true) && is_told(
                        effects[0],
                        HaNodeStatus::ShuttingDown,
                    ),
                    None => next matches ChildPhase::Finished(Err(error))
                        && error.is_service_server(
                        "live successor shutdown signal closed without a token"@,
                    ) && effects.len() == 3 && is_told_failed(effects[0], error) && effects[1]
                        is AbandonChild && effects[2] is AbandonStaging,
                },
                _ => next is AwaitingService && effects.len() == 0,
            }
        }),
{
    broadcast use ShutdownToken::lemma_parts;

    assert(effects.skip(0) =~= effects);
}

/// Everybody is told this status, with neither handle nor failure.
pub open spec fn is_told(effect: SuccessorEffect, status: HaNodeStatus) -> bool {
    effect matches SuccessorEffect::Publish(snapshot) && snapshot.status == status
        && snapshot.handle is None && snapshot.terminal_error is None
}

/// Everybody is told that the successor failed, with this very error.
pub open spec fn is_told_failed(effect: SuccessorEffect, error: HaNodeError) -> bool {
    effect matches SuccessorEffect::Publish(snapshot) && snapshot.status == HaNodeStatus::Failed
        && snapshot.handle is None && snapshot.terminal_error == Some(error)
}

/// A listener that came out of staging goes to the child, and the child serves
/// once it took it. A handover that failed, or that a shutdown cut short, shuts
/// the child down by the deadline of the handover or of the shutdown.
pub proof fn law_a_listener_is_handed_over_or_the_child_is_shut_down(
    phase: ChildPhase,
    event: ChildEvent,
    moment: Moment,
    next: ChildPhase,
    effects: Seq<SuccessorEffect>,
)
    requires
        phase.steps_to(event, moment, next, effects),
    ensures
        phase matches ChildPhase::HandingOver { deadline } ==> match event {
            ChildEvent::HandoffEnded(wait) => match wait {
                StagingWait::Ended(StagingTaskExit::Returned(Ok(StagingExit::Handoff))) => next == (
                ChildPhase::Delivering { deadline }) && effects.len() == 1 && effects[0]
                    is SendListener,
                StagingWait::DeadlineReached => effects.len() > 1 && effects[0] is AbandonStaging
                    && cleans_up(next, effects, 1, moment, deadline as int, StagingCleanup::Nothing)
                    && (next matches ChildPhase::Cleaning(cleanup) && !cleanup.normalize
                    && !cleanup.publish && (cleanup.primary matches Some(error)
                    && crate::staging::claims_nothing(error))),
                StagingWait::Ended(exit) => cleans_up(
                    next,
                    effects,
                    0,
                    moment,
                    deadline as int,
                    StagingCleanup::Nothing,
                ) && (next matches ChildPhase::Cleaning(cleanup) && !cleanup.normalize
                    && !cleanup.publish && (cleanup.primary matches Some(error) && match exit {
                    StagingTaskExit::Returned(Ok(_)) => error.is_service_server(
                        "successor staging service closed before listener handoff"@,
                    ),
                    StagingTaskExit::Returned(Err(own_error)) => error == own_error,
                    StagingTaskExit::Failed { message, .. } => error.is_service_server(
                        "successor staging service"@ + " task failed: "@ + message@,
                    ),
                })),
            },
            ChildEvent::ShutdownChanged => cleans_up(
                next,
                effects,
                0,
                moment,
                deadline as int,
                StagingCleanup::Abort,
            ) && match moment.signal {
                Some(_) => accounts_for(next, None, false, true),
                None => blames_service(
                    next,
                    "live successor shutdown signal closed during listener handoff"@,
                    false,
                    false,
                ),
            },
            _ => next == phase && effects.len() == 0,
        },
        phase matches ChildPhase::Delivering { deadline } ==> match event {
            ChildEvent::ListenerSent { accepted } => if accepted {
                next is Serving && effects.len() == 0
            } else {
                cleans_up(next, effects, 0, moment, deadline as int, StagingCleanup::Nothing)
                    && blames_service(
                    next,
                    "live successor child dropped the service listener handoff"@,
                    false,
                    false,
                )
            },
            _ => next == phase && effects.len() == 0,
        },
{
    broadcast use ShutdownToken::lemma_parts;

    assert(effects.skip(0) =~= effects);
    if let ChildEvent::HandoffEnded(wait) = event {
        assert(wait matches StagingWait::Ended(StagingTaskExit::Returned(Ok(StagingExit::Handoff)))
            ==> forall|result: Result<(), HaNodeError>|
            crate::staging::handed_off(wait, result) ==> result is Ok);
    }
}

/// A child that serves is the successor: its state is published as it is, and
/// its end, its failure or the loss of its state ends the successor. A
/// shutdown is told and passed on; where nobody can ask any more the child is
/// given up.
pub proof fn law_a_serving_child_is_the_successor(
    event: ChildEvent,
    moment: Moment,
    next: ChildPhase,
    effects: Seq<SuccessorEffect>,
)
    requires
        ChildPhase::Serving.steps_to(event, moment, next, effects),
        moment.now + 25_000_000_000 <= u64::MAX,
    ensures
        ({
            let own = moment.now + 25_000_000_000;
            match event {
                ChildEvent::ChildObserved(snapshot) => effects.len() > 0 && effects[0]
                    == SuccessorEffect::Publish(snapshot) && if snapshot.terminal_error is Some
                    || snapshot.status == HaNodeStatus::Stopped {
                    cleans_up(next, effects, 1, moment, own, StagingCleanup::Nothing)
                        && accounts_for(next, snapshot.terminal_error, true, true)
                } else {
                    next is Serving && effects.len() == 1
                },
                ChildEvent::ShutdownChanged => match moment.signal {
                    Some(_) => cleans_up(next, effects, 1, moment, own, StagingCleanup::Nothing)
                        && accounts_for(next, None, false, true) && is_told(
                        effects[0],
                        HaNodeStatus::ShuttingDown,
                    ),
                    None => next matches ChildPhase::Finished(Err(error))
                        && error.is_service_server(
                        "live successor shutdown signal closed without a token"@,
                    ) && effects.len() == 2 && is_told(effects[0], HaNodeStatus::ShuttingDown)
                        && effects[1] is AbandonChild,
                },
                ChildEvent::ChildStateClosed => cleans_up(
                    next,
                    effects,
                    0,
                    moment,
                    own,
                    StagingCleanup::Nothing,
                ) && blames_service(next, "HA child supervisor state channel closed"@, true, true),
                _ => next is Serving && effects.len() == 0,
            }
        }),
{
    broadcast use ShutdownToken::lemma_parts;

    assert(effects.skip(0) =~= effects);
}

/// A cleanup that is over ends the successor. What it comes to: without a
/// failure behind it, success exactly where the child and, if it was stopped
/// too, staging ended well; with one that the child had not reported itself,
/// that failure with the failed cleanups added in order; and with one that it
/// had, the child's own account of it. It is published where nobody did before.
pub proof fn law_a_cleanup_ends_the_successor(
    cleanup: ChildCleanup,
    event: ChildEvent,
    moment: Moment,
    next: ChildPhase,
    effects: Seq<SuccessorEffect>,
)
    requires
        ChildPhase::Cleaning(cleanup).steps_to(event, moment, next, effects),
    ensures
        !(event is CleanedUp) ==> next == ChildPhase::Cleaning(cleanup) && effects.len() == 0,
        event matches ChildEvent::CleanedUp { child, staging } ==> {
            &&& next matches ChildPhase::Finished(result) && {
                let stopped = !cleanup.with_staging || staging is Ok;
                &&& result is Ok <==> cleanup.primary is None && child is Ok && stopped
                &&& effects.len() == if cleanup.publish {
                    1nat
                } else {
                    0nat
                }
                &&& cleanup.publish ==> match result {
                    Ok(_) => is_told(effects[0], HaNodeStatus::Stopped),
                    Err(error) => is_told_failed(effects[0], error),
                }
                &&& !cleanup.normalize ==> (cleanup.primary matches Some(primary) ==> (result matches
                    Err(error) && error.leaves() == primary.leaves() + failures_of(child)
                    + if cleanup.with_staging {
                    failures_of(staging)
                } else {
                    Seq::<HaNodeError>::empty()
                }))
                &&& !cleanup.normalize && cleanup.primary is None ==> (result matches Err(error)
                    ==> error.leaves() == failures_of(child) + if cleanup.with_staging {
                    failures_of(staging)
                } else {
                    Seq::<HaNodeError>::empty()
                })
                &&& cleanup.normalize && stopped ==> match child {
                    Ok(_) => cleanup.primary matches Some(primary) ==> result == Err::<
                        (),
                        HaNodeError,
                    >(primary),
                    Err(own) => if own is ShutdownDeadlineExceeded || own is ShutdownIncomplete {
                        result matches Err(error) && match cleanup.primary {
                            None => error == own,
                            Some(primary) => error matches HaNodeError::Cleanup {
                                primary: kept,
                                cleanup: added,
                            } && *kept == primary && *added == own,
                        }
                    } else {
                        result == child
                    },
                }
                &&& cleanup.normalize && !stopped ==> (result matches Err(error) && if cleanup.primary
                    is None && child is Ok {
                    error == staging->Err_0
                } else {
                    error matches HaNodeError::Cleanup { cleanup: added, .. } && *added
                        == staging->Err_0
                })
            }
        },
{
    if let ChildEvent::CleanedUp { child, staging } = event {
        let stopped: Result<(), HaNodeError> = if cleanup.with_staging {
            staging
        } else {
            Ok(())
        };
        let all = crate::successor_child::failures(child, stopped);
        if all.len() > 0 {
            crate::error::law_no_failure_is_lost(all);
        }
        reveal_with_fuel(crate::error::all_leaves, 3);
        let none = Seq::<HaNodeError>::empty();
        match (child, stopped) {
            (Ok(_), Ok(_)) => {
                assert(all =~= none);
                if let Some(primary) = cleanup.primary {
                    assert(primary.leaves() + none + none =~= primary.leaves());
                }
            },
            (Err(first), Ok(_)) => {
                assert(all =~= seq![first]);
                assert(all.drop_last() =~= none);
                assert(crate::error::all_leaves(all) =~= first.leaves());
                assert(first.leaves() + none =~= first.leaves());
                if let Some(primary) = cleanup.primary {
                    assert(primary.leaves() + first.leaves() + none =~= primary.leaves()
                        + first.leaves());
                }
            },
            (Ok(_), Err(second)) => {
                assert(all =~= seq![second]);
                assert(all.drop_last() =~= none);
                assert(crate::error::all_leaves(all) =~= second.leaves());
                assert(none + second.leaves() =~= second.leaves());
                if let Some(primary) = cleanup.primary {
                    assert(primary.leaves() + none + second.leaves() =~= primary.leaves()
                        + second.leaves());
                }
            },
            (Err(first), Err(second)) => {
                assert(all =~= seq![first, second]);
                assert(all.drop_last() =~= seq![first]);
                assert(all.drop_last().drop_last() =~= none);
                assert(crate::error::all_leaves(all) =~= first.leaves() + second.leaves());
                if let Some(primary) = cleanup.primary {
                    assert(primary.leaves() + first.leaves() + second.leaves()
                        =~= primary.leaves() + (first.leaves() + second.leaves()));
                }
            },
        }
    }
}

/// The failures that are gathered in `result`, in order.
pub open spec fn failures_of(result: Result<(), HaNodeError>) -> Seq<HaNodeError> {
    match result {
        Ok(_) => Seq::empty(),
        Err(error) => error.leaves(),
    }
}

/// What holds of a step of a child's supervision holds of the functions that
/// take it.
pub proof fn law_a_child_is_supervised_by_its_steps(
    phase: ChildPhase,
    event: ChildEvent,
    moment: Moment,
    step: (ChildPhase, Vec<SuccessorEffect>),
    served: (ChildPhase, Vec<SuccessorEffect>),
)
    requires
        call_ensures(
            crate::successor_child::supervise_live_successor_child_after_staging_with_child,
            (phase, event, &moment),
            step,
        ),
        call_ensures(
            crate::successor_child::supervise_live_successor_child,
            (event, &moment),
            served,
        ),
    ensures
        phase.steps_to(event, moment, step.0, step.1@),
        ChildPhase::serves(event, moment, served.0, served.1@),
{
}

/// A child begins with the startup and the server that its successor hands on.
/// Its listener is deferred: it serves nothing before its successor gives it
/// the one that it staged on.
pub proof fn law_a_child_begins_with_what_its_successor_hands_on(
    startup: crate::startup::HaStartupConfig,
    serve: crate::startup::SuccessorServeConfig,
    child: (crate::startup::StartedHaNode, ChildPhase),
)
    requires
        call_ensures(
            crate::successor_child::supervise_live_successor_child_after_staging,
            (startup, serve),
            child,
        ),
    ensures
        child.0.startup == startup,
        child.0.serve.service_listener is Deferred,
        child.0.serve.recorder_transport == serve.recorder_transport,
        child.0.serve.recorders == serve.recorders,
        child.0.serve.admin == serve.admin,
        child.0.serve.tail_token == serve.tail_token,
        child.0.node.state.status is Starting,
        child.0.node.shutdown is None,
        child.0.node.supervised,
        child.0.supervisor is Preparing,
        child.1 is AwaitingService,
{
}

} // verus!
