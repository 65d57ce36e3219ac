//! What holds of every supervision of a live successor.
use crate::binding::HaPredecessor;
use crate::error::{HaCertifiedTailError, HaNodeError};
use crate::live_prestage::LiveSuccessorPrestage;
use crate::live_successor::{LiveEvent, LivePhase, LiveSuccessor, StagingEnd};
use crate::log::LogAnchor;
use crate::node::HaNodeSnapshot;
use crate::staging::{StagingExit, StagingTaskExit};
use crate::status::HaNodeStatus;
use crate::successor::{Moment, SuccessorEffect};
use vstd::prelude::*;

verus! {

/// The effects tell somebody that the successor is ready for the Stop.
pub open spec fn announces_readiness(effects: Seq<SuccessorEffect>) -> bool {
    exists|k: int|
        0 <= k < effects.len() && (#[trigger] effects[k] == SuccessorEffect::SetStagingReady(true)
            || effects[k] == SuccessorEffect::Publish(
            HaNodeSnapshot::plain(HaNodeStatus::PreStopReady),
        ))
}

/// Readiness for the Stop is announced only right after a page was applied
/// that leaves nothing of the source's log, while no Stop was named.
pub proof fn law_readiness_is_announced_only_caught_up_and_unbound(
    live: LiveSuccessor,
    event: LiveEvent,
    moment: Moment,
    next: LiveSuccessor,
    effects: Seq<SuccessorEffect>,
)
    requires
        live.steps_to(event, moment, next, effects),
        announces_readiness(effects),
    ensures
        live.phase is ApplyingPage,
        live.bound is None,
        event matches LiveEvent::PageApplied(Ok(progress)) && progress.durable
            == progress.observed_source_tip,
        next.staging_ready,
{
    let k = choose|k: int|
        0 <= k < effects.len() && (#[trigger] effects[k] == SuccessorEffect::SetStagingReady(true)
            || effects[k] == SuccessorEffect::Publish(
            HaNodeSnapshot::plain(HaNodeStatus::PreStopReady),
        ));
    assert(effects[k] == effects[k]);
}

/// An empty page and an unavailable source wait at one and the same retry
/// boundary, and nothing else leads there.
pub proof fn law_retries_share_one_boundary(
    live: LiveSuccessor,
    event: LiveEvent,
    moment: Moment,
    next: LiveSuccessor,
    effects: Seq<SuccessorEffect>,
)
    requires
        live.well_formed(),
        live.steps_to(event, moment, next, effects),
        !(live.phase is Retrying),
    ensures
        next.phase is Retrying <==> {
            ||| live.phase matches LivePhase::ApplyingPage { empty } && empty && event matches
                LiveEvent::PageApplied(Ok(_))
            ||| live.phase is Fetching && event matches LiveEvent::Fetched(
                Err(HaCertifiedTailError::Unavailable(_)),
            )
        },
{
}

/// What staging answers to readiness checks changes only where it is told so,
/// and it turns to ready only where readiness is announced.
pub proof fn law_staging_answers_what_it_was_told(
    live: LiveSuccessor,
    event: LiveEvent,
    moment: Moment,
    next: LiveSuccessor,
    effects: Seq<SuccessorEffect>,
)
    requires
        live.steps_to(event, moment, next, effects),
    ensures
        next.staging_ready != live.staging_ready ==> effects.len() > 0 && effects[0]
            == SuccessorEffect::SetStagingReady(next.staging_ready),
        next.staging_ready && !live.staging_ready ==> announces_readiness(effects),
{
    if next.staging_ready && !live.staging_ready {
        assert(effects[0] == SuccessorEffect::SetStagingReady(true));
    }
}

/// The first Stop that is named ends readiness at once where the stage has not
/// reached it: staging is told, and the successor is published as catching up.
pub proof fn law_an_unreached_stop_ends_readiness(
    live: LiveSuccessor,
    predecessor: HaPredecessor,
    durable: LogAnchor,
    moment: Moment,
    next: LiveSuccessor,
    effects: Seq<SuccessorEffect>,
)
    requires
        live.phase == (LivePhase::ReadingDurable { accepting: Some(predecessor) }),
        live.steps_to(LiveEvent::DurableRead(Ok(durable)), moment, next, effects),
        !crate::live_successor::diverged(durable, predecessor.stop.entry.spec_anchor()),
        durable != predecessor.stop.entry.spec_anchor(),
    ensures
        !next.staging_ready,
        next.bound == Some(predecessor),
        effects == seq![
            SuccessorEffect::SetStagingReady(false),
            SuccessorEffect::Publish(HaNodeSnapshot::plain(HaNodeStatus::CatchingUp)),
        ],
{
}

/// A supervision of a live successor: `lives[i + 1]` and `effects[i]` are what
/// `events[i]` makes of `lives[i]` at `moments[i]`.
pub open spec fn is_live_run(
    lives: Seq<LiveSuccessor>,
    events: Seq<LiveEvent>,
    moments: Seq<Moment>,
    effects: Seq<Seq<SuccessorEffect>>,
) -> bool {
    &&& lives.len() == events.len() + 1
    &&& moments.len() == events.len()
    &&& effects.len() == events.len()
    &&& lives[0].phase is StartingStaging
    &&& lives[0].well_formed()
    &&& forall|i: int|
        0 <= i < events.len() ==> (#[trigger] lives[i]).steps_to(
            events[i],
            moments[i],
            lives[i + 1],
            effects[i],
        )
}

/// What is waited for keeps fitting what is known.
proof fn step_keeps_well_formed(
    live: LiveSuccessor,
    event: LiveEvent,
    moment: Moment,
    next: LiveSuccessor,
    effects: Seq<SuccessorEffect>,
)
    requires
        live.well_formed(),
        live.steps_to(event, moment, next, effects),
    ensures
        next.well_formed(),
{
}

/// A predecessor that was accepted is never exchanged or forgotten.
pub proof fn law_binding_is_immutable(
    lives: Seq<LiveSuccessor>,
    events: Seq<LiveEvent>,
    moments: Seq<Moment>,
    effects: Seq<Seq<SuccessorEffect>>,
    early: int,
    late: int,
)
    requires
        is_live_run(lives, events, moments, effects),
        0 <= early <= late < lives.len(),
    ensures
        lives[late].well_formed(),
        lives[early].bound is Some ==> lives[late].bound == lives[early].bound,
    decreases late,
{
    if late > 0 {
        let earlier = if early < late {
            early
        } else {
            late - 1
        };
        law_binding_is_immutable(lives, events, moments, effects, earlier, late - 1);
        assert(lives[late - 1].steps_to(
            events[late - 1],
            moments[late - 1],
            lives[late - 1 + 1],
            effects[late - 1],
        ));
        step_keeps_well_formed(
            lives[late - 1],
            events[late - 1],
            moments[late - 1],
            lives[late],
            effects[late - 1],
        );
    }
}

/// The effects start the child.
pub open spec fn starts_child(effects: Seq<SuccessorEffect>) -> bool {
    exists|k: int| 0 <= k < effects.len() && #[trigger] effects[k] is StartChild
}

/// The child starts only for a successor that is bound to a predecessor, or
/// one whose target was active before; and then staging no longer answers that
/// it is ready.
pub proof fn law_child_starts_only_bound_or_from_its_own_checkpoint(
    live: LiveSuccessor,
    event: LiveEvent,
    moment: Moment,
    next: LiveSuccessor,
    effects: Seq<SuccessorEffect>,
)
    requires
        live.well_formed(),
        live.steps_to(event, moment, next, effects),
    ensures
        starts_child(effects) <==> next.phase is ChildStarted && !(live.phase is ChildStarted),
        starts_child(effects) ==> !next.staging_ready && (live.bound is Some || event
            == LiveEvent::Prepared(Ok(LiveSuccessorPrestage::TargetCheckpoint))),
{
    if next.phase is ChildStarted && !(live.phase is ChildStarted) {
        assert(effects[effects.len() - 1] is StartChild);
    }
    if starts_child(effects) {
        let k = choose|k: int| 0 <= k < effects.len() && #[trigger] effects[k] is StartChild;
        assert(effects[k] is StartChild);
    }
}

/// The successor's own checkpoint was found active at some point of the run.
pub open spec fn found_target_checkpoint(events: Seq<LiveEvent>) -> bool {
    exists|i: int|
        0 <= i < events.len() && #[trigger] events[i] == LiveEvent::Prepared(
            Ok(LiveSuccessorPrestage::TargetCheckpoint),
        )
}

/// The stage's log was read to be durable exactly up to `anchor` at some point
/// of the run.
pub open spec fn read_durable_at(events: Seq<LiveEvent>, anchor: LogAnchor) -> bool {
    exists|i: int|
        0 <= i < events.len() && #[trigger] events[i] == LiveEvent::DurableRead(Ok(anchor))
}

/// The startup was bound to the predecessor at some point of the run.
pub open spec fn bound_startup(events: Seq<LiveEvent>) -> bool {
    exists|i: int|
        0 <= i < events.len() && (#[trigger] events[i] matches LiveEvent::Bound(result) && result
            is Ok)
}

/// The stage was finalized at some point of the run.
pub open spec fn finalized_stage(events: Seq<LiveEvent>) -> bool {
    exists|i: int|
        0 <= i < events.len() && (#[trigger] events[i] matches LiveEvent::Finalized(result)
            && result is Ok)
}

/// What was seen stays seen.
proof fn live_events_grow(events: Seq<LiveEvent>)
    requires
        events.len() > 0,
    ensures
        found_target_checkpoint(events.drop_last()) ==> found_target_checkpoint(events),
        bound_startup(events.drop_last()) ==> bound_startup(events),
        finalized_stage(events.drop_last()) ==> finalized_stage(events),
        forall|anchor: LogAnchor| #[trigger]
            read_durable_at(events.drop_last(), anchor) ==> read_durable_at(events, anchor),
{
    let before = events.drop_last();
    if found_target_checkpoint(before) {
        let i = choose|i: int|
            0 <= i < before.len() && #[trigger] before[i] == LiveEvent::Prepared(
                Ok(LiveSuccessorPrestage::TargetCheckpoint),
            );
        assert(events[i] == before[i]);
    }
    if bound_startup(before) {
        let i = choose|i: int|
            0 <= i < before.len() && (#[trigger] before[i] matches LiveEvent::Bound(result)
                && result is Ok);
        assert(events[i] == before[i]);
    }
    if finalized_stage(before) {
        let i = choose|i: int|
            0 <= i < before.len() && (#[trigger] before[i] matches LiveEvent::Finalized(result)
                && result is Ok);
        assert(events[i] == before[i]);
    }
    assert forall|anchor: LogAnchor| #[trigger] read_durable_at(before, anchor) implies
        read_durable_at(events, anchor) by {
        let i = choose|i: int|
            0 <= i < before.len() && #[trigger] before[i] == LiveEvent::DurableRead(Ok(anchor));
        assert(events[i] == before[i]);
    }
}

/// What a successor has seen by the time it is in its phase: it takes over only
/// at the exact Stop of the predecessor that it is bound to, where its stage
/// follows the log.
pub open spec fn takeover_evidence(live: LiveSuccessor, events: Seq<LiveEvent>) -> bool {
    let at_stop = live.bound is Some && (live.learner ==> read_durable_at(
        events,
        live.bound->0.stop.entry.spec_anchor(),
    ));
    match live.phase {
        LivePhase::Binding => at_stop,
        LivePhase::Finalizing => at_stop && bound_startup(events),
        LivePhase::ChildStarted => found_target_checkpoint(events) || (at_stop && bound_startup(
            events,
        ) && (live.learner ==> finalized_stage(events))),
        _ => true,
    }
}

/// The child starts only from the successor's own checkpoint, or once the
/// startup was bound to the predecessor; and a stage that follows the log was
/// then durable exactly at the predecessor's Stop, and finalized there.
pub proof fn law_child_starts_only_at_the_stop_or_from_its_own_checkpoint(
    lives: Seq<LiveSuccessor>,
    events: Seq<LiveEvent>,
    moments: Seq<Moment>,
    effects: Seq<Seq<SuccessorEffect>>,
)
    requires
        is_live_run(lives, events, moments, effects),
    ensures
        takeover_evidence(lives.last(), events),
        lives.last().phase is ChildStarted ==> found_target_checkpoint(events) || {
            &&& lives.last().bound is Some
            &&& bound_startup(events)
            &&& lives.last().learner ==> read_durable_at(
                events,
                lives.last().bound->0.stop.entry.spec_anchor(),
            ) && finalized_stage(events)
        },
    decreases events.len(),
{
    if events.len() > 0 {
        let n = events.len() - 1;
        let before = lives.drop_last();
        assert forall|i: int| 0 <= i < n implies (#[trigger] before[i]).steps_to(
            events.drop_last()[i],
            moments.drop_last()[i],
            before[i + 1],
            effects.drop_last()[i],
        ) by {
            assert(lives[i].steps_to(events[i], moments[i], lives[i + 1], effects[i]));
        }
        law_child_starts_only_at_the_stop_or_from_its_own_checkpoint(
            before,
            events.drop_last(),
            moments.drop_last(),
            effects.drop_last(),
        );
        law_binding_is_immutable(lives, events, moments, effects, n, n);
        live_events_grow(events);
        assert(before.last() == lives[n]);
        assert(lives[n].steps_to(events[n], moments[n], lives[n + 1], effects[n]));
        assert(events[n] == events.last());
    }
}

/// Every end of a live successor is published exactly as it is returned.
pub proof fn law_live_successor_ends_as_published(
    live: LiveSuccessor,
    event: LiveEvent,
    moment: Moment,
    next: LiveSuccessor,
    effects: Seq<SuccessorEffect>,
)
    requires
        live.steps_to(event, moment, next, effects),
        !(live.phase is Finished),
    ensures
        next.phase matches LivePhase::Finished(result) ==> effects == seq![
            SuccessorEffect::Publish(HaNodeSnapshot::end(result)),
        ],
{
}

/// The failure that ends a live successor stays the root of what it reports,
/// and what became of its staging service is added to it.
pub proof fn law_catchup_failure_stays_primary(
    live: LiveSuccessor,
    error: HaNodeError,
    cleanup: Result<(), HaNodeError>,
    moment: Moment,
    next: LiveSuccessor,
    effects: Seq<SuccessorEffect>,
)
    requires
        live.phase == LivePhase::StoppingStaging(StagingEnd::Failed(error)),
        live.steps_to(LiveEvent::StagingStopped(cleanup), moment, next, effects),
    ensures
        next.phase matches LivePhase::Finished(Err(reported)) && reported.root() == error.root()
            && match cleanup {
            Ok(_) => reported == error,
            Err(failure) => reported == error.with_cleanup(failure),
        },
{
}

/// The staging service is stopped by the deadline of the shutdown that was
/// asked for, whatever the reason: a failure never extends it.
pub proof fn law_staging_stops_by_the_requested_deadline(
    live: LiveSuccessor,
    event: LiveEvent,
    moment: Moment,
    next: LiveSuccessor,
    effects: Seq<SuccessorEffect>,
)
    requires
        live.steps_to(event, moment, next, effects),
        moment.signal is Some,
    ensures
        forall|k: int|
            0 <= k < effects.len() && #[trigger] effects[k] is StopStaging ==> effects[k] == (
            SuccessorEffect::StopStaging { deadline: moment.signal->0.spec_deadline() }),
{
}

/// The stage follows the log, and the predecessor with this Stop was accepted.
pub open spec fn follows_to(live: LiveSuccessor, stop: LogAnchor) -> bool {
    live.well_formed() && live.learner && (live.bound matches Some(predecessor)
        && predecessor.stop.entry.spec_anchor() == stop)
}

/// `next` is `live` but for its phase, and nothing is asked for.
pub open spec fn only_turns_to(
    live: LiveSuccessor,
    phase: LivePhase,
    next: LiveSuccessor,
    effects: Seq<SuccessorEffect>,
) -> bool {
    next.phase == phase && next.bound == live.bound && next.learner == live.learner
        && next.staging_ready == live.staging_ready && effects.len() == 0
}

/// What is said to everybody: a status, and neither a handle nor a failure.
pub open spec fn says(effect: SuccessorEffect, status: HaNodeStatus) -> bool {
    effect matches SuccessorEffect::Publish(snapshot) && snapshot.status == status
        && snapshot.handle is None && snapshot.terminal_error is None
}

/// A bound successor whose stage follows the log looks at how far the log is
/// durable before it asks for more of it: after every retry, after every page
/// that held something, and whenever its predecessor is named again.
pub proof fn law_a_bound_successor_looks_before_it_asks_for_more(
    live: LiveSuccessor,
    stop: LogAnchor,
    event: LiveEvent,
    moment: Moment,
    next: LiveSuccessor,
    effects: Seq<SuccessorEffect>,
)
    requires
        follows_to(live, stop),
        live.steps_to(event, moment, next, effects),
    ensures
        live.phase is Retrying && event is RetryElapsed ==> only_turns_to(
            live,
            LivePhase::ReadingDurable { accepting: None },
            next,
            effects,
        ),
        (live.phase is Retrying || live.phase is Fetching) && (event matches
            LiveEvent::PredecessorReceived(Some(named)) && live.bound->0.same_as(named))
            ==> only_turns_to(
            live,
            LivePhase::ReadingDurable { accepting: None },
            next,
            effects,
        ),
        live.phase == (LivePhase::ApplyingPage { empty: false }) && (event matches
            LiveEvent::PageApplied(result) && result is Ok) ==> next.phase == (
        LivePhase::ReadingDurable { accepting: None }),
        next.phase is RequestingTail && !(live.phase is RequestingTail) ==> live.phase
            is ReadingDurable && (event matches LiveEvent::DurableRead(Ok(durable)) && durable.index
            < stop.index),
{
}

/// A bound successor whose log is durable exactly at the Stop takes over at
/// once: it says that it is in transition, answers no longer that it is ready
/// for the Stop, and binds its startup. One whose log ends before the Stop
/// asks for more of it, and one whose log can no longer end there fails.
pub proof fn law_the_durable_log_decides_the_takeover(
    live: LiveSuccessor,
    stop: LogAnchor,
    durable: LogAnchor,
    moment: Moment,
    next: LiveSuccessor,
    effects: Seq<SuccessorEffect>,
)
    requires
        follows_to(live, stop),
        live.phase == (LivePhase::ReadingDurable { accepting: None }),
        live.steps_to(LiveEvent::DurableRead(Ok(durable)), moment, next, effects),
    ensures
        durable == stop ==> next.phase is Binding && next.bound == live.bound && next.learner
            && !next.staging_ready && effects.len() == 2 && effects[0]
            == SuccessorEffect::SetStagingReady(false) && says(
            effects[1],
            HaNodeStatus::Transitioning,
        ),
        durable.index < stop.index ==> only_turns_to(
            live,
            LivePhase::RequestingTail,
            next,
            effects,
        ),
        durable.index >= stop.index && durable != stop ==> (next.phase matches
            LivePhase::StoppingStaging(StagingEnd::Failed(error)) && error.is_startup(
            "live successor diverged from the exact predecessor Stop"@,
        )),
{
    if durable.index == stop.index && durable.hash == stop.hash {
        assert(durable == stop);
    }
}

/// The first predecessor that is named to a successor whose stage follows the
/// log is held against the durable log before anything else is done. Where
/// its Stop is not past, it is accepted, and the log is looked at again.
pub proof fn law_the_first_predecessor_is_held_against_the_log(
    live: LiveSuccessor,
    named: HaPredecessor,
    durable: LogAnchor,
    first: Moment,
    asked: LiveSuccessor,
    nothing: Seq<SuccessorEffect>,
    second: Moment,
    next: LiveSuccessor,
    effects: Seq<SuccessorEffect>,
)
    requires
        live.well_formed(),
        live.learner,
        live.bound is None,
        live.phase is Retrying || live.phase is Fetching,
        live.steps_to(LiveEvent::PredecessorReceived(Some(named)), first, asked, nothing),
        asked.steps_to(LiveEvent::DurableRead(Ok(durable)), second, next, effects),
    ensures
        nothing.len() == 0,
        asked.bound is None,
        asked.phase == (LivePhase::ReadingDurable { accepting: Some(named) }),
        durable == named.stop.entry.spec_anchor() || durable.index
            < named.stop.entry.spec_anchor().index ==> next.bound == Some(named) && next.phase == (
        LivePhase::ReadingDurable { accepting: None }) && next.learner,
        durable == named.stop.entry.spec_anchor() ==> effects.len() == 0 && next.staging_ready
            == live.staging_ready,
        durable.index >= named.stop.entry.spec_anchor().index && durable
            != named.stop.entry.spec_anchor() ==> (next.phase matches LivePhase::StoppingStaging(
            StagingEnd::Failed(error),
        ) && error.is_startup("live successor diverged from the exact predecessor Stop"@)),
{
    let stop = named.stop.entry.spec_anchor();
    if durable.index == stop.index && durable.hash == stop.hash {
        assert(durable == stop);
    }
}

/// In every supervision, a bound successor that waits for its next try and
/// whose log turns out to be durable at the Stop is in transition two events
/// later, whatever the source has to say.
pub proof fn law_a_successor_at_its_stop_takes_over(
    lives: Seq<LiveSuccessor>,
    events: Seq<LiveEvent>,
    moments: Seq<Moment>,
    effects: Seq<Seq<SuccessorEffect>>,
    i: int,
)
    requires
        is_live_run(lives, events, moments, effects),
        0 <= i && i + 1 < events.len(),
        lives[i].phase is Retrying,
        lives[i].bound is Some,
        events[i] is RetryElapsed,
        events[i + 1] == LiveEvent::DurableRead(Ok(lives[i].bound->0.stop.entry.spec_anchor())),
    ensures
        lives[i + 2].phase is Binding,
        lives[i + 2].bound == lives[i].bound,
        exists|k: int|
            0 <= k < effects[i + 1].len() && says(
                #[trigger] effects[i + 1][k],
                HaNodeStatus::Transitioning,
            ),
{
    law_binding_is_immutable(lives, events, moments, effects, i, i);
    assert(lives[i].steps_to(events[i], moments[i], lives[i + 1], effects[i]));
    assert(lives[i + 1].steps_to(events[i + 1], moments[i + 1], lives[i + 1 + 1], effects[i + 1]));
    let stop = lives[i].bound->0.stop.entry.spec_anchor();
    law_a_bound_successor_looks_before_it_asks_for_more(
        lives[i],
        stop,
        events[i],
        moments[i],
        lives[i + 1],
        effects[i],
    );
    law_binding_is_immutable(lives, events, moments, effects, i, i + 1);
    law_the_durable_log_decides_the_takeover(
        lives[i + 1],
        stop,
        stop,
        moments[i + 1],
        lives[i + 2],
        effects[i + 1],
    );
    assert(says(effects[i + 1][1], HaNodeStatus::Transitioning));
}

/// A successor whose stage holds the Stop already takes over as soon as its
/// predecessor is named.
pub proof fn law_a_finalized_stage_takes_over_when_the_predecessor_is_named(
    live: LiveSuccessor,
    named: HaPredecessor,
    moment: Moment,
    next: LiveSuccessor,
    effects: Seq<SuccessorEffect>,
)
    requires
        live.well_formed(),
        live.phase is AwaitingPredecessor,
        live.steps_to(LiveEvent::PredecessorReceived(Some(named)), moment, next, effects),
    ensures
        next.phase is Binding,
        next.bound == Some(named),
        !next.learner,
        !next.staging_ready,
        effects.len() == 2,
        effects[0] == SuccessorEffect::SetStagingReady(false),
        says(effects[1], HaNodeStatus::Transitioning),
{
}

/// A takeover that meets no failure ends with the child's start: the startup
/// is bound, then a stage that follows the log is finalized, and then the
/// child starts.
pub proof fn law_a_takeover_ends_with_the_child(
    live: LiveSuccessor,
    event: LiveEvent,
    moment: Moment,
    next: LiveSuccessor,
    effects: Seq<SuccessorEffect>,
)
    requires
        live.well_formed(),
        live.steps_to(event, moment, next, effects),
    ensures
        live.phase is Binding && live.learner && (event matches LiveEvent::Bound(result) && result
            is Ok) ==> only_turns_to(live, LivePhase::Finalizing, next, effects),
        (live.phase is Binding && !live.learner && (event matches LiveEvent::Bound(result) && result
            is Ok)) || (live.phase is Finalizing && (event matches LiveEvent::Finalized(result)
            && result is Ok)) ==> next.phase is ChildStarted && next.bound == live.bound
            && effects.len() == 1 && effects[0] is StartChild,
{
}

/// How a live successor gets to follow the log: once staging runs it restores,
/// then it is catching up, and what was found of its stage decides what it
/// waits for. A target that was active before starts its child at once.
pub proof fn law_what_is_found_decides_how_a_successor_begins(
    live: LiveSuccessor,
    event: LiveEvent,
    moment: Moment,
    next: LiveSuccessor,
    effects: Seq<SuccessorEffect>,
)
    requires
        live.well_formed(),
        live.steps_to(event, moment, next, effects),
    ensures
        live.phase is StartingStaging && event == (LiveEvent::StagingStarted { reported: true })
            ==> next.phase is Preparing && next.bound is None && !next.learner
            && !next.staging_ready && effects.len() == 1 && says(
            effects[0],
            HaNodeStatus::Restoring,
        ),
        live.phase is Preparing ==> (event matches LiveEvent::Prepared(Ok(found)) ==> {
            &&& next.bound is None
            &&& !next.staging_ready
            &&& effects.len() > 0 && says(effects[0], HaNodeStatus::CatchingUp)
            &&& next.learner <==> found == LiveSuccessorPrestage::Published
            &&& match found {
                LiveSuccessorPrestage::TargetCheckpoint => next.phase is ChildStarted
                    && effects.len() == 2 && effects[1] is StartChild,
                LiveSuccessorPrestage::Published => next.phase is RequestingTail && effects.len()
                    == 1,
                LiveSuccessorPrestage::Finalized => next.phase is AwaitingPredecessor
                    && effects.len() == 1,
            }
        }),
{
}

/// A successor that follows the log fetches what it asked for, applies what it
/// fetched, and asks again: at once after a page that held something, after a
/// pause otherwise.
pub proof fn law_a_successor_keeps_following_the_log(
    live: LiveSuccessor,
    event: LiveEvent,
    moment: Moment,
    next: LiveSuccessor,
    effects: Seq<SuccessorEffect>,
)
    requires
        live.well_formed(),
        live.steps_to(event, moment, next, effects),
    ensures
        live.phase is RequestingTail && (event matches LiveEvent::TailRequested(result) && result
            is Ok) ==> only_turns_to(live, LivePhase::Fetching, next, effects),
        live.phase is Fetching ==> (event matches LiveEvent::Fetched(Ok(empty)) ==> only_turns_to(
            live,
            LivePhase::ApplyingPage { empty },
            next,
            effects,
        )),
        live.phase is Retrying && event is RetryElapsed && live.bound is None ==> only_turns_to(
            live,
            LivePhase::RequestingTail,
            next,
            effects,
        ),
        live.phase matches LivePhase::ApplyingPage { empty } ==> (event matches
            LiveEvent::PageApplied(Ok(progress)) ==> {
            let caught_up = live.bound is None && progress.durable == progress.observed_source_tip;
            &&& next.bound == live.bound
            &&& next.learner
            &&& next.staging_ready == caught_up
            &&& effects.len() == 2
            &&& effects[0] == SuccessorEffect::SetStagingReady(caught_up)
            &&& says(
                effects[1],
                if caught_up {
                    HaNodeStatus::PreStopReady
                } else {
                    HaNodeStatus::CatchingUp
                },
            )
            &&& empty ==> next.phase is Retrying
            &&& !empty && live.bound is None ==> next.phase is RequestingTail
        }),
        live.phase is Fetching && (event matches LiveEvent::Fetched(Err(error)) && error
            is Unavailable) ==> next.phase is Retrying && next.bound == live.bound && next.learner
            && !next.staging_ready && effects.len() == 2 && effects[0]
            == SuccessorEffect::SetStagingReady(false) && says(
            effects[1],
            HaNodeStatus::CatchingUp,
        ),
{
}

/// The failure that `event` brings to a successor which waits for it, if it
/// brings one that the successor passes on as it is.
pub open spec fn failure_brought(live: LiveSuccessor, event: LiveEvent) -> Option<HaNodeError> {
    match event {
        LiveEvent::Prepared(Err(error)) if live.phase is Preparing => Some(
            HaNodeError::Startup(error),
        ),
        LiveEvent::DurableRead(Err(error)) if live.phase is ReadingDurable => Some(
            HaNodeError::Startup(error),
        ),
        LiveEvent::TailRequested(Err(error)) if live.phase is RequestingTail => Some(
            HaNodeError::Startup(error),
        ),
        LiveEvent::PageApplied(Err(error)) if live.phase is ApplyingPage => Some(
            HaNodeError::Startup(error),
        ),
        LiveEvent::Bound(Err(error)) if live.phase is Binding => Some(HaNodeError::Startup(error)),
        LiveEvent::Finalized(Err(error)) if live.phase is Finalizing => Some(
            HaNodeError::Startup(error),
        ),
        LiveEvent::Fetched(Err(error)) if live.phase is Fetching && !(error is Unavailable) => Some(
            HaNodeError::CertifiedTail(error),
        ),
        LiveEvent::PredecessorReceived(None) if live.phase is AwaitingPredecessor || live.phase
            is Fetching || live.phase is Retrying => Some(HaNodeError::Cancelled),
        _ => None,
    }
}

/// The one effect stops the staging service by `deadline`.
pub open spec fn stops_staging_by(effects: Seq<SuccessorEffect>, deadline: int) -> bool {
    effects.len() == 1 && (effects[0] matches SuccessorEffect::StopStaging { deadline: by } && by
        == deadline)
}

/// The deadline that a failure is cleaned up by: that of the shutdown in force,
/// or else twenty-five seconds from now.
pub open spec fn failure_deadline(moment: Moment) -> int {
    match moment.signal {
        Some(token) => token.spec_deadline() as int,
        None => moment.now + 25_000_000_000,
    }
}

/// Every failure of what a successor waits for ends it with that very failure,
/// once its staging service was stopped by the deadline in force.
pub proof fn law_every_failure_ends_the_successor_as_it_is(
    live: LiveSuccessor,
    event: LiveEvent,
    moment: Moment,
    next: LiveSuccessor,
    effects: Seq<SuccessorEffect>,
)
    requires
        live.steps_to(event, moment, next, effects),
        moment.is_tellable(),
    ensures
        failure_brought(live, event) matches Some(error) ==> next.phase
            == LivePhase::StoppingStaging(StagingEnd::Failed(error)) && stops_staging_by(
            effects,
            failure_deadline(moment),
        ),
        live.phase is StartingStaging && event == (LiveEvent::StagingStarted { reported: false })
            ==> (next.phase matches LivePhase::StoppingStaging(StagingEnd::Failed(error))
            && error.is_service_server(
            "successor staging service stopped before reporting startup"@,
        )) && stops_staging_by(effects, failure_deadline(moment)),
        (live.phase is AwaitingPredecessor || live.phase is Fetching || live.phase is Retrying) && (
        event matches LiveEvent::PredecessorReceived(Some(named)) && (live.bound matches Some(bound)
            && !bound.same_as(named))) ==> (next.phase matches LivePhase::StoppingStaging(
            StagingEnd::Failed(error),
        ) && error.is_startup(
            "live successor predecessor binding changed after first observation"@,
        )) && stops_staging_by(effects, failure_deadline(moment)),
        next.phase matches LivePhase::StoppingStaging(StagingEnd::Failed(_)) && !(live.phase
            is StoppingStaging) ==> stops_staging_by(effects, failure_deadline(moment)),
{
    broadcast use crate::token::ShutdownToken::lemma_parts;

}

/// A successor that is asked to stop while it waits stops its staging service
/// by the deadline of the request, or at once where nobody can ask any more,
/// and then ends as that went. A staging service that ends by itself takes
/// the successor with it.
pub proof fn law_a_successor_that_is_asked_to_stop_stops(
    live: LiveSuccessor,
    event: LiveEvent,
    moment: Moment,
    next: LiveSuccessor,
    effects: Seq<SuccessorEffect>,
)
    requires
        live.steps_to(event, moment, next, effects),
    ensures
        (live.phase is StartingStaging || live.phase is Preparing || live.phase
            is AwaitingPredecessor || live.phase is Fetching || live.phase is Retrying) && event
            is ShutdownChanged ==> next.phase == LivePhase::StoppingStaging(StagingEnd::Cancelled)
            && stops_staging_by(
            effects,
            match moment.signal {
                Some(token) => token.spec_deadline() as int,
                None => moment.now as int,
            },
        ),
        live.phase == LivePhase::StoppingStaging(StagingEnd::Cancelled) ==> (event matches
            LiveEvent::StagingStopped(cleanup) ==> next.phase == LivePhase::Finished(cleanup)),
        live.phase is StartingStaging || live.phase is Preparing || live.phase is AwaitingPredecessor
            || live.phase is Fetching || live.phase is Retrying ==> (event matches
            LiveEvent::StagingExited(exit) ==> next.phase matches LivePhase::Finished(Err(error))
            && match exit {
            StagingTaskExit::Returned(Ok(StagingExit::Closed)) => error.is_service_server(
                "successor staging service stopped unexpectedly"@,
            ),
            StagingTaskExit::Returned(Ok(StagingExit::Handoff)) => error.is_service_server(
                "successor staging service handed off unexpectedly"@,
            ),
            StagingTaskExit::Returned(Err(own)) => error == own,
            StagingTaskExit::Failed { message, .. } => error.is_service_server(
                "successor staging service task failed: "@ + message@,
            ),
        }),
        next.phase is Finished && !(live.phase is Finished) ==> effects.len() == 1 && (effects[0]
            matches SuccessorEffect::Publish(snapshot) && snapshot.handle is None
            && match next.phase->Finished_0 {
            Ok(_) => snapshot.status == HaNodeStatus::Stopped && snapshot.terminal_error is None,
            Err(error) => snapshot.status == HaNodeStatus::Failed && snapshot.terminal_error
                == Some(error),
        }),
{
    if let LiveEvent::StagingExited(StagingTaskExit::Failed { message, .. }) = event {
        assert("successor staging service"@ + " task failed: "@ + message@
            =~= "successor staging service task failed: "@ + message@) by {
            reveal_strlit("successor staging service");
            reveal_strlit(" task failed: ");
            reveal_strlit("successor staging service task failed: ");
            assert("successor staging service"@ + " task failed: "@
                =~= "successor staging service task failed: "@);
        }
    }
}

/// The successor waits for this event.
pub open spec fn live_waits_for(live: LiveSuccessor, event: LiveEvent) -> bool {
    match event {
        LiveEvent::StagingStarted { .. } => live.phase is StartingStaging,
        LiveEvent::StagingExited(_) | LiveEvent::ShutdownChanged => live.phase is StartingStaging
            || live.phase is Preparing || live.phase is AwaitingPredecessor || live.phase
            is Fetching || live.phase is Retrying,
        LiveEvent::Prepared(_) => live.phase is Preparing,
        LiveEvent::PredecessorReceived(_) => live.phase is AwaitingPredecessor || live.phase
            is Fetching || live.phase is Retrying,
        LiveEvent::DurableRead(_) => live.phase is ReadingDurable,
        LiveEvent::TailRequested(_) => live.phase is RequestingTail,
        LiveEvent::Fetched(_) => live.phase is Fetching,
        LiveEvent::PageApplied(_) => live.phase is ApplyingPage,
        LiveEvent::RetryElapsed => live.phase is Retrying,
        LiveEvent::Bound(_) => live.phase is Binding,
        LiveEvent::Finalized(_) => live.phase is Finalizing,
        LiveEvent::StagingStopped(_) => live.phase is StoppingStaging,
    }
}

/// What a successor does not wait for changes nothing.
pub proof fn law_a_successor_ignores_what_it_does_not_wait_for(
    live: LiveSuccessor,
    event: LiveEvent,
    moment: Moment,
    next: LiveSuccessor,
    effects: Seq<SuccessorEffect>,
)
    requires
        live.steps_to(event, moment, next, effects),
        !live_waits_for(live, event),
    ensures
        next == live,
        effects.len() == 0,
{
}

/// What holds of a step of a live successor holds of the function that takes
/// it.
pub proof fn law_a_live_successor_is_supervised_by_its_steps(
    live: LiveSuccessor,
    event: LiveEvent,
    moment: Moment,
    step: (LiveSuccessor, Vec<SuccessorEffect>),
)
    requires
        call_ensures(
            crate::live_successor::supervise_live_successor,
            (live, event, &moment),
            step,
        ),
    ensures
        live.steps_to(event, moment, step.0, step.1@),
        step.0.well_formed(),
{
}

/// A live successor begins with its staging service, bound to nothing and
/// knowing nothing.
pub proof fn law_a_live_successor_begins_with_its_staging_service(live: LiveSuccessor)
    requires
        call_ensures(LiveSuccessor::start, (), live),
    ensures
        live.phase is StartingStaging,
        live.bound is None,
        !live.learner,
        !live.staging_ready,
{
}

} // verus!
