//! What holds of every series of attempts to open the runtime.
use crate::cancellation::{OpenAttempt, StartupExit};
use crate::error::{HaNodeError, HaStartupError, NodeError, NodeErrorKind};
use crate::open::{HaOpenError, OpenEffect, RetryEvent, RetryPhase};
use crate::token::{ShutdownSignal, StartupIoContext};
use vstd::prelude::*;

verus! {

/// A series of attempts: `phases[i + 1]` and `effects[i]` are what `events[i]`
/// makes of `phases[i]`.
pub open spec fn is_retry_run(
    attempt: OpenAttempt,
    phases: Seq<RetryPhase>,
    events: Seq<RetryEvent>,
    effects: Seq<Seq<OpenEffect>>,
) -> bool {
    &&& phases.len() == events.len() + 1
    &&& effects.len() == events.len()
    &&& phases[0] == (RetryPhase::Ready { reported: None })
    &&& forall|i: int|
        0 <= i < events.len() ==> (#[trigger] phases[i]).steps_to(
            attempt,
            events[i],
            phases[i + 1],
            effects[i],
        )
}

/// What the operator is told among `effects`, if anything.
pub open spec fn told(effects: Seq<OpenEffect>) -> Option<Seq<char>>
    decreases effects.len(),
{
    if effects.len() == 0 {
        None
    } else {
        match effects.last() {
            OpenEffect::Report(text) => Some(text@),
            _ => told(effects.drop_last()),
        }
    }
}

/// What the operator was told last in a series of attempts, if anything.
pub open spec fn last_told(effects: Seq<Seq<OpenEffect>>) -> Option<Seq<char>>
    decreases effects.len(),
{
    if effects.len() == 0 {
        None
    } else {
        match told(effects.last()) {
            Some(text) => Some(text),
            None => last_told(effects.drop_last()),
        }
    }
}

/// What is remembered as reported is what the operator was told last.
pub open spec fn remembers(phase: RetryPhase, last: Option<Seq<char>>) -> bool {
    match phase {
        RetryPhase::Ready { reported }
        | RetryPhase::Attempting { reported }
        | RetryPhase::BackingOff { reported } => match reported {
            Some(message) => last == Some(crate::open::waiting_report(message@)),
            None => last is None,
        },
        _ => true,
    }
}

proof fn lemma_reports_differ(first: Seq<char>, second: Seq<char>)
    requires
        first != second,
    ensures
        crate::open::waiting_report(first) != crate::open::waiting_report(second),
{
    let n = crate::open::waiting_report(Seq::empty()).len() as int;
    let one = crate::open::waiting_report(first);
    let other = crate::open::waiting_report(second);
    assert(one.subrange(n, one.len() as int) =~= first);
    assert(other.subrange(n, other.len() as int) =~= second);
}

proof fn lemma_step_remembers(
    attempt: OpenAttempt,
    phase: RetryPhase,
    event: RetryEvent,
    next: RetryPhase,
    effects: Seq<OpenEffect>,
    last: Option<Seq<char>>,
)
    requires
        phase.steps_to(attempt, event, next, effects),
        remembers(phase, last),
    ensures
        told(effects) matches Some(text) ==> last != Some(text),
        remembers(
            next,
            match told(effects) {
                Some(text) => Some(text),
                None => last,
            },
        ),
{
    reveal_with_fuel(told, 3);
    if let (RetryPhase::Attempting { reported: Some(message) }, RetryPhase::BackingOff {
        reported: Some(now),
    }) = (phase, next) {
        if message@ != now@ {
            lemma_reports_differ(message@, now@);
        }
    }
}

/// The operator is told of a failure that the attempts wait on only where it
/// is not what they were told last: the same failure is not reported twice in
/// a row.
pub proof fn law_the_operator_is_told_once_per_new_failure(
    attempt: OpenAttempt,
    phases: Seq<RetryPhase>,
    events: Seq<RetryEvent>,
    effects: Seq<Seq<OpenEffect>>,
)
    requires
        is_retry_run(attempt, phases, events, effects),
    ensures
        remembers(phases.last(), last_told(effects)),
        effects.len() > 0 ==> (told(effects.last()) matches Some(text) ==> last_told(
            effects.drop_last(),
        ) != Some(text)),
    decreases events.len(),
{
    if events.len() > 0 {
        let n = events.len() - 1;
        let before = phases.drop_last();
        assert forall|i: int| 0 <= i < n implies (#[trigger] before[i]).steps_to(
            attempt,
            events.drop_last()[i],
            before[i + 1],
            effects.drop_last()[i],
        ) by {
            assert(phases[i].steps_to(attempt, events[i], phases[i + 1], effects[i]));
        }
        law_the_operator_is_told_once_per_new_failure(
            attempt,
            before,
            events.drop_last(),
            effects.drop_last(),
        );
        assert(before.last() == phases[n]);
        assert(phases[n].steps_to(attempt, events[n], phases[n + 1], effects[n]));
        lemma_step_remembers(
            attempt,
            phases[n],
            events[n],
            phases[n + 1],
            effects[n],
            last_told(effects.drop_last()),
        );
    }
}

/// What a cancelled attempt is cancelled by: the deadline of the shutdown that
/// was requested, or the moment at which nobody could request one any more. An
/// attempt that may still end keeps that deadline until it has.
pub proof fn law_attempts_are_cancelled_by_the_requested_deadline(
    attempt: OpenAttempt,
    phase: RetryPhase,
    event: RetryEvent,
    next: RetryPhase,
    effects: Seq<OpenEffect>,
)
    requires
        phase.steps_to(attempt, event, next, effects),
    ensures
        !(phase is CancellingAttempt) ==> (next matches RetryPhase::CancellingAttempt {
            signal,
            deadline,
        } ==> (event matches RetryEvent::ShutdownChanged { signal: seen, now, .. } && seen == signal
            && deadline == crate::token::deadline_of(signal, now))),
        phase is CancellingAttempt ==> next == phase || next is Done,
        !(phase is Done) ==> (next matches RetryPhase::Done(
            Err(HaOpenError::Cancelled { deadline, .. }),
        ) ==> match (phase, event) {
            (RetryPhase::CancellingAttempt { deadline: begun, .. }, _) => deadline == begun,
            (_, RetryEvent::AboutToBegin { signal }) => signal matches Some(token) && deadline
                == token.spec_deadline(),
            (_, RetryEvent::AttemptEnded { signal, .. }) => signal matches Some(token) && deadline
                == token.spec_deadline(),
            (_, RetryEvent::ShutdownChanged { signal, now, .. }) => deadline
                == crate::token::deadline_of(signal, now),
            _ => false,
        }),
{
}

/// How a series of attempts goes on where no shutdown was requested: an attempt
/// that succeeded ends it well; one that met an unavailable quorum or a lost
/// race is tried again after a pause; any other failure ends it with its own
/// message, and a task that broke down is named.
pub proof fn law_only_a_quorum_that_is_not_there_is_tried_again(
    attempt: OpenAttempt,
    phase: RetryPhase,
    exit: StartupExit<NodeError>,
    startup: StartupIoContext,
    next: RetryPhase,
    effects: Seq<OpenEffect>,
)
    requires
        phase is Attempting,
        phase.steps_to(
            attempt,
            RetryEvent::AttemptEnded { exit, signal: None, startup },
            next,
            effects,
        ),
    ensures
        exit matches StartupExit::Returned(Ok(_)) ==> next == RetryPhase::Done(Ok(()))
            && effects.len() == 0,
        exit matches StartupExit::Returned(Err(error)) ==> if error.kind
            == NodeErrorKind::Unavailable || error.kind == NodeErrorKind::Contention {
            next is BackingOff && effects.len() <= 1
        } else {
            effects.len() == 0 && (next matches RetryPhase::Done(Err(HaOpenError::Startup {
                error: kept,
                cleanup,
            })) && cleanup is Ok && kept == HaStartupError::Source(error.message))
        },
        exit matches StartupExit::Failed(failure) ==> effects.len() == 0 && (next matches
            RetryPhase::Done(Err(HaOpenError::Startup { error: kept, cleanup })) && cleanup is Ok
            && kept.is_source(
            match attempt {
                OpenAttempt::RuntimeOpen => "runtime startup task"@,
                OpenAttempt::RecorderRehydration => "recorder rehydration task"@,
            } + " failed: "@ + failure@,
        )),
{
}

/// The operator is told what opening the runtime waits on exactly where it is
/// news, and of nothing while a recorder is rehydrated.
pub proof fn law_the_operator_is_told_what_is_news(
    attempt: OpenAttempt,
    reported: Option<String>,
    error: NodeError,
    startup: StartupIoContext,
    next: RetryPhase,
    effects: Seq<OpenEffect>,
)
    requires
        error.kind == NodeErrorKind::Unavailable || error.kind == NodeErrorKind::Contention,
        (RetryPhase::Attempting { reported }).steps_to(
            attempt,
            RetryEvent::AttemptEnded {
                exit: StartupExit::Returned(Err(error)),
                signal: None,
                startup,
            },
            next,
            effects,
        ),
    ensures
        ({
            let news = attempt == OpenAttempt::RuntimeOpen && !(reported is Some && reported->0@
                == error.message@);
            &&& news ==> effects.len() == 1 && (effects[0] matches OpenEffect::Report(text) && text@
                == "runtime startup waiting for recorder quorum: "@ + error.message@) && next == (
            RetryPhase::BackingOff { reported: Some(error.message) })
            &&& !news ==> effects.len() == 0 && next == (RetryPhase::BackingOff { reported })
        }),
{
}

/// Attempts begin, pause and begin again only while no shutdown is requested;
/// one that is requested ends them by its own deadline. What was last reported
/// is remembered all the while.
pub proof fn law_attempts_go_on_only_without_a_shutdown(
    attempt: OpenAttempt,
    phase: RetryPhase,
    event: RetryEvent,
    next: RetryPhase,
    effects: Seq<OpenEffect>,
)
    requires
        phase.steps_to(attempt, event, next, effects),
    ensures
        phase matches RetryPhase::Ready { reported } ==> (event matches RetryEvent::AboutToBegin {
            signal,
        } ==> effects.len() == 0 && match signal {
            None => next == (RetryPhase::Attempting { reported }),
            Some(token) => next matches RetryPhase::Done(
                Err(HaOpenError::Cancelled { deadline, cleanup }),
            ) && cleanup is Ok && deadline == token.spec_deadline(),
        }),
        phase matches RetryPhase::BackingOff { reported } ==> {
            &&& event matches RetryEvent::AboutToBegin { signal } ==> effects.len() == 0
                && match signal {
                None => next == phase,
                Some(token) => next matches RetryPhase::Done(
                    Err(HaOpenError::Cancelled { deadline, cleanup }),
                ) && cleanup is Ok && deadline == token.spec_deadline(),
            }
            &&& event matches RetryEvent::ShutdownChanged { closed, signal, now, .. }
                ==> effects.len() == 0 && if closed || signal is Some {
                next matches RetryPhase::Done(Err(HaOpenError::Cancelled { deadline, cleanup }))
                    && cleanup is Ok && deadline == match signal {
                    Some(token) => token.spec_deadline(),
                    None => now,
                }
            } else {
                next == (RetryPhase::Ready { reported })
            }
            &&& event is DelayElapsed ==> effects.len() == 0 && next == (RetryPhase::Ready {
                reported,
            })
        },
        !(match phase {
            RetryPhase::Ready { .. } => event is AboutToBegin,
            RetryPhase::Attempting { .. } => event is ShutdownChanged || event is AttemptEnded,
            RetryPhase::CancellingAttempt { .. } => event is AttemptEnded || event
                is AttemptDeadline,
            RetryPhase::BackingOff { .. } => event is AboutToBegin || event is ShutdownChanged
                || event is DelayElapsed,
            RetryPhase::Done(_) => false,
        }) ==> next == phase && effects.len() == 0,
{
}

/// A shutdown that finds an attempt under way cancels startup under that very
/// shutdown, or now where nobody can ask any more, and with it the runtime that
/// a recorder is rehydrated from; it waits for the attempt by that deadline. An
/// attempt that had ended, or ends then, ends the series as it is worth after a
/// shutdown, and a runtime that it opened is cancelled. One that hangs ends it
/// with the stage that it hung in.
pub proof fn law_a_shutdown_ends_the_attempts(
    attempt: OpenAttempt,
    phase: RetryPhase,
    event: RetryEvent,
    next: RetryPhase,
    effects: Seq<OpenEffect>,
)
    requires
        phase.steps_to(attempt, event, next, effects),
    ensures
        phase is Attempting ==> (event matches RetryEvent::ShutdownChanged {
            closed,
            signal,
            now,
            finished,
            startup,
        } ==> {
            let by = match signal {
                Some(token) => token.spec_deadline(),
                None => now,
            };
            if !closed && signal is None {
                next == phase && effects.len() == 0
            } else {
                match finished {
                    None => next == (RetryPhase::CancellingAttempt { signal, deadline: by })
                        && effects.len() == if attempt == OpenAttempt::RecorderRehydration {
                        2nat
                    } else {
                        1nat
                    } && (attempt == OpenAttempt::RecorderRehydration ==> effects[1]
                        is CancelRuntime) && match signal {
                        Some(token) => effects[0] == OpenEffect::CancelStartup(token),
                        None => effects[0] == OpenEffect::CancelStartupAt(now),
                    },
                    Some(exit) => ends_after_a_shutdown(
                        attempt,
                        exit,
                        startup,
                        signal,
                        by,
                        next,
                        effects,
                    ),
                }
            }
        }),
        phase is Attempting ==> (event matches RetryEvent::AttemptEnded {
            exit,
            signal: Some(token),
            startup,
        } ==> ends_after_a_shutdown(
            attempt,
            exit,
            startup,
            Some(token),
            token.spec_deadline(),
            next,
            effects,
        )),
        phase matches RetryPhase::CancellingAttempt { signal, deadline } ==> (event matches
            RetryEvent::AttemptEnded { exit, startup, .. } ==> ends_after_a_shutdown(
            attempt,
            exit,
            startup,
            signal,
            deadline,
            next,
            effects,
        )),
        phase matches RetryPhase::CancellingAttempt { deadline, .. } ==> (event matches
            RetryEvent::AttemptDeadline { stage } ==> effects.len() == 0 && next
            == RetryPhase::Done(
            Err(
                HaOpenError::Cancelled {
                    deadline,
                    cleanup: Err(HaNodeError::StartupIoDeadlineExceeded { stage }),
                },
            ),
        )),
{
}

/// The series ends with what the attempt is worth after a shutdown that is due
/// by `deadline`, and cancels a runtime that it opened.
pub open spec fn ends_after_a_shutdown(
    attempt: OpenAttempt,
    exit: StartupExit<NodeError>,
    startup: StartupIoContext,
    signal: ShutdownSignal,
    deadline: u64,
    next: RetryPhase,
    effects: Seq<OpenEffect>,
) -> bool {
    &&& next matches RetryPhase::Done(Err(error)) && crate::cancellation::attempt_outcome(
        attempt,
        exit,
        startup,
        signal,
        deadline,
        error,
    )
    &&& (exit matches StartupExit::Returned(result) && result is Ok) ==> effects.len() == 1
        && effects[0] is CancelRuntime
    &&& !(exit matches StartupExit::Returned(result) && result is Ok) ==> effects.len() == 0
}

/// What holds of a step of an attempt holds of the functions that take it: the
/// runtime's opening and the recorder's rehydration are retried alike.
pub proof fn law_an_attempt_is_retried_by_its_steps(
    attempt: OpenAttempt,
    phase: RetryPhase,
    event: RetryEvent,
    step: (RetryPhase, Vec<OpenEffect>),
    opened: (RetryPhase, Vec<OpenEffect>),
    rehydrated: (RetryPhase, Vec<OpenEffect>),
)
    requires
        call_ensures(crate::open::retry_open_attempt, (attempt, phase, event), step),
        call_ensures(crate::open::open_runtime_with_retry, (phase, event), opened),
        call_ensures(
            crate::open::rehydrate_recorder_with_retry,
            (phase, event),
            rehydrated,
        ),
    ensures
        phase.steps_to(attempt, event, step.0, step.1@),
        phase.steps_to(OpenAttempt::RuntimeOpen, event, opened.0, opened.1@),
        phase.steps_to(OpenAttempt::RecorderRehydration, event, rehydrated.0, rehydrated.1@),
{
}

} // verus!
