//! The supervisor of a node from preparation until its recorder server runs.
use crate::cancellation::{completed_preparation_after_shutdown, StartupExit};
use crate::error::{HaNodeError, HaStartupError};
use crate::node::HaNodeSnapshot;
use crate::status::HaNodeStatus;
use crate::supervise::SupervisorEffect;
use crate::task::{unexpected_server_exit, ServerRole, TaskExit};
use crate::text::joined;
use crate::token::{shutdown_deadline, ShutdownSignal, StartupIoContext};
use vstd::prelude::*;

verus! {

/// Where the supervisor of a starting node stands.
pub enum StartingPhase {
    /// Local state is prepared.
    Preparing,
    /// A shutdown cancelled preparation, which may still end by `deadline`.
    CancellingPreparation { signal: ShutdownSignal, deadline: u64 },
    /// Preparation is over and no shutdown was seen; the recorder server
    /// starts unless one is seen now.
    Prepared,
    /// The recorder server was started and has not reported yet.
    StartingRecorder,
    /// The recorder server will not report; how it ended comes next.
    AwaitingRecorderExit,
    /// A shutdown stops the recorder server.
    StoppingRecorder { deadline: u64 },
    /// The recorder server runs; opening is supervised from here on.
    RecorderRunning,
    Finished(Result<(), HaNodeError>),
}

/// What the supervisor of a starting node can see happen.
pub enum StartingEvent {
    /// The shutdown signal changed, or its sender is gone. `finished` is how
    /// preparation had ended by then, if it had.
    ShutdownChanged {
        closed: bool,
        signal: ShutdownSignal,
        now: u64,
        finished: Option<StartupExit<HaStartupError>>,
        startup: StartupIoContext,
    },
    /// Preparation ended. `signal` is the shutdown in force, `stage` what
    /// startup was at.
    PreparationEnded {
        exit: StartupExit<HaStartupError>,
        signal: ShutdownSignal,
        startup: StartupIoContext,
        now: u64,
        stage: String,
    },
    /// Preparation did not end by the deadline.
    PreparationDeadline { stage: String },
    /// The shutdown in force when the recorder server was about to start.
    RecorderAboutToStart { signal: ShutdownSignal },
    /// The recorder server reported that it runs, or will never do so.
    RecorderReported { started: bool },
    RecorderExited(TaskExit),
    RecorderStopped(Result<(), HaNodeError>),
}

/// The supervisor ends with `result` and publishes it.
pub open spec fn ends(
    result: Result<(), HaNodeError>,
    next: StartingPhase,
    effects: Seq<SupervisorEffect>,
) -> bool {
    &&& next == StartingPhase::Finished(result)
    &&& effects == seq![SupervisorEffect::Publish(HaNodeSnapshot::end(result))]
}

/// How startup is cancelled for the shutdown in force.
pub open spec fn cancels_startup(signal: ShutdownSignal, now: u64) -> SupervisorEffect {
    match signal {
        Some(token) => SupervisorEffect::CancelStartup(token),
        None => SupervisorEffect::CancelStartupAt(now),
    }
}

impl StartingPhase {
    /// Nothing changes and nothing is asked for.
    pub open spec fn stutters(self, next: StartingPhase, effects: Seq<SupervisorEffect>) -> bool {
        next == self && effects == Seq::<SupervisorEffect>::empty()
    }

    /// `next` and `effects` are what `event` makes of this phase.
    pub open spec fn steps_to(
        self,
        event: StartingEvent,
        next: StartingPhase,
        effects: Seq<SupervisorEffect>,
    ) -> bool {
        match (self, event) {
            (
                StartingPhase::Preparing,
                StartingEvent::ShutdownChanged { closed, signal, now, finished, startup },
            ) => if !closed && signal is None {
                self.stutters(next, effects)
            } else {
                match finished {
                    Some(exit) => exists|result: Result<(), HaNodeError>| #[trigger]
                        crate::cancellation::preparation_outcome(exit, startup, signal, result)
                            && ends(result, next, effects),
                    None => {
                        &&& next == (StartingPhase::CancellingPreparation {
                            signal,
                            deadline: crate::token::deadline_of(signal, now),
                        })
                        &&& effects == seq![cancels_startup(signal, now)]
                    },
                }
            },
            (
                StartingPhase::Preparing,
                StartingEvent::PreparationEnded { exit, signal, startup, now, stage },
            ) => match exit {
                StartupExit::Failed(failure) => next matches StartingPhase::Finished(Err(error))
                    && error.is_startup("HA startup preparation task failed: "@ + failure@)
                    && effects == seq![SupervisorEffect::Publish(HaNodeSnapshot::failure(error))],
                StartupExit::Returned(Err(error)) => ends(
                    Err(HaNodeError::Startup(error)),
                    next,
                    effects,
                ),
                StartupExit::Returned(Ok(_)) => match signal {
                    None => next is Prepared && effects == Seq::<SupervisorEffect>::empty(),
                    Some(token) => {
                        let result = if now >= token.spec_deadline() {
                            Err::<(), HaNodeError>(HaNodeError::StartupIoDeadlineExceeded { stage })
                        } else {
                            Ok::<(), HaNodeError>(())
                        };
                        &&& next == StartingPhase::Finished(result)
                        &&& effects == seq![
                            SupervisorEffect::CancelStartup(token),
                            SupervisorEffect::Publish(HaNodeSnapshot::end(result)),
                        ]
                    },
                },
            },
            (
                StartingPhase::CancellingPreparation { signal, .. },
                StartingEvent::PreparationEnded { exit, startup, .. },
            ) => exists|result: Result<(), HaNodeError>| #[trigger]
                crate::cancellation::preparation_outcome(exit, startup, signal, result) && ends(
                    result,
                    next,
                    effects,
                ),
            (
                StartingPhase::CancellingPreparation { .. },
                StartingEvent::PreparationDeadline { stage },
            ) => ends(Err(HaNodeError::StartupIoDeadlineExceeded { stage }), next, effects),
            (StartingPhase::Prepared, StartingEvent::RecorderAboutToStart { signal }) => {
                match signal {
                    Some(token) => {
                        &&& next == StartingPhase::Finished(Ok(()))
                        &&& effects == seq![
                            SupervisorEffect::CancelStartup(token),
                            SupervisorEffect::Publish(HaNodeSnapshot::plain(HaNodeStatus::Stopped)),
                        ]
                    },
                    None => next is StartingRecorder && effects == Seq::<
                        SupervisorEffect,
                    >::empty(),
                }
            },
            (
                StartingPhase::StartingRecorder,
                StartingEvent::ShutdownChanged { closed, signal, now, .. },
            ) => if !closed && signal is None {
                self.stutters(next, effects)
            } else {
                &&& next == (StartingPhase::StoppingRecorder {
                    deadline: crate::token::deadline_of(signal, now),
                })
                &&& effects == seq![
                    cancels_startup(signal, now),
                    SupervisorEffect::Publish(HaNodeSnapshot::plain(HaNodeStatus::ShuttingDown)),
                    SupervisorEffect::SignalRecorder,
                ]
            },
            (StartingPhase::StartingRecorder, StartingEvent::RecorderReported { started }) => {
                effects == Seq::<SupervisorEffect>::empty() && if started {
                    next is RecorderRunning
                } else {
                    next is AwaitingRecorderExit
                }
            },
            (StartingPhase::StartingRecorder, StartingEvent::RecorderExited(exit))
            | (StartingPhase::AwaitingRecorderExit, StartingEvent::RecorderExited(exit)) => {
                next matches StartingPhase::Finished(Err(error))
                    && crate::task::is_unexpected_server_exit(exit, ServerRole::Recorder, error)
                    && effects == seq![SupervisorEffect::Publish(HaNodeSnapshot::failure(error))]
            },
            (StartingPhase::StoppingRecorder { .. }, StartingEvent::RecorderStopped(result)) => {
                ends(result, next, effects)
            },
            _ => self.stutters(next, effects),
        }
    }
}

fn end(result: Result<(), HaNodeError>) -> (step: (StartingPhase, Vec<SupervisorEffect>))
    ensures
        ends(result, step.0, step.1@),
{
    let mut effects: Vec<SupervisorEffect> = Vec::new();
    effects.push(SupervisorEffect::Publish(HaNodeSnapshot::ended(&result)));
    assert(effects@ =~= seq![SupervisorEffect::Publish(HaNodeSnapshot::end(result))]);
    (StartingPhase::Finished(result), effects)
}

fn cancel_startup(signal: ShutdownSignal, now: u64) -> (effect: SupervisorEffect)
    ensures
        effect == cancels_startup(signal, now),
{
    match signal {
        Some(token) => SupervisorEffect::CancelStartup(token),
        None => SupervisorEffect::CancelStartupAt(now),
    }
}

fn end_preparation(
    exit: StartupExit<HaStartupError>,
    startup: &StartupIoContext,
    signal: ShutdownSignal,
) -> (step: (StartingPhase, Vec<SupervisorEffect>))
    ensures
        exists|result: Result<(), HaNodeError>| #[trigger]
            crate::cancellation::preparation_outcome(exit, *startup, signal, result) && ends(
                result,
                step.0,
                step.1@,
            ),
{
    let result = match &signal {
        Some(token) => completed_preparation_after_shutdown(exit, startup, Some(token)),
        None => completed_preparation_after_shutdown(exit, startup, None),
    };
    assert(crate::cancellation::preparation_outcome(exit, *startup, signal, result));
    end(result)
}

/// Advances the supervisor of a starting node by one event. An event that it
/// does not wait for leaves it as it is.
pub fn supervise_ha_node(phase: StartingPhase, event: StartingEvent) -> (step: (
    StartingPhase,
    Vec<SupervisorEffect>,
))
    ensures
        phase.steps_to(event, step.0, step.1@),
{
    match (phase, event) {
        (
            StartingPhase::Preparing,
            StartingEvent::ShutdownChanged { closed, signal, now, finished, startup },
        ) => {
            if !closed && signal.is_none() {
                return (StartingPhase::Preparing, Vec::new());
            }
            match finished {
                Some(exit) => end_preparation(exit, &startup, signal),
                None => {
                    let mut effects: Vec<SupervisorEffect> = Vec::new();
                    effects.push(cancel_startup(signal, now));
                    assert(effects@ =~= seq![cancels_startup(signal, now)]);
                    (
                        StartingPhase::CancellingPreparation {
                            signal,
                            deadline: shutdown_deadline(&signal, now),
                        },
                        effects,
                    )
                },
            }
        },
        (
            StartingPhase::Preparing,
            StartingEvent::PreparationEnded { exit, signal, startup: _, now, stage },
        ) => {
            match exit {
                StartupExit::Failed(failure) => {
                    let error = HaNodeError::Startup(
                        HaStartupError::Source(
                            joined("HA startup preparation task failed: ", failure.as_str()),
                        ),
                    );
                    end(Err(error))
                },
                StartupExit::Returned(Err(error)) => end(Err(HaNodeError::Startup(error))),
                StartupExit::Returned(Ok(())) => match signal {
                    None => (StartingPhase::Prepared, Vec::new()),
                    Some(token) => {
                        let result = if now >= token.deadline() {
                            Err(HaNodeError::StartupIoDeadlineExceeded { stage })
                        } else {
                            Ok(())
                        };
                        let mut effects: Vec<SupervisorEffect> = Vec::new();
                        effects.push(SupervisorEffect::CancelStartup(token));
                        effects.push(SupervisorEffect::Publish(HaNodeSnapshot::ended(&result)));
                        assert(effects@ =~= seq![
                            SupervisorEffect::CancelStartup(token),
                            SupervisorEffect::Publish(HaNodeSnapshot::end(result)),
                        ]);
                        (StartingPhase::Finished(result), effects)
                    },
                },
            }
        },
        (
            StartingPhase::CancellingPreparation { signal, deadline: _ },
            StartingEvent::PreparationEnded { exit, startup, .. },
        ) => end_preparation(exit, &startup, signal),
        (
            StartingPhase::CancellingPreparation { .. },
            StartingEvent::PreparationDeadline { stage },
        ) => end(Err(HaNodeError::StartupIoDeadlineExceeded { stage })),
        (StartingPhase::Prepared, StartingEvent::RecorderAboutToStart { signal }) => {
            match signal {
                Some(token) => {
                    let mut effects: Vec<SupervisorEffect> = Vec::new();
                    effects.push(SupervisorEffect::CancelStartup(token));
                    effects.push(
                        SupervisorEffect::Publish(HaNodeSnapshot::of(HaNodeStatus::Stopped)),
                    );
                    assert(effects@ =~= seq![
                        SupervisorEffect::CancelStartup(token),
                        SupervisorEffect::Publish(HaNodeSnapshot::plain(HaNodeStatus::Stopped)),
                    ]);
                    (StartingPhase::Finished(Ok(())), effects)
                },
                None => (StartingPhase::StartingRecorder, Vec::new()),
            }
        },
        (
            StartingPhase::StartingRecorder,
            StartingEvent::ShutdownChanged { closed, signal, now, .. },
        ) => {
            if !closed && signal.is_none() {
                return (StartingPhase::StartingRecorder, Vec::new());
            }
            let mut effects: Vec<SupervisorEffect> = Vec::new();
            effects.push(cancel_startup(signal, now));
            effects.push(SupervisorEffect::Publish(HaNodeSnapshot::of(HaNodeStatus::ShuttingDown)));
            effects.push(SupervisorEffect::SignalRecorder);
            assert(effects@ =~= seq![
                cancels_startup(signal, now),
                SupervisorEffect::Publish(HaNodeSnapshot::plain(HaNodeStatus::ShuttingDown)),
                SupervisorEffect::SignalRecorder,
            ]);
            (
                StartingPhase::StoppingRecorder { deadline: shutdown_deadline(&signal, now) },
                effects,
            )
        },
        (StartingPhase::StartingRecorder, StartingEvent::RecorderReported { started }) => {
            if started {
                (StartingPhase::RecorderRunning, Vec::new())
            } else {
                (StartingPhase::AwaitingRecorderExit, Vec::new())
            }
        },
        (StartingPhase::StartingRecorder, StartingEvent::RecorderExited(exit))
        | (StartingPhase::AwaitingRecorderExit, StartingEvent::RecorderExited(exit)) => {
            end(Err(unexpected_server_exit(exit, ServerRole::Recorder)))
        },
        (StartingPhase::StoppingRecorder { .. }, StartingEvent::RecorderStopped(result)) => {
            end(result)
        },
        (phase, _) => (phase, Vec::new()),
    }
}

/// A starting node that ends has published exactly what it returns, last, and
/// an ended one stays ended.
pub proof fn law_a_starting_node_ends_as_published(
    phase: StartingPhase,
    event: StartingEvent,
    next: StartingPhase,
    effects: Seq<SupervisorEffect>,
)
    requires
        phase.steps_to(event, next, effects),
    ensures
        phase is Finished ==> next == phase && effects.len() == 0,
        !(phase is Finished) && next is Finished ==> effects.len() > 0 && effects.last()
            == SupervisorEffect::Publish(HaNodeSnapshot::end(next->Finished_0)),
{
}

/// No recorder server starts once a shutdown was seen, and one that was
/// started is told to stop before a requested shutdown ends the node.
pub proof fn law_no_recorder_after_a_shutdown(
    phase: StartingPhase,
    event: StartingEvent,
    next: StartingPhase,
    effects: Seq<SupervisorEffect>,
)
    requires
        phase.steps_to(event, next, effects),
    ensures
        next is StartingRecorder && !(phase is StartingRecorder) ==> (event matches
            StartingEvent::RecorderAboutToStart { signal } && signal is None),
        phase is StartingRecorder && (event matches StartingEvent::ShutdownChanged { signal, .. }
            && signal is Some) ==> next is StoppingRecorder && effects.last()
            == SupervisorEffect::SignalRecorder,
{
}

/// A shutdown that is requested while a node starts fixes the deadline by
/// which it stops, and cancels startup on its behalf before anything else; a
/// node that stops then keeps that deadline until it has ended.
pub proof fn law_a_starting_node_stops_by_the_requested_deadline(
    phase: StartingPhase,
    event: StartingEvent,
    next: StartingPhase,
    effects: Seq<SupervisorEffect>,
)
    requires
        phase.steps_to(event, next, effects),
    ensures
        phase is Preparing || phase is StartingRecorder ==> (event matches
            StartingEvent::ShutdownChanged { signal: Some(token), .. } ==> match next {
            StartingPhase::CancellingPreparation { signal, deadline } => signal == Some(token)
                && deadline == token.spec_deadline() && effects[0]
                == SupervisorEffect::CancelStartup(token),
            StartingPhase::StoppingRecorder { deadline } => deadline == token.spec_deadline()
                && effects[0] == SupervisorEffect::CancelStartup(token),
            StartingPhase::Finished(_) => phase is Preparing,
            _ => false,
        }),
        phase is CancellingPreparation || phase is StoppingRecorder ==> next == phase || next
            is Finished,
{
}

/// Everybody is told this status, with neither handle nor failure.
pub open spec fn says(effect: SupervisorEffect, status: HaNodeStatus) -> bool {
    effect matches SupervisorEffect::Publish(snapshot) && snapshot.status == status
        && snapshot.handle is None && snapshot.terminal_error is None
}

/// Everybody is told that the node failed, with this very error.
pub open spec fn says_failure(effect: SupervisorEffect, error: HaNodeError) -> bool {
    effect matches SupervisorEffect::Publish(snapshot) && snapshot.status == HaNodeStatus::Failed
        && snapshot.handle is None && snapshot.terminal_error == Some(error)
}

/// A node that is prepared starts its recorder server, and supervises opening
/// once that runs. A shutdown that came meanwhile stops it first: at the end of
/// preparation that is a success only before the deadline.
pub proof fn law_a_prepared_node_starts_its_recorder(
    phase: StartingPhase,
    event: StartingEvent,
    next: StartingPhase,
    effects: Seq<SupervisorEffect>,
)
    requires
        phase.steps_to(event, next, effects),
    ensures
        phase is Preparing ==> (event matches StartingEvent::PreparationEnded {
            exit: StartupExit::Returned(Ok(_)),
            signal,
            now,
            stage,
            ..
        } ==> match signal {
            None => next is Prepared && effects.len() == 0,
            Some(token) => effects.len() == 2 && effects[0] == SupervisorEffect::CancelStartup(token)
                && if now >= token.spec_deadline() {
                next == StartingPhase::Finished(
                    Err(HaNodeError::StartupIoDeadlineExceeded { stage }),
                ) && says_failure(effects[1], HaNodeError::StartupIoDeadlineExceeded { stage })
            } else {
                next == StartingPhase::Finished(Ok(())) && says(effects[1], HaNodeStatus::Stopped)
            },
        }),
        phase is Prepared ==> (event matches StartingEvent::RecorderAboutToStart { signal }
            ==> match signal {
            None => next is StartingRecorder && effects.len() == 0,
            Some(token) => next == StartingPhase::Finished(Ok(())) && effects.len() == 2
                && effects[0] == SupervisorEffect::CancelStartup(token) && says(
                effects[1],
                HaNodeStatus::Stopped,
            ),
        }),
        phase is StartingRecorder ==> (event matches StartingEvent::RecorderReported { started }
            ==> effects.len() == 0 && (next is RecorderRunning <==> started) && (next
            is AwaitingRecorderExit <==> !started)),
{
}

/// A failure of preparation, and an end of the recorder server before it ran,
/// end the node with that failure, which is published.
pub proof fn law_a_starting_node_fails_with_its_own_failure(
    phase: StartingPhase,
    event: StartingEvent,
    next: StartingPhase,
    effects: Seq<SupervisorEffect>,
)
    requires
        phase.steps_to(event, next, effects),
    ensures
        phase is Preparing ==> (event matches StartingEvent::PreparationEnded {
            exit: StartupExit::Returned(Err(error)),
            ..
        } ==> next == StartingPhase::Finished(Err(HaNodeError::Startup(error))) && effects.len()
            == 1 && says_failure(effects[0], HaNodeError::Startup(error))),
        phase is Preparing ==> (event matches StartingEvent::PreparationEnded {
            exit: StartupExit::Failed(failure),
            ..
        } ==> (next matches StartingPhase::Finished(Err(error)) && error.is_startup(
            "HA startup preparation task failed: "@ + failure@,
        ) && effects.len() == 1 && says_failure(effects[0], error))),
        phase is StartingRecorder || phase is AwaitingRecorderExit ==> (event matches
            StartingEvent::RecorderExited(exit) ==> (next matches StartingPhase::Finished(
            Err(error),
        ) && effects.len() == 1 && says_failure(effects[0], error) && match exit {
            TaskExit::Returned(Ok(_)) => error.is_recorder_server(
                "recorder server stopped unexpectedly"@,
            ),
            TaskExit::Returned(Err(own)) => error == own,
            TaskExit::Failed(failure) => error.is_recorder_server(
                "recorder server"@ + " task failed: "@ + failure@,
            ),
        })),
{
}

/// A shutdown that finds a node starting cancels startup under that shutdown,
/// or now where nobody can ask any more, and what was under way is waited for
/// by that deadline: preparation ends the node as it is worth then, or with the
/// stage that it hung in, and a recorder server as its stop went. A signal that
/// says nothing changes nothing.
pub proof fn law_a_starting_node_stops_when_asked(
    phase: StartingPhase,
    event: StartingEvent,
    next: StartingPhase,
    effects: Seq<SupervisorEffect>,
)
    requires
        phase.steps_to(event, next, effects),
    ensures
        phase is Preparing || phase is StartingRecorder ==> (event matches
            StartingEvent::ShutdownChanged { closed, signal, now, finished, startup } ==> {
            let by = match signal {
                Some(token) => token.spec_deadline(),
                None => now,
            };
            let cancels = effects.len() > 0 && effects[0] == match signal {
                Some(token) => SupervisorEffect::CancelStartup(token),
                None => SupervisorEffect::CancelStartupAt(now),
            };
            if !closed && signal is None {
                next == phase && effects.len() == 0
            } else if phase is StartingRecorder {
                next == (StartingPhase::StoppingRecorder { deadline: by }) && cancels
                    && effects.len() == 3 && says(effects[1], HaNodeStatus::ShuttingDown)
                    && effects[2] is SignalRecorder
            } else {
                match finished {
                    None => next == (StartingPhase::CancellingPreparation { signal, deadline: by })
                        && cancels && effects.len() == 1,
                    Some(exit) => next matches StartingPhase::Finished(result)
                        && crate::cancellation::preparation_outcome(exit, startup, signal, result)
                        && effects.len() == 1 && match result {
                        Ok(_) => says(effects[0], HaNodeStatus::Stopped),
                        Err(error) => says_failure(effects[0], error),
                    },
                }
            }
        }),
        phase matches StartingPhase::CancellingPreparation { signal, .. } ==> (event matches
            StartingEvent::PreparationEnded { exit, startup, .. } ==> (next matches
            StartingPhase::Finished(result) && crate::cancellation::preparation_outcome(
            exit,
            startup,
            signal,
            result,
        ) && effects.len() == 1 && match result {
            Ok(_) => says(effects[0], HaNodeStatus::Stopped),
            Err(error) => says_failure(effects[0], error),
        })),
        phase is CancellingPreparation ==> (event matches StartingEvent::PreparationDeadline {
            stage,
        } ==> next == StartingPhase::Finished(Err(HaNodeError::StartupIoDeadlineExceeded { stage }))
            && effects.len() == 1 && says_failure(
            effects[0],
            HaNodeError::StartupIoDeadlineExceeded { stage },
        )),
        phase is StoppingRecorder ==> (event matches StartingEvent::RecorderStopped(result) ==> next
            == StartingPhase::Finished(result) && effects.len() == 1 && match result {
            Ok(_) => says(effects[0], HaNodeStatus::Stopped),
            Err(error) => says_failure(effects[0], error),
        }),
{
}

/// What a starting node does not wait for changes nothing.
pub proof fn law_a_starting_node_ignores_what_it_does_not_wait_for(
    phase: StartingPhase,
    event: StartingEvent,
    next: StartingPhase,
    effects: Seq<SupervisorEffect>,
)
    requires
        phase.steps_to(event, next, effects),
        !(match phase {
            StartingPhase::Preparing => event is ShutdownChanged || event is PreparationEnded,
            StartingPhase::CancellingPreparation { .. } => event is PreparationEnded || event
                is PreparationDeadline,
            StartingPhase::Prepared => event is RecorderAboutToStart,
            StartingPhase::StartingRecorder => event is ShutdownChanged || event is RecorderReported
                || event is RecorderExited,
            StartingPhase::AwaitingRecorderExit => event is RecorderExited,
            StartingPhase::StoppingRecorder { .. } => event is RecorderStopped,
            StartingPhase::RecorderRunning => false,
            StartingPhase::Finished(_) => false,
        }),
    ensures
        next == phase,
        effects.len() == 0,
{
}

/// What holds of a step of a starting node holds of the function that takes
/// it.
pub proof fn law_a_node_is_started_by_its_steps(
    phase: StartingPhase,
    event: StartingEvent,
    step: (StartingPhase, Vec<SupervisorEffect>),
)
    requires
        call_ensures(supervise_ha_node, (phase, event), step),
    ensures
        phase.steps_to(event, step.0, step.1@),
{
}

} // verus!
