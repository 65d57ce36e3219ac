//! The health service of a successor that is staged: it holds the one service
//! listener until it closes it or hands it over.
use crate::accept::{classify_accept_error, AcceptError, AcceptErrorDisposition};
use crate::error::{conservative_shutdown_deadline_error, HaNodeError};
use crate::evidence::uncertain_shutdown_evidence;
use crate::status::HaShutdownPhase;
use crate::task::{server_task_join_error, ServerRole};
use crate::text::joined;
use vstd::prelude::*;

verus! {

/// What the staging service is told.
#[derive(Clone, Copy, Debug, PartialEq, Eq, Structural)]
pub enum StagingCommand {
    Running,
    Close,
    Handoff,
}

/// How a staging service ends by itself. A handoff carries the listener out.
#[derive(Clone, Copy, Debug, PartialEq, Eq, Structural)]
pub enum StagingExit {
    Closed,
    Handoff,
}

/// How the task of a staging service ended.
#[derive(Debug)]
pub enum StagingTaskExit {
    Returned(Result<StagingExit, HaNodeError>),
    /// It was cancelled, or it panicked.
    Failed { message: String, cancelled: bool },
}

/// The health of a staged process: it lives.
#[verifier::allow_in_spec]
pub fn successor_staging_livez() -> (status: u16)
    returns
        200u16,
{
    200
}

/// Whether a staged successor may be asked to take over, as an HTTP status.
#[verifier::allow_in_spec]
pub fn successor_staging_readyz(ready: bool) -> (status: u16)
    returns
        (if ready {
            200u16
        } else {
            503u16
        }),
{
    if ready {
        200
    } else {
        503
    }
}

/// Where a staging service stands.
#[derive(Debug)]
pub enum StagingPhase {
    /// The listener is open and accepting.
    Accepting,
    /// The listener is open; accepting pauses.
    BackingOff,
    /// The connections were aborted and are reaped.
    Reaping { exit: StagingExit },
    Finished(Result<StagingExit, HaNodeError>),
}

/// A staging service with the connections that it still owns.
#[derive(Debug)]
pub struct StagingServer {
    pub phase: StagingPhase,
    pub connections: usize,
}

/// What a staging service can see happen.
#[derive(Debug)]
pub enum StagingEvent {
    /// The command changed, or its sender is gone.
    CommandChanged { closed: bool, command: StagingCommand },
    /// A connection task ended, however it did.
    ConnectionEnded,
    /// A peer connected.
    Accepted,
    /// Accepting failed.
    AcceptFailed { error: AcceptError, message: String },
    /// The pause is over.
    BackoffElapsed,
}

/// What a staging service asks of its caller, in order.
#[derive(Clone, Copy, Debug, PartialEq, Eq, Structural)]
pub enum StagingEffect {
    /// Serve health checks on the accepted connection.
    ServeConnection,
    /// Drop the listener.
    CloseListener,
    /// Abort the connections.
    AbortConnections,
}

impl StagingServer {
    /// The listener is still open and held by the service.
    pub open spec fn holds_listener(self) -> bool {
        match self.phase {
            StagingPhase::Accepting => true,
            StagingPhase::BackingOff => true,
            StagingPhase::Reaping { exit } => exit == StagingExit::Handoff,
            StagingPhase::Finished(result) => result == Ok::<StagingExit, HaNodeError>(
                StagingExit::Handoff,
            ),
        }
    }

    /// A service that reaps has something to reap.
    pub open spec fn well_formed(self) -> bool {
        self.phase is Reaping ==> self.connections > 0
    }

    /// A service whose listener just opened.
    pub fn start() -> (server: Self)
        ensures
            server.phase is Accepting,
            server.connections == 0,
            server.well_formed(),
    {
        StagingServer { phase: StagingPhase::Accepting, connections: 0 }
    }

    /// The service ends with `exit` once its connections are reaped.
    pub open spec fn exits(self, exit: StagingExit, next: StagingServer) -> bool {
        &&& next.connections == self.connections
        &&& next.phase == if self.connections == 0 {
            StagingPhase::Finished(Ok(exit))
        } else {
            StagingPhase::Reaping { exit }
        }
    }

    /// The service does as it is told. A sender that is gone means closing.
    pub open spec fn obeys(
        self,
        closed: bool,
        command: StagingCommand,
        next: StagingServer,
        effects: Seq<StagingEffect>,
    ) -> bool {
        if closed || command == StagingCommand::Close {
            &&& self.exits(StagingExit::Closed, next)
            &&& effects == seq![StagingEffect::CloseListener, StagingEffect::AbortConnections]
        } else if command == StagingCommand::Handoff {
            &&& self.exits(StagingExit::Handoff, next)
            &&& effects == seq![StagingEffect::AbortConnections]
        } else {
            &&& next == (StagingServer { phase: StagingPhase::Accepting, ..self })
            &&& effects == Seq::<StagingEffect>::empty()
        }
    }

    /// Nothing changes and nothing is asked for.
    pub open spec fn stutters(self, next: StagingServer, effects: Seq<StagingEffect>) -> bool {
        next == self && effects == Seq::<StagingEffect>::empty()
    }

    /// `next` and `effects` are what `event` does to this service.
    pub open spec fn steps_to(
        self,
        event: StagingEvent,
        next: StagingServer,
        effects: Seq<StagingEffect>,
    ) -> bool {
        match (self.phase, event) {
            (StagingPhase::Accepting, StagingEvent::CommandChanged { closed, command }) => {
                self.obeys(closed, command, next, effects)
            },
            (StagingPhase::BackingOff, StagingEvent::CommandChanged { closed, command }) => {
                self.obeys(closed, command, next, effects)
            },
            (StagingPhase::BackingOff, StagingEvent::BackoffElapsed) => {
                &&& next == (StagingServer { phase: StagingPhase::Accepting, ..self })
                &&& effects == Seq::<StagingEffect>::empty()
            },
            (StagingPhase::Accepting, StagingEvent::Accepted) => {
                &&& next == (StagingServer { connections: (self.connections + 1) as usize, ..self })
                &&& effects == seq![StagingEffect::ServeConnection]
            },
            (StagingPhase::Accepting, StagingEvent::AcceptFailed { error, message }) => {
                match error.disposition() {
                    AcceptErrorDisposition::ImmediateRetry => self.stutters(next, effects),
                    AcceptErrorDisposition::ResourceBackoff => {
                        &&& next == (StagingServer { phase: StagingPhase::BackingOff, ..self })
                        &&& effects == Seq::<StagingEffect>::empty()
                    },
                    AcceptErrorDisposition::Terminal => {
                        &&& next.connections == 0
                        &&& next.phase matches StagingPhase::Finished(Err(error))
                            && error.is_service_server(
                            "successor staging service accept failed: "@ + message@,
                        )
                        &&& effects == seq![
                            StagingEffect::CloseListener,
                            StagingEffect::AbortConnections,
                        ]
                    },
                }
            },
            (StagingPhase::Accepting, StagingEvent::ConnectionEnded) => {
                &&& next == (StagingServer {
                    connections: if self.connections > 0 {
                        (self.connections - 1) as usize
                    } else {
                        0
                    },
                    ..self
                })
                &&& effects == Seq::<StagingEffect>::empty()
            },
            (StagingPhase::Reaping { exit }, StagingEvent::ConnectionEnded) => {
                &&& next.connections == self.connections - 1
                &&& next.phase == if self.connections == 1 {
                    StagingPhase::Finished(Ok(exit))
                } else {
                    self.phase
                }
                &&& effects == Seq::<StagingEffect>::empty()
            },
            _ => self.stutters(next, effects),
        }
    }
}

fn leave(connections: usize, exit: StagingExit) -> (next: StagingServer)
    ensures
        forall|server: StagingServer|
            server.connections == connections ==> #[trigger] server.exits(exit, next),
        next.well_formed(),
{
    let phase = if connections == 0 {
        StagingPhase::Finished(Ok(exit))
    } else {
        StagingPhase::Reaping { exit }
    };
    StagingServer { phase, connections }
}

/// The service does as it is told: it goes on, or it aborts its connections
/// and closes or hands over the listener.
pub fn apply_staging_command(server: StagingServer, closed: bool, command: StagingCommand) -> (step: (
    StagingServer,
    Vec<StagingEffect>,
))
    ensures
        server.obeys(closed, command, step.0, step.1@),
        step.0.well_formed(),
{
    let mut effects: Vec<StagingEffect> = Vec::new();
    if closed || command == StagingCommand::Close {
        effects.push(StagingEffect::CloseListener);
        effects.push(StagingEffect::AbortConnections);
        assert(effects@ =~= seq![StagingEffect::CloseListener, StagingEffect::AbortConnections]);
        (leave(server.connections, StagingExit::Closed), effects)
    } else if command == StagingCommand::Handoff {
        effects.push(StagingEffect::AbortConnections);
        assert(effects@ =~= seq![StagingEffect::AbortConnections]);
        (leave(server.connections, StagingExit::Handoff), effects)
    } else {
        (
            StagingServer { phase: StagingPhase::Accepting, connections: server.connections },
            effects,
        )
    }
}

/// Advances a staging service by one event. An event that it does not wait
/// for leaves it as it is.
pub fn run_successor_staging_server(server: StagingServer, event: StagingEvent) -> (step: (
    StagingServer,
    Vec<StagingEffect>,
))
    requires
        server.well_formed(),
        event is Accepted ==> server.connections < usize::MAX,
    ensures
        server.steps_to(event, step.0, step.1@),
        step.0.well_formed(),
{
    let connections: usize = server.connections;
    match (server.phase, event) {
        (StagingPhase::Accepting, StagingEvent::CommandChanged { closed, command }) => {
            apply_staging_command(
                StagingServer { phase: StagingPhase::Accepting, connections },
                closed,
                command,
            )
        },
        (StagingPhase::BackingOff, StagingEvent::CommandChanged { closed, command }) => {
            apply_staging_command(
                StagingServer { phase: StagingPhase::BackingOff, connections },
                closed,
                command,
            )
        },
        (StagingPhase::BackingOff, StagingEvent::BackoffElapsed) => {
            (StagingServer { phase: StagingPhase::Accepting, connections }, Vec::new())
        },
        (StagingPhase::Accepting, StagingEvent::Accepted) => {
            let mut effects: Vec<StagingEffect> = Vec::new();
            effects.push(StagingEffect::ServeConnection);
            assert(effects@ =~= seq![StagingEffect::ServeConnection]);
            (
                StagingServer { phase: StagingPhase::Accepting, connections: connections + 1 },
                effects,
            )
        },
        (StagingPhase::Accepting, StagingEvent::AcceptFailed { error, message }) => {
            match classify_accept_error(&error) {
                AcceptErrorDisposition::ImmediateRetry => {
                    (StagingServer { phase: StagingPhase::Accepting, connections }, Vec::new())
                },
                AcceptErrorDisposition::ResourceBackoff => {
                    (StagingServer { phase: StagingPhase::BackingOff, connections }, Vec::new())
                },
                AcceptErrorDisposition::Terminal => {
                    let mut effects: Vec<StagingEffect> = Vec::new();
                    effects.push(StagingEffect::CloseListener);
                    effects.push(StagingEffect::AbortConnections);
                    assert(effects@ =~= seq![
                        StagingEffect::CloseListener,
                        StagingEffect::AbortConnections,
                    ]);
                    let error = HaNodeError::ServiceServer(
                        joined("successor staging service accept failed: ", message.as_str()),
                    );
                    (
                        StagingServer {
                            phase: StagingPhase::Finished(Err(error)),
                            connections: 0,
                        },
                        effects,
                    )
                },
            }
        },
        (StagingPhase::Accepting, StagingEvent::ConnectionEnded) => {
            let connections: usize = if connections > 0 {
                connections - 1
            } else {
                0
            };
            (StagingServer { phase: StagingPhase::Accepting, connections }, Vec::new())
        },
        (StagingPhase::Reaping { exit }, StagingEvent::ConnectionEnded) => {
            let connections: usize = connections - 1;
            let phase = if connections == 0 {
                StagingPhase::Finished(Ok(exit))
            } else {
                StagingPhase::Reaping { exit }
            };
            (StagingServer { phase, connections }, Vec::new())
        },
        (phase, _) => (StagingServer { phase, connections }, Vec::new()),
    }
}

/// `error` is what an unasked-for end of the staging service means: its own
/// error where it has one.
pub open spec fn is_unexpected_staging_exit(exit: StagingTaskExit, error: HaNodeError) -> bool {
    match exit {
        StagingTaskExit::Returned(Ok(StagingExit::Closed)) => error.is_service_server(
            "successor staging service stopped unexpectedly"@,
        ),
        StagingTaskExit::Returned(Ok(StagingExit::Handoff)) => error.is_service_server(
            "successor staging service handed off unexpectedly"@,
        ),
        StagingTaskExit::Returned(Err(own)) => error == own,
        StagingTaskExit::Failed { message, .. } => ServerRole::SuccessorStaging.is_join_error(
            error,
            message@,
        ),
    }
}

/// The error for a staging service that ended while it should have kept
/// running.
pub fn unexpected_staging_server_exit(exit: StagingTaskExit) -> (error: HaNodeError)
    ensures
        is_unexpected_staging_exit(exit, error),
{
    match exit {
        StagingTaskExit::Returned(Ok(StagingExit::Closed)) => HaNodeError::ServiceServer(
            "successor staging service stopped unexpectedly".to_owned(),
        ),
        StagingTaskExit::Returned(Ok(StagingExit::Handoff)) => HaNodeError::ServiceServer(
            "successor staging service handed off unexpectedly".to_owned(),
        ),
        StagingTaskExit::Returned(Err(error)) => error,
        StagingTaskExit::Failed { message, .. } => server_task_join_error(
            ServerRole::SuccessorStaging,
            message.as_str(),
        ),
    }
}

/// What was seen of a staging task by a deadline.
#[derive(Debug)]
pub enum StagingWait {
    Ended(StagingTaskExit),
    DeadlineReached,
}

/// What waiting for a staging task amounts to, and whether it is aborted.
#[derive(Debug)]
pub struct StagingOutcome {
    pub result: Result<(), HaNodeError>,
    pub abort: bool,
}

/// The error for a staging service that did not end by its deadline. Nothing
/// is claimed of it.
#[verifier::allow_in_spec]
pub fn staging_deadline_error() -> (error: HaNodeError)
    returns
        conservative_shutdown_deadline_error(
            HaShutdownPhase::Service,
            uncertain_shutdown_evidence(),
        ),
{
    conservative_shutdown_deadline_error(HaShutdownPhase::Service, uncertain_shutdown_evidence())
}

/// `result` is what a staging service that was told to close amounts to.
pub open spec fn stopped_staging(wait: StagingWait, result: Result<(), HaNodeError>) -> bool {
    match wait {
        StagingWait::Ended(StagingTaskExit::Returned(Ok(StagingExit::Closed))) => result is Ok,
        StagingWait::Ended(StagingTaskExit::Returned(Ok(StagingExit::Handoff))) => result matches
            Err(error) && error.is_service_server(
            "successor staging service handed off its listener while closing"@,
        ),
        StagingWait::Ended(StagingTaskExit::Returned(Err(own))) => result == Err::<
            (),
            HaNodeError,
        >(own),
        StagingWait::Ended(StagingTaskExit::Failed { message, .. }) => result matches Err(error)
            && ServerRole::SuccessorStaging.is_join_error(error, message@),
        StagingWait::DeadlineReached => result == Err::<(), HaNodeError>(staging_deadline_error()),
    }
}

/// What a staging service that was told to close amounts to. One that is
/// still there at its deadline is aborted.
pub fn stop_staging_server_before(wait: StagingWait) -> (outcome: StagingOutcome)
    ensures
        stopped_staging(wait, outcome.result),
        outcome.abort == (wait is DeadlineReached),
{
    match wait {
        StagingWait::Ended(StagingTaskExit::Returned(Ok(StagingExit::Closed))) => {
            StagingOutcome { result: Ok(()), abort: false }
        },
        StagingWait::Ended(StagingTaskExit::Returned(Ok(StagingExit::Handoff))) => {
            StagingOutcome {
                result: Err(
                    HaNodeError::ServiceServer(
                        "successor staging service handed off its listener while closing".to_owned(),
                    ),
                ),
                abort: false,
            }
        },
        StagingWait::Ended(StagingTaskExit::Returned(Err(error))) => StagingOutcome {
            result: Err(error),
            abort: false,
        },
        StagingWait::Ended(StagingTaskExit::Failed { message, .. }) => StagingOutcome {
            result: Err(server_task_join_error(ServerRole::SuccessorStaging, message.as_str())),
            abort: false,
        },
        StagingWait::DeadlineReached => StagingOutcome {
            result: Err(staging_deadline_error()),
            abort: true,
        },
    }
}

/// `result` is what a staging service that was told to hand over its listener
/// amounts to: success means that the listener came out.
pub open spec fn handed_off(wait: StagingWait, result: Result<(), HaNodeError>) -> bool {
    match wait {
        StagingWait::Ended(StagingTaskExit::Returned(Ok(StagingExit::Handoff))) => result is Ok,
        StagingWait::Ended(StagingTaskExit::Returned(Ok(StagingExit::Closed))) => result matches
            Err(error) && error.is_service_server(
            "successor staging service closed before listener handoff"@,
        ),
        StagingWait::Ended(StagingTaskExit::Returned(Err(own))) => result == Err::<
            (),
            HaNodeError,
        >(own),
        StagingWait::Ended(StagingTaskExit::Failed { message, .. }) => result matches Err(error)
            && ServerRole::SuccessorStaging.is_join_error(error, message@),
        StagingWait::DeadlineReached => result == Err::<(), HaNodeError>(staging_deadline_error()),
    }
}

/// What a staging service that was told to hand over its listener amounts to.
/// One that is still there at its deadline is aborted.
pub fn handoff_staging_listener(wait: StagingWait) -> (outcome: StagingOutcome)
    ensures
        handed_off(wait, outcome.result),
        outcome.abort == (wait is DeadlineReached),
{
    match wait {
        StagingWait::Ended(StagingTaskExit::Returned(Ok(StagingExit::Handoff))) => {
            StagingOutcome { result: Ok(()), abort: false }
        },
        StagingWait::Ended(StagingTaskExit::Returned(Ok(StagingExit::Closed))) => StagingOutcome {
            result: Err(
                HaNodeError::ServiceServer(
                    "successor staging service closed before listener handoff".to_owned(),
                ),
            ),
            abort: false,
        },
        StagingWait::Ended(StagingTaskExit::Returned(Err(error))) => StagingOutcome {
            result: Err(error),
            abort: false,
        },
        StagingWait::Ended(StagingTaskExit::Failed { message, .. }) => StagingOutcome {
            result: Err(server_task_join_error(ServerRole::SuccessorStaging, message.as_str())),
            abort: false,
        },
        StagingWait::DeadlineReached => StagingOutcome {
            result: Err(staging_deadline_error()),
            abort: true,
        },
    }
}

/// `result` is what a staging service that was aborted amounts to: every end
/// that dropped the listener is a clean one.
pub open spec fn aborted_staging(wait: StagingWait, result: Result<(), HaNodeError>) -> bool {
    match wait {
        StagingWait::Ended(StagingTaskExit::Returned(Ok(_))) => result is Ok,
        StagingWait::Ended(StagingTaskExit::Returned(Err(own))) => result == Err::<
            (),
            HaNodeError,
        >(own),
        StagingWait::Ended(StagingTaskExit::Failed { message, cancelled }) => if cancelled {
            result is Ok
        } else {
            result matches Err(error) && ServerRole::SuccessorStaging.is_join_error(
                error,
                message@,
            )
        },
        StagingWait::DeadlineReached => result == Err::<(), HaNodeError>(staging_deadline_error()),
    }
}

/// What a staging service that was aborted amounts to. A listener that came
/// out of it is dropped.
pub fn abort_staging_server_before(wait: StagingWait) -> (result: Result<(), HaNodeError>)
    ensures
        aborted_staging(wait, result),
{
    match wait {
        StagingWait::Ended(StagingTaskExit::Returned(Ok(_))) => Ok(()),
        StagingWait::Ended(StagingTaskExit::Returned(Err(error))) => Err(error),
        StagingWait::Ended(StagingTaskExit::Failed { message, cancelled }) => if cancelled {
            Ok(())
        } else {
            Err(server_task_join_error(ServerRole::SuccessorStaging, message.as_str()))
        },
        StagingWait::DeadlineReached => Err(staging_deadline_error()),
    }
}

/// A run of a staging service: `servers[i + 1]` and `effects[i]` are what
/// `events[i]` does to `servers[i]`.
pub open spec fn is_staging_run(
    servers: Seq<StagingServer>,
    events: Seq<StagingEvent>,
    effects: Seq<Seq<StagingEffect>>,
) -> bool {
    &&& servers.len() == events.len() + 1
    &&& effects.len() == events.len()
    &&& servers[0].phase is Accepting
    &&& forall|i: int|
        0 <= i < events.len() ==> (#[trigger] servers[i]).steps_to(
            events[i],
            servers[i + 1],
            effects[i],
        )
}

/// How often the listener is closed.
pub open spec fn closings(effects: Seq<Seq<StagingEffect>>) -> nat
    decreases effects.len(),
{
    if effects.len() == 0 {
        0
    } else {
        closings(effects.drop_last()) + if effects.last().contains(StagingEffect::CloseListener) {
            1nat
        } else {
            0nat
        }
    }
}

/// The staging service closes its listener once or hands it over, never both:
/// a listener that comes out of a handoff was not closed, and every other end
/// has closed it exactly once.
pub proof fn law_listener_is_closed_or_handed_over(
    servers: Seq<StagingServer>,
    events: Seq<StagingEvent>,
    effects: Seq<Seq<StagingEffect>>,
)
    requires
        is_staging_run(servers, events, effects),
    ensures
        closings(effects) == if servers.last().holds_listener() {
            0nat
        } else {
            1nat
        },
    decreases events.len(),
{
    if events.len() > 0 {
        let n = events.len() - 1;
        let before = servers.drop_last();
        assert forall|i: int| 0 <= i < n implies (#[trigger] before[i]).steps_to(
            events.drop_last()[i],
            before[i + 1],
            effects.drop_last()[i],
        ) by {
            assert(servers[i].steps_to(events[i], servers[i + 1], effects[i]));
        }
        law_listener_is_closed_or_handed_over(before, events.drop_last(), effects.drop_last());
        assert(servers[n].steps_to(events[n], servers[n + 1], effects[n]));
        assert(before.last() == servers[n]);
        let close_abort = seq![StagingEffect::CloseListener, StagingEffect::AbortConnections];
        assert(close_abort[0] == StagingEffect::CloseListener);
    }
}

/// A connection is served only while the staging service accepts, and a
/// service that has begun to end never accepts again.
pub proof fn law_staging_admits_only_while_it_accepts(
    server: StagingServer,
    event: StagingEvent,
    next: StagingServer,
    effects: Seq<StagingEffect>,
)
    requires
        server.steps_to(event, next, effects),
    ensures
        effects.contains(StagingEffect::ServeConnection) ==> server.phase is Accepting,
        server.phase is Reaping || server.phase is Finished ==> next.phase is Reaping || next.phase
            is Finished,
{
    if effects.contains(StagingEffect::ServeConnection) && !(server.phase is Accepting) {
        let k = choose|k: int|
            0 <= k < effects.len() && effects[k] == StagingEffect::ServeConnection;
        assert(effects[k] == StagingEffect::ServeConnection);
        assert(false);
    }
}

/// Closing succeeds only where the service itself closed its listener, and a
/// handoff only where the listener came out: one end of the task is never
/// both.
pub proof fn law_closing_and_handoff_exclude_each_other(
    wait: StagingWait,
    closed: Result<(), HaNodeError>,
    handed: Result<(), HaNodeError>,
)
    requires
        stopped_staging(wait, closed),
        handed_off(wait, handed),
    ensures
        !(closed is Ok && handed is Ok),
{
}

/// A staging service serves every peer that connects, pauses only when the
/// process is out of a resource, and accepts again once the pause is over. A
/// listener that fails ends it.
pub proof fn law_a_staging_service_serves_while_it_accepts(
    server: StagingServer,
    event: StagingEvent,
    next: StagingServer,
    effects: Seq<StagingEffect>,
)
    requires
        server.steps_to(event, next, effects),
        event is Accepted ==> server.connections < usize::MAX,
    ensures
        server.phase is Accepting && event is Accepted ==> effects.len() == 1 && effects[0]
            is ServeConnection && next.phase is Accepting && next.connections == server.connections
            + 1,
        server.phase is Accepting ==> (event matches StagingEvent::AcceptFailed { error, message }
            ==> match error.disposition() {
            AcceptErrorDisposition::ImmediateRetry => next == server && effects.len() == 0,
            AcceptErrorDisposition::ResourceBackoff => next.phase is BackingOff && next.connections
                == server.connections && effects.len() == 0,
            AcceptErrorDisposition::Terminal => effects.len() == 2 && effects[0] is CloseListener
                && effects[1] is AbortConnections && next.connections == 0 && (next.phase matches
                StagingPhase::Finished(Err(failure)) && failure.is_service_server(
                "successor staging service accept failed: "@ + message@,
            )),
        }),
        server.phase is Accepting && event is ConnectionEnded ==> next.phase is Accepting
            && effects.len() == 0 && next.connections == if server.connections > 0 {
            server.connections - 1
        } else {
            0
        },
        server.phase is BackingOff && event is BackoffElapsed ==> next.phase is Accepting
            && next.connections == server.connections && effects.len() == 0,
        successor_staging_livez() == 200,
        successor_staging_readyz(true) == 200,
        successor_staging_readyz(false) == 503,
{
}

/// A staging service does as it is told: told to close, or left without anyone
/// to tell it, it closes its listener and ends as closed; told to hand over, it
/// keeps the listener and ends as a handoff. Either way its connections are
/// aborted and reaped first. Told to run, it runs.
pub proof fn law_a_staging_service_does_as_it_is_told(
    server: StagingServer,
    event: StagingEvent,
    next: StagingServer,
    effects: Seq<StagingEffect>,
)
    requires
        server.well_formed(),
        server.steps_to(event, next, effects),
    ensures
        server.phase is Accepting || server.phase is BackingOff ==> (event matches
            StagingEvent::CommandChanged { closed, command } ==> if !closed && command
            == StagingCommand::Running {
            next.phase is Accepting && next.connections == server.connections && effects.len() == 0
        } else {
            let exit = if !closed && command == StagingCommand::Handoff {
                StagingExit::Handoff
            } else {
                StagingExit::Closed
            };
            &&& next.connections == server.connections
            &&& server.connections == 0 ==> next.phase == StagingPhase::Finished(Ok(exit))
            &&& server.connections > 0 ==> next.phase == (StagingPhase::Reaping { exit })
            &&& exit == StagingExit::Handoff ==> effects.len() == 1 && effects[0]
                is AbortConnections
            &&& exit == StagingExit::Closed ==> effects.len() == 2 && effects[0] is CloseListener
                && effects[1] is AbortConnections
        }),
        server.phase matches StagingPhase::Reaping { exit } ==> (event is ConnectionEnded
            ==> effects.len() == 0 && next.connections == server.connections - 1 && if next.connections
            == 0 {
            next.phase == StagingPhase::Finished(Ok(exit))
        } else {
            next.phase == server.phase
        }),
        server.phase is Reaping && !(event is ConnectionEnded) ==> next == server && effects.len()
            == 0,
        server.phase is Finished ==> next == server && effects.len() == 0,
        server.phase is BackingOff && !(event is CommandChanged || event is BackoffElapsed) ==> next
            == server && effects.len() == 0,
        server.phase is Accepting && event is BackoffElapsed ==> next == server && effects.len()
            == 0,
{
}

/// A deadline error claims nothing: neither a closed listener nor quiesced
/// tasks, and every mutation may be in flight.
pub open spec fn claims_nothing(error: HaNodeError) -> bool {
    error matches HaNodeError::ShutdownDeadlineExceeded { phase, ingress, tasks, .. } && phase
        == HaShutdownPhase::Service && ingress == crate::status::IngressDisposition::Uncertain
        && tasks == crate::status::TaskDisposition::Uncertain
}

/// What waiting for a staging service comes to: closing succeeds exactly where
/// it closed, a handoff exactly where the listener came out, and an abort
/// wherever the task returned well or was cancelled. A failure of its own is
/// kept, a task that broke down is blamed, an end of the wrong kind is named,
/// and a deadline claims nothing.
pub proof fn law_a_staging_service_is_taken_at_its_word(
    wait: StagingWait,
    closed: Result<(), HaNodeError>,
    handed: Result<(), HaNodeError>,
    aborted: Result<(), HaNodeError>,
)
    requires
        stopped_staging(wait, closed),
        handed_off(wait, handed),
        aborted_staging(wait, aborted),
    ensures
        closed is Ok <==> (wait matches StagingWait::Ended(StagingTaskExit::Returned(Ok(exit)))
            && exit == StagingExit::Closed),
        handed is Ok <==> (wait matches StagingWait::Ended(StagingTaskExit::Returned(Ok(exit)))
            && exit == StagingExit::Handoff),
        aborted is Ok <==> match wait {
            StagingWait::Ended(StagingTaskExit::Returned(result)) => result is Ok,
            StagingWait::Ended(StagingTaskExit::Failed { cancelled, .. }) => cancelled,
            StagingWait::DeadlineReached => false,
        },
        wait matches StagingWait::Ended(StagingTaskExit::Returned(Err(own))) ==> closed == Err::<
            (),
            HaNodeError,
        >(own) && handed == Err::<(), HaNodeError>(own) && aborted == Err::<(), HaNodeError>(own),
        wait is DeadlineReached ==> claims_nothing(closed->Err_0) && claims_nothing(handed->Err_0)
            && claims_nothing(aborted->Err_0),
        wait matches StagingWait::Ended(StagingTaskExit::Failed { message, cancelled }) ==> {
            let blamed = "successor staging service"@ + " task failed: "@ + message@;
            closed->Err_0.is_service_server(blamed) && handed->Err_0.is_service_server(blamed) && (
            !cancelled ==> aborted->Err_0.is_service_server(blamed))
        },
        wait matches StagingWait::Ended(StagingTaskExit::Returned(Ok(StagingExit::Handoff)))
            ==> closed->Err_0.is_service_server(
            "successor staging service handed off its listener while closing"@,
        ),
        wait matches StagingWait::Ended(StagingTaskExit::Returned(Ok(StagingExit::Closed)))
            ==> handed->Err_0.is_service_server(
            "successor staging service closed before listener handoff"@,
        ),
{
}

/// What holds of a step of a staging server holds of the functions that take
/// it.
pub proof fn law_a_stage_is_served_by_steps(
    server: StagingServer,
    event: StagingEvent,
    closed: bool,
    command: StagingCommand,
    step: (StagingServer, Vec<StagingEffect>),
    obeyed: (StagingServer, Vec<StagingEffect>),
)
    requires
        call_ensures(run_successor_staging_server, (server, event), step),
        call_ensures(apply_staging_command, (server, closed, command), obeyed),
    ensures
        server.steps_to(event, step.0, step.1@),
        step.0.well_formed(),
        server.obeys(closed, command, obeyed.0, obeyed.1@),
        obeyed.0.well_formed(),
{
}

/// A staging service begins to accept, without a connection. It lives whatever
/// it is asked, and is ready exactly where its successor is.
pub proof fn law_a_staging_service_tells_its_health(server: StagingServer, ready: bool)
    requires
        call_ensures(StagingServer::start, (), server),
    ensures
        server.phase is Accepting,
        server.connections == 0,
        successor_staging_livez() == 200,
        successor_staging_readyz(ready) == 200 <==> ready,
        successor_staging_readyz(ready) == 503 <==> !ready,
{
}

/// A staging service that ends unasked is blamed for it: for its own failure
/// where it has one, and otherwise for how it ended.
pub proof fn law_an_unasked_end_of_staging_is_blamed_on_it(
    exit: StagingTaskExit,
    error: HaNodeError,
)
    requires
        call_ensures(unexpected_staging_server_exit, (exit,), error),
    ensures
        exit matches StagingTaskExit::Returned(Err(own)) ==> error == own,
        exit matches StagingTaskExit::Returned(Ok(StagingExit::Closed)) ==> (
        error matches HaNodeError::ServiceServer(told) && told@
            == "successor staging service stopped unexpectedly"@),
        exit matches StagingTaskExit::Returned(Ok(StagingExit::Handoff)) ==> (
        error matches HaNodeError::ServiceServer(told) && told@
            == "successor staging service handed off unexpectedly"@),
        exit matches StagingTaskExit::Failed { message, .. } ==> (
        error matches HaNodeError::ServiceServer(told) && told@ == "successor staging service"@
            + " task failed: "@ + message@),
{
}

/// A staging service that is waited for amounts to what it did, by what it was
/// told, and is aborted exactly where the deadline came first.
pub proof fn law_a_staging_service_is_aborted_only_at_its_deadline(
    wait: StagingWait,
    stopped: StagingOutcome,
    handed: StagingOutcome,
    aborted: Result<(), HaNodeError>,
)
    requires
        call_ensures(stop_staging_server_before, (wait,), stopped),
        call_ensures(handoff_staging_listener, (wait,), handed),
        call_ensures(abort_staging_server_before, (wait,), aborted),
    ensures
        stopped.abort <==> wait is DeadlineReached,
        handed.abort <==> wait is DeadlineReached,
        wait is DeadlineReached ==> {
            let late = HaNodeError::ShutdownDeadlineExceeded {
                phase: HaShutdownPhase::Service,
                ingress: crate::status::IngressDisposition::Uncertain,
                tasks: crate::status::TaskDisposition::Uncertain,
                mutation: crate::status::MutationCertainty::Uncertain {
                    local_io: true,
                    recorder_rpc: true,
                    activation: true,
                },
            };
            &&& stopped.result == Err::<(), HaNodeError>(late)
            &&& handed.result == Err::<(), HaNodeError>(late)
            &&& aborted == Err::<(), HaNodeError>(late)
        },
        !(stopped.result is Ok && handed.result is Ok),
        stopped.result is Ok || handed.result is Ok ==> aborted is Ok,
        stopped.result is Ok <==> wait matches StagingWait::Ended(
            StagingTaskExit::Returned(Ok(StagingExit::Closed)),
        ),
        handed.result is Ok <==> wait matches StagingWait::Ended(
            StagingTaskExit::Returned(Ok(StagingExit::Handoff)),
        ),
{
}

} // verus!
