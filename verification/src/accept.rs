//! The accept loop of an HTTP ingress.
use crate::error::HaNodeError;
use crate::ingress::HA_SERVER_ABORT_RECEIPT_RESERVE;
use crate::text::joined;
use vstd::prelude::*;

verus! {

/// How long accepting pauses when the process is out of a resource.
pub const ACCEPT_RESOURCE_BACKOFF: u64 = 1_000_000_000;

/// The kinds of accept errors that are told apart.
#[derive(Clone, Copy, Debug, PartialEq, Eq, Structural)]
pub enum AcceptErrorKind {
    Interrupted,
    ConnectionAborted,
    ConnectionReset,
    ConnectionRefused,
    WouldBlock,
    OutOfMemory,
    Other,
}

/// What an accept error is answered with.
#[derive(Clone, Copy, Debug, PartialEq, Eq, Structural)]
pub enum AcceptErrorDisposition {
    ImmediateRetry,
    ResourceBackoff,
    Terminal,
}

/// A failed accept: its kind, and the number that the system gave it where it
/// is a Unix one.
#[derive(Clone, Copy, Debug, PartialEq, Eq, Structural)]
pub struct AcceptError {
    pub kind: AcceptErrorKind,
    pub unix_os_error: Option<i32>,
}

impl AcceptError {
    /// The error is about the peer or the moment, not about the listener.
    pub open spec fn is_momentary(self) -> bool {
        self.kind == AcceptErrorKind::Interrupted || self.kind == AcceptErrorKind::ConnectionAborted
            || self.kind == AcceptErrorKind::ConnectionReset || self.kind
            == AcceptErrorKind::ConnectionRefused || self.kind == AcceptErrorKind::WouldBlock
    }

    /// The process is out of memory or of file descriptors.
    pub open spec fn is_exhaustion(self) -> bool {
        self.kind == AcceptErrorKind::OutOfMemory || self.unix_os_error == Some(23i32)
            || self.unix_os_error == Some(24i32)
    }

    pub open spec fn disposition(self) -> AcceptErrorDisposition {
        if self.is_momentary() {
            AcceptErrorDisposition::ImmediateRetry
        } else if self.is_exhaustion() {
            AcceptErrorDisposition::ResourceBackoff
        } else {
            AcceptErrorDisposition::Terminal
        }
    }
}

/// What an accept error is answered with.
pub fn classify_accept_error(error: &AcceptError) -> (disposition: AcceptErrorDisposition)
    ensures
        disposition == error.disposition(),
{
    match error.kind {
        AcceptErrorKind::Interrupted
        | AcceptErrorKind::ConnectionAborted
        | AcceptErrorKind::ConnectionReset
        | AcceptErrorKind::ConnectionRefused
        | AcceptErrorKind::WouldBlock => {
            return AcceptErrorDisposition::ImmediateRetry;
        },
        AcceptErrorKind::OutOfMemory => {
            return AcceptErrorDisposition::ResourceBackoff;
        },
        AcceptErrorKind::Other => {},
    }
    match error.unix_os_error {
        Some(number) => if number == 23 || number == 24 {
            AcceptErrorDisposition::ResourceBackoff
        } else {
            AcceptErrorDisposition::Terminal
        },
        None => AcceptErrorDisposition::Terminal,
    }
}

/// Where an accept loop stands.
#[derive(Debug)]
pub enum AcceptPhase {
    /// The listener is open and accepting.
    Accepting,
    /// The listener is open; accepting pauses.
    BackingOff,
    /// The listener is closed; connections drain.
    Draining,
    /// Connections were aborted and are reaped until `deadline`.
    Reaping { deadline: u64 },
    /// The loop is over.
    Finished(Result<(), HaNodeError>),
}

/// An accept loop with the connections that it still owns.
#[derive(Debug)]
pub struct AcceptLoop {
    pub phase: AcceptPhase,
    pub connections: usize,
}

/// What an accept loop can see happen.
#[derive(Debug)]
pub enum AcceptEvent {
    /// The shutdown signal changed, or its sender is gone.
    ShutdownChanged { closed: bool, requested: bool },
    /// A connection task ended, however it did.
    ConnectionEnded,
    /// A peer connected.
    Accepted,
    /// Accepting failed.
    AcceptFailed { error: AcceptError, message: String },
    /// The pause is over.
    BackoffElapsed,
    /// The force signal changed, or its sender is gone.
    ForceChanged { closed: bool, requested: bool, now: u64 },
    /// The time for reaping is over.
    ReapDeadline,
}

/// What an accept loop asks of its caller, in order.
#[derive(Clone, Copy, Debug, PartialEq, Eq, Structural)]
pub enum AcceptEffect {
    /// Serve the accepted connection.
    ServeConnection,
    /// Drop the listener, then send its receipt.
    CloseListener,
    /// Tell the connections to finish.
    DrainConnections,
    /// Abort the connections.
    AbortConnections,
}

impl AcceptLoop {
    /// The listener is still open.
    pub open spec fn listening(self) -> bool {
        self.phase is Accepting || self.phase is BackingOff
    }

    /// A loop that drains has something to drain.
    pub open spec fn well_formed(self) -> bool {
        (self.phase is Draining || self.phase is Reaping) ==> self.connections > 0
    }

    /// A loop whose listener just opened.
    pub fn start() -> (accept: Self)
        ensures
            accept.phase is Accepting,
            accept.connections == 0,
            accept.well_formed(),
    {
        AcceptLoop { phase: AcceptPhase::Accepting, connections: 0 }
    }

    /// The listener closes and whatever is connected drains.
    pub open spec fn closes(self, next: AcceptLoop, effects: Seq<AcceptEffect>) -> bool {
        &&& next.connections == self.connections
        &&& effects == seq![AcceptEffect::CloseListener, AcceptEffect::DrainConnections]
        &&& if self.connections == 0 {
            next.phase == AcceptPhase::Finished(Ok(()))
        } else {
            next.phase is Draining
        }
    }

    /// Nothing changes and nothing is asked for.
    pub open spec fn stutters(self, next: AcceptLoop, effects: Seq<AcceptEffect>) -> bool {
        next == self && effects == Seq::<AcceptEffect>::empty()
    }

    /// `next` and `effects` are what `event` does to this loop.
    pub open spec fn steps_to(
        self,
        event: AcceptEvent,
        next: AcceptLoop,
        effects: Seq<AcceptEffect>,
    ) -> bool {
        match (self.phase, event) {
            (AcceptPhase::Accepting, AcceptEvent::ShutdownChanged { closed, requested }) => {
                if closed || requested {
                    self.closes(next, effects)
                } else {
                    self.stutters(next, effects)
                }
            },
            (AcceptPhase::BackingOff, AcceptEvent::ShutdownChanged { closed, requested }) => {
                if closed || requested {
                    self.closes(next, effects)
                } else {
                    next == (AcceptLoop { phase: AcceptPhase::Accepting, ..self }) && effects
                        == Seq::<AcceptEffect>::empty()
                }
            },
            (AcceptPhase::BackingOff, AcceptEvent::BackoffElapsed) => {
                next == (AcceptLoop { phase: AcceptPhase::Accepting, ..self }) && effects == Seq::<
                    AcceptEffect,
                >::empty()
            },
            (AcceptPhase::Accepting, AcceptEvent::Accepted) => {
                next == (AcceptLoop { connections: (self.connections + 1) as usize, ..self })
                    && effects == seq![AcceptEffect::ServeConnection]
            },
            (AcceptPhase::Accepting, AcceptEvent::AcceptFailed { error, message }) => {
                match error.disposition() {
                    AcceptErrorDisposition::ImmediateRetry => self.stutters(next, effects),
                    AcceptErrorDisposition::ResourceBackoff => next == (AcceptLoop {
                        phase: AcceptPhase::BackingOff,
                        ..self
                    }) && effects == Seq::<AcceptEffect>::empty(),
                    AcceptErrorDisposition::Terminal => {
                        &&& next.connections == 0
                        &&& next.phase matches AcceptPhase::Finished(Err(error))
                            && error.is_service_server("service server accept failed: "@ + message@)
                        &&& effects == seq![
                            AcceptEffect::CloseListener,
                            AcceptEffect::AbortConnections,
                        ]
                    },
                }
            },
            (AcceptPhase::Accepting, AcceptEvent::ConnectionEnded) => if self.connections > 0 {
                next == (AcceptLoop { connections: (self.connections - 1) as usize, ..self })
                    && effects == Seq::<AcceptEffect>::empty()
            } else {
                self.stutters(next, effects)
            },
            (AcceptPhase::Draining, AcceptEvent::ConnectionEnded)
            | (AcceptPhase::Reaping { .. }, AcceptEvent::ConnectionEnded) => {
                &&& next.connections == self.connections - 1
                &&& effects == Seq::<AcceptEffect>::empty()
                &&& next.phase == if self.connections == 1 {
                    AcceptPhase::Finished(Ok(()))
                } else {
                    self.phase
                }
            },
            (AcceptPhase::Draining, AcceptEvent::ForceChanged { closed, requested, now }) => {
                if closed || requested {
                    &&& next.connections == self.connections
                    &&& next.phase == (AcceptPhase::Reaping {
                        deadline: (now + HA_SERVER_ABORT_RECEIPT_RESERVE) as u64,
                    })
                    &&& effects == seq![AcceptEffect::AbortConnections]
                } else {
                    self.stutters(next, effects)
                }
            },
            (AcceptPhase::Reaping { .. }, AcceptEvent::ReapDeadline) => {
                &&& next.connections == self.connections
                &&& next.phase == AcceptPhase::Finished(Ok(()))
                &&& effects == Seq::<AcceptEffect>::empty()
            },
            _ => self.stutters(next, effects),
        }
    }
}

/// The listener closes and whatever is connected drains.
fn close_and_drain(accept: AcceptLoop) -> (step: (AcceptLoop, Vec<AcceptEffect>))
    ensures
        accept.closes(step.0, step.1@),
{
    let phase = if accept.connections == 0 {
        AcceptPhase::Finished(Ok(()))
    } else {
        AcceptPhase::Draining
    };
    let mut effects: Vec<AcceptEffect> = Vec::new();
    effects.push(AcceptEffect::CloseListener);
    effects.push(AcceptEffect::DrainConnections);
    assert(effects@ =~= seq![AcceptEffect::CloseListener, AcceptEffect::DrainConnections]);
    (AcceptLoop { phase, connections: accept.connections }, effects)
}

/// Advances the accept loop of an HTTP ingress by one event. An event that
/// the loop does not wait for leaves it as it is.
pub fn run_tracked_axum_ingress(accept: AcceptLoop, event: AcceptEvent) -> (step: (
    AcceptLoop,
    Vec<AcceptEffect>,
))
    requires
        accept.well_formed(),
        event is Accepted ==> accept.connections < usize::MAX,
        event matches AcceptEvent::ForceChanged { now, .. } ==> now
            + HA_SERVER_ABORT_RECEIPT_RESERVE <= u64::MAX,
    ensures
        accept.steps_to(event, step.0, step.1@),
        step.0.well_formed(),
{
    let connections: usize = accept.connections;
    match (accept.phase, event) {
        (AcceptPhase::Accepting, AcceptEvent::ShutdownChanged { closed, requested }) => {
            if closed || requested {
                close_and_drain(AcceptLoop { phase: AcceptPhase::Accepting, connections })
            } else {
                (AcceptLoop { phase: AcceptPhase::Accepting, connections }, Vec::new())
            }
        },
        (AcceptPhase::BackingOff, AcceptEvent::ShutdownChanged { closed, requested }) => {
            if closed || requested {
                close_and_drain(AcceptLoop { phase: AcceptPhase::BackingOff, connections })
            } else {
                (AcceptLoop { phase: AcceptPhase::Accepting, connections }, Vec::new())
            }
        },
        (AcceptPhase::BackingOff, AcceptEvent::BackoffElapsed) => {
            (AcceptLoop { phase: AcceptPhase::Accepting, connections }, Vec::new())
        },
        (AcceptPhase::Accepting, AcceptEvent::Accepted) => {
            let mut effects: Vec<AcceptEffect> = Vec::new();
            effects.push(AcceptEffect::ServeConnection);
            assert(effects@ =~= seq![AcceptEffect::ServeConnection]);
            (
                AcceptLoop { phase: AcceptPhase::Accepting, connections: connections + 1 },
                effects,
            )
        },
        (AcceptPhase::Accepting, AcceptEvent::AcceptFailed { error, message }) => {
            match classify_accept_error(&error) {
                AcceptErrorDisposition::ImmediateRetry => {
                    (AcceptLoop { phase: AcceptPhase::Accepting, connections }, Vec::new())
                },
                AcceptErrorDisposition::ResourceBackoff => {
                    (AcceptLoop { phase: AcceptPhase::BackingOff, connections }, Vec::new())
                },
                AcceptErrorDisposition::Terminal => {
                    let mut effects: Vec<AcceptEffect> = Vec::new();
                    effects.push(AcceptEffect::CloseListener);
                    effects.push(AcceptEffect::AbortConnections);
                    assert(effects@ =~= seq![
                        AcceptEffect::CloseListener,
                        AcceptEffect::AbortConnections,
                    ]);
                    let error = HaNodeError::ServiceServer(
                        joined("service server accept failed: ", message.as_str()),
                    );
                    (
                        AcceptLoop { phase: AcceptPhase::Finished(Err(error)), connections: 0 },
                        effects,
                    )
                },
            }
        },
        (AcceptPhase::Accepting, AcceptEvent::ConnectionEnded) => {
            let connections: usize = if connections > 0 {
                connections - 1
            } else {
                connections
            };
            (AcceptLoop { phase: AcceptPhase::Accepting, connections }, Vec::new())
        },
        (AcceptPhase::Draining, AcceptEvent::ConnectionEnded) => {
            let connections: usize = connections - 1;
            let phase = if connections == 0 {
                AcceptPhase::Finished(Ok(()))
            } else {
                AcceptPhase::Draining
            };
            (AcceptLoop { phase, connections }, Vec::new())
        },
        (AcceptPhase::Reaping { deadline }, AcceptEvent::ConnectionEnded) => {
            let connections: usize = connections - 1;
            let phase = if connections == 0 {
                AcceptPhase::Finished(Ok(()))
            } else {
                AcceptPhase::Reaping { deadline }
            };
            (AcceptLoop { phase, connections }, Vec::new())
        },
        (AcceptPhase::Draining, AcceptEvent::ForceChanged { closed, requested, now }) => {
            if closed || requested {
                let mut effects: Vec<AcceptEffect> = Vec::new();
                effects.push(AcceptEffect::AbortConnections);
                assert(effects@ =~= seq![AcceptEffect::AbortConnections]);
                let deadline: u64 = now + HA_SERVER_ABORT_RECEIPT_RESERVE;
                (AcceptLoop { phase: AcceptPhase::Reaping { deadline }, connections }, effects)
            } else {
                (AcceptLoop { phase: AcceptPhase::Draining, connections }, Vec::new())
            }
        },
        (AcceptPhase::Reaping { .. }, AcceptEvent::ReapDeadline) => {
            (AcceptLoop { phase: AcceptPhase::Finished(Ok(())), connections }, Vec::new())
        },
        (phase, _) => (AcceptLoop { phase, connections }, Vec::new()),
    }
}

/// A run of an accept loop: `loops[i + 1]` and `effects[i]` are what
/// `events[i]` does to `loops[i]`.
pub open spec fn is_accept_run(
    loops: Seq<AcceptLoop>,
    events: Seq<AcceptEvent>,
    effects: Seq<Seq<AcceptEffect>>,
) -> bool {
    &&& loops.len() == events.len() + 1
    &&& effects.len() == events.len()
    &&& forall|i: int|
        0 <= i < events.len() ==> (#[trigger] loops[i]).steps_to(
            events[i],
            loops[i + 1],
            effects[i],
        )
}

/// How often the listener is closed.
pub open spec fn closings(effects: Seq<Seq<AcceptEffect>>) -> nat
    decreases effects.len(),
{
    if effects.len() == 0 {
        0
    } else {
        closings(effects.drop_last()) + if effects.last().contains(AcceptEffect::CloseListener) {
            1nat
        } else {
            0nat
        }
    }
}

/// The listener is closed exactly once on every way to the end of the loop,
/// and never before.
pub proof fn law_listener_closes_exactly_once(
    loops: Seq<AcceptLoop>,
    events: Seq<AcceptEvent>,
    effects: Seq<Seq<AcceptEffect>>,
)
    requires
        is_accept_run(loops, events, effects),
        loops[0].phase is Accepting,
    ensures
        closings(effects) == if loops.last().listening() {
            0nat
        } else {
            1nat
        },
    decreases events.len(),
{
    if events.len() > 0 {
        let n = events.len() - 1;
        let before = loops.drop_last();
        assert forall|i: int| 0 <= i < n implies (#[trigger] before[i]).steps_to(
            events.drop_last()[i],
            before[i + 1],
            effects.drop_last()[i],
        ) by {
            assert(loops[i].steps_to(events[i], loops[i + 1], effects[i]));
        }
        law_listener_closes_exactly_once(before, events.drop_last(), effects.drop_last());
        assert(loops[n].steps_to(events[n], loops[n + 1], effects[n]));
        assert(before.last() == loops[n]);
        let close_drain = seq![AcceptEffect::CloseListener, AcceptEffect::DrainConnections];
        assert(close_drain[0] == AcceptEffect::CloseListener);
        let close_abort = seq![AcceptEffect::CloseListener, AcceptEffect::AbortConnections];
        assert(close_abort[0] == AcceptEffect::CloseListener);
    }
}

/// A connection is served only while the listener is open: nothing is
/// admitted after the receipt.
pub proof fn law_nothing_is_admitted_after_the_receipt(
    accept: AcceptLoop,
    event: AcceptEvent,
    next: AcceptLoop,
    effects: Seq<AcceptEffect>,
)
    requires
        accept.steps_to(event, next, effects),
    ensures
        effects.contains(AcceptEffect::ServeConnection) ==> accept.phase is Accepting,
        !accept.listening() ==> !next.listening(),
{
    if effects.contains(AcceptEffect::ServeConnection) && !(accept.phase is Accepting) {
        let k = choose|k: int| 0 <= k < effects.len() && effects[k] == AcceptEffect::ServeConnection;
        assert(effects[k] == AcceptEffect::ServeConnection);
        assert(false);
    }
}

/// A failed connection, and a momentary or resource failure of accepting,
/// leave the listener open.
pub proof fn law_connection_failures_are_isolated(
    accept: AcceptLoop,
    event: AcceptEvent,
    next: AcceptLoop,
    effects: Seq<AcceptEffect>,
)
    requires
        accept.listening(),
        accept.steps_to(event, next, effects),
        event is ConnectionEnded || (event matches AcceptEvent::AcceptFailed { error, .. }
            && error.disposition() != AcceptErrorDisposition::Terminal),
    ensures
        next.listening(),
{
}

/// A failed accept is tried again at once where it is about the peer or the
/// moment, after a pause where the process is out of memory or of file
/// descriptors, and otherwise ends the loop.
pub proof fn law_only_a_failed_listener_ends_the_loop(error: AcceptError)
    ensures
        error.disposition() == AcceptErrorDisposition::ImmediateRetry <==> (error.kind
            is Interrupted || error.kind is ConnectionAborted || error.kind is ConnectionReset
            || error.kind is ConnectionRefused || error.kind is WouldBlock),
        error.kind is OutOfMemory ==> error.disposition()
            == AcceptErrorDisposition::ResourceBackoff,
        error.kind is Other ==> (error.disposition() == AcceptErrorDisposition::ResourceBackoff <==> (
        error.unix_os_error == Some(23i32) || error.unix_os_error == Some(24i32))),
{
}

/// An open loop serves every peer that connects, pauses only when the process
/// is out of a resource, and accepts again once the pause is over. It closes
/// its listener when it is told to, or when nobody can tell it any more, and
/// then tells its connections to finish.
pub proof fn law_an_open_loop_serves_until_it_is_told_to_close(
    accept: AcceptLoop,
    event: AcceptEvent,
    next: AcceptLoop,
    effects: Seq<AcceptEffect>,
)
    requires
        accept.phase is Accepting || accept.phase is BackingOff,
        accept.steps_to(event, next, effects),
        event is Accepted ==> accept.connections < usize::MAX,
    ensures
        event matches AcceptEvent::ShutdownChanged { closed, requested } ==> if closed || requested {
            effects.len() == 2 && effects[0] is CloseListener && effects[1] is DrainConnections
                && next.connections == accept.connections && (next.phase is Draining
                <==> accept.connections > 0) && (next.phase == AcceptPhase::Finished(Ok(()))
                <==> accept.connections == 0)
        } else {
            effects.len() == 0 && next.phase is Accepting && next.connections == accept.connections
        },
        accept.phase is Accepting && event is Accepted ==> effects.len() == 1 && effects[0]
            is ServeConnection && next.phase is Accepting && next.connections == accept.connections
            + 1,
        accept.phase is Accepting ==> (event matches AcceptEvent::AcceptFailed { error, message }
            ==> match error.disposition() {
            AcceptErrorDisposition::ImmediateRetry => next == accept && effects.len() == 0,
            AcceptErrorDisposition::ResourceBackoff => next.phase is BackingOff && next.connections
                == accept.connections && effects.len() == 0,
            AcceptErrorDisposition::Terminal => effects.len() == 2 && effects[0] is CloseListener
                && effects[1] is AbortConnections && next.connections == 0 && (next.phase matches
                AcceptPhase::Finished(Err(failure)) && failure.is_service_server(
                "service server accept failed: "@ + message@,
            )),
        }),
        accept.phase is Accepting && event is ConnectionEnded ==> next.phase is Accepting
            && effects.len() == 0 && next.connections == if accept.connections > 0 {
            accept.connections - 1
        } else {
            0
        },
        accept.phase is BackingOff && event is BackoffElapsed ==> next.phase is Accepting
            && next.connections == accept.connections && effects.len() == 0,
        accept.phase is BackingOff && !(event is BackoffElapsed || event is ShutdownChanged)
            ==> next == accept && effects.len() == 0,
{
}

/// A closed loop ends well once its last connection has. Forced, it aborts
/// them, and reaps them for fifty milliseconds at most.
pub proof fn law_a_closed_loop_ends_with_its_connections(
    accept: AcceptLoop,
    event: AcceptEvent,
    next: AcceptLoop,
    effects: Seq<AcceptEffect>,
)
    requires
        accept.well_formed(),
        accept.phase is Draining || accept.phase is Reaping || accept.phase is Finished,
        accept.steps_to(event, next, effects),
    ensures
        accept.phase is Finished ==> next == accept && effects.len() == 0,
        (accept.phase is Draining || accept.phase is Reaping) && event is ConnectionEnded
            ==> effects.len() == 0 && next.connections == accept.connections - 1 && (next.phase
            == AcceptPhase::Finished(Ok(())) <==> next.connections == 0) && (next.connections > 0
            ==> next.phase == accept.phase),
        accept.phase is Draining ==> (event matches AcceptEvent::ForceChanged {
            closed,
            requested,
            now,
        } ==> if closed || requested {
            effects.len() == 1 && effects[0] is AbortConnections && next.connections
                == accept.connections && (next.phase matches AcceptPhase::Reaping { deadline } && (
            now + 50_000_000 <= u64::MAX ==> deadline == now + 50_000_000))
        } else {
            next == accept && effects.len() == 0
        }),
        accept.phase is Reaping && event is ReapDeadline ==> next.phase == AcceptPhase::Finished(
            Ok(()),
        ) && effects.len() == 0,
        accept.phase is Draining && !(event is ConnectionEnded || event is ForceChanged) ==> next
            == accept && effects.len() == 0,
        accept.phase is Reaping && !(event is ConnectionEnded || event is ReapDeadline) ==> next
            == accept && effects.len() == 0,
{
}

/// What holds of a step of an accept loop holds of the function that takes it.
pub proof fn law_a_listener_is_served_by_steps(
    accept: AcceptLoop,
    event: AcceptEvent,
    step: (AcceptLoop, Vec<AcceptEffect>),
)
    requires
        call_ensures(run_tracked_axum_ingress, (accept, event), step),
    ensures
        accept.steps_to(event, step.0, step.1@),
        step.0.well_formed(),
{
}

/// A listener begins to accept, without a connection.
pub proof fn law_a_listener_begins_without_connections(accept: AcceptLoop)
    requires
        call_ensures(AcceptLoop::start, (), accept),
    ensures
        accept.phase is Accepting,
        accept.connections == 0,
{
}

} // verus!
