//! How a node comes by its service listener and learns that the service runs.
use crate::error::HaNodeError;
use crate::token::{shutdown_deadline, ShutdownSignal};
use vstd::prelude::*;

verus! {

/// Who holds the service listener until the service is activated.
#[derive(Clone, Copy, Debug, PartialEq, Eq, Structural)]
pub enum ServiceListener {
    /// The node itself.
    Bound,
    /// The parent of a live successor, which hands it over on request.
    Deferred,
}

/// What activation of the service listener comes to.
#[derive(Clone, Copy, Debug, PartialEq, Eq, Structural)]
pub enum ServiceActivation {
    /// The node holds the listener.
    Listener,
    /// A shutdown came first. `listener_closed` says whether the node held
    /// the listener and dropped it.
    Shutdown { deadline: u64, listener_closed: bool },
}

/// Where activation stands.
#[derive(Debug)]
pub enum ActivationPhase {
    /// The parent is to be told that the node is ready for the listener.
    Announcing,
    /// The parent was told; the listener or a shutdown comes next.
    AwaitingListener,
    Done(Result<ServiceActivation, HaNodeError>),
}

/// What activation can see happen.
#[derive(Clone, Copy, PartialEq, Eq, Structural)]
pub enum ActivationEvent {
    /// The parent was told, or is gone.
    Announced { received: bool },
    /// The shutdown signal changed, or its sender is gone.
    ShutdownChanged { closed: bool, signal: ShutdownSignal, now: u64 },
    /// The parent handed the listener over, or dropped the handover.
    ListenerHandedOver { received: bool },
}

/// Where activation starts. A shutdown that was requested before is found
/// here: a bound listener is dropped, a deferred one never asked for.
pub open spec fn spec_begin_activation(
    listener: ServiceListener,
    signal: ShutdownSignal,
) -> ActivationPhase {
    match signal {
        Some(token) => ActivationPhase::Done(
            Ok(
                ServiceActivation::Shutdown {
                    deadline: token.spec_deadline(),
                    listener_closed: listener == ServiceListener::Bound,
                },
            ),
        ),
        None => if listener == ServiceListener::Bound {
            ActivationPhase::Done(Ok(ServiceActivation::Listener))
        } else {
            ActivationPhase::Announcing
        },
    }
}

/// Where activation starts.
pub fn begin_activation(listener: ServiceListener, signal: ShutdownSignal) -> (phase:
    ActivationPhase)
    ensures
        phase == spec_begin_activation(listener, signal),
{
    match signal {
        Some(token) => ActivationPhase::Done(
            Ok(
                ServiceActivation::Shutdown {
                    deadline: token.deadline(),
                    listener_closed: listener == ServiceListener::Bound,
                },
            ),
        ),
        None => match listener {
            ServiceListener::Bound => ActivationPhase::Done(Ok(ServiceActivation::Listener)),
            ServiceListener::Deferred => ActivationPhase::Announcing,
        },
    }
}

impl ActivationPhase {
    /// `next` is what `event` makes of this phase.
    pub open spec fn steps_to(self, event: ActivationEvent, next: ActivationPhase) -> bool {
        match (self, event) {
            (ActivationPhase::Announcing, ActivationEvent::Announced { received }) => {
                if received {
                    next is AwaitingListener
                } else {
                    next matches ActivationPhase::Done(Err(error)) && error.is_service_server(
                        "live successor parent stopped before service listener handoff"@,
                    )
                }
            },
            (
                ActivationPhase::AwaitingListener,
                ActivationEvent::ShutdownChanged { closed, signal, now },
            ) => {
                if closed || signal is Some {
                    next == ActivationPhase::Done(
                        Ok(
                            ServiceActivation::Shutdown {
                                deadline: crate::token::deadline_of(signal, now),
                                listener_closed: false,
                            },
                        ),
                    )
                } else {
                    next matches ActivationPhase::Done(Err(error)) && error.is_service_server(
                        "live successor service activation shutdown changed without a token"@,
                    )
                }
            },
            (
                ActivationPhase::AwaitingListener,
                ActivationEvent::ListenerHandedOver { received },
            ) => {
                if received {
                    next == ActivationPhase::Done(Ok(ServiceActivation::Listener))
                } else {
                    next matches ActivationPhase::Done(Err(error)) && error.is_service_server(
                        "live successor parent dropped the service listener handoff"@,
                    )
                }
            },
            _ => next == self,
        }
    }
}

/// Advances activation by one event. An event that it does not wait for
/// leaves it as it is.
pub fn activate_service_listener(phase: ActivationPhase, event: ActivationEvent) -> (next:
    ActivationPhase)
    ensures
        phase.steps_to(event, next),
{
    match (phase, event) {
        (ActivationPhase::Announcing, ActivationEvent::Announced { received }) => {
            if received {
                ActivationPhase::AwaitingListener
            } else {
                ActivationPhase::Done(
                    Err(
                        HaNodeError::ServiceServer(
                            "live successor parent stopped before service listener handoff".to_owned(),
                        ),
                    ),
                )
            }
        },
        (
            ActivationPhase::AwaitingListener,
            ActivationEvent::ShutdownChanged { closed, signal, now },
        ) => {
            if closed || signal.is_some() {
                ActivationPhase::Done(
                    Ok(
                        ServiceActivation::Shutdown {
                            deadline: shutdown_deadline(&signal, now),
                            listener_closed: false,
                        },
                    ),
                )
            } else {
                ActivationPhase::Done(
                    Err(
                        HaNodeError::ServiceServer(
                            "live successor service activation shutdown changed without a token".to_owned(),
                        ),
                    ),
                )
            }
        },
        (ActivationPhase::AwaitingListener, ActivationEvent::ListenerHandedOver { received }) => {
            if received {
                ActivationPhase::Done(Ok(ServiceActivation::Listener))
            } else {
                ActivationPhase::Done(
                    Err(
                        HaNodeError::ServiceServer(
                            "live successor parent dropped the service listener handoff".to_owned(),
                        ),
                    ),
                )
            }
        },
        (phase, _) => phase,
    }
}

/// What waiting for the service to start comes to.
#[derive(Clone, Copy, Debug, PartialEq, Eq, Structural)]
pub enum ServiceStartup {
    Started,
    Shutdown(u64),
}

/// What a node that waits for the service to start can see happen.
#[derive(Clone, Copy, PartialEq, Eq, Structural)]
pub enum ServiceStartEvent {
    /// The wait begins, with the shutdown that was requested before, if any.
    Begun { signal: ShutdownSignal },
    /// The shutdown signal changed, or its sender is gone.
    ShutdownChanged { closed: bool, signal: ShutdownSignal, now: u64 },
    /// The service reported that it runs, or ended without doing so.
    Reported { started: bool },
}

/// `outcome` is what `event` ends the wait with; `None` means that it goes on.
pub open spec fn service_start_outcome(
    event: ServiceStartEvent,
    outcome: Option<Result<ServiceStartup, HaNodeError>>,
) -> bool {
    match event {
        ServiceStartEvent::Begun { signal } => match signal {
            Some(token) => outcome == Some(
                Ok::<ServiceStartup, HaNodeError>(ServiceStartup::Shutdown(token.spec_deadline())),
            ),
            None => outcome is None,
        },
        ServiceStartEvent::ShutdownChanged { closed, signal, now } => if closed || signal is Some {
            outcome == Some(
                Ok::<ServiceStartup, HaNodeError>(
                    ServiceStartup::Shutdown(crate::token::deadline_of(signal, now)),
                ),
            )
        } else {
            outcome is None
        },
        ServiceStartEvent::Reported { started } => if started {
            outcome == Some(Ok::<ServiceStartup, HaNodeError>(ServiceStartup::Started))
        } else {
            outcome matches Some(Err(error)) && error.is_service_server(
                "service ingress stopped before reporting startup"@,
            )
        },
    }
}

/// What `event` ends the wait for the service with, if it does.
pub fn wait_for_service_start_or_shutdown(event: ServiceStartEvent) -> (outcome: Option<
    Result<ServiceStartup, HaNodeError>,
>)
    ensures
        service_start_outcome(event, outcome),
{
    match event {
        ServiceStartEvent::Begun { signal } => match signal {
            Some(token) => Some(Ok(ServiceStartup::Shutdown(token.deadline()))),
            None => None,
        },
        ServiceStartEvent::ShutdownChanged { closed, signal, now } => {
            if closed || signal.is_some() {
                Some(Ok(ServiceStartup::Shutdown(shutdown_deadline(&signal, now))))
            } else {
                None
            }
        },
        ServiceStartEvent::Reported { started } => if started {
            Some(Ok(ServiceStartup::Started))
        } else {
            Some(
                Err(
                    HaNodeError::ServiceServer(
                        "service ingress stopped before reporting startup".to_owned(),
                    ),
                ),
            )
        },
    }
}

/// Only a node that held its listener ever claims to have closed it.
pub proof fn law_only_a_bound_listener_is_claimed_closed(
    listener: ServiceListener,
    signal: ShutdownSignal,
    phase: ActivationPhase,
    event: ActivationEvent,
    next: ActivationPhase,
)
    requires
        phase.steps_to(event, next),
        !(phase is Done),
    ensures
        spec_begin_activation(listener, signal) matches ActivationPhase::Done(
            Ok(ServiceActivation::Shutdown { listener_closed, .. }),
        ) ==> (listener_closed <==> listener == ServiceListener::Bound),
        next matches ActivationPhase::Done(
            Ok(ServiceActivation::Shutdown { listener_closed, .. }),
        ) ==> !listener_closed,
{
}

/// A node that holds its listener activates it at once; one whose parent holds
/// it asks for it, and waits. A shutdown that was requested before is found
/// first, and its deadline kept.
pub proof fn law_activation_begins_with_who_holds_the_listener(
    listener: ServiceListener,
    signal: ShutdownSignal,
)
    ensures
        signal matches Some(token) ==> (spec_begin_activation(listener, signal) matches
            ActivationPhase::Done(Ok(ServiceActivation::Shutdown { deadline, listener_closed }))
            && deadline == token.spec_deadline() && (listener_closed <==> listener
            == ServiceListener::Bound)),
        signal is None && listener == ServiceListener::Bound ==> spec_begin_activation(
            listener,
            signal,
        ) == ActivationPhase::Done(Ok(ServiceActivation::Listener)),
        signal is None && listener == ServiceListener::Deferred ==> spec_begin_activation(
            listener,
            signal,
        ) is Announcing,
{
}

/// A deferred listener is had exactly where the parent was told and handed it
/// over. A shutdown that comes first ends the wait by its deadline, or now
/// where nobody can ask any more; a parent that is gone, and a signal that
/// says nothing, are failures, each named as what it is.
pub proof fn law_a_deferred_listener_is_handed_over_or_the_wait_ends(
    phase: ActivationPhase,
    event: ActivationEvent,
    next: ActivationPhase,
)
    requires
        phase.steps_to(event, next),
    ensures
        phase is Announcing ==> (event matches ActivationEvent::Announced { received }
            ==> if received {
            next is AwaitingListener
        } else {
            next matches ActivationPhase::Done(Err(error)) && error.is_service_server(
                "live successor parent stopped before service listener handoff"@,
            )
        }),
        phase is AwaitingListener ==> (event matches ActivationEvent::ListenerHandedOver { received }
            ==> if received {
            next == ActivationPhase::Done(Ok(ServiceActivation::Listener))
        } else {
            next matches ActivationPhase::Done(Err(error)) && error.is_service_server(
                "live successor parent dropped the service listener handoff"@,
            )
        }),
        phase is AwaitingListener ==> (event matches ActivationEvent::ShutdownChanged {
            closed,
            signal,
            now,
        } ==> if closed || signal is Some {
            next matches ActivationPhase::Done(
                Ok(ServiceActivation::Shutdown { deadline, listener_closed }),
            ) && !listener_closed && deadline == match signal {
                Some(token) => token.spec_deadline(),
                None => now,
            }
        } else {
            next matches ActivationPhase::Done(Err(error)) && error.is_service_server(
                "live successor service activation shutdown changed without a token"@,
            )
        }),
        phase is Announcing && !(event is Announced) ==> next == phase,
        phase is AwaitingListener && event is Announced ==> next == phase,
        phase is Done ==> next == phase,
        next == ActivationPhase::Done(Ok(ServiceActivation::Listener)) && !(phase is Done) ==> phase
            is AwaitingListener && event == (ActivationEvent::ListenerHandedOver {
            received: true,
        }),
{
}

/// A service has started exactly where it reported so. A shutdown ends the
/// wait by its deadline, or now where nobody can ask any more; a service that
/// ends without a report is a failure; anything else is waited through.
pub proof fn law_a_service_has_started_only_where_it_reported_so(
    event: ServiceStartEvent,
    outcome: Option<Result<ServiceStartup, HaNodeError>>,
)
    requires
        service_start_outcome(event, outcome),
    ensures
        outcome == Some(Ok::<ServiceStartup, HaNodeError>(ServiceStartup::Started)) <==> event == (
        ServiceStartEvent::Reported { started: true }),
        outcome matches Some(Ok(ServiceStartup::Shutdown(deadline))) ==> match event {
            ServiceStartEvent::Begun { signal } => signal is Some && deadline
                == signal->0.spec_deadline(),
            ServiceStartEvent::ShutdownChanged { closed, signal, now } => (closed || signal is Some)
                && deadline == match signal {
                Some(token) => token.spec_deadline(),
                None => now,
            },
            ServiceStartEvent::Reported { .. } => false,
        },
        outcome matches Some(Err(error)) ==> event == (ServiceStartEvent::Reported {
            started: false,
        }) && error.is_service_server("service ingress stopped before reporting startup"@),
        outcome is None <==> match event {
            ServiceStartEvent::Begun { signal } => signal is None,
            ServiceStartEvent::ShutdownChanged { closed, signal, .. } => !closed && signal is None,
            ServiceStartEvent::Reported { .. } => false,
        },
{
}

/// What holds of a step of an activation holds of the function that takes it.
pub proof fn law_a_listener_is_activated_by_steps(
    phase: ActivationPhase,
    event: ActivationEvent,
    next: ActivationPhase,
)
    requires
        call_ensures(activate_service_listener, (phase, event), next),
    ensures
        phase.steps_to(event, next),
{
}

/// An activation begins as its listener and a shutdown that was already asked
/// for say, and the start of a service is told only by the service.
pub proof fn law_an_activation_begins_with_its_listener(
    listener: ServiceListener,
    signal: ShutdownSignal,
    event: ServiceStartEvent,
    phase: ActivationPhase,
    outcome: Option<Result<ServiceStartup, HaNodeError>>,
)
    requires
        call_ensures(begin_activation, (listener, signal), phase),
        call_ensures(wait_for_service_start_or_shutdown, (event,), outcome),
    ensures
        phase == spec_begin_activation(listener, signal),
        service_start_outcome(event, outcome),
{
}

} // verus!
