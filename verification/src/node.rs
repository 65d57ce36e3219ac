//! The public owners of a node: what their callers see and may ask for.
use crate::binding::HaPredecessor;
use crate::error::{fail, HaNodeError};
use crate::status::{HaNodeStatus, RhizaHandle};
use crate::token::{
    cancel_startup_for_token, request_ha_shutdown, ShutdownSignal, ShutdownToken,
    StartupCancellationToken, StartupIoContext, HA_SERVER_SHUTDOWN_TIMEOUT,
};
use vstd::prelude::*;

verus! {

/// What a node publishes.
#[derive(Debug)]
pub struct HaNodeSnapshot {
    pub status: HaNodeStatus,
    pub handle: Option<RhizaHandle>,
    pub terminal_error: Option<HaNodeError>,
}

impl Clone for HaNodeSnapshot {
    fn clone(&self) -> (copy: Self)
        ensures
            copy == *self,
    {
        HaNodeSnapshot {
            status: self.status,
            handle: self.handle,
            terminal_error: match &self.terminal_error {
                Some(error) => Some(error.clone()),
                None => None,
            },
        }
    }
}

impl HaNodeSnapshot {
    /// A status without handle or error.
    pub open spec fn plain(status: HaNodeStatus) -> HaNodeSnapshot {
        HaNodeSnapshot { status, handle: None, terminal_error: None }
    }

    /// A status without handle or error.
    pub fn of(status: HaNodeStatus) -> (snapshot: Self)
        ensures
            snapshot == Self::plain(status),
    {
        HaNodeSnapshot { status, handle: None, terminal_error: None }
    }

    /// A terminal failure.
    pub open spec fn failure(error: HaNodeError) -> HaNodeSnapshot {
        HaNodeSnapshot { status: HaNodeStatus::Failed, handle: None, terminal_error: Some(error) }
    }

    /// A terminal failure.
    pub fn failed(error: HaNodeError) -> (snapshot: Self)
        ensures
            snapshot == Self::failure(error),
    {
        HaNodeSnapshot { status: HaNodeStatus::Failed, handle: None, terminal_error: Some(error) }
    }

    /// How a node that ended with `result` is published.
    pub open spec fn end(result: Result<(), HaNodeError>) -> HaNodeSnapshot {
        match result {
            Ok(_) => Self::plain(HaNodeStatus::Stopped),
            Err(error) => Self::failure(error),
        }
    }

    /// How a node that ended with `result` is published.
    pub fn ended(result: &Result<(), HaNodeError>) -> (snapshot: Self)
        ensures
            snapshot == Self::end(*result),
    {
        match result {
            Ok(()) => Self::of(HaNodeStatus::Stopped),
            Err(error) => Self::failed(error.clone()),
        }
    }
}

/// `answer` is what a caller that waits for readiness is told now; `None`
/// means that it waits on for the next snapshot.
pub open spec fn readiness_answer(
    shutdown: ShutdownSignal,
    snapshot: HaNodeSnapshot,
    state_open: bool,
    answer: Option<Result<RhizaHandle, HaNodeError>>,
) -> bool {
    if snapshot.terminal_error is Some {
        answer == Some(Err::<RhizaHandle, HaNodeError>(snapshot.terminal_error->0))
    } else if shutdown is Some {
        answer == Some(Err::<RhizaHandle, HaNodeError>(HaNodeError::Cancelled))
    } else if snapshot.status == HaNodeStatus::Ready {
        match snapshot.handle {
            Some(handle) => answer == Some(Ok::<RhizaHandle, HaNodeError>(handle)),
            None => answer matches Some(Err(error)) && error.is_startup(
                "ready HA node has no application handle"@,
            ),
        }
    } else if snapshot.status == HaNodeStatus::ShuttingDown || snapshot.status
        == HaNodeStatus::Stopped || !state_open {
        answer == Some(Err::<RhizaHandle, HaNodeError>(HaNodeError::Cancelled))
    } else {
        answer is None
    }
}

/// What a caller that waits for readiness is told now. `state_open` says
/// whether a further snapshot can come.
pub fn wait_for_ha_ready(
    shutdown: &ShutdownSignal,
    snapshot: &HaNodeSnapshot,
    state_open: bool,
) -> (answer: Option<Result<RhizaHandle, HaNodeError>>)
    ensures
        readiness_answer(*shutdown, *snapshot, state_open, answer),
{
    if let Some(error) = &snapshot.terminal_error {
        return Some(Err(error.clone()));
    }
    if shutdown.is_some() {
        return Some(Err(HaNodeError::Cancelled));
    }
    if snapshot.status == HaNodeStatus::Ready {
        return match snapshot.handle {
            Some(handle) => Some(Ok(handle)),
            None => Some(
                Err(HaNodeError::Startup(fail("ready HA node has no application handle"))),
            ),
        };
    }
    if snapshot.status == HaNodeStatus::ShuttingDown || snapshot.status == HaNodeStatus::Stopped
        || !state_open {
        return Some(Err(HaNodeError::Cancelled));
    }
    None
}

/// `answer` is what a caller that monitors the node is told now; `None` means
/// that it waits on for the next snapshot.
pub open spec fn monitor_answer(
    snapshot: HaNodeSnapshot,
    state_open: bool,
    answer: Option<Result<(), HaNodeError>>,
) -> bool {
    if snapshot.terminal_error is Some {
        answer == Some(Err::<(), HaNodeError>(snapshot.terminal_error->0))
    } else if snapshot.status == HaNodeStatus::Stopped {
        answer == Some(Ok::<(), HaNodeError>(()))
    } else if !state_open {
        answer matches Some(Err(error)) && error.is_supervisor(
            "HA node monitor state channel closed"@,
        )
    } else {
        answer is None
    }
}

/// What a caller that monitors the node is told now. `state_open` says
/// whether a further snapshot can come.
pub fn monitor_ha_state(snapshot: &HaNodeSnapshot, state_open: bool) -> (answer: Option<
    Result<(), HaNodeError>,
>)
    ensures
        monitor_answer(*snapshot, state_open, answer),
{
    if let Some(error) = &snapshot.terminal_error {
        return Some(Err(error.clone()));
    }
    if snapshot.status == HaNodeStatus::Stopped {
        return Some(Ok(()));
    }
    if !state_open {
        return Some(
            Err(HaNodeError::Supervisor("HA node monitor state channel closed".to_owned())),
        );
    }
    None
}

/// What a shutdown by the owner starts with: the token in force, the handle
/// whose admission closes, and the right to wait for the supervisor.
pub struct OwnerShutdown {
    pub token: ShutdownToken,
    pub close_admission: Option<RhizaHandle>,
    pub supervisor: Result<(), HaNodeError>,
}

/// What dropping the owner starts with: the token in force, the handle whose
/// admission closes, and whether a supervisor is left to reap by the token's
/// deadline.
pub struct OwnerDrop {
    pub token: ShutdownToken,
    pub close_admission: Option<RhizaHandle>,
    pub reap_supervisor: bool,
}

/// The owner of a running node.
pub struct HaNode {
    pub shutdown: ShutdownSignal,
    pub recorder_shutdown: bool,
    pub startup: StartupIoContext,
    pub state: HaNodeSnapshot,
    /// A further snapshot can come.
    pub state_open: bool,
    /// The supervisor is still owned here.
    pub supervised: bool,
}

impl HaNode {
    /// The owner of a node that was just started.
    pub fn started() -> (node: Self)
        ensures
            node.shutdown is None,
            !node.recorder_shutdown,
            node.startup.cancellation is None,
            node.state == HaNodeSnapshot::plain(HaNodeStatus::Starting),
            node.state_open,
            node.supervised,
    {
        HaNode {
            shutdown: None,
            recorder_shutdown: false,
            startup: StartupIoContext::new(),
            state: HaNodeSnapshot::of(HaNodeStatus::Starting),
            state_open: true,
            supervised: true,
        }
    }

    /// What a caller that waits for readiness is told now.
    pub fn ready(&self) -> (answer: Option<Result<RhizaHandle, HaNodeError>>)
        ensures
            readiness_answer(self.shutdown, self.state, self.state_open, answer),
    {
        wait_for_ha_ready(&self.shutdown, &self.state, self.state_open)
    }

    pub fn status(&self) -> (status: HaNodeStatus)
        ensures
            status == self.state.status,
    {
        self.state.status
    }

    /// Ready, and nobody asked for a shutdown.
    pub fn is_ready(&self) -> (ready: bool)
        ensures
            ready == (self.shutdown is None && self.state.status == HaNodeStatus::Ready),
    {
        self.shutdown.is_none() && self.state.status == HaNodeStatus::Ready
    }

    /// What a caller that monitors the node is told now.
    pub fn monitor(&self) -> (answer: Option<Result<(), HaNodeError>>)
        ensures
            monitor_answer(self.state, self.state_open, answer),
    {
        monitor_ha_state(&self.state, self.state_open)
    }

    /// The node once `token` was asked for: the signal and startup hold the
    /// token in force, and the recorder is told to stop.
    pub open spec fn asked_to_stop(self, token: ShutdownToken) -> HaNode {
        let installed = crate::token::installed(self.shutdown, token);
        HaNode {
            shutdown: Some(installed),
            recorder_shutdown: true,
            startup: StartupIoContext {
                cancellation: Some(
                    crate::token::installed(self.startup.cancellation, installed),
                ),
            },
            ..self
        }
    }

    /// The handle whose admission `token` closes.
    pub open spec fn admission_closed_by(self, token: ShutdownToken) -> Option<RhizaHandle> {
        if crate::token::installs(self.shutdown, token) {
            self.state.handle
        } else {
            None
        }
    }

    /// Shuts down with the default timeout.
    pub fn shutdown(&mut self, now: u64, startup_token: StartupCancellationToken) -> (shutdown:
        OwnerShutdown)
        requires
            now + HA_SERVER_SHUTDOWN_TIMEOUT <= u64::MAX,
        ensures
            old(self).shuts_down_to(
                ShutdownToken::of(
                    (now + HA_SERVER_SHUTDOWN_TIMEOUT) as u64,
                    startup_token,
                    crate::token::StartupCancellationAuthority::External,
                ),
                *final(self),
                shutdown,
            ),
    {
        self.shutdown_with_timeout(now, HA_SERVER_SHUTDOWN_TIMEOUT, startup_token)
    }

    /// Shuts down within `timeout`.
    pub fn shutdown_with_timeout(
        &mut self,
        now: u64,
        timeout: u64,
        startup_token: StartupCancellationToken,
    ) -> (shutdown: OwnerShutdown)
        requires
            now + timeout <= u64::MAX,
        ensures
            old(self).shuts_down_to(
                ShutdownToken::of(
                    (now + timeout) as u64,
                    startup_token,
                    crate::token::StartupCancellationAuthority::External,
                ),
                *final(self),
                shutdown,
            ),
    {
        self.shutdown_with_token(ShutdownToken::new(now, timeout, startup_token))
    }

    /// `next` and `shutdown` are what a shutdown with `token` makes of this
    /// owner. Without a supervisor it fails at once.
    pub open spec fn shuts_down_to(
        self,
        token: ShutdownToken,
        next: HaNode,
        shutdown: OwnerShutdown,
    ) -> bool {
        &&& next == (HaNode { supervised: false, ..self.asked_to_stop(token) })
        &&& shutdown.token == crate::token::installed(self.shutdown, token)
        &&& shutdown.close_admission == self.admission_closed_by(token)
        &&& if self.supervised {
            shutdown.supervisor is Ok
        } else {
            shutdown.supervisor matches Err(error) && error.is_supervisor(
                "HA node supervisor ownership missing during shutdown"@,
            )
        }
    }

    /// Shuts down with this very token, unless one in force supersedes it.
    pub fn shutdown_with_token(&mut self, token: ShutdownToken) -> (shutdown: OwnerShutdown)
        ensures
            old(self).shuts_down_to(token, *final(self), shutdown),
    {
        let request = request_ha_shutdown(&mut self.shutdown, token);
        let close_admission = if request.close_admission {
            self.state.handle
        } else {
            None
        };
        self.recorder_shutdown = true;
        cancel_startup_for_token(&mut self.startup, &request.token);
        let supervisor = if self.supervised {
            Ok(())
        } else {
            Err(
                HaNodeError::Supervisor(
                    "HA node supervisor ownership missing during shutdown".to_owned(),
                ),
            )
        };
        self.supervised = false;
        OwnerShutdown { token: request.token, close_admission, supervisor }
    }

    /// `next` and `dropped` are what dropping this owner with `token` makes of
    /// it.
    pub open spec fn drops_to(
        self,
        token: ShutdownToken,
        next: HaNode,
        dropped: OwnerDrop,
    ) -> bool {
        &&& next == (HaNode { supervised: false, ..self.asked_to_stop(token) })
        &&& dropped.token == crate::token::installed(self.shutdown, token)
        &&& dropped.close_admission == self.admission_closed_by(token)
        &&& dropped.reap_supervisor == self.supervised
    }

    /// What dropping the owner does: an internal shutdown within the default
    /// timeout, whose supervisor is reaped by the deadline in force.
    pub fn abandon(&mut self, now: u64, startup_token: StartupCancellationToken) -> (dropped:
        OwnerDrop)
        requires
            now + HA_SERVER_SHUTDOWN_TIMEOUT <= u64::MAX,
        ensures
            old(self).drops_to(
                ShutdownToken::of(
                    (now + HA_SERVER_SHUTDOWN_TIMEOUT) as u64,
                    startup_token,
                    crate::token::StartupCancellationAuthority::Internal,
                ),
                *final(self),
                dropped,
            ),
    {
        let token = ShutdownToken::new_internal(now, HA_SERVER_SHUTDOWN_TIMEOUT, startup_token);
        let shutdown = self.shutdown_with_token(token);
        OwnerDrop {
            token: shutdown.token,
            close_admission: shutdown.close_admission,
            reap_supervisor: shutdown.supervisor.is_ok(),
        }
    }
}

/// The owner of a live successor.
pub struct HaSuccessorNode {
    pub shutdown: ShutdownSignal,
    /// The predecessor that was supplied, if any.
    pub predecessor_binding: Option<HaPredecessor>,
    pub state: HaNodeSnapshot,
    /// A further snapshot can come.
    pub state_open: bool,
    /// The supervisor is still owned here.
    pub supervised: bool,
}

impl HaSuccessorNode {
    /// The owner of a live successor that was just started.
    pub fn started() -> (node: Self)
        ensures
            node.shutdown is None,
            node.predecessor_binding is None,
            node.state == HaNodeSnapshot::plain(HaNodeStatus::Restoring),
            node.state_open,
            node.supervised,
    {
        HaSuccessorNode {
            shutdown: None,
            predecessor_binding: None,
            state: HaNodeSnapshot::of(HaNodeStatus::Restoring),
            state_open: true,
            supervised: true,
        }
    }

    /// `predecessor` is not the one that was supplied before.
    pub open spec fn conflicts_with(self, predecessor: HaPredecessor) -> bool {
        self.predecessor_binding matches Some(bound) && !bound.same_as(predecessor)
    }

    /// Whether `predecessor` has yet to reach the supervisor, or an error
    /// where it contradicts the one that was supplied before.
    pub fn must_deliver(&self, predecessor: &HaPredecessor) -> (deliver: Result<bool, HaNodeError>)
        ensures
            match deliver {
                Ok(deliver) => !self.conflicts_with(*predecessor) && deliver
                    == self.predecessor_binding is None,
                Err(error) => self.conflicts_with(*predecessor) && error.is_startup(
                    "live successor predecessor binding changed after first observation"@,
                ),
            },
    {
        match &self.predecessor_binding {
            Some(bound) => if bound.same(predecessor) {
                Ok(false)
            } else {
                Err(
                    HaNodeError::Startup(
                        fail("live successor predecessor binding changed after first observation"),
                    ),
                )
            },
            None => Ok(true),
        }
    }

    /// `next` and `result` are what supplying the predecessor comes to.
    pub open spec fn binds_to(
        self,
        predecessor: HaPredecessor,
        delivered: bool,
        next: HaSuccessorNode,
        result: Result<(), HaNodeError>,
    ) -> bool {
        &&& if self.conflicts_with(predecessor) {
            result matches Err(error) && error.is_startup(
                "live successor predecessor binding changed after first observation"@,
            )
        } else if self.predecessor_binding is Some || delivered {
            result is Ok
        } else {
            result == Err::<(), HaNodeError>(
                match self.state.terminal_error {
                    Some(error) => error,
                    None => HaNodeError::Cancelled,
                },
            )
        }
        &&& next == if self.predecessor_binding is None && delivered {
            HaSuccessorNode { predecessor_binding: Some(predecessor), ..self }
        } else {
            self
        }
    }

    /// Supplies the predecessor. `delivered` says whether it reached the
    /// supervisor, which matters only the first time. A successor that has
    /// failed reports its failure, one that is gone a cancellation.
    pub fn bind_predecessor(&mut self, predecessor: HaPredecessor, delivered: bool) -> (result: Result<
        (),
        HaNodeError,
    >)
        ensures
            old(self).binds_to(predecessor, delivered, *final(self), result),
    {
        match self.must_deliver(&predecessor) {
            Err(error) => {
                return Err(error);
            },
            Ok(false) => {
                return Ok(());
            },
            Ok(true) => {},
        }
        if !delivered {
            return Err(
                match &self.state.terminal_error {
                    Some(error) => error.clone(),
                    None => HaNodeError::Cancelled,
                },
            );
        }
        self.predecessor_binding = Some(predecessor);
        Ok(())
    }

    /// What a caller that waits for readiness is told now.
    pub fn ready(&self) -> (answer: Option<Result<RhizaHandle, HaNodeError>>)
        ensures
            readiness_answer(self.shutdown, self.state, self.state_open, answer),
    {
        wait_for_ha_ready(&self.shutdown, &self.state, self.state_open)
    }

    pub fn status(&self) -> (status: HaNodeStatus)
        ensures
            status == self.state.status,
    {
        self.state.status
    }

    /// Caught up with a predecessor that has not stopped.
    pub fn is_prestop_ready(&self) -> (ready: bool)
        ensures
            ready == (self.state.status == HaNodeStatus::PreStopReady),
    {
        self.state.status == HaNodeStatus::PreStopReady
    }

    /// Ready, and nobody asked for a shutdown.
    pub fn is_ready(&self) -> (ready: bool)
        ensures
            ready == (self.shutdown is None && self.state.status == HaNodeStatus::Ready),
    {
        self.shutdown.is_none() && self.state.status == HaNodeStatus::Ready
    }

    /// What a caller that monitors the node is told now.
    pub fn monitor(&self) -> (answer: Option<Result<(), HaNodeError>>)
        ensures
            monitor_answer(self.state, self.state_open, answer),
    {
        monitor_ha_state(&self.state, self.state_open)
    }

    /// `next` and `shutdown` are what a shutdown with `token` makes of this
    /// owner. Without a supervisor it fails at once.
    pub open spec fn shuts_down_to(
        self,
        token: ShutdownToken,
        next: HaSuccessorNode,
        shutdown: OwnerShutdown,
    ) -> bool {
        &&& next == (HaSuccessorNode {
            shutdown: Some(crate::token::installed(self.shutdown, token)),
            supervised: false,
            ..self
        })
        &&& shutdown.token == crate::token::installed(self.shutdown, token)
        &&& shutdown.close_admission is None
        &&& if self.supervised {
            shutdown.supervisor is Ok
        } else {
            shutdown.supervisor matches Err(error) && error.is_supervisor(
                "live successor supervisor ownership missing during shutdown"@,
            )
        }
    }

    /// Shuts down with the default timeout.
    pub fn shutdown(&mut self, now: u64, startup_token: StartupCancellationToken) -> (shutdown:
        OwnerShutdown)
        requires
            now + HA_SERVER_SHUTDOWN_TIMEOUT <= u64::MAX,
        ensures
            old(self).shuts_down_to(
                ShutdownToken::of(
                    (now + HA_SERVER_SHUTDOWN_TIMEOUT) as u64,
                    startup_token,
                    crate::token::StartupCancellationAuthority::External,
                ),
                *final(self),
                shutdown,
            ),
    {
        self.shutdown_with_timeout(now, HA_SERVER_SHUTDOWN_TIMEOUT, startup_token)
    }

    /// Shuts down within `timeout`.
    pub fn shutdown_with_timeout(
        &mut self,
        now: u64,
        timeout: u64,
        startup_token: StartupCancellationToken,
    ) -> (shutdown: OwnerShutdown)
        requires
            now + timeout <= u64::MAX,
        ensures
            old(self).shuts_down_to(
                ShutdownToken::of(
                    (now + timeout) as u64,
                    startup_token,
                    crate::token::StartupCancellationAuthority::External,
                ),
                *final(self),
                shutdown,
            ),
    {
        self.shutdown_with_token(ShutdownToken::new(now, timeout, startup_token))
    }

    /// Shuts down with this very token, unless one in force supersedes it.
    pub fn shutdown_with_token(&mut self, token: ShutdownToken) -> (shutdown: OwnerShutdown)
        ensures
            old(self).shuts_down_to(token, *final(self), shutdown),
    {
        let request = request_ha_shutdown(&mut self.shutdown, token);
        let supervisor = if self.supervised {
            Ok(())
        } else {
            Err(
                HaNodeError::Supervisor(
                    "live successor supervisor ownership missing during shutdown".to_owned(),
                ),
            )
        };
        self.supervised = false;
        OwnerShutdown { token: request.token, close_admission: None, supervisor }
    }

    /// `next` and `dropped` are what dropping this owner with `token` makes of
    /// it.
    pub open spec fn drops_to(
        self,
        token: ShutdownToken,
        next: HaSuccessorNode,
        dropped: OwnerDrop,
    ) -> bool {
        &&& next == (HaSuccessorNode {
            shutdown: Some(crate::token::installed(self.shutdown, token)),
            supervised: false,
            ..self
        })
        &&& dropped.token == crate::token::installed(self.shutdown, token)
        &&& dropped.close_admission is None
        &&& dropped.reap_supervisor == self.supervised
    }

    /// What dropping the owner does: an internal shutdown within the default
    /// timeout, whose supervisor is reaped by the deadline in force.
    pub fn abandon(&mut self, now: u64, startup_token: StartupCancellationToken) -> (dropped:
        OwnerDrop)
        requires
            now + HA_SERVER_SHUTDOWN_TIMEOUT <= u64::MAX,
        ensures
            old(self).drops_to(
                ShutdownToken::of(
                    (now + HA_SERVER_SHUTDOWN_TIMEOUT) as u64,
                    startup_token,
                    crate::token::StartupCancellationAuthority::Internal,
                ),
                *final(self),
                dropped,
            ),
    {
        let token = ShutdownToken::new_internal(now, HA_SERVER_SHUTDOWN_TIMEOUT, startup_token);
        let shutdown = self.shutdown_with_token(token);
        OwnerDrop {
            token: shutdown.token,
            close_admission: None,
            reap_supervisor: shutdown.supervisor.is_ok(),
        }
    }
}

/// Once a shutdown was asked for, no caller is ever told that the node is
/// ready, whatever it publishes.
pub proof fn law_no_readiness_after_shutdown(
    node: HaNode,
    token: ShutdownToken,
    answer: Option<Result<RhizaHandle, HaNodeError>>,
)
    requires
        readiness_answer(
            node.asked_to_stop(token).shutdown,
            node.asked_to_stop(token).state,
            node.asked_to_stop(token).state_open,
            answer,
        ),
    ensures
        answer matches Some(Err(_)),
{
}

/// A caller is given a handle only by a node that publishes readiness with
/// that handle, without a failure and without a requested shutdown.
pub proof fn law_handle_only_from_a_ready_node(
    shutdown: ShutdownSignal,
    snapshot: HaNodeSnapshot,
    state_open: bool,
    answer: Option<Result<RhizaHandle, HaNodeError>>,
)
    requires
        readiness_answer(shutdown, snapshot, state_open, answer),
    ensures
        answer matches Some(Ok(handle)) ==> shutdown is None && snapshot.status
            == HaNodeStatus::Ready && snapshot.handle == Some(handle) && snapshot.terminal_error
            is None,
{
}

/// A published failure is what every waiter is told, before anything else.
pub proof fn law_failure_reaches_every_waiter(
    shutdown: ShutdownSignal,
    error: HaNodeError,
    state_open: bool,
    ready: Option<Result<RhizaHandle, HaNodeError>>,
    monitored: Option<Result<(), HaNodeError>>,
)
    requires
        readiness_answer(shutdown, HaNodeSnapshot::failure(error), state_open, ready),
        monitor_answer(HaNodeSnapshot::failure(error), state_open, monitored),
    ensures
        ready == Some(Err::<RhizaHandle, HaNodeError>(error)),
        monitored == Some(Err::<(), HaNodeError>(error)),
{
}

/// An owner that passes its token on hands the supervisor and startup exactly
/// the token in force, and its recorder and supervisor are told once and for all.
pub proof fn law_owner_passes_on_the_token_in_force(node: HaNode, token: ShutdownToken)
    requires
        node.startup.cancellation is None || node.startup.cancellation == node.shutdown,
    ensures
        node.asked_to_stop(token).startup.cancellation == node.asked_to_stop(token).shutdown,
        node.asked_to_stop(token).recorder_shutdown,
        node.asked_to_stop(token).asked_to_stop(token) == node.asked_to_stop(token),
{
}

/// An owner accepts one predecessor, as often as it is offered, and no other
/// after it.
pub proof fn law_one_predecessor_is_accepted(
    before: HaSuccessorNode,
    first: HaPredecessor,
    first_delivered: bool,
    bound: HaSuccessorNode,
    first_result: Result<(), HaNodeError>,
    second: HaPredecessor,
    second_delivered: bool,
    after: HaSuccessorNode,
    second_result: Result<(), HaNodeError>,
)
    requires
        before.binds_to(first, first_delivered, bound, first_result),
        bound.binds_to(second, second_delivered, after, second_result),
        first_result is Ok,
    ensures
        bound.predecessor_binding is Some,
        bound.predecessor_binding->0.same_as(first),
        second_result is Ok <==> bound.predecessor_binding->0.same_as(second),
        after == bound,
{
}

/// What a caller that waits for readiness is told: a failure before anything
/// else, then a requested shutdown as a cancellation, then readiness with its
/// handle, and a node that is going or gone as a cancellation too. It waits on
/// in every other case, and only then.
pub proof fn law_a_caller_that_waits_is_told_as_soon_as_it_can_be(
    shutdown: ShutdownSignal,
    snapshot: HaNodeSnapshot,
    state_open: bool,
    answer: Option<Result<RhizaHandle, HaNodeError>>,
)
    requires
        readiness_answer(shutdown, snapshot, state_open, answer),
    ensures
        snapshot.terminal_error matches Some(error) ==> answer == Some(
            Err::<RhizaHandle, HaNodeError>(error),
        ),
        snapshot.terminal_error is None && shutdown is Some ==> answer == Some(
            Err::<RhizaHandle, HaNodeError>(HaNodeError::Cancelled),
        ),
        snapshot.terminal_error is None && shutdown is None && snapshot.status
            == HaNodeStatus::Ready ==> match snapshot.handle {
            Some(handle) => answer == Some(Ok::<RhizaHandle, HaNodeError>(handle)),
            None => answer matches Some(Err(error)) && error.is_startup(
                "ready HA node has no application handle"@,
            ),
        },
        snapshot.terminal_error is None && shutdown is None && (snapshot.status
            == HaNodeStatus::ShuttingDown || snapshot.status == HaNodeStatus::Stopped || (
        snapshot.status != HaNodeStatus::Ready && !state_open)) ==> answer == Some(
            Err::<RhizaHandle, HaNodeError>(HaNodeError::Cancelled),
        ),
        answer is None <==> snapshot.terminal_error is None && shutdown is None && state_open
            && snapshot.status != HaNodeStatus::Ready && snapshot.status
            != HaNodeStatus::ShuttingDown && snapshot.status != HaNodeStatus::Stopped,
{
}

/// What a caller that monitors the node is told: a failure before anything
/// else, a stop as a success, and the loss of the state as a failure of the
/// supervisor. It waits on in every other case, and only then.
pub proof fn law_a_caller_that_monitors_is_told_how_the_node_ended(
    snapshot: HaNodeSnapshot,
    state_open: bool,
    answer: Option<Result<(), HaNodeError>>,
)
    requires
        monitor_answer(snapshot, state_open, answer),
    ensures
        snapshot.terminal_error matches Some(error) ==> answer == Some(
            Err::<(), HaNodeError>(error),
        ),
        snapshot.terminal_error is None && snapshot.status == HaNodeStatus::Stopped ==> (
        answer matches Some(told) && told is Ok),
        snapshot.terminal_error is None && snapshot.status != HaNodeStatus::Stopped && !state_open
            ==> (answer matches Some(Err(error)) && error.is_supervisor(
            "HA node monitor state channel closed"@,
        )),
        answer is None <==> snapshot.terminal_error is None && snapshot.status
            != HaNodeStatus::Stopped && state_open,
{
}

/// What is published of a node: a status says nothing else, a failure is a
/// failed node with that very error, and an end is a stop or that failure.
pub proof fn law_a_snapshot_says_what_it_is_made_of(
    status: HaNodeStatus,
    error: HaNodeError,
    result: Result<(), HaNodeError>,
)
    ensures
        HaNodeSnapshot::plain(status).status == status,
        HaNodeSnapshot::plain(status).handle is None,
        HaNodeSnapshot::plain(status).terminal_error is None,
        HaNodeSnapshot::failure(error).status == HaNodeStatus::Failed,
        HaNodeSnapshot::failure(error).handle is None,
        HaNodeSnapshot::failure(error).terminal_error == Some(error),
        result is Ok ==> HaNodeSnapshot::end(result).status == HaNodeStatus::Stopped
            && HaNodeSnapshot::end(result).handle is None && HaNodeSnapshot::end(
            result,
        ).terminal_error is None,
        result matches Err(failure) ==> HaNodeSnapshot::end(result).status == HaNodeStatus::Failed
            && HaNodeSnapshot::end(result).handle is None && HaNodeSnapshot::end(
            result,
        ).terminal_error == Some(failure),
{
}

/// A shutdown by the owner of a node: the token in force is the requested one
/// unless the one before it stands, and reaches the signal and startup; the
/// recorder is told; admission closes exactly where the request was installed;
/// the supervisor is given out once; and what was published stays.
pub proof fn law_an_owner_shuts_its_node_down_once(
    node: HaNode,
    token: ShutdownToken,
    next: HaNode,
    shutdown: OwnerShutdown,
)
    requires
        node.shuts_down_to(token, next, shutdown),
    ensures
        next.shutdown == Some(shutdown.token),
        node.shutdown is None ==> shutdown.token == token,
        node.shutdown matches Some(before) ==> shutdown.token == if token.spec_replaces(before) {
            token
        } else {
            before
        },
        node.startup.cancellation is None ==> next.startup.cancellation == Some(shutdown.token),
        node.startup.cancellation matches Some(before) ==> next.startup.cancellation == Some(
            if shutdown.token.spec_replaces(before) {
                shutdown.token
            } else {
                before
            },
        ),
        next.recorder_shutdown,
        !next.supervised,
        next.state == node.state && next.state_open == node.state_open,
        shutdown.close_admission == if node.shutdown is None || token.spec_replaces(
            node.shutdown->0,
        ) {
            node.state.handle
        } else {
            None
        },
        shutdown.supervisor is Ok <==> node.supervised,
        shutdown.supervisor matches Err(error) ==> error.is_supervisor(
            "HA node supervisor ownership missing during shutdown"@,
        ),
{
}

/// An owner that is dropped shuts its node down as well, and leaves a
/// supervisor to reap exactly where it still had one.
pub proof fn law_a_dropped_owner_shuts_its_node_down(
    node: HaNode,
    token: ShutdownToken,
    next: HaNode,
    dropped: OwnerDrop,
    shutdown: OwnerShutdown,
)
    requires
        node.drops_to(token, next, dropped),
        shutdown.token == dropped.token,
        shutdown.close_admission == dropped.close_admission,
        shutdown.supervisor is Ok <==> dropped.reap_supervisor,
        shutdown.supervisor matches Err(error) ==> error.is_supervisor(
            "HA node supervisor ownership missing during shutdown"@,
        ),
    ensures
        node.shuts_down_to(token, next, shutdown),
        dropped.reap_supervisor == node.supervised,
{
}

/// A shutdown by the owner of a live successor: the token in force is the
/// requested one unless the one before it stands; there is no admission to
/// close; the supervisor is given out once; and all else stays. One that is
/// dropped shuts down as well, and leaves a supervisor to reap exactly where it
/// still had one.
pub proof fn law_an_owner_shuts_its_successor_down_once(
    node: HaSuccessorNode,
    token: ShutdownToken,
    next: HaSuccessorNode,
    shutdown: OwnerShutdown,
    after: HaSuccessorNode,
    dropped: OwnerDrop,
)
    requires
        node.shuts_down_to(token, next, shutdown),
        node.drops_to(token, after, dropped),
    ensures
        after == next,
        dropped.token == shutdown.token,
        dropped.close_admission is None && shutdown.close_admission is None,
        dropped.reap_supervisor == node.supervised,
        next.shutdown == Some(shutdown.token),
        node.shutdown is None ==> shutdown.token == token,
        node.shutdown matches Some(before) ==> shutdown.token == if token.spec_replaces(before) {
            token
        } else {
            before
        },
        !next.supervised,
        next.state == node.state && next.state_open == node.state_open && next.predecessor_binding
            == node.predecessor_binding,
        shutdown.supervisor is Ok <==> node.supervised,
        shutdown.supervisor matches Err(error) ==> error.is_supervisor(
            "live successor supervisor ownership missing during shutdown"@,
        ),
{
}

/// A predecessor that is named to a live successor: another than before is
/// refused, the same is accepted again without being delivered, and the first
/// is remembered exactly where it reached the supervisor. Where it did not, the
/// successor's own failure is told, or a cancellation.
pub proof fn law_a_predecessor_is_remembered_once_it_was_delivered(
    node: HaSuccessorNode,
    predecessor: HaPredecessor,
    delivered: bool,
    next: HaSuccessorNode,
    result: Result<(), HaNodeError>,
)
    requires
        node.binds_to(predecessor, delivered, next, result),
    ensures
        next.shutdown == node.shutdown && next.state == node.state && next.state_open
            == node.state_open && next.supervised == node.supervised,
        node.predecessor_binding matches Some(bound) ==> next.predecessor_binding
            == node.predecessor_binding && (result is Ok <==> bound.same_as(predecessor)) && (
        result matches Err(error) ==> error.is_startup(
            "live successor predecessor binding changed after first observation"@,
        )),
        node.predecessor_binding is None && delivered ==> result is Ok && next.predecessor_binding
            == Some(predecessor),
        node.predecessor_binding is None && !delivered ==> next.predecessor_binding is None
            && match node.state.terminal_error {
            Some(error) => result == Err::<(), HaNodeError>(error),
            None => result == Err::<(), HaNodeError>(HaNodeError::Cancelled),
        },
{
}

/// A node is ready exactly while it publishes that it is and no shutdown was
/// asked for; a node that was just started is not.
pub proof fn law_a_node_is_ready_while_it_says_so(
    started: HaNode,
    node: HaNode,
    first: bool,
    ready: bool,
    status: HaNodeStatus,
)
    requires
        call_ensures(HaNode::started, (), started),
        call_ensures(HaNode::is_ready, (&started,), first),
        call_ensures(HaNode::is_ready, (&node,), ready),
        call_ensures(HaNode::status, (&node,), status),
    ensures
        !first,
        started.state.status is Starting,
        ready <==> status is Ready && node.shutdown is None,
        status == node.state.status,
{
}

/// A successor is ready exactly while it publishes that it is and no shutdown
/// was asked for. It is ready for its predecessor's Stop exactly while it
/// publishes that, and never both.
pub proof fn law_a_successor_is_ready_while_it_says_so(
    started: HaSuccessorNode,
    node: HaSuccessorNode,
    ready: bool,
    prestop: bool,
    status: HaNodeStatus,
)
    requires
        call_ensures(HaSuccessorNode::started, (), started),
        call_ensures(HaSuccessorNode::is_ready, (&node,), ready),
        call_ensures(HaSuccessorNode::is_prestop_ready, (&node,), prestop),
        call_ensures(HaSuccessorNode::status, (&node,), status),
    ensures
        started.state.status is Restoring,
        started.predecessor_binding is None,
        started.shutdown is None,
        ready <==> status is Ready && node.shutdown is None,
        prestop <==> status is PreStopReady,
        !(ready && prestop),
        status == node.state.status,
{
}

/// A predecessor is delivered exactly where none was bound before; one that is
/// not the one that was bound is refused.
pub proof fn law_a_predecessor_is_delivered_once(
    node: HaSuccessorNode,
    predecessor: HaPredecessor,
    deliver: Result<bool, HaNodeError>,
)
    requires
        call_ensures(HaSuccessorNode::must_deliver, (&node, &predecessor), deliver),
    ensures
        node.predecessor_binding is None <==> deliver == Ok::<bool, HaNodeError>(true),
        node.predecessor_binding matches Some(bound) ==> (bound.same_as(predecessor) <==> deliver
            == Ok::<bool, HaNodeError>(false)),
        deliver matches Err(error) ==> (error matches HaNodeError::Startup(
            crate::error::HaStartupError::Source(told),
        ) && told@ == "live successor predecessor binding changed after first observation"@),
{
}

/// What a caller is told depends on what the node publishes and on whether it
/// was asked to stop, and on nothing else of it: a node and a successor that
/// publish the same tell the same.
pub proof fn law_owners_tell_what_their_nodes_publish(
    node: HaNode,
    successor: HaSuccessorNode,
    ready: Option<Result<RhizaHandle, HaNodeError>>,
    successor_ready: Option<Result<RhizaHandle, HaNodeError>>,
    monitored: Option<Result<(), HaNodeError>>,
    successor_monitored: Option<Result<(), HaNodeError>>,
)
    requires
        call_ensures(HaNode::ready, (&node,), ready),
        call_ensures(HaSuccessorNode::ready, (&successor,), successor_ready),
        call_ensures(HaNode::monitor, (&node,), monitored),
        call_ensures(HaSuccessorNode::monitor, (&successor,), successor_monitored),
    ensures
        readiness_answer(node.shutdown, node.state, node.state_open, ready),
        readiness_answer(
            successor.shutdown,
            successor.state,
            successor.state_open,
            successor_ready,
        ),
        monitor_answer(node.state, node.state_open, monitored),
        monitor_answer(successor.state, successor.state_open, successor_monitored),
{
}

/// The functions that wait for a node tell what a caller of the node is told.
pub proof fn law_waiters_tell_what_owners_tell(
    shutdown: ShutdownSignal,
    snapshot: HaNodeSnapshot,
    state_open: bool,
    ready: Option<Result<RhizaHandle, HaNodeError>>,
    monitored: Option<Result<(), HaNodeError>>,
)
    requires
        call_ensures(wait_for_ha_ready, (&shutdown, &snapshot, state_open), ready),
        call_ensures(monitor_ha_state, (&snapshot, state_open), monitored),
    ensures
        readiness_answer(shutdown, snapshot, state_open, ready),
        monitor_answer(snapshot, state_open, monitored),
{
}

} // verus!
