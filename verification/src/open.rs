//! Opening the runtime of a prepared node.
use crate::cancellation::{complete_attempt, OpenAttempt, StartupExit};
use crate::config::{Membership, NodeConfig};
use crate::error::{fail, HaNodeError, HaStartupError, NodeError};
use crate::log::LogAnchor;
use crate::text::{joined, joined3};
use crate::token::{shutdown_deadline, ShutdownSignal, ShutdownToken, StartupIoContext};
use vstd::prelude::*;

verus! {

/// How long startup waits before it tries an unavailable quorum again.
pub const STARTUP_RETRY_DELAY: u64 = 100_000_000;

/// Why a prepared node could not be opened.
#[derive(Debug)]
pub enum HaOpenError {
    Startup { error: HaStartupError, cleanup: Result<(), HaNodeError> },
    Cancelled { deadline: u64, cleanup: Result<(), HaNodeError> },
}

impl HaOpenError {
    /// Startup failed and left nothing to clean up.
    pub open spec fn of_startup(error: HaStartupError) -> HaOpenError {
        HaOpenError::Startup { error, cleanup: Ok(()) }
    }

    /// A shutdown cancelled startup, which left nothing to clean up.
    pub open spec fn of_cancellation(deadline: u64) -> HaOpenError {
        HaOpenError::Cancelled { deadline, cleanup: Ok(()) }
    }
}

impl From<HaStartupError> for HaOpenError {
    fn from(error: HaStartupError) -> (open: Self) {
        HaOpenError::Startup { error, cleanup: Ok(()) }
    }
}

impl vstd::std_specs::convert::FromSpecImpl<HaStartupError> for HaOpenError {
    open spec fn obeys_from_spec() -> bool {
        true
    }

    open spec fn from_spec(error: HaStartupError) -> HaOpenError {
        HaOpenError::of_startup(error)
    }
}

/// Fails where a shutdown was requested.
pub fn require_startup_active(signal: &ShutdownSignal) -> (result: Result<(), HaOpenError>)
    ensures
        result == match *signal {
            Some(token) => Err::<(), HaOpenError>(
                HaOpenError::of_cancellation(token.spec_deadline()),
            ),
            None => Ok::<(), HaOpenError>(()),
        },
{
    match signal {
        Some(token) => Err(HaOpenError::Cancelled { deadline: token.deadline(), cleanup: Ok(()) }),
        None => Ok(()),
    }
}

/// Where an attempt that is retried stands. `reported` is the failure that the
/// operator was last told the attempt waits on, if any.
pub enum RetryPhase {
    /// The next attempt starts unless a shutdown was requested.
    Ready { reported: Option<String> },
    Attempting { reported: Option<String> },
    /// A shutdown cancelled the attempt, which may still end by `deadline`.
    CancellingAttempt { signal: ShutdownSignal, deadline: u64 },
    /// The quorum was not there; the next attempt waits.
    BackingOff { reported: Option<String> },
    Done(Result<(), HaOpenError>),
}

/// What an attempt that is retried can see happen.
pub enum RetryEvent {
    /// The shutdown in force when an attempt or a pause was about to begin.
    AboutToBegin { signal: ShutdownSignal },
    /// The shutdown signal changed, or its sender is gone. `finished` is how
    /// the attempt had ended by then, if it had.
    ShutdownChanged {
        closed: bool,
        signal: ShutdownSignal,
        now: u64,
        finished: Option<StartupExit<NodeError>>,
        startup: StartupIoContext,
    },
    /// The attempt ended, with the shutdown then in force.
    AttemptEnded {
        exit: StartupExit<NodeError>,
        signal: ShutdownSignal,
        startup: StartupIoContext,
    },
    /// The attempt did not end by the deadline.
    AttemptDeadline { stage: String },
    DelayElapsed,
}

/// What an attempt that is retried asks of its caller, in order.
#[derive(PartialEq, Eq)]
pub enum OpenEffect {
    CancelStartup(ShutdownToken),
    CancelStartupAt(u64),
    /// Cancel the operations of the runtime.
    CancelRuntime,
    /// Let the local recorder take part.
    ActivateRecorder,
    /// The checkpoint coordinator owes a successor's baseline.
    RequireBaseline,
    /// Tell the checkpoint coordinator how far the runtime has recovered.
    NoteRecovered(u64),
    /// Tell the operator this.
    Report(String),
}

/// What the operator is told of an attempt that waits because of `message`.
pub open spec fn waiting_report(message: Seq<char>) -> Seq<char> {
    "runtime startup waiting for recorder quorum: "@ + message
}

/// How startup is cancelled for the shutdown in force.
pub open spec fn open_cancels(signal: ShutdownSignal, now: u64) -> OpenEffect {
    match signal {
        Some(token) => OpenEffect::CancelStartup(token),
        None => OpenEffect::CancelStartupAt(now),
    }
}

/// The runtime that an ended attempt left behind is cancelled.
pub open spec fn runtime_left(exit: StartupExit<NodeError>) -> Seq<OpenEffect> {
    if exit matches StartupExit::Returned(Ok(_)) {
        seq![OpenEffect::CancelRuntime]
    } else {
        Seq::empty()
    }
}

impl RetryPhase {
    /// The attempts are over because of a requested shutdown.
    pub open spec fn completes(
        attempt: OpenAttempt,
        exit: StartupExit<NodeError>,
        startup: StartupIoContext,
        signal: ShutdownSignal,
        deadline: u64,
        next: RetryPhase,
        effects: Seq<OpenEffect>,
    ) -> bool {
        &&& next matches RetryPhase::Done(Err(error)) && crate::cancellation::attempt_outcome(
            attempt,
            exit,
            startup,
            signal,
            deadline,
            error,
        )
        &&& effects == runtime_left(exit)
    }

    /// Nothing is asked for and the phase becomes `phase`.
    pub open spec fn moves(
        phase: RetryPhase,
        next: RetryPhase,
        effects: Seq<OpenEffect>,
    ) -> bool {
        next == phase && effects == Seq::<OpenEffect>::empty()
    }

    /// An attempt that failed with `message` is tried again. The operator is
    /// told so of opening the runtime, unless it was what they were told last.
    pub open spec fn waits(
        attempt: OpenAttempt,
        reported: Option<String>,
        message: String,
        next: RetryPhase,
        effects: Seq<OpenEffect>,
    ) -> bool {
        if attempt != OpenAttempt::RuntimeOpen || (reported matches Some(last) && last@
            == message@) {
            Self::moves(RetryPhase::BackingOff { reported }, next, effects)
        } else {
            &&& next == (RetryPhase::BackingOff { reported: Some(message) })
            &&& effects.len() == 1
            &&& effects[0] matches OpenEffect::Report(text) && text@ == waiting_report(message@)
        }
    }

    /// What the end of an attempt does where no shutdown was requested: only
    /// an unavailable quorum or a lost race is tried again.
    pub open spec fn attempt_ends(
        attempt: OpenAttempt,
        reported: Option<String>,
        exit: StartupExit<NodeError>,
        next: RetryPhase,
        effects: Seq<OpenEffect>,
    ) -> bool {
        match exit {
            StartupExit::Failed(failure) => {
                &&& next matches RetryPhase::Done(Err(HaOpenError::Startup { error, cleanup }))
                    && cleanup == Ok::<(), HaNodeError>(()) && error.is_source(
                    attempt.spec_task() + " failed: "@ + failure@,
                )
                &&& effects == Seq::<OpenEffect>::empty()
            },
            StartupExit::Returned(Ok(_)) => Self::moves(RetryPhase::Done(Ok(())), next, effects),
            StartupExit::Returned(Err(error)) => if error.spec_is_transient() {
                Self::waits(attempt, reported, error.message, next, effects)
            } else {
                Self::moves(
                    RetryPhase::Done(
                        Err(HaOpenError::of_startup(HaStartupError::Source(error.message))),
                    ),
                    next,
                    effects,
                )
            },
        }
    }

    /// `next` and `effects` are what `event` makes of this phase.
    pub open spec fn steps_to(
        self,
        attempt: OpenAttempt,
        event: RetryEvent,
        next: RetryPhase,
        effects: Seq<OpenEffect>,
    ) -> bool {
        match (self, event) {
            (RetryPhase::Ready { reported }, RetryEvent::AboutToBegin { signal }) => match signal {
                Some(token) => Self::moves(
                    RetryPhase::Done(Err(HaOpenError::of_cancellation(token.spec_deadline()))),
                    next,
                    effects,
                ),
                None => Self::moves(RetryPhase::Attempting { reported }, next, effects),
            },
            (
                RetryPhase::Attempting { .. },
                RetryEvent::ShutdownChanged { closed, signal, now, finished, startup },
            ) => if !closed && signal is None {
                Self::moves(self, next, effects)
            } else {
                match finished {
                    Some(exit) => Self::completes(
                        attempt,
                        exit,
                        startup,
                        signal,
                        crate::token::deadline_of(signal, now),
                        next,
                        effects,
                    ),
                    None => {
                        &&& next == (RetryPhase::CancellingAttempt {
                            signal,
                            deadline: crate::token::deadline_of(signal, now),
                        })
                        &&& effects == if attempt == OpenAttempt::RecorderRehydration {
                            seq![open_cancels(signal, now), OpenEffect::CancelRuntime]
                        } else {
                            seq![open_cancels(signal, now)]
                        }
                    },
                }
            },
            (
                RetryPhase::Attempting { reported },
                RetryEvent::AttemptEnded { exit, signal, startup },
            ) => match signal {
                Some(token) => Self::completes(
                    attempt,
                    exit,
                    startup,
                    signal,
                    token.spec_deadline(),
                    next,
                    effects,
                ),
                None => Self::attempt_ends(attempt, reported, exit, next, effects),
            },
            (
                RetryPhase::CancellingAttempt { signal, deadline },
                RetryEvent::AttemptEnded { exit, startup, .. },
            ) => Self::completes(attempt, exit, startup, signal, deadline, next, effects),
            (
                RetryPhase::CancellingAttempt { deadline, .. },
                RetryEvent::AttemptDeadline { stage },
            ) => Self::moves(
                RetryPhase::Done(
                    Err(
                        HaOpenError::Cancelled {
                            deadline,
                            cleanup: Err(HaNodeError::StartupIoDeadlineExceeded { stage }),
                        },
                    ),
                ),
                next,
                effects,
            ),
            (RetryPhase::BackingOff { .. }, RetryEvent::AboutToBegin { signal }) => match signal {
                Some(token) => Self::moves(
                    RetryPhase::Done(Err(HaOpenError::of_cancellation(token.spec_deadline()))),
                    next,
                    effects,
                ),
                None => Self::moves(self, next, effects),
            },
            (
                RetryPhase::BackingOff { reported },
                RetryEvent::ShutdownChanged { closed, signal, now, .. },
            ) => if closed || signal is Some {
                Self::moves(
                    RetryPhase::Done(
                        Err(
                            HaOpenError::of_cancellation(crate::token::deadline_of(signal, now)),
                        ),
                    ),
                    next,
                    effects,
                )
            } else {
                Self::moves(RetryPhase::Ready { reported }, next, effects)
            },
            (RetryPhase::BackingOff { reported }, RetryEvent::DelayElapsed) => Self::moves(
                RetryPhase::Ready { reported },
                next,
                effects,
            ),
            _ => Self::moves(self, next, effects),
        }
    }
}

fn complete(
    attempt: OpenAttempt,
    exit: StartupExit<NodeError>,
    startup: &StartupIoContext,
    signal: &ShutdownSignal,
    deadline: u64,
) -> (step: (RetryPhase, Vec<OpenEffect>))
    ensures
        RetryPhase::completes(attempt, exit, *startup, *signal, deadline, step.0, step.1@),
{
    let completed = match signal {
        Some(token) => complete_attempt(attempt, exit, startup, Some(token), deadline),
        None => complete_attempt(attempt, exit, startup, None, deadline),
    };
    let mut effects: Vec<OpenEffect> = Vec::new();
    if completed.cancel_runtime {
        effects.push(OpenEffect::CancelRuntime);
    }
    assert(effects@ =~= runtime_left(exit));
    (RetryPhase::Done(Err(completed.error)), effects)
}

/// Lets an attempt that failed with `message` wait, and tells the operator
/// where that is news.
fn wait_to_retry(attempt: OpenAttempt, reported: Option<String>, message: String) -> (step: (
    RetryPhase,
    Vec<OpenEffect>,
))
    ensures
        RetryPhase::waits(attempt, reported, message, step.0, step.1@),
{
    let mut effects: Vec<OpenEffect> = Vec::new();
    let known = match &reported {
        Some(last) => *last == message,
        None => false,
    };
    if attempt != OpenAttempt::RuntimeOpen || known {
        return (RetryPhase::BackingOff { reported }, effects);
    }
    effects.push(
        OpenEffect::Report(
            joined("runtime startup waiting for recorder quorum: ", message.as_str()),
        ),
    );
    (RetryPhase::BackingOff { reported: Some(message) }, effects)
}

/// Advances an attempt that is retried by one event. An event that it does
/// not wait for leaves it as it is.
pub fn retry_open_attempt(attempt: OpenAttempt, phase: RetryPhase, event: RetryEvent) -> (step: (
    RetryPhase,
    Vec<OpenEffect>,
))
    ensures
        phase.steps_to(attempt, event, step.0, step.1@),
{
    match (phase, event) {
        (RetryPhase::Ready { reported }, RetryEvent::AboutToBegin { signal }) => {
            match require_startup_active(&signal) {
                Err(error) => (RetryPhase::Done(Err(error)), Vec::new()),
                Ok(()) => (RetryPhase::Attempting { reported }, Vec::new()),
            }
        },
        (
            RetryPhase::Attempting { reported },
            RetryEvent::ShutdownChanged { closed, signal, now, finished, startup },
        ) => {
            if !closed && signal.is_none() {
                return (RetryPhase::Attempting { reported }, Vec::new());
            }
            let deadline: u64 = shutdown_deadline(&signal, now);
            match finished {
                Some(exit) => complete(attempt, exit, &startup, &signal, deadline),
                None => {
                    let mut effects: Vec<OpenEffect> = Vec::new();
                    effects.push(
                        match signal {
                            Some(token) => OpenEffect::CancelStartup(token),
                            None => OpenEffect::CancelStartupAt(now),
                        },
                    );
                    if attempt == OpenAttempt::RecorderRehydration {
                        effects.push(OpenEffect::CancelRuntime);
                    }
                    assert(effects@ =~= if attempt == OpenAttempt::RecorderRehydration {
                        seq![open_cancels(signal, now), OpenEffect::CancelRuntime]
                    } else {
                        seq![open_cancels(signal, now)]
                    });
                    (RetryPhase::CancellingAttempt { signal, deadline }, effects)
                },
            }
        },
        (
            RetryPhase::Attempting { reported },
            RetryEvent::AttemptEnded { exit, signal, startup },
        ) => {
            match signal {
                Some(token) => complete(attempt, exit, &startup, &signal, token.deadline()),
                None => match exit {
                    StartupExit::Failed(failure) => {
                        let message = joined3(attempt.task(), " failed: ", failure.as_str());
                        (
                            RetryPhase::Done(
                                Err(
                                    HaOpenError::Startup {
                                        error: HaStartupError::Source(message),
                                        cleanup: Ok(()),
                                    },
                                ),
                            ),
                            Vec::new(),
                        )
                    },
                    StartupExit::Returned(Ok(())) => (RetryPhase::Done(Ok(())), Vec::new()),
                    StartupExit::Returned(Err(error)) => if error.is_transient() {
                        wait_to_retry(attempt, reported, error.message)
                    } else {
                        (
                            RetryPhase::Done(
                                Err(
                                    HaOpenError::Startup {
                                        error: HaStartupError::Source(error.message),
                                        cleanup: Ok(()),
                                    },
                                ),
                            ),
                            Vec::new(),
                        )
                    },
                },
            }
        },
        (
            RetryPhase::CancellingAttempt { signal, deadline },
            RetryEvent::AttemptEnded { exit, startup, .. },
        ) => complete(attempt, exit, &startup, &signal, deadline),
        (
            RetryPhase::CancellingAttempt { signal: _, deadline },
            RetryEvent::AttemptDeadline { stage },
        ) => (
            RetryPhase::Done(
                Err(
                    HaOpenError::Cancelled {
                        deadline,
                        cleanup: Err(HaNodeError::StartupIoDeadlineExceeded { stage }),
                    },
                ),
            ),
            Vec::new(),
        ),
        (RetryPhase::BackingOff { reported }, RetryEvent::AboutToBegin { signal }) => {
            match require_startup_active(&signal) {
                Err(error) => (RetryPhase::Done(Err(error)), Vec::new()),
                Ok(()) => (RetryPhase::BackingOff { reported }, Vec::new()),
            }
        },
        (
            RetryPhase::BackingOff { reported },
            RetryEvent::ShutdownChanged { closed, signal, now, .. },
        ) => {
            if closed || signal.is_some() {
                let deadline: u64 = shutdown_deadline(&signal, now);
                (
                    RetryPhase::Done(Err(HaOpenError::Cancelled { deadline, cleanup: Ok(()) })),
                    Vec::new(),
                )
            } else {
                (RetryPhase::Ready { reported }, Vec::new())
            }
        },
        (RetryPhase::BackingOff { reported }, RetryEvent::DelayElapsed) => (
            RetryPhase::Ready { reported },
            Vec::new(),
        ),
        (phase, _) => (phase, Vec::new()),
    }
}

/// Advances opening the runtime by one event.
pub fn open_runtime_with_retry(phase: RetryPhase, event: RetryEvent) -> (step: (
    RetryPhase,
    Vec<OpenEffect>,
))
    ensures
        phase.steps_to(OpenAttempt::RuntimeOpen, event, step.0, step.1@),
{
    retry_open_attempt(OpenAttempt::RuntimeOpen, phase, event)
}

/// Advances rehydrating the recorder by one event.
pub fn rehydrate_recorder_with_retry(phase: RetryPhase, event: RetryEvent) -> (step: (
    RetryPhase,
    Vec<OpenEffect>,
))
    ensures
        phase.steps_to(OpenAttempt::RecorderRehydration, event, step.0, step.1@),
{
    retry_open_attempt(OpenAttempt::RecorderRehydration, phase, event)
}

/// How consensus is built from the recorders that the node was given.
#[derive(Debug)]
pub struct ConsensusPlan {
    /// For each recorder in turn, whether the local recorder stands in for it.
    pub local: Vec<bool>,
    /// The slot and the hash that consensus goes on from, if any.
    pub recovered_tip: Option<LogAnchor>,
}

/// Plans how consensus is built. `local_recorder` is the identity that the
/// local recorder has, where it takes part, or what went wrong when it was
/// asked.
pub fn plan_consensus(
    config: &NodeConfig,
    recorder_ids: &Vec<String>,
    local_recorder: &Option<Result<String, String>>,
    checkpoint_root: Option<LogAnchor>,
) -> (plan: Result<ConsensusPlan, HaStartupError>)
    ensures
        local_recorder matches Some(Err(failure)) ==> (plan matches Err(error) && error.is_source(
            failure@,
        )),
        local_recorder matches Some(Ok(id)) && id@ != config.node_id@ ==> (plan matches Err(error)
            && error.is_source(
            "local recorder identity mismatch: expected "@ + config.node_id@ + ", got "@
                + local_recorder->0->Ok_0@,
        )),
        (local_recorder is None || (local_recorder->0 matches Ok(id) && id@ == config.node_id@))
            ==> match checkpoint_root {
            Some(root) if root.index == u64::MAX => plan matches Err(error) && error.is_source(
                "checkpoint root index cannot advance"@,
            ),
            _ => plan matches Ok(plan) && plan.local@.len() == recorder_ids@.len() && (forall|
                i: int,
            |
                0 <= i < recorder_ids@.len() ==> plan.local@[i] == (local_recorder is Some
                    && recorder_ids@[i]@ == config.node_id@)) && plan.recovered_tip
                == match checkpoint_root {
                Some(root) => Some(LogAnchor { index: (root.index + 1) as u64, hash: root.hash }),
                None => None,
            },
        },
{
    match local_recorder {
        Some(Err(failure)) => {
            return Err(HaStartupError::Source(failure.clone()));
        },
        Some(Ok(id)) => {
            if *id != config.node_id {
                let mut message = joined3(
                    "local recorder identity mismatch: expected ",
                    config.node_id.as_str(),
                    ", got ",
                );
                message.append(id.as_str());
                return Err(HaStartupError::Source(message));
            }
        },
        None => {},
    }
    let mut local: Vec<bool> = Vec::new();
    let mut i: usize = 0;
    while i < recorder_ids.len()
        invariant
            i <= recorder_ids.len(),
            local@.len() == i,
            forall|j: int|
                0 <= j < i ==> local@[j] == (local_recorder is Some && recorder_ids@[j]@
                    == config.node_id@),
        decreases recorder_ids.len() - i,
    {
        local.push(local_recorder.is_some() && recorder_ids[i] == config.node_id);
        i = i + 1;
    }
    let recovered_tip = match checkpoint_root {
        Some(root) => match root.index.checked_add(1) {
            Some(index) => Some(LogAnchor::new(index, root.hash)),
            None => {
                return Err(fail("checkpoint root index cannot advance"));
            },
        },
        None => None,
    };
    Ok(ConsensusPlan { local, recovered_tip })
}

/// Accepts consensus only where its members are those of the node's
/// configuration. `membership` is what was built, or what went wrong.
pub fn accept_consensus(config: &NodeConfig, membership: &Result<Membership, String>) -> (result: Result<
    (),
    HaStartupError,
>)
    ensures
        match membership {
            Err(failure) => result matches Err(error) && error.is_source(failure@),
            Ok(membership) => if membership.same_as(config.membership) {
                result is Ok
            } else {
                result matches Err(error) && error.is_source(
                    "recorder membership does not match node configuration"@,
                )
            },
        },
{
    match membership {
        Err(failure) => Err(HaStartupError::Source(failure.clone())),
        Ok(membership) => if membership.same(&config.membership) {
            Ok(())
        } else {
            Err(fail("recorder membership does not match node configuration"))
        },
    }
}

/// Consensus is accepted exactly where its members are those of the node's
/// configuration; what went wrong when it was built is passed on.
pub proof fn law_consensus_has_the_members_of_the_configuration(
    config: NodeConfig,
    membership: Result<Membership, String>,
    result: Result<(), HaStartupError>,
)
    requires
        call_ensures(accept_consensus, (&config, &membership), result),
    ensures
        result is Ok <==> membership is Ok && membership->Ok_0.same_as(config.membership),
        membership matches Err(failure) ==> (result matches Err(error) && error.is_source(
            failure@,
        )),
        membership is Ok ==> (result matches Err(error) ==> error.is_source(
            "recorder membership does not match node configuration"@,
        )),
{
}

/// Consensus is planned from the recorders that were named: the local one
/// stands in for the recorder of this very node and for no other, and only
/// where it takes part. It goes on from the slot after the checkpoint that the
/// runtime catches up from. A local recorder of another node, one that could
/// not be asked, and a checkpoint that nothing can follow are refused.
pub proof fn law_the_local_recorder_stands_in_for_its_own_node_only(
    config: NodeConfig,
    recorder_ids: Vec<String>,
    local_recorder: Option<Result<String, String>>,
    checkpoint_root: Option<LogAnchor>,
    plan: Result<ConsensusPlan, HaStartupError>,
)
    requires
        call_ensures(
            plan_consensus,
            (&config, &recorder_ids, &local_recorder, checkpoint_root),
            plan,
        ),
    ensures
        plan matches Ok(planned) ==> {
            &&& planned.local@.len() == recorder_ids@.len()
            &&& forall|i: int|
                0 <= i < recorder_ids@.len() ==> (#[trigger] planned.local@[i] <==> local_recorder
                    is Some && recorder_ids@[i]@ == config.node_id@)
            &&& planned.recovered_tip is Some <==> checkpoint_root is Some
            &&& checkpoint_root matches Some(root) ==> planned.recovered_tip->0.index == root.index
                + 1 && planned.recovered_tip->0.hash == root.hash
        },
        local_recorder matches Some(Err(failure)) ==> (plan matches Err(error) && error.is_source(
            failure@,
        )),
        local_recorder matches Some(Ok(id)) ==> (id@ != config.node_id@ ==> (plan matches Err(error)
            && error.is_source(
            "local recorder identity mismatch: expected "@ + config.node_id@ + ", got "@ + id@,
        ))),
        (local_recorder is None || (local_recorder->0 is Ok && local_recorder->0->Ok_0@
            == config.node_id@)) ==> (plan is Err <==> (checkpoint_root is Some
            && checkpoint_root->0.index == u64::MAX)),
{
}

/// A shutdown that was requested stops startup by its own deadline; without one
/// startup goes on.
pub proof fn law_startup_goes_on_only_without_a_shutdown(
    signal: ShutdownSignal,
    result: Result<(), HaOpenError>,
)
    requires
        call_ensures(require_startup_active, (&signal,), result),
    ensures
        result is Ok <==> signal is None,
        signal matches Some(token) ==> (result matches Err(HaOpenError::Cancelled {
            deadline,
            cleanup,
        }) && deadline == token.spec_deadline() && cleanup is Ok),
{
}

} // verus!
