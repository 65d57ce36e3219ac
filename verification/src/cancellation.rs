//! What an outcome means once a shutdown was requested.
//!
//! Only the cancellation that this very shutdown stands for, and that startup
//! is really cancelled by, counts as success. Every other failure keeps its
//! own source.
use crate::error::{
    startup_error, HaNodeError, HaStartupError, NodeError, NodeErrorKind,
};
use crate::open::HaOpenError;
use crate::text::joined;
use crate::token::{ShutdownToken, StartupCancellationToken, StartupIoContext};
use vstd::prelude::*;

verus! {

/// How a task of startup ended: it returned, or it was cancelled or panicked.
#[derive(Debug)]
pub enum StartupExit<E> {
    Returned(Result<(), E>),
    Failed(String),
}

/// `cancellation` is the one that the shutdown `token` stands for, and startup
/// is cancelled by it.
pub open spec fn requested_by(
    cancellation: StartupCancellationToken,
    startup: StartupIoContext,
    token: Option<ShutdownToken>,
) -> bool {
    token matches Some(token) && token.spec_startup_token() == cancellation
        && startup.spec_is_cancelled_by(cancellation)
}

fn is_requested_by(
    cancellation: &StartupCancellationToken,
    startup: &StartupIoContext,
    token: Option<&ShutdownToken>,
) -> (requested: bool)
    ensures
        requested == requested_by(
            *cancellation,
            *startup,
            match token {
                Some(token) => Some(*token),
                None => None,
            },
        ),
{
    match token {
        Some(token) => token.startup_token() == *cancellation && startup.is_cancelled_by(
            cancellation,
        ),
        None => false,
    }
}

/// The token behind a reference, if any.
pub open spec fn token_of(token: Option<&ShutdownToken>) -> Option<ShutdownToken> {
    match token {
        Some(token) => Some(*token),
        None => None,
    }
}

/// The failure is the cancellation that the shutdown asked for.
pub open spec fn startup_cancellation_requested(
    error: HaStartupError,
    startup: StartupIoContext,
    token: Option<ShutdownToken>,
) -> bool {
    error matches HaStartupError::Cancelled(cancellation) && requested_by(
        cancellation,
        startup,
        token,
    )
}

/// Whether a startup failure is the cancellation that the shutdown asked for.
pub fn is_requested_startup_cancellation(
    error: &HaStartupError,
    startup: &StartupIoContext,
    token: Option<&ShutdownToken>,
) -> (requested: bool)
    ensures
        requested == startup_cancellation_requested(*error, *startup, token_of(token)),
{
    match error {
        HaStartupError::Cancelled(cancellation) => is_requested_by(cancellation, startup, token),
        HaStartupError::Source(_) => false,
    }
}

/// The failure is the cancellation that the shutdown asked for.
pub open spec fn node_cancellation_requested(
    error: NodeError,
    startup: StartupIoContext,
    token: Option<ShutdownToken>,
) -> bool {
    error.kind matches NodeErrorKind::StartupCancelled(cancellation) && requested_by(
        cancellation,
        startup,
        token,
    )
}

/// Whether a node failure is the cancellation that the shutdown asked for.
pub fn is_requested_node_cancellation(
    error: &NodeError,
    startup: &StartupIoContext,
    token: Option<&ShutdownToken>,
) -> (requested: bool)
    ensures
        requested == node_cancellation_requested(*error, *startup, token_of(token)),
{
    match &error.kind {
        NodeErrorKind::StartupCancelled(cancellation) => is_requested_by(
            cancellation,
            startup,
            token,
        ),
        _ => false,
    }
}

/// What a node failure is worth once a shutdown was requested.
pub open spec fn node_outcome(
    error: NodeError,
    startup: StartupIoContext,
    token: Option<ShutdownToken>,
) -> Result<(), HaStartupError> {
    if node_cancellation_requested(error, startup, token) {
        Ok(())
    } else {
        Err(error.spec_startup_error())
    }
}

/// What a node failure is worth once a shutdown was requested.
pub fn node_error_after_shutdown(
    error: NodeError,
    startup: &StartupIoContext,
    token: Option<&ShutdownToken>,
) -> (result: Result<(), HaStartupError>)
    ensures
        result == node_outcome(error, *startup, token_of(token)),
{
    if is_requested_node_cancellation(&error, startup, token) {
        Ok(())
    } else {
        Err(startup_error(error))
    }
}

/// `result` is what the end of preparation is worth once a shutdown was
/// requested.
pub open spec fn preparation_outcome(
    exit: StartupExit<HaStartupError>,
    startup: StartupIoContext,
    token: Option<ShutdownToken>,
    result: Result<(), HaNodeError>,
) -> bool {
    match exit {
        StartupExit::Returned(Ok(_)) => result is Ok,
        StartupExit::Returned(Err(error)) => result == if startup_cancellation_requested(
            error,
            startup,
            token,
        ) {
            Ok::<(), HaNodeError>(())
        } else {
            Err::<(), HaNodeError>(HaNodeError::Startup(error))
        },
        StartupExit::Failed(failure) => result matches Err(error) && error.is_startup(
            "HA startup preparation task failed during shutdown: "@ + failure@,
        ),
    }
}

/// What the end of preparation is worth once a shutdown was requested.
pub fn completed_preparation_after_shutdown(
    exit: StartupExit<HaStartupError>,
    startup: &StartupIoContext,
    token: Option<&ShutdownToken>,
) -> (result: Result<(), HaNodeError>)
    ensures
        preparation_outcome(exit, *startup, token_of(token), result),
{
    match exit {
        StartupExit::Returned(Ok(())) => Ok(()),
        StartupExit::Returned(Err(error)) => if is_requested_startup_cancellation(
            &error,
            startup,
            token,
        ) {
            Ok(())
        } else {
            Err(HaNodeError::Startup(error))
        },
        StartupExit::Failed(failure) => Err(
            HaNodeError::Startup(
                HaStartupError::Source(
                    joined(
                        "HA startup preparation task failed during shutdown: ",
                        failure.as_str(),
                    ),
                ),
            ),
        ),
    }
}

/// `result` is what the end of an activation attempt is worth once a shutdown
/// was requested.
pub open spec fn activation_outcome(
    exit: StartupExit<NodeError>,
    startup: StartupIoContext,
    token: Option<ShutdownToken>,
    result: Result<(), HaNodeError>,
) -> bool {
    match exit {
        StartupExit::Returned(Ok(_)) => result is Ok,
        StartupExit::Returned(Err(error)) => result == match node_outcome(error, startup, token) {
            Ok(_) => Ok::<(), HaNodeError>(()),
            Err(error) => Err::<(), HaNodeError>(HaNodeError::Startup(error)),
        },
        StartupExit::Failed(failure) => result matches Err(error) && error.is_startup(
            "activation status task failed during shutdown: "@ + failure@,
        ),
    }
}

/// What the end of an activation attempt is worth once a shutdown was
/// requested.
pub fn completed_activation_after_shutdown(
    exit: StartupExit<NodeError>,
    startup: &StartupIoContext,
    token: Option<&ShutdownToken>,
) -> (result: Result<(), HaNodeError>)
    ensures
        activation_outcome(exit, *startup, token_of(token), result),
{
    match exit {
        StartupExit::Returned(Ok(())) => Ok(()),
        StartupExit::Returned(Err(error)) => match node_error_after_shutdown(
            error,
            startup,
            token,
        ) {
            Ok(()) => Ok(()),
            Err(error) => Err(HaNodeError::Startup(error)),
        },
        StartupExit::Failed(failure) => Err(
            HaNodeError::Startup(
                HaStartupError::Source(
                    joined("activation status task failed during shutdown: ", failure.as_str()),
                ),
            ),
        ),
    }
}

/// Which attempt of opening a runtime ended.
#[derive(Clone, Copy, Debug, PartialEq, Eq, Structural)]
pub enum OpenAttempt {
    RuntimeOpen,
    RecorderRehydration,
}

impl OpenAttempt {
    /// How messages name the attempt's task.
    pub open spec fn spec_task(self) -> Seq<char> {
        match self {
            OpenAttempt::RuntimeOpen => "runtime startup task"@,
            OpenAttempt::RecorderRehydration => "recorder rehydration task"@,
        }
    }

    /// How messages name the attempt's task.
    pub fn task(self) -> (name: &'static str)
        ensures
            name@ == self.spec_task(),
    {
        match self {
            OpenAttempt::RuntimeOpen => "runtime startup task",
            OpenAttempt::RecorderRehydration => "recorder rehydration task",
        }
    }
}

/// `error` is what the end of an attempt is worth once a shutdown was
/// requested: opening is cancelled, unless the attempt failed by itself.
pub open spec fn attempt_outcome(
    attempt: OpenAttempt,
    exit: StartupExit<NodeError>,
    startup: StartupIoContext,
    token: Option<ShutdownToken>,
    deadline: u64,
    error: HaOpenError,
) -> bool {
    match exit {
        StartupExit::Returned(Ok(_)) => error == (HaOpenError::Cancelled {
            deadline,
            cleanup: Ok(()),
        }),
        StartupExit::Returned(Err(own)) => error == match node_outcome(own, startup, token) {
            Ok(_) => HaOpenError::Cancelled { deadline, cleanup: Ok(()) },
            Err(source) => HaOpenError::Startup { error: source, cleanup: Ok(()) },
        },
        StartupExit::Failed(failure) => error matches HaOpenError::Startup {
            error: source,
            cleanup,
        } && cleanup == Ok::<(), HaNodeError>(()) && source.is_source(
            attempt.spec_task() + " failed during shutdown: "@ + failure@,
        ),
    }
}

/// What an attempt that ended after a requested shutdown comes to, and
/// whether the runtime that it left behind is cancelled.
#[derive(Debug)]
pub struct CompletedAttempt {
    pub error: HaOpenError,
    pub cancel_runtime: bool,
}

/// What the end of opening the runtime is worth once a shutdown was requested.
pub fn completed_runtime_open_after_shutdown(
    exit: StartupExit<NodeError>,
    startup: &StartupIoContext,
    token: Option<&ShutdownToken>,
    deadline: u64,
) -> (completed: CompletedAttempt)
    ensures
        attempt_outcome(
            OpenAttempt::RuntimeOpen,
            exit,
            *startup,
            token_of(token),
            deadline,
            completed.error,
        ),
        completed.cancel_runtime == (exit matches StartupExit::Returned(Ok(_))),
{
    complete_attempt(OpenAttempt::RuntimeOpen, exit, startup, token, deadline)
}

/// What the end of rehydrating the recorder is worth once a shutdown was
/// requested.
pub fn completed_rehydrate_after_shutdown(
    exit: StartupExit<NodeError>,
    startup: &StartupIoContext,
    token: Option<&ShutdownToken>,
    deadline: u64,
) -> (completed: CompletedAttempt)
    ensures
        attempt_outcome(
            OpenAttempt::RecorderRehydration,
            exit,
            *startup,
            token_of(token),
            deadline,
            completed.error,
        ),
        completed.cancel_runtime == (exit matches StartupExit::Returned(Ok(_))),
{
    complete_attempt(OpenAttempt::RecorderRehydration, exit, startup, token, deadline)
}

/// What the end of an attempt is worth once a shutdown was requested.
pub fn complete_attempt(
    attempt: OpenAttempt,
    exit: StartupExit<NodeError>,
    startup: &StartupIoContext,
    token: Option<&ShutdownToken>,
    deadline: u64,
) -> (completed: CompletedAttempt)
    ensures
        attempt_outcome(attempt, exit, *startup, token_of(token), deadline, completed.error),
        completed.cancel_runtime == (exit matches StartupExit::Returned(Ok(_))),
{
    match exit {
        StartupExit::Returned(Ok(())) => CompletedAttempt {
            error: HaOpenError::Cancelled { deadline, cleanup: Ok(()) },
            cancel_runtime: true,
        },
        StartupExit::Returned(Err(error)) => {
            let error = match node_error_after_shutdown(error, startup, token) {
                Ok(()) => HaOpenError::Cancelled { deadline, cleanup: Ok(()) },
                Err(error) => HaOpenError::Startup { error, cleanup: Ok(()) },
            };
            CompletedAttempt { error, cancel_runtime: false }
        },
        StartupExit::Failed(failure) => {
            let mut message = joined(attempt.task(), " failed during shutdown: ");
            message.append(failure.as_str());
            CompletedAttempt {
                error: HaOpenError::Startup {
                    error: HaStartupError::Source(message),
                    cleanup: Ok(()),
                },
                cancel_runtime: false,
            }
        },
    }
}

/// A shutdown turns a failure of startup into success only where the failure
/// is its own cancellation: any source failure stays what it is, and so does
/// the cancellation of another shutdown.
pub proof fn law_only_the_exact_cancellation_is_forgiven(
    error: NodeError,
    startup: StartupIoContext,
    token: Option<ShutdownToken>,
)
    ensures
        node_outcome(error, startup, token) is Ok <==> (token is Some && error.kind
            == NodeErrorKind::StartupCancelled(token->0.spec_startup_token())
            && startup.spec_is_cancelled_by(token->0.spec_startup_token())),
        node_outcome(error, startup, token) matches Err(source) ==> source
            == error.spec_startup_error(),
        startup_cancellation_requested(error.spec_startup_error(), startup, token)
            == node_cancellation_requested(error, startup, token),
{
}

/// A cancellation that startup is not cancelled by is never forgiven.
pub proof fn law_a_superseded_cancellation_is_not_forgiven(
    superseded: ShutdownToken,
    in_force: ShutdownToken,
)
    requires
        superseded.spec_startup_token() != in_force.spec_startup_token(),
    ensures
        !startup_cancellation_requested(
            HaStartupError::Cancelled(superseded.spec_startup_token()),
            StartupIoContext { cancellation: Some(in_force) },
            Some(superseded),
        ),
        !startup_cancellation_requested(
            HaStartupError::Cancelled(superseded.spec_startup_token()),
            StartupIoContext { cancellation: Some(in_force) },
            Some(in_force),
        ),
{
}

/// A failure of preparation after a requested shutdown is forgiven only where
/// it is this very shutdown's cancellation, which startup is cancelled by.
/// Every other failure is kept as it is, and a task that broke down is
/// reported.
pub proof fn law_preparation_after_a_shutdown_keeps_its_own_failure(
    exit: StartupExit<HaStartupError>,
    startup: StartupIoContext,
    token: Option<ShutdownToken>,
    result: Result<(), HaNodeError>,
)
    requires
        preparation_outcome(exit, startup, token, result),
    ensures
        exit matches StartupExit::Returned(Ok(_)) ==> result is Ok,
        exit matches StartupExit::Returned(Err(error)) ==> {
            let forgiven = token is Some && error == HaStartupError::Cancelled(
                token->0.spec_startup_token(),
            ) && startup.spec_is_cancelled_by(token->0.spec_startup_token());
            &&& result is Ok <==> forgiven
            &&& result matches Err(kept) ==> kept == HaNodeError::Startup(error)
        },
        exit matches StartupExit::Failed(failure) ==> (result matches Err(error)
            && error.is_startup(
            "HA startup preparation task failed during shutdown: "@ + failure@,
        )),
{
}

/// The same of an activation attempt, whose failures are the runtime's.
pub proof fn law_an_activation_after_a_shutdown_keeps_its_own_failure(
    exit: StartupExit<NodeError>,
    startup: StartupIoContext,
    token: Option<ShutdownToken>,
    result: Result<(), HaNodeError>,
)
    requires
        activation_outcome(exit, startup, token, result),
    ensures
        exit matches StartupExit::Returned(Ok(_)) ==> result is Ok,
        exit matches StartupExit::Returned(Err(error)) ==> {
            let forgiven = token is Some && error.kind == NodeErrorKind::StartupCancelled(
                token->0.spec_startup_token(),
            ) && startup.spec_is_cancelled_by(token->0.spec_startup_token());
            &&& result is Ok <==> forgiven
            &&& result matches Err(kept) ==> kept == HaNodeError::Startup(
                match error.kind {
                    NodeErrorKind::StartupCancelled(own) => HaStartupError::Cancelled(own),
                    _ => HaStartupError::Source(error.message),
                },
            )
        },
        exit matches StartupExit::Failed(failure) ==> (result matches Err(error)
            && error.is_startup("activation status task failed during shutdown: "@ + failure@)),
{
}

/// An attempt of opening that ended after a requested shutdown is cancelled by
/// that shutdown's deadline, whether it succeeded or was itself cancelled by
/// it. A failure of its own is kept, and a task that broke down is named. No
/// cleanup has gone wrong yet.
pub proof fn law_an_attempt_after_a_shutdown_is_cancelled_or_keeps_its_own_failure(
    attempt: OpenAttempt,
    exit: StartupExit<NodeError>,
    startup: StartupIoContext,
    token: Option<ShutdownToken>,
    deadline: u64,
    error: HaOpenError,
)
    requires
        attempt_outcome(attempt, exit, startup, token, deadline, error),
    ensures
        match error {
            HaOpenError::Cancelled { deadline: by, cleanup } => by == deadline && cleanup is Ok,
            HaOpenError::Startup { cleanup, .. } => cleanup is Ok,
        },
        error is Cancelled <==> (exit matches StartupExit::Returned(result) && match result {
            Ok(_) => true,
            Err(own) => token is Some && own.kind == NodeErrorKind::StartupCancelled(
                token->0.spec_startup_token(),
            ) && startup.spec_is_cancelled_by(token->0.spec_startup_token()),
        }),
        exit matches StartupExit::Returned(Err(own)) ==> (error matches HaOpenError::Startup {
            error: kept,
            ..
        } ==> kept == match own.kind {
            NodeErrorKind::StartupCancelled(other) => HaStartupError::Cancelled(other),
            _ => HaStartupError::Source(own.message),
        }),
        exit matches StartupExit::Failed(failure) ==> (error matches HaOpenError::Startup {
            error: kept,
            ..
        } && kept.is_source(
            match attempt {
                OpenAttempt::RuntimeOpen => "runtime startup task"@,
                OpenAttempt::RecorderRehydration => "recorder rehydration task"@,
            } + " failed during shutdown: "@ + failure@,
        )),
{
}

/// A runtime that was opened although a shutdown was asked for is cancelled,
/// and nothing else is.
pub proof fn law_only_a_runtime_that_was_opened_is_cancelled(
    attempt: OpenAttempt,
    exit: StartupExit<NodeError>,
    startup: StartupIoContext,
    token: Option<&ShutdownToken>,
    deadline: u64,
    completed: CompletedAttempt,
    opened: CompletedAttempt,
    rehydrated: CompletedAttempt,
)
    requires
        call_ensures(complete_attempt, (attempt, exit, &startup, token, deadline), completed),
        call_ensures(
            completed_runtime_open_after_shutdown,
            (exit, &startup, token, deadline),
            opened,
        ),
        call_ensures(
            completed_rehydrate_after_shutdown,
            (exit, &startup, token, deadline),
            rehydrated,
        ),
    ensures
        completed.cancel_runtime <==> exit matches StartupExit::Returned(Ok(_)),
        opened.cancel_runtime <==> exit matches StartupExit::Returned(Ok(_)),
        rehydrated.cancel_runtime <==> exit matches StartupExit::Returned(Ok(_)),
        attempt_outcome(
            attempt,
            exit,
            startup,
            token_of(token),
            deadline,
            completed.error,
        ),
        attempt_outcome(
            OpenAttempt::RuntimeOpen,
            exit,
            startup,
            token_of(token),
            deadline,
            opened.error,
        ),
        attempt_outcome(
            OpenAttempt::RecorderRehydration,
            exit,
            startup,
            token_of(token),
            deadline,
            rehydrated.error,
        ),
{
}

/// Each attempt names its own task.
pub proof fn law_an_attempt_names_its_task(attempt: OpenAttempt, name: &'static str)
    requires
        call_ensures(OpenAttempt::task, (attempt,), name),
    ensures
        attempt is RuntimeOpen ==> name@ == "runtime startup task"@,
        attempt is RecorderRehydration ==> name@ == "recorder rehydration task"@,
{
}

/// What holds of the outcome of an attempt that a shutdown cut short holds of
/// the functions that tell it.
pub proof fn law_outcomes_after_a_shutdown_are_told(
    error: NodeError,
    startup_error: HaStartupError,
    preparation: StartupExit<HaStartupError>,
    activation: StartupExit<NodeError>,
    startup: StartupIoContext,
    token: Option<&ShutdownToken>,
    node: Result<(), HaStartupError>,
    prepared: Result<(), HaNodeError>,
    activated: Result<(), HaNodeError>,
    forgiven: bool,
    node_forgiven: bool,
)
    requires
        call_ensures(node_error_after_shutdown, (error, &startup, token), node),
        call_ensures(
            completed_preparation_after_shutdown,
            (preparation, &startup, token),
            prepared,
        ),
        call_ensures(completed_activation_after_shutdown, (activation, &startup, token), activated),
        call_ensures(
            is_requested_startup_cancellation,
            (&startup_error, &startup, token),
            forgiven,
        ),
        call_ensures(is_requested_node_cancellation, (&error, &startup, token), node_forgiven),
    ensures
        node == node_outcome(error, startup, token_of(token)),
        node is Ok <==> node_forgiven,
        preparation_outcome(preparation, startup, token_of(token), prepared),
        activation_outcome(activation, startup, token_of(token), activated),
        forgiven == startup_cancellation_requested(startup_error, startup, token_of(token)),
        node_forgiven == node_cancellation_requested(error, startup, token_of(token)),
        token is None ==> !forgiven && !node_forgiven,
        !(startup_error is Cancelled) ==> !forgiven,
        !(error.kind is StartupCancelled) ==> !node_forgiven,
{
}

} // verus!
