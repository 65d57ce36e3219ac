//! How the tasks that a node owns end, and what their ends mean.
use crate::error::{
    conservative_shutdown_deadline_error, HaNodeError,
};
use crate::evidence::uncertain_shutdown_evidence;
use crate::status::HaShutdownPhase;
use crate::text::joined3;
use vstd::prelude::*;

verus! {

/// How a server task ended: it returned, or it was cancelled or panicked.
#[derive(Debug)]
pub enum TaskExit {
    Returned(Result<(), HaNodeError>),
    Failed(String),
}

/// Which server a task ran.
#[derive(Clone, Copy, Debug, PartialEq, Eq, Structural)]
pub enum ServerRole {
    Recorder,
    Service,
    SuccessorStaging,
}

impl ServerRole {
    pub open spec fn spec_name(self) -> Seq<char> {
        match self {
            ServerRole::Recorder => "recorder server"@,
            ServerRole::Service => "service server"@,
            ServerRole::SuccessorStaging => "successor staging service"@,
        }
    }

    /// How messages name the server.
    pub fn name(self) -> (name: &'static str)
        ensures
            name@ == self.spec_name(),
    {
        match self {
            ServerRole::Recorder => "recorder server",
            ServerRole::Service => "service server",
            ServerRole::SuccessorStaging => "successor staging service",
        }
    }

    /// `error` blames this server with this message.
    pub open spec fn blamed(self, error: HaNodeError, message: Seq<char>) -> bool {
        if self == ServerRole::Recorder {
            error.is_recorder_server(message)
        } else {
            error.is_service_server(message)
        }
    }

    /// `error` says that this server's task failed.
    pub open spec fn is_join_error(self, error: HaNodeError, failure: Seq<char>) -> bool {
        self.blamed(error, self.spec_name() + " task failed: "@ + failure)
    }
}

impl TaskExit {
    /// The task returned success.
    pub open spec fn succeeded(self) -> bool {
        self matches TaskExit::Returned(result) && result is Ok
    }

    /// `result` is what the exit of this server's task amounts to.
    pub open spec fn flattens_to(self, role: ServerRole, result: Result<(), HaNodeError>) -> bool {
        match self {
            TaskExit::Returned(returned) => result == returned,
            TaskExit::Failed(failure) => result matches Err(error) && role.is_join_error(
                error,
                failure@,
            ),
        }
    }

    /// What the exit of this server's task amounts to.
    pub fn flatten(self, role: ServerRole) -> (result: Result<(), HaNodeError>)
        ensures
            self.flattens_to(role, result),
            result is Ok <==> self.succeeded(),
    {
        match self {
            TaskExit::Returned(returned) => returned,
            TaskExit::Failed(failure) => Err(server_task_join_error(role, failure.as_str())),
        }
    }
}

/// The error for a server task that did not return.
pub fn server_task_join_error(role: ServerRole, failure: &str) -> (error: HaNodeError)
    ensures
        role.is_join_error(error, failure@),
{
    let message = joined3(role.name(), " task failed: ", failure);
    match role {
        ServerRole::Recorder => HaNodeError::RecorderServer(message),
        _ => HaNodeError::ServiceServer(message),
    }
}

/// The error for a server that ended while it should have kept running.
pub fn unexpected_server_exit(exit: TaskExit, role: ServerRole) -> (error: HaNodeError)
    ensures
        is_unexpected_server_exit(exit, role, error),
{
    match exit {
        TaskExit::Returned(Ok(())) => match role {
            ServerRole::Recorder => HaNodeError::RecorderServer(
                "recorder server stopped unexpectedly".to_owned(),
            ),
            _ => HaNodeError::ServiceServer("service server stopped unexpectedly".to_owned()),
        },
        TaskExit::Returned(Err(error)) => error,
        TaskExit::Failed(failure) => server_task_join_error(role, failure.as_str()),
    }
}

/// `error` is what an unasked-for end of this server means: its own error
/// where it has one.
pub open spec fn is_unexpected_server_exit(exit: TaskExit, role: ServerRole, error: HaNodeError) -> bool {
    match exit {
        TaskExit::Returned(result) => match result {
            Ok(_) => if role == ServerRole::Recorder {
                error.is_recorder_server("recorder server stopped unexpectedly"@)
            } else {
                error.is_service_server("service server stopped unexpectedly"@)
            },
            Err(own) => error == own,
        },
        TaskExit::Failed(failure) => role.is_join_error(error, failure@),
    }
}

/// `error` is what an unasked-for end of the service with this result means.
pub open spec fn is_unexpected_service_exit(
    result: Result<(), HaNodeError>,
    error: HaNodeError,
) -> bool {
    match result {
        Ok(_) => error.is_service_server("service server stopped unexpectedly"@),
        Err(own) => error == own,
    }
}

/// The error for a service that ended while it should have kept running.
pub fn unexpected_service_task_exit(result: Result<(), HaNodeError>) -> (error: HaNodeError)
    ensures
        is_unexpected_service_exit(result, error),
{
    match result {
        Ok(()) => HaNodeError::ServiceServer("service server stopped unexpectedly".to_owned()),
        Err(error) => error,
    }
}

/// What was seen of a supervisor task by its deadline.
#[derive(Debug)]
pub enum SupervisorWait {
    /// The task ended, and was seen to at `now`.
    Ended { exit: TaskExit, now: u64, deadline: u64 },
    /// The deadline came first; `finished` says whether the task had ended
    /// unobserved.
    DeadlineReached { finished: bool },
}

/// The outcome of waiting for a supervisor, and whether its task is aborted.
#[derive(Debug)]
pub struct SupervisorOutcome {
    pub result: Result<(), HaNodeError>,
    pub abort: bool,
}

/// What waiting for a supervisor amounts to: its own result where it ended in
/// time, and otherwise a deadline error that claims nothing.
pub fn wait_for_ha_supervisor_before(wait: SupervisorWait, name: &str) -> (outcome:
    SupervisorOutcome)
    ensures
        match wait {
            SupervisorWait::Ended { exit, now, deadline } => if now < deadline {
                match exit {
                    TaskExit::Returned(result) => outcome.result == result,
                    TaskExit::Failed(failure) => outcome.result matches Err(error)
                        && error.is_supervisor(name@ + " task failed: "@ + failure@),
                }
            } else {
                outcome.result == Err::<(), HaNodeError>(
                    conservative_shutdown_deadline_error(
                        HaShutdownPhase::Supervisor,
                        uncertain_shutdown_evidence(),
                    ),
                )
            },
            SupervisorWait::DeadlineReached { finished } => outcome.result == Err::<
                (),
                HaNodeError,
            >(
                conservative_shutdown_deadline_error(
                    HaShutdownPhase::Supervisor,
                    uncertain_shutdown_evidence(),
                ),
            ),
        },
        outcome.abort == (wait matches SupervisorWait::DeadlineReached { finished } && !finished),
{
    match wait {
        SupervisorWait::Ended { exit, now, deadline } => {
            if now >= deadline {
                return SupervisorOutcome {
                    result: Err(
                        conservative_shutdown_deadline_error(
                            HaShutdownPhase::Supervisor,
                            uncertain_shutdown_evidence(),
                        ),
                    ),
                    abort: false,
                };
            }
            match exit {
                TaskExit::Returned(result) => SupervisorOutcome { result, abort: false },
                TaskExit::Failed(failure) => SupervisorOutcome {
                    result: Err(
                        HaNodeError::Supervisor(joined3(name, " task failed: ", failure.as_str())),
                    ),
                    abort: false,
                },
            }
        },
        SupervisorWait::DeadlineReached { finished } => SupervisorOutcome {
            result: Err(
                conservative_shutdown_deadline_error(
                    HaShutdownPhase::Supervisor,
                    uncertain_shutdown_evidence(),
                ),
            ),
            abort: !finished,
        },
    }
}

/// Whatever ends a server that should have kept running, the server is blamed:
/// with its own error where it has one, and otherwise by name.
pub proof fn law_an_unasked_end_blames_the_server(
    exit: TaskExit,
    role: ServerRole,
    error: HaNodeError,
)
    requires
        is_unexpected_server_exit(exit, role, error),
    ensures
        exit matches TaskExit::Returned(Err(own)) ==> error == own,
        exit matches TaskExit::Returned(Ok(_)) ==> if role == ServerRole::Recorder {
            error.is_recorder_server("recorder server stopped unexpectedly"@)
        } else {
            error.is_service_server("service server stopped unexpectedly"@)
        },
        exit matches TaskExit::Failed(failure) ==> match role {
            ServerRole::Recorder => error.is_recorder_server(
                "recorder server"@ + " task failed: "@ + failure@,
            ),
            ServerRole::Service => error.is_service_server(
                "service server"@ + " task failed: "@ + failure@,
            ),
            ServerRole::SuccessorStaging => error.is_service_server(
                "successor staging service"@ + " task failed: "@ + failure@,
            ),
        },
{
}

/// What a task returned is what its end amounts to; one that did not return is
/// a failure of its server.
pub proof fn law_the_end_of_a_task_keeps_what_it_returned(
    exit: TaskExit,
    role: ServerRole,
    result: Result<(), HaNodeError>,
)
    requires
        exit.flattens_to(role, result),
    ensures
        exit matches TaskExit::Returned(returned) ==> result == returned,
        exit.succeeded() <==> result is Ok,
        exit matches TaskExit::Failed(failure) ==> (result matches Err(error) && (role
            == ServerRole::Recorder ==> error.is_recorder_server(
            "recorder server"@ + " task failed: "@ + failure@,
        )) && (role == ServerRole::Service ==> error.is_service_server(
            "service server"@ + " task failed: "@ + failure@,
        )) && (role == ServerRole::SuccessorStaging ==> error.is_service_server(
            "successor staging service"@ + " task failed: "@ + failure@,
        ))),
{
}

/// A service that ended by itself is blamed once: taking its result first, and
/// then asking what it means, comes to what its end means at once.
pub proof fn law_a_service_is_blamed_once(
    exit: TaskExit,
    result: Result<(), HaNodeError>,
    error: HaNodeError,
)
    requires
        exit.flattens_to(ServerRole::Service, result),
        is_unexpected_service_exit(result, error),
    ensures
        is_unexpected_server_exit(exit, ServerRole::Service, error),
        result matches Err(own) ==> error == own,
        result is Ok ==> error.is_service_server("service server stopped unexpectedly"@),
{
}

/// Waiting for a supervisor comes to its own result exactly where it ended
/// before the deadline; one that did not return then is blamed by name. In
/// every other case nothing is claimed, and the task is aborted exactly where
/// it had not ended.
pub proof fn law_a_supervisor_is_taken_at_its_word_only_in_time(
    wait: SupervisorWait,
    name: &str,
    outcome: SupervisorOutcome,
)
    requires
        call_ensures(wait_for_ha_supervisor_before, (wait, name), outcome),
    ensures
        ({
            let in_time = wait is Ended && wait->Ended_now < wait->Ended_deadline;
            &&& in_time ==> match wait->Ended_exit {
                TaskExit::Returned(result) => outcome.result == result,
                TaskExit::Failed(failure) => outcome.result matches Err(error)
                    && error.is_supervisor(name@ + " task failed: "@ + failure@),
            }
            &&& !in_time ==> (outcome.result matches Err(HaNodeError::ShutdownDeadlineExceeded {
                phase,
                ingress,
                tasks,
                ..
            }) && phase == HaShutdownPhase::Supervisor && ingress
                == crate::status::IngressDisposition::Uncertain && tasks
                == crate::status::TaskDisposition::Uncertain)
            &&& outcome.abort <==> wait == (SupervisorWait::DeadlineReached { finished: false })
        }),
{
}

/// A server whose task did not return is blamed by its name, and for how it
/// failed.
pub proof fn law_a_failed_task_is_named(role: ServerRole, failure: &str, error: HaNodeError)
    requires
        call_ensures(server_task_join_error, (role, failure), error),
    ensures
        role is Recorder ==> (error matches HaNodeError::RecorderServer(told) && told@
            == "recorder server"@ + " task failed: "@ + failure@),
        role is Service ==> (error matches HaNodeError::ServiceServer(told) && told@
            == "service server"@ + " task failed: "@ + failure@),
        role is SuccessorStaging ==> (error matches HaNodeError::ServiceServer(told) && told@
            == "successor staging service"@ + " task failed: "@ + failure@),
{
}

/// A server is blamed the same way by every function that judges its end, and
/// the end of a task that returned is what it returned.
pub proof fn law_every_judge_of_an_end_blames_alike(
    exit: TaskExit,
    role: ServerRole,
    result: Result<(), HaNodeError>,
    error: HaNodeError,
)
    requires
        call_ensures(TaskExit::flatten, (exit, role), result),
        call_ensures(unexpected_server_exit, (exit, role), error),
    ensures
        exit matches TaskExit::Returned(returned) ==> result == returned,
        exit matches TaskExit::Returned(Err(own)) ==> error == own,
        (exit matches TaskExit::Returned(Ok(_))) && role is Recorder ==> (
        error matches HaNodeError::RecorderServer(told) && told@
            == "recorder server stopped unexpectedly"@),
        (exit matches TaskExit::Returned(Ok(_))) && !(role is Recorder) ==> (
        error matches HaNodeError::ServiceServer(told) && told@
            == "service server stopped unexpectedly"@),
        exit matches TaskExit::Failed(failure) ==> (role is Recorder ==> (
        error matches HaNodeError::RecorderServer(told) && told@ == "recorder server"@
            + " task failed: "@ + failure@)),
        result is Err && exit is Failed ==> (result->Err_0 is RecorderServer
            <==> error is RecorderServer),
{
}

} // verus!
