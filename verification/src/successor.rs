//! What the supervisors of a live successor share: when their cleanup must be
//! over, and what it amounts to.
use crate::error::{combine_ha_results, HaNodeError};
use crate::node::HaNodeSnapshot;
use crate::token::{
    ShutdownSignal, ShutdownToken, StartupCancellationAuthority, StartupCancellationToken,
    HA_SERVER_SHUTDOWN_TIMEOUT,
};
use vstd::prelude::*;

verus! {

/// What the supervisors of a live successor ask of their caller, in order.
pub enum SuccessorEffect {
    Publish(HaNodeSnapshot),
    /// What the staging service answers to readiness checks.
    SetStagingReady(bool),
    /// Tell the staging service to close, and wait for it until `deadline`.
    StopStaging { deadline: u64 },
    /// Abort the staging service, and wait for it until `deadline`.
    AbortStaging { deadline: u64 },
    /// Tell the staging service to hand over, and wait for it until `deadline`.
    RequestHandoff { deadline: u64 },
    /// Abort the staging service without waiting for it.
    AbandonStaging,
    /// Give the listener to the child.
    SendListener,
    /// Shut the child down, and wait for it until the token's deadline.
    ShutdownChild(ShutdownToken),
    /// Drop the child's owner.
    AbandonChild,
    /// Start the child; staging still holds the listener.
    StartChild,
}

/// The moment at which a supervisor handles an event: the shutdown in force,
/// the time, and the cancellation that a token of its own would stand for.
#[derive(Clone, Copy, PartialEq, Eq, Structural)]
pub struct Moment {
    pub signal: ShutdownSignal,
    pub now: u64,
    pub fresh: StartupCancellationToken,
}

impl Moment {
    /// A deadline of the supervisor's own can still be told.
    pub open spec fn is_tellable(self) -> bool {
        self.now + HA_SERVER_SHUTDOWN_TIMEOUT <= u64::MAX
    }

    /// The deadline that the supervisor grants by itself.
    pub open spec fn spec_own_deadline(self) -> u64 {
        (self.now + HA_SERVER_SHUTDOWN_TIMEOUT) as u64
    }

    /// The deadline that the supervisor grants by itself.
    pub fn own_deadline(&self) -> (deadline: u64)
        requires
            self.is_tellable(),
        ensures
            deadline == self.spec_own_deadline(),
    {
        self.now + HA_SERVER_SHUTDOWN_TIMEOUT
    }

    /// The authority that cleanup runs under: the shutdown that was asked for,
    /// or else one of the supervisor's own.
    pub open spec fn cleanup_token(self, internal_deadline: u64) -> ShutdownToken {
        match self.signal {
            Some(token) => token,
            None => ShutdownToken::of(
                internal_deadline,
                self.fresh,
                StartupCancellationAuthority::Internal,
            ),
        }
    }
}

/// The authority that the cleanup of a live successor runs under. A shutdown
/// that was asked for is never extended.
pub fn live_successor_cleanup_token(moment: &Moment, internal_deadline: u64) -> (token:
    ShutdownToken)
    ensures
        token == moment.cleanup_token(internal_deadline),
{
    match moment.signal {
        Some(token) => token,
        None => ShutdownToken::new_internal_at(internal_deadline, moment.fresh),
    }
}

/// The failure, where there is one.
pub open spec fn failure_of(result: Result<(), HaNodeError>) -> Option<HaNodeError> {
    match result {
        Ok(_) => None,
        Err(error) => Some(error),
    }
}

/// What the child's shutdown amounts to, given the failure that it had
/// published. The child's own result is authoritative, so a failure that it
/// already contains is not added again; only a shutdown that did not complete
/// says nothing of that failure and is added to it.
pub open spec fn normalized(
    primary: Option<HaNodeError>,
    child_result: Result<(), HaNodeError>,
) -> Result<(), HaNodeError> {
    match child_result {
        Ok(_) => match primary {
            Some(primary) => Err(primary),
            None => Ok(()),
        },
        Err(error) => if error is ShutdownDeadlineExceeded || error is ShutdownIncomplete {
            crate::error::combined(primary, child_result)
        } else {
            child_result
        },
    }
}

/// What the child's shutdown amounts to, given the failure that it had
/// published.
pub fn normalize_live_successor_child_shutdown(
    primary: Option<HaNodeError>,
    child_result: Result<(), HaNodeError>,
) -> (result: Result<(), HaNodeError>)
    ensures
        result == normalized(primary, child_result),
{
    match child_result {
        Ok(()) => match primary {
            Some(primary) => Err(primary),
            None => Ok(()),
        },
        Err(error) => match error {
            HaNodeError::ShutdownDeadlineExceeded { .. } | HaNodeError::ShutdownIncomplete { .. } => {
                combine_ha_results(primary, Err(error))
            },
            authoritative => Err(authoritative),
        },
    }
}

/// What the shutdown of the child and of the staging service amount to
/// together.
pub open spec fn combined_child_and_staging(
    primary: Option<HaNodeError>,
    child_result: Result<(), HaNodeError>,
    staging_result: Result<(), HaNodeError>,
) -> Result<(), HaNodeError> {
    crate::error::combined(failure_of(normalized(primary, child_result)), staging_result)
}

/// What the shutdown of the child and of the staging service amount to
/// together.
pub fn combine_live_successor_child_and_staging(
    primary: Option<HaNodeError>,
    child_result: Result<(), HaNodeError>,
    staging_result: Result<(), HaNodeError>,
) -> (result: Result<(), HaNodeError>)
    ensures
        result == combined_child_and_staging(primary, child_result, staging_result),
{
    let child_failure = match normalize_live_successor_child_shutdown(primary, child_result) {
        Ok(()) => None,
        Err(error) => Some(error),
    };
    combine_ha_results(child_failure, staging_result)
}

/// How a live successor that was stopped ends, and what it publishes last.
pub fn finish_cancelled_live_successor(cleanup: Result<(), HaNodeError>) -> (end: (
    Result<(), HaNodeError>,
    HaNodeSnapshot,
))
    ensures
        end.0 == cleanup,
        end.1 == HaNodeSnapshot::end(cleanup),
{
    let snapshot = HaNodeSnapshot::ended(&cleanup);
    (cleanup, snapshot)
}

/// What the owner of a live successor publishes once its supervisor has ended:
/// every failure, whether it was published before or not.
pub fn publish_supervisor_end(result: &Result<(), HaNodeError>) -> (snapshot: Option<
    HaNodeSnapshot,
>)
    ensures
        match result {
            Ok(_) => snapshot is None,
            Err(error) => snapshot == Some(HaNodeSnapshot::failure(*error)),
        },
{
    match result {
        Ok(()) => None,
        Err(error) => Some(HaNodeSnapshot::failed(error.clone())),
    }
}

/// Cleanup never outlives a shutdown that was asked for, whoever asked: its
/// token is that very one.
pub proof fn law_cleanup_runs_under_the_requested_shutdown(moment: Moment, internal_deadline: u64)
    ensures
        moment.signal matches Some(token) ==> moment.cleanup_token(internal_deadline) == token,
        moment.signal is None ==> moment.cleanup_token(internal_deadline).spec_deadline()
            == internal_deadline && moment.cleanup_token(
            internal_deadline,
        ).spec_startup_authority() == StartupCancellationAuthority::Internal,
{
    broadcast use ShutdownToken::lemma_parts;

}

/// Normalization keeps one chain: success needs the child's success and no
/// published failure, a completed chain of the child stays as it is, and an
/// incomplete shutdown follows the published failure instead of replacing it.
pub proof fn law_normalization_keeps_one_authoritative_chain(
    primary: Option<HaNodeError>,
    child_result: Result<(), HaNodeError>,
)
    ensures
        normalized(primary, child_result) is Ok <==> primary is None && child_result is Ok,
        child_result matches Err(error) ==> {
            let kept = normalized(primary, child_result)->Err_0;
            &&& error is Cleanup ==> kept == error
            &&& primary == Some(error) && !(error is ShutdownDeadlineExceeded)
                && !(error is ShutdownIncomplete) ==> kept == error
            &&& error is ShutdownDeadlineExceeded || error is ShutdownIncomplete ==> kept == (
            match primary {
                Some(primary) => primary.with_cleanup(error),
                None => error,
            })
        },
        child_result is Ok && primary is Some ==> normalized(primary, child_result) == Err::<
            (),
            HaNodeError,
        >(primary->0),
{
}

/// No failure of the staging service is lost beside those of the child.
pub proof fn law_staging_failure_is_kept(
    primary: Option<HaNodeError>,
    child_result: Result<(), HaNodeError>,
    staging_error: HaNodeError,
)
    ensures
        combined_child_and_staging(primary, child_result, Err(staging_error)) matches Err(error) && (
        error == staging_error || error == normalized(
            primary,
            child_result,
        )->Err_0.with_cleanup(staging_error)),
{
}

/// What a successor grants its own cleanup is twenty-five seconds, under a
/// cancellation of its own.
pub proof fn law_own_cleanup_is_granted_twenty_five_seconds(moment: Moment)
    requires
        moment.signal is None,
        moment.now + 25_000_000_000 <= u64::MAX,
    ensures
        moment.is_tellable(),
        moment.spec_own_deadline() == moment.now + 25_000_000_000,
        moment.cleanup_token(moment.spec_own_deadline()).spec_deadline() == moment.now
            + 25_000_000_000,
        moment.cleanup_token(moment.spec_own_deadline()).spec_startup_token() == moment.fresh,
{
    broadcast use ShutdownToken::lemma_parts;

}

/// A failure that the child reports itself is authoritative: it is returned as
/// it is, whatever was published before it.
pub proof fn law_a_completed_failure_of_the_child_is_authoritative(
    primary: Option<HaNodeError>,
    error: HaNodeError,
)
    requires
        !(error is ShutdownDeadlineExceeded),
        !(error is ShutdownIncomplete),
    ensures
        normalized(primary, Err(error)) == Err::<(), HaNodeError>(error),
{
}

/// The child's outcome and the staging service's are returned together: the
/// child's failure first, the staging service's added to it, and success only
/// where both succeeded and nothing was published.
pub proof fn law_the_child_and_staging_end_together(
    primary: Option<HaNodeError>,
    child: Result<(), HaNodeError>,
    staging: Result<(), HaNodeError>,
)
    ensures
        combined_child_and_staging(primary, child, staging) is Ok <==> primary is None && child
            is Ok && staging is Ok,
        staging is Ok ==> combined_child_and_staging(primary, child, staging) == normalized(
            primary,
            child,
        ) || (combined_child_and_staging(primary, child, staging) is Ok && normalized(
            primary,
            child,
        ) is Ok),
        staging matches Err(later) ==> match normalized(primary, child) {
            Ok(_) => combined_child_and_staging(primary, child, staging) == staging,
            Err(first) => combined_child_and_staging(primary, child, staging) matches Err(
                HaNodeError::Cleanup { primary: kept, cleanup },
            ) && *kept == first && *cleanup == later,
        },
{
}

/// Every failure of a live successor's supervisor is published by its owner,
/// and a success is not published again; a successor that was stopped ends as
/// its cleanup did, and is published so.
pub proof fn law_every_end_of_a_live_successor_is_published(
    result: Result<(), HaNodeError>,
    published: Option<HaNodeSnapshot>,
    end: (Result<(), HaNodeError>, HaNodeSnapshot),
)
    requires
        call_ensures(publish_supervisor_end, (&result,), published),
        call_ensures(finish_cancelled_live_successor, (result,), end),
    ensures
        published is Some <==> result is Err,
        result matches Err(error) ==> published->0.status == crate::status::HaNodeStatus::Failed
            && published->0.handle is None && published->0.terminal_error == Some(error),
        end.0 == result,
        end.1.handle is None,
        result is Ok ==> end.1.status == crate::status::HaNodeStatus::Stopped
            && end.1.terminal_error is None,
        result matches Err(error) ==> end.1.status == crate::status::HaNodeStatus::Failed
            && end.1.terminal_error == Some(error),
{
}

/// What holds of the end of a successor holds of the functions that tell it.
pub proof fn law_the_end_of_a_successor_is_told(
    primary: Option<HaNodeError>,
    child: Result<(), HaNodeError>,
    staging: Result<(), HaNodeError>,
    normal: Result<(), HaNodeError>,
    together: Result<(), HaNodeError>,
    moment: Moment,
    deadline: u64,
    token: ShutdownToken,
)
    requires
        call_ensures(normalize_live_successor_child_shutdown, (primary, child), normal),
        call_ensures(
            combine_live_successor_child_and_staging,
            (primary, child, staging),
            together,
        ),
        call_ensures(live_successor_cleanup_token, (&moment, deadline), token),
    ensures
        normal == normalized(primary, child),
        together == combined_child_and_staging(primary, child, staging),
        primary is Some ==> normal is Err && together is Err,
        child is Err ==> normal is Err && together is Err,
        staging is Err ==> together is Err,
        staging is Ok && normal is Err ==> together == normal,
        primary is None && child is Ok ==> normal is Ok && together is Ok == staging is Ok,
        moment.signal matches Some(asked) ==> token == asked,
        moment.signal is None ==> token == ShutdownToken::of(
            deadline,
            moment.fresh,
            crate::token::StartupCancellationAuthority::Internal,
        ),
{
}

} // verus!
