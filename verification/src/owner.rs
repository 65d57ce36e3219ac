//! What a failed shutdown of the node owner means for the node.
use crate::error::{HaNodeError, HaShutdownCause, SourceError, SourceErrorKind, WorkerError};
use crate::evidence::{lower_shutdown_mutation, ShutdownEvidence};
use crate::status::{HaShutdownPhase, MutationCertainty};
use vstd::prelude::*;

verus! {

/// The part of the owner's shutdown that did not complete.
#[derive(Clone, Copy, Debug, PartialEq, Eq, Structural)]
pub enum ShutdownPhase {
    InFlightOperations,
    BackgroundWorkers,
    AppliedTipFlush,
}

/// Why a part of the owner's shutdown did not complete.
#[derive(Debug)]
pub enum ShutdownCause {
    DeadlineExceeded,
    RecorderOutcomeUnknown,
    Source(SourceError),
    TaskFailure,
}

/// A failed shutdown of the owner, with the failures that followed it.
#[derive(Debug)]
pub struct ShutdownError {
    pub phase: ShutdownPhase,
    pub cause: ShutdownCause,
    pub cleanup: Vec<ShutdownError>,
    pub task_source: Option<WorkerError>,
}

/// A failure of the owner.
#[derive(Debug)]
pub enum OwnerError {
    Failure(SourceError),
    Shutdown(ShutdownError),
}

impl ShutdownPhase {
    #[verifier::allow_in_spec]
    pub fn node_phase(self) -> (phase: HaShutdownPhase)
        returns
            (match self {
                ShutdownPhase::InFlightOperations => HaShutdownPhase::InFlightOperations,
                ShutdownPhase::BackgroundWorkers => HaShutdownPhase::BackgroundWorkers,
                ShutdownPhase::AppliedTipFlush => HaShutdownPhase::AppliedTipFlush,
            }),
    {
        match self {
            ShutdownPhase::InFlightOperations => HaShutdownPhase::InFlightOperations,
            ShutdownPhase::BackgroundWorkers => HaShutdownPhase::BackgroundWorkers,
            ShutdownPhase::AppliedTipFlush => HaShutdownPhase::AppliedTipFlush,
        }
    }
}

impl ShutdownError {
    /// A task failure retains the receipt of its worker, here and in every
    /// failure that followed.
    pub open spec fn well_formed(self) -> bool
        decreases self,
    {
        &&& self.cause is TaskFailure ==> self.task_source is Some
        &&& forall|i: int| 0 <= i < self.cleanup@.len() ==> (#[trigger] self.cleanup@[i]).well_formed()
    }

    /// The node error for this failure alone.
    pub open spec fn own_error(self, evidence: ShutdownEvidence) -> HaNodeError {
        let phase = self.phase.node_phase();
        match self.cause {
            ShutdownCause::DeadlineExceeded => HaNodeError::ShutdownDeadlineExceeded {
                phase,
                ingress: evidence.ingress,
                tasks: evidence.tasks,
                mutation: crate::evidence::lower_mutation(phase),
            },
            ShutdownCause::RecorderOutcomeUnknown => HaNodeError::ShutdownIncomplete {
                phase,
                cause: HaShutdownCause::RecorderOutcomeUnknown,
                ingress: evidence.ingress,
                tasks: evidence.tasks,
                mutation: MutationCertainty::Uncertain {
                    local_io: true,
                    recorder_rpc: true,
                    activation: false,
                },
            },
            ShutdownCause::Source(error) => HaNodeError::ShutdownIncomplete {
                phase,
                cause: HaShutdownCause::Source(error),
                ingress: evidence.ingress,
                tasks: evidence.tasks,
                mutation: crate::evidence::lower_mutation(phase),
            },
            ShutdownCause::TaskFailure => HaNodeError::ShutdownIncomplete {
                phase,
                cause: HaShutdownCause::TaskFailure(self.task_source->0),
                ingress: evidence.ingress,
                tasks: evidence.tasks,
                mutation: crate::evidence::lower_mutation(phase),
            },
        }
    }

    /// The node error for this failure and the first `count` that followed it.
    pub open spec fn node_error_with(self, evidence: ShutdownEvidence, count: nat) -> HaNodeError
        decreases self, count,
    {
        if count == 0 || count > self.cleanup@.len() {
            self.own_error(evidence)
        } else {
            let followed = self.cleanup@[count - 1];
            self.node_error_with(evidence, (count - 1) as nat).with_cleanup(
                followed.node_error_with(evidence, followed.cleanup@.len()),
            )
        }
    }

    /// The node error for this failure and all that followed it.
    pub open spec fn node_error(self, evidence: ShutdownEvidence) -> HaNodeError {
        self.node_error_with(evidence, self.cleanup@.len())
    }
}

impl OwnerError {
    pub open spec fn well_formed(self) -> bool {
        self matches OwnerError::Shutdown(error) ==> error.well_formed()
    }

    /// The node error that this failure of the owner amounts to.
    pub open spec fn node_error(self, evidence: ShutdownEvidence) -> HaNodeError {
        match self {
            OwnerError::Shutdown(error) => error.node_error(evidence),
            OwnerError::Failure(error) => if error.kind == SourceErrorKind::UnknownConsensusOutcome {
                HaNodeError::ShutdownIncomplete {
                    phase: HaShutdownPhase::Service,
                    cause: HaShutdownCause::RecorderOutcomeUnknown,
                    ingress: evidence.ingress,
                    tasks: evidence.tasks,
                    mutation: MutationCertainty::Uncertain {
                        local_io: false,
                        recorder_rpc: true,
                        activation: false,
                    },
                }
            } else {
                HaNodeError::ShutdownIncomplete {
                    phase: HaShutdownPhase::Service,
                    cause: HaShutdownCause::Source(error),
                    ingress: evidence.ingress,
                    tasks: evidence.tasks,
                    mutation: MutationCertainty::Uncertain {
                        local_io: true,
                        recorder_rpc: true,
                        activation: false,
                    },
                }
            },
        }
    }
}

/// The node error that a failure of the owner amounts to.
pub fn shutdown_owner_error(error: OwnerError, evidence: ShutdownEvidence) -> (node: HaNodeError)
    requires
        error.well_formed(),
    ensures
        node == error.node_error(evidence),
{
    match error {
        OwnerError::Shutdown(error) => shutdown_owner_shutdown_error(error, evidence),
        OwnerError::Failure(error) => if error.kind == SourceErrorKind::UnknownConsensusOutcome {
            HaNodeError::ShutdownIncomplete {
                phase: HaShutdownPhase::Service,
                cause: HaShutdownCause::RecorderOutcomeUnknown,
                ingress: evidence.ingress,
                tasks: evidence.tasks,
                mutation: MutationCertainty::Uncertain {
                    local_io: false,
                    recorder_rpc: true,
                    activation: false,
                },
            }
        } else {
            HaNodeError::ShutdownIncomplete {
                phase: HaShutdownPhase::Service,
                cause: HaShutdownCause::Source(error),
                ingress: evidence.ingress,
                tasks: evidence.tasks,
                mutation: MutationCertainty::Uncertain {
                    local_io: true,
                    recorder_rpc: true,
                    activation: false,
                },
            }
        },
    }
}

/// The node error for a failed shutdown of the owner: its own failure first,
/// then each failure that followed.
pub fn shutdown_owner_shutdown_error(error: ShutdownError, evidence: ShutdownEvidence) -> (node:
    HaNodeError)
    requires
        error.well_formed(),
    ensures
        node == error.node_error(evidence),
    decreases error,
{
    let ghost whole = error;
    let ShutdownError { phase: lower_phase, cause, cleanup, task_source } = error;
    let phase = lower_phase.node_phase();
    let mut node = match cause {
        ShutdownCause::DeadlineExceeded => lower_shutdown_deadline_error(phase, evidence),
        ShutdownCause::RecorderOutcomeUnknown => HaNodeError::ShutdownIncomplete {
            phase,
            cause: HaShutdownCause::RecorderOutcomeUnknown,
            ingress: evidence.ingress,
            tasks: evidence.tasks,
            mutation: MutationCertainty::Uncertain {
                local_io: phase == HaShutdownPhase::InFlightOperations || phase
                    == HaShutdownPhase::BackgroundWorkers || phase
                    == HaShutdownPhase::AppliedTipFlush,
                recorder_rpc: true,
                activation: false,
            },
        },
        ShutdownCause::Source(error) => HaNodeError::ShutdownIncomplete {
            phase,
            cause: HaShutdownCause::Source(error),
            ingress: evidence.ingress,
            tasks: evidence.tasks,
            mutation: lower_shutdown_mutation(phase),
        },
        ShutdownCause::TaskFailure => HaNodeError::ShutdownIncomplete {
            phase,
            cause: HaShutdownCause::TaskFailure(
                task_source.expect("task-failure shutdown errors retain their worker receipt"),
            ),
            ingress: evidence.ingress,
            tasks: evidence.tasks,
            mutation: lower_shutdown_mutation(phase),
        },
    };
    let mut rest = cleanup;
    let ghost mut taken: int = 0;
    while rest.len() > 0
        invariant
            whole == error,
            whole.well_formed(),
            0 <= taken <= whole.cleanup@.len(),
            rest@ == whole.cleanup@.skip(taken),
            node == whole.node_error_with(evidence, taken as nat),
        decreases rest.len(),
    {
        let followed = rest.remove(0);
        proof {
            assert(followed == whole.cleanup@[taken]);
            assert(whole.cleanup@.skip(taken).remove(0) =~= whole.cleanup@.skip(taken + 1));
            assert(decreases_to!(whole => whole.cleanup@[taken]));
        }
        let later = shutdown_owner_shutdown_error(followed, evidence);
        proof {
            taken = taken + 1;
        }
        node = HaNodeError::Cleanup { primary: Box::new(node), cleanup: Box::new(later) };
    }
    node
}

/// The error for a phase of the owner that ran into its deadline.
pub fn lower_shutdown_deadline_error(phase: HaShutdownPhase, evidence: ShutdownEvidence) -> (error:
    HaNodeError)
    ensures
        error == (HaNodeError::ShutdownDeadlineExceeded {
            phase,
            ingress: evidence.ingress,
            tasks: evidence.tasks,
            mutation: crate::evidence::lower_mutation(phase),
        }),
{
    HaNodeError::ShutdownDeadlineExceeded {
        phase,
        ingress: evidence.ingress,
        tasks: evidence.tasks,
        mutation: lower_shutdown_mutation(phase),
    }
}

/// Whatever followed it, the owner's own failure stays the root.
pub proof fn law_owner_failure_stays_primary(error: ShutdownError, evidence: ShutdownEvidence)
    ensures
        error.node_error(evidence).root() == error.own_error(evidence),
{
    lemma_own_error_is_root(error, evidence, error.cleanup@.len());
}

proof fn lemma_own_error_is_root(error: ShutdownError, evidence: ShutdownEvidence, count: nat)
    ensures
        error.node_error_with(evidence, count).root() == error.own_error(evidence),
    decreases count,
{
    if count > 0 && count <= error.cleanup@.len() {
        lemma_own_error_is_root(error, evidence, (count - 1) as nat);
    }
}

/// This failure reports a shutdown and claims exactly this evidence.
pub open spec fn carries(error: HaNodeError, evidence: ShutdownEvidence) -> bool {
    match error {
        HaNodeError::ShutdownDeadlineExceeded { ingress, tasks, .. } => ingress == evidence.ingress
            && tasks == evidence.tasks,
        HaNodeError::ShutdownIncomplete { ingress, tasks, .. } => ingress == evidence.ingress
            && tasks == evidence.tasks,
        _ => false,
    }
}

/// Every failure that an owner failure amounts to carries the evidence that it
/// was given: a failed owner never turns into a claim that ingress closed or
/// tasks quiesced.
pub proof fn law_owner_failure_carries_the_evidence(error: OwnerError, evidence: ShutdownEvidence)
    ensures
        forall|i: int|
            0 <= i < error.node_error(evidence).leaves().len() ==> carries(
                #[trigger] error.node_error(evidence).leaves()[i],
                evidence,
            ),
{
    if let OwnerError::Shutdown(inner) = error {
        lemma_leaves_carry_the_evidence(inner, evidence, inner.cleanup@.len());
    }
}

proof fn lemma_leaves_carry_the_evidence(
    error: ShutdownError,
    evidence: ShutdownEvidence,
    count: nat,
)
    ensures
        forall|i: int|
            0 <= i < error.node_error_with(evidence, count).leaves().len() ==> carries(
                #[trigger] error.node_error_with(evidence, count).leaves()[i],
                evidence,
            ),
    decreases error, count,
{
    if count > 0 && count <= error.cleanup@.len() {
        let followed = error.cleanup@[count - 1];
        let earlier = error.node_error_with(evidence, (count - 1) as nat);
        let later = followed.node_error_with(evidence, followed.cleanup@.len());
        assert(decreases_to!(error => error.cleanup@[count - 1]));
        lemma_leaves_carry_the_evidence(error, evidence, (count - 1) as nat);
        lemma_leaves_carry_the_evidence(followed, evidence, followed.cleanup@.len());
        let whole = error.node_error_with(evidence, count);
        assert(whole.leaves() == earlier.leaves() + later.leaves());
        assert forall|i: int| 0 <= i < whole.leaves().len() implies carries(
            #[trigger] whole.leaves()[i],
            evidence,
        ) by {
            if i < earlier.leaves().len() {
                assert(whole.leaves()[i] == earlier.leaves()[i]);
            } else {
                assert(whole.leaves()[i] == later.leaves()[i - earlier.leaves().len()]);
            }
        }
    }
}

/// The evidence that a report of a shutdown carries, and the mutations that it
/// holds possible.
pub open spec fn reports(
    error: HaNodeError,
    phase: HaShutdownPhase,
    evidence: ShutdownEvidence,
    local_io: bool,
    recorder_rpc: bool,
) -> bool {
    match error {
        HaNodeError::ShutdownDeadlineExceeded { phase: during, ingress, tasks, mutation } => {
            during == phase && ingress == evidence.ingress && tasks == evidence.tasks && mutation
                == (MutationCertainty::Uncertain { local_io, recorder_rpc, activation: false })
        },
        HaNodeError::ShutdownIncomplete { phase: during, ingress, tasks, mutation, .. } => {
            during == phase && ingress == evidence.ingress && tasks == evidence.tasks && mutation
                == (MutationCertainty::Uncertain { local_io, recorder_rpc, activation: false })
        },
        _ => false,
    }
}

/// A failed shutdown of the owner is reported for its own phase and cause.
/// Local I/O may always be in flight; a request to a recorder may be where
/// operations were, and wherever the outcome of one is unknown; an activation
/// never is.
pub proof fn law_an_owner_failure_is_reported_for_its_phase_and_cause(
    error: ShutdownError,
    evidence: ShutdownEvidence,
)
    ensures
        reports(
            error.own_error(evidence),
            match error.phase {
                ShutdownPhase::InFlightOperations => HaShutdownPhase::InFlightOperations,
                ShutdownPhase::BackgroundWorkers => HaShutdownPhase::BackgroundWorkers,
                ShutdownPhase::AppliedTipFlush => HaShutdownPhase::AppliedTipFlush,
            },
            evidence,
            true,
            error.phase == ShutdownPhase::InFlightOperations || error.cause
                is RecorderOutcomeUnknown,
        ),
        error.own_error(evidence) is ShutdownDeadlineExceeded <==> error.cause is DeadlineExceeded,
        error.own_error(evidence) matches HaNodeError::ShutdownIncomplete { cause, .. }
            ==> match error.cause {
            ShutdownCause::DeadlineExceeded => false,
            ShutdownCause::RecorderOutcomeUnknown => cause is RecorderOutcomeUnknown,
            ShutdownCause::Source(source) => cause == HaShutdownCause::Source(source),
            ShutdownCause::TaskFailure => error.task_source is Some ==> cause
                == HaShutdownCause::TaskFailure(error.task_source->0),
        },
{
}

/// A failure of the owner that is no failed shutdown leaves the service
/// unaccounted for: an outcome of consensus that nobody knows may still reach a
/// recorder, and any other failure may leave local I/O too.
pub proof fn law_an_owner_that_fails_outright_leaves_the_service_unaccounted_for(
    source: SourceError,
    evidence: ShutdownEvidence,
)
    ensures
        reports(
            OwnerError::Failure(source).node_error(evidence),
            HaShutdownPhase::Service,
            evidence,
            source.kind != SourceErrorKind::UnknownConsensusOutcome,
            true,
        ),
        OwnerError::Failure(source).node_error(evidence) matches HaNodeError::ShutdownIncomplete {
            cause,
            ..
        } && if source.kind == SourceErrorKind::UnknownConsensusOutcome {
            cause is RecorderOutcomeUnknown
        } else {
            cause == HaShutdownCause::Source(source)
        },
{
}

/// Every failure that followed the owner's own is added to it, in the order in
/// which they came, each with what followed it in turn.
pub proof fn law_what_followed_an_owner_failure_is_added_in_order(
    error: ShutdownError,
    evidence: ShutdownEvidence,
    count: nat,
)
    ensures
        error.cleanup@.len() == 0 ==> error.node_error(evidence) == error.own_error(evidence),
        error.node_error_with(evidence, 0) == error.own_error(evidence),
        count < error.cleanup@.len() ==> (error.node_error_with(evidence, count + 1) matches
            HaNodeError::Cleanup { primary, cleanup } && *primary == error.node_error_with(
            evidence,
            count,
        ) && *cleanup == error.cleanup@[count as int].node_error(evidence)),
        error.node_error(evidence) == error.node_error_with(evidence, error.cleanup@.len()),
        OwnerError::Shutdown(error).node_error(evidence) == error.node_error(evidence),
{
    reveal_with_fuel(ShutdownError::node_error_with, 2);
}

/// A phase of the owner is reported under its own name, and one that ran into
/// its deadline with the evidence that there is and the mutations that the
/// phase leaves.
pub proof fn law_a_late_phase_is_reported_as_itself(
    own: ShutdownPhase,
    phase: HaShutdownPhase,
    evidence: ShutdownEvidence,
    error: HaNodeError,
)
    requires
        call_ensures(lower_shutdown_deadline_error, (phase, evidence), error),
    ensures
        own is InFlightOperations <==> own.node_phase() is InFlightOperations,
        own is BackgroundWorkers <==> own.node_phase() is BackgroundWorkers,
        own is AppliedTipFlush <==> own.node_phase() is AppliedTipFlush,
        error is ShutdownDeadlineExceeded,
        error->ShutdownDeadlineExceeded_phase == phase,
        error->ShutdownDeadlineExceeded_ingress == evidence.ingress,
        error->ShutdownDeadlineExceeded_tasks == evidence.tasks,
        error->ShutdownDeadlineExceeded_mutation == crate::evidence::lower_mutation(phase),
{
}

} // verus!
