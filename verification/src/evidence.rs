//! Shutdown evidence: what the listener and task owners have receipted.
use crate::status::{HaShutdownPhase, IngressDisposition, MutationCertainty, TaskDisposition};
use vstd::prelude::*;

verus! {

/// The claim that one or more owners make about their listeners and tasks.
#[derive(Clone, Copy, Debug, PartialEq, Eq, Structural)]
pub struct ShutdownEvidence {
    pub ingress: IngressDisposition,
    pub tasks: TaskDisposition,
}

/// Nothing is known.
#[verifier::allow_in_spec]
pub fn uncertain_shutdown_evidence() -> (evidence: ShutdownEvidence)
    returns
        (ShutdownEvidence {
            ingress: IngressDisposition::Uncertain,
            tasks: TaskDisposition::Uncertain,
        }),
{
    ShutdownEvidence { ingress: IngressDisposition::Uncertain, tasks: TaskDisposition::Uncertain }
}

/// No service ingress ever accepted and no service task ever ran.
#[verifier::allow_in_spec]
pub fn pre_service_shutdown_evidence() -> (evidence: ShutdownEvidence)
    returns
        (ShutdownEvidence {
            ingress: IngressDisposition::Closed,
            tasks: TaskDisposition::Quiesced,
        }),
{
    ShutdownEvidence { ingress: IngressDisposition::Closed, tasks: TaskDisposition::Quiesced }
}

/// Every kind of mutation may still be in flight.
#[verifier::allow_in_spec]
pub fn conservative_shutdown_mutation() -> (mutation: MutationCertainty)
    returns
        (MutationCertainty::Uncertain { local_io: true, recorder_rpc: true, activation: true }),
{
    MutationCertainty::Uncertain { local_io: true, recorder_rpc: true, activation: true }
}

impl ShutdownEvidence {
    /// Every owner has receipted both its listener and its tasks.
    pub open spec fn complete(self) -> bool {
        self.ingress == IngressDisposition::Closed && self.tasks == TaskDisposition::Quiesced
    }

    /// Each claim of `self` is also a claim of `other`.
    pub open spec fn claims_no_more_than(self, other: ShutdownEvidence) -> bool {
        &&& self.ingress == IngressDisposition::Closed ==> other.ingress
            == IngressDisposition::Closed
        &&& self.tasks == TaskDisposition::Quiesced ==> other.tasks == TaskDisposition::Quiesced
    }

    /// What holds of two owners together.
    pub open spec fn merged(self, other: ShutdownEvidence) -> ShutdownEvidence {
        ShutdownEvidence {
            ingress: if self.ingress == IngressDisposition::Closed && other.ingress
                == IngressDisposition::Closed {
                IngressDisposition::Closed
            } else {
                IngressDisposition::Uncertain
            },
            tasks: if self.tasks == TaskDisposition::Quiesced && other.tasks
                == TaskDisposition::Quiesced {
                TaskDisposition::Quiesced
            } else {
                TaskDisposition::Uncertain
            },
        }
    }

    /// What holds of `self` together with an owner that may not exist.
    pub open spec fn merged_with(self, additional: Option<ShutdownEvidence>) -> ShutdownEvidence {
        match additional {
            Some(additional) => self.merged(additional),
            None => self,
        }
    }

    /// The evidence after an owner below failed to quiesce.
    pub open spec fn owner_downgraded(self) -> ShutdownEvidence {
        ShutdownEvidence { ingress: self.ingress, tasks: TaskDisposition::Uncertain }
    }
}

/// Closed only where the listener's end was observed.
#[verifier::allow_in_spec]
pub fn ingress_after_service_wait(listener_ended: bool) -> (ingress: IngressDisposition)
    returns
        (if listener_ended {
            IngressDisposition::Closed
        } else {
            IngressDisposition::Uncertain
        }),
{
    if listener_ended {
        IngressDisposition::Closed
    } else {
        IngressDisposition::Uncertain
    }
}

/// A shutdown claim is only as strong as every owner it covers; an owner that
/// has no receipt cannot be made up for here.
pub fn merge_shutdown_evidence(
    primary: ShutdownEvidence,
    additional: Option<ShutdownEvidence>,
) -> (merged: ShutdownEvidence)
    ensures
        merged == primary.merged_with(additional),
{
    match additional {
        None => primary,
        Some(additional) => ShutdownEvidence {
            ingress: if primary.ingress == IngressDisposition::Closed && additional.ingress
                == IngressDisposition::Closed {
                IngressDisposition::Closed
            } else {
                IngressDisposition::Uncertain
            },
            tasks: if primary.tasks == TaskDisposition::Quiesced && additional.tasks
                == TaskDisposition::Quiesced {
                TaskDisposition::Quiesced
            } else {
                TaskDisposition::Uncertain
            },
        },
    }
}

/// The evidence of two owners either of which may not exist.
pub open spec fn merged_optional(
    primary: Option<ShutdownEvidence>,
    additional: Option<ShutdownEvidence>,
) -> Option<ShutdownEvidence> {
    match primary {
        Some(primary) => Some(primary.merged_with(additional)),
        None => additional,
    }
}

/// Merges the evidence of two owners either of which may not exist.
pub fn merge_optional_shutdown_evidence(
    primary: Option<ShutdownEvidence>,
    additional: Option<ShutdownEvidence>,
) -> (merged: Option<ShutdownEvidence>)
    ensures
        merged == merged_optional(primary, additional),
{
    match primary {
        Some(primary) => Some(merge_shutdown_evidence(primary, additional)),
        None => additional,
    }
}

/// A failed owner may leave work unresolved below ingress whose drain
/// succeeded: its evidence loses the claim about tasks.
pub fn downgrade_tasks_for_owner_cleanup(evidence: ShutdownEvidence) -> (downgraded:
    ShutdownEvidence)
    ensures
        downgraded == evidence.owner_downgraded(),
{
    ShutdownEvidence { ingress: evidence.ingress, tasks: TaskDisposition::Uncertain }
}

/// The mutations that an owner's unfinished phase may leave in flight.
pub open spec fn lower_mutation(phase: HaShutdownPhase) -> MutationCertainty {
    MutationCertainty::Uncertain {
        local_io: phase == HaShutdownPhase::InFlightOperations || phase
            == HaShutdownPhase::BackgroundWorkers || phase == HaShutdownPhase::AppliedTipFlush,
        recorder_rpc: phase == HaShutdownPhase::InFlightOperations,
        activation: false,
    }
}

/// The mutations that an owner's unfinished phase may leave in flight.
pub fn lower_shutdown_mutation(phase: HaShutdownPhase) -> (mutation: MutationCertainty)
    ensures
        mutation == lower_mutation(phase),
{
    MutationCertainty::Uncertain {
        local_io: phase == HaShutdownPhase::InFlightOperations || phase
            == HaShutdownPhase::BackgroundWorkers || phase == HaShutdownPhase::AppliedTipFlush,
        recorder_rpc: phase == HaShutdownPhase::InFlightOperations,
        activation: false,
    }
}

/// The order in which two owners report makes no difference.
pub proof fn law_merge_is_commutative(left: ShutdownEvidence, right: ShutdownEvidence)
    ensures
        left.merged(right) == right.merged(left),
{
}

/// The grouping in which owners report makes no difference, an owner that
/// does not exist included.
pub proof fn law_merge_is_associative(
    first: Option<ShutdownEvidence>,
    second: Option<ShutdownEvidence>,
    third: Option<ShutdownEvidence>,
)
    ensures
        merged_optional(merged_optional(first, second), third) == merged_optional(
            first,
            merged_optional(second, third),
        ),
{
}

/// A merge never claims more than any owner in it, and claims completion only
/// where every owner does.
pub proof fn law_merge_never_strengthens(
    primary: ShutdownEvidence,
    additional: Option<ShutdownEvidence>,
)
    ensures
        primary.merged_with(additional).claims_no_more_than(primary),
        additional is Some ==> primary.merged_with(additional).claims_no_more_than(additional->0),
        primary.merged_with(additional).complete() <==> (primary.complete() && (additional is Some
            ==> additional->0.complete())),
{
}

/// The strongest claim that a set of owners can make is one that nobody in it
/// contradicts: complete evidence is neutral, uncertain evidence absorbs.
pub proof fn law_merge_neutral_and_absorbing(evidence: ShutdownEvidence)
    ensures
        evidence.ingress != IngressDisposition::Open ==> evidence.merged(
            pre_service_shutdown_evidence(),
        ) == evidence,
        evidence.merged(uncertain_shutdown_evidence()) == uncertain_shutdown_evidence(),
{
}

/// An owner failure leaves no claim about tasks, whatever is merged with it
/// afterwards, and a second failure changes nothing more.
pub proof fn law_owner_downgrade_is_final(
    evidence: ShutdownEvidence,
    additional: Option<ShutdownEvidence>,
)
    ensures
        evidence.owner_downgraded().tasks == TaskDisposition::Uncertain,
        evidence.owner_downgraded().merged_with(additional).tasks == TaskDisposition::Uncertain,
        evidence.owner_downgraded().claims_no_more_than(evidence),
        evidence.owner_downgraded().owner_downgraded() == evidence.owner_downgraded(),
{
}

/// The claims that the node starts from: nothing is claimed where nothing is
/// known, everything where no service ever ran, and a deadline that passed
/// leaves every mutation possible.
pub proof fn law_nothing_is_claimed_that_is_not_known(listener_ended: bool)
    ensures
        uncertain_shutdown_evidence().ingress == IngressDisposition::Uncertain,
        uncertain_shutdown_evidence().tasks == TaskDisposition::Uncertain,
        pre_service_shutdown_evidence().complete(),
        conservative_shutdown_mutation() == (MutationCertainty::Uncertain {
            local_io: true,
            recorder_rpc: true,
            activation: true,
        }),
        ingress_after_service_wait(listener_ended) == IngressDisposition::Closed <==> listener_ended,
        ingress_after_service_wait(listener_ended) != IngressDisposition::Open,
{
}

/// What an owner's unfinished phase leaves in flight: local I/O in each of its
/// three phases, a request to a recorder only while operations are in flight,
/// and never an activation. A phase above the owner leaves nothing of the kind.
pub proof fn law_an_unfinished_phase_leaves_its_own_mutations(phase: HaShutdownPhase)
    ensures
        lower_mutation(phase) matches MutationCertainty::Uncertain {
            local_io,
            recorder_rpc,
            activation,
        } && (recorder_rpc <==> phase == HaShutdownPhase::InFlightOperations) && (local_io
            <==> phase == HaShutdownPhase::InFlightOperations || phase
            == HaShutdownPhase::BackgroundWorkers || phase == HaShutdownPhase::AppliedTipFlush)
            && !activation,
{
}

/// Two owners together claim a closed listener exactly where both do, and
/// quiesced tasks exactly where both do; one claim never depends on the other.
pub proof fn law_a_merge_claims_what_both_claim(left: ShutdownEvidence, right: ShutdownEvidence)
    ensures
        left.merged(right).ingress == IngressDisposition::Closed <==> left.ingress
            == IngressDisposition::Closed && right.ingress == IngressDisposition::Closed,
        left.merged(right).tasks == TaskDisposition::Quiesced <==> left.tasks
            == TaskDisposition::Quiesced && right.tasks == TaskDisposition::Quiesced,
        left.merged(right).ingress != IngressDisposition::Open,
        left.merged_with(Some(right)) == left.merged(right),
        left.merged_with(None) == left,
        merged_optional(Some(left), Some(right)) == Some(left.merged(right)),
        merged_optional(Some(left), None) == Some(left),
        merged_optional(None, Some(right)) == Some(right),
        merged_optional(None, None) is None,
        left.owner_downgraded().ingress == left.ingress,
{
}

/// Evidence is merged the same way by every function that merges it: two pieces
/// claim only what both claim, and one alone claims what it does.
pub proof fn law_evidence_is_merged_alike(
    left: ShutdownEvidence,
    right: ShutdownEvidence,
    merged: ShutdownEvidence,
    both: Option<ShutdownEvidence>,
    alone: Option<ShutdownEvidence>,
    late: Option<ShutdownEvidence>,
    none: Option<ShutdownEvidence>,
)
    requires
        call_ensures(merge_shutdown_evidence, (left, Some(right)), merged),
        call_ensures(merge_optional_shutdown_evidence, (Some(left), Some(right)), both),
        call_ensures(merge_optional_shutdown_evidence, (Some(left), None), alone),
        call_ensures(merge_optional_shutdown_evidence, (None, Some(right)), late),
        call_ensures(merge_optional_shutdown_evidence, (None, None), none),
    ensures
        both == Some(merged),
        alone == Some(left),
        late == Some(right),
        none is None,
        merged.tasks is Quiesced <==> left.tasks is Quiesced && right.tasks is Quiesced,
        merged.ingress is Closed <==> left.ingress is Closed && right.ingress is Closed,
        merged == left.merged_with(Some(right)),
{
}

} // verus!
