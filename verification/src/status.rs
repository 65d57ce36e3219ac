//! What a node publishes about itself, and the dispositions that a shutdown
//! can claim.
use vstd::prelude::*;

verus! {

/// How a node comes up.
#[derive(Clone, Copy, Debug, PartialEq, Eq, Structural)]
pub enum HaStartupMode {
    Bootstrap,
    Rejoin,
    Disaster,
}

/// The published lifecycle status of a node.
#[derive(Clone, Copy, Debug, PartialEq, Eq, Structural)]
pub enum HaNodeStatus {
    Starting,
    Restoring,
    CatchingUp,
    PreStopReady,
    Transitioning,
    AwaitingActivation,
    Ready,
    Degraded,
    ShuttingDown,
    Stopped,
    Failed,
}

/// The part of the node that a shutdown failure is about.
#[derive(Clone, Copy, Debug, PartialEq, Eq, Structural)]
pub enum HaShutdownPhase {
    Ingress,
    Startup,
    Rehydrate,
    Activation,
    Service,
    Supervisor,
    InFlightOperations,
    BackgroundWorkers,
    AppliedTipFlush,
}

impl HaShutdownPhase {
    /// The variant's name.
    pub open spec fn spec_name(self) -> Seq<char> {
        match self {
            HaShutdownPhase::Ingress => "Ingress"@,
            HaShutdownPhase::Startup => "Startup"@,
            HaShutdownPhase::Rehydrate => "Rehydrate"@,
            HaShutdownPhase::Activation => "Activation"@,
            HaShutdownPhase::Service => "Service"@,
            HaShutdownPhase::Supervisor => "Supervisor"@,
            HaShutdownPhase::InFlightOperations => "InFlightOperations"@,
            HaShutdownPhase::BackgroundWorkers => "BackgroundWorkers"@,
            HaShutdownPhase::AppliedTipFlush => "AppliedTipFlush"@,
        }
    }

    /// The variant's name.
    pub fn name(self) -> (name: &'static str)
        ensures
            name@ == self.spec_name(),
    {
        match self {
            HaShutdownPhase::Ingress => "Ingress",
            HaShutdownPhase::Startup => "Startup",
            HaShutdownPhase::Rehydrate => "Rehydrate",
            HaShutdownPhase::Activation => "Activation",
            HaShutdownPhase::Service => "Service",
            HaShutdownPhase::Supervisor => "Supervisor",
            HaShutdownPhase::InFlightOperations => "InFlightOperations",
            HaShutdownPhase::BackgroundWorkers => "BackgroundWorkers",
            HaShutdownPhase::AppliedTipFlush => "AppliedTipFlush",
        }
    }
}

/// What is known of the listeners that a cleanup path covers.
#[derive(Clone, Copy, Debug, PartialEq, Eq, Structural)]
pub enum IngressDisposition {
    Uncertain,
    Closed,
    Open,
}

/// What is known of the tasks that a cleanup path covers.
#[derive(Clone, Copy, Debug, PartialEq, Eq, Structural)]
pub enum TaskDisposition {
    Uncertain,
    Quiesced,
}

/// Which mutations may still be in flight.
#[derive(Clone, Copy, Debug, PartialEq, Eq, Structural)]
pub enum MutationCertainty {
    Quiesced,
    Uncertain { local_io: bool, recorder_rpc: bool, activation: bool },
}

/// Stands for the application handle of one opened node.
#[derive(Clone, Copy, Debug, PartialEq, Eq, Structural)]
pub struct RhizaHandle {
    pub id: u64,
}

/// Every part of a node has a name of its own, that of its variant.
pub proof fn law_a_part_is_known_by_its_name(
    left: HaShutdownPhase,
    right: HaShutdownPhase,
    left_name: &'static str,
    right_name: &'static str,
)
    requires
        call_ensures(HaShutdownPhase::name, (left,), left_name),
        call_ensures(HaShutdownPhase::name, (right,), right_name),
    ensures
        left_name@ == right_name@ <==> left == right,
        left is Ingress <==> left_name@ == "Ingress"@,
        left is Startup <==> left_name@ == "Startup"@,
        left is Rehydrate <==> left_name@ == "Rehydrate"@,
        left is Activation <==> left_name@ == "Activation"@,
        left is Service <==> left_name@ == "Service"@,
        left is Supervisor <==> left_name@ == "Supervisor"@,
        left is InFlightOperations <==> left_name@ == "InFlightOperations"@,
        left is BackgroundWorkers <==> left_name@ == "BackgroundWorkers"@,
        left is AppliedTipFlush <==> left_name@ == "AppliedTipFlush"@,
{
    reveal_strlit("Ingress");
    reveal_strlit("Startup");
    reveal_strlit("Rehydrate");
    reveal_strlit("Activation");
    reveal_strlit("Service");
    reveal_strlit("Supervisor");
    reveal_strlit("InFlightOperations");
    reveal_strlit("BackgroundWorkers");
    reveal_strlit("AppliedTipFlush");
    assert("Ingress"@[0] == 'I' && "Ingress"@[2] == 'g' && "Ingress"@.len() == 7);
    assert("Startup"@[0] == 'S' && "Startup"@[1] == 't' && "Startup"@.len() == 7);
    assert("Rehydrate"@[0] == 'R' && "Rehydrate"@.len() == 9);
    assert("Activation"@[0] == 'A' && "Activation"@[1] == 'c' && "Activation"@.len() == 10);
    assert("Service"@[0] == 'S' && "Service"@[1] == 'e' && "Service"@.len() == 7);
    assert("Supervisor"@[0] == 'S' && "Supervisor"@[1] == 'u' && "Supervisor"@.len() == 10);
    assert("InFlightOperations"@.len() == 18);
    assert("BackgroundWorkers"@.len() == 17);
    assert("AppliedTipFlush"@.len() == 15);
}

} // verus!
