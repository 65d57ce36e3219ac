//! The stage of a successor: what it is made with, which transition it
//! belongs to, and when it may go on.
use crate::binding::{
    validate_live_successor_draft, validate_predecessor_binding, LiveSuccessorDraft, StopReading,
};
use crate::config::{ArchiveHandle, CheckpointIdentity, ExecutionProfile, Membership, NodeConfig};
use crate::error::{fail, HaStartupError};
use crate::live_successor::LiveSuccessor;
use crate::log::{LogAnchor, LogHash};
use crate::node::HaSuccessorNode;
use crate::startup::{HaServeConfig, HaStartupConfig, SuccessorServeConfig};
use crate::status::HaStartupMode;
use crate::text::{decimal_text, joined};
use vstd::prelude::*;

verus! {

/// What a successor is staged with. The connections to the predecessor's
/// recorders stay with the embedding application.
pub struct HaSuccessorPrestageConfig {
    /// The archive of the predecessor's checkpoints.
    pub archive: ArchiveHandle,
    pub prestage_dir: String,
    pub target_node_id: String,
    pub execution_profile: ExecutionProfile,
    pub predecessor_membership: Membership,
    pub target_membership: Membership,
    pub tail_token: String,
    /// The predecessor's recorders are asked for effects.
    pub effect_consensus: bool,
}

/// Who may read which certified tail.
pub struct TailReaderConfig {
    pub cluster_id: String,
    pub epoch: u64,
    pub config_id: u64,
    pub membership: Membership,
    pub recovery_generation: u64,
    pub tail_token: String,
}

impl TailReaderConfig {
    /// The two let the same readers read the same tail.
    pub open spec fn same_as(self, other: TailReaderConfig) -> bool {
        &&& self.cluster_id@ == other.cluster_id@
        &&& self.epoch == other.epoch
        &&& self.config_id == other.config_id
        &&& self.membership.same_as(other.membership)
        &&& self.recovery_generation == other.recovery_generation
        &&& self.tail_token@ == other.tail_token@
    }
}

/// This is the tail that a node opened for `target_config_id` serves to those
/// who hold `tail_token`.
pub open spec fn is_served_tail(
    tail: TailReaderConfig,
    config: NodeConfig,
    target_config_id: u64,
    tail_token: Seq<char>,
) -> bool {
    &&& tail.cluster_id@ == config.cluster_id@
    &&& tail.epoch == config.epoch
    &&& tail.config_id == target_config_id
    &&& tail.membership.same_as(config.membership)
    &&& tail.recovery_generation == config.recovery_generation
    &&& tail.tail_token@ == tail_token
}

/// The tail that a node opened for `target_config_id` serves.
pub fn certified_tail_config(
    config: &NodeConfig,
    target_config_id: u64,
    tail_token: &str,
) -> (tail: TailReaderConfig)
    ensures
        is_served_tail(tail, *config, target_config_id, tail_token@),
{
    TailReaderConfig {
        cluster_id: config.cluster_id.clone(),
        epoch: config.epoch,
        config_id: target_config_id,
        membership: config.membership.clone(),
        recovery_generation: config.recovery_generation,
        tail_token: tail_token.to_owned(),
    }
}

/// How a stage is made from the predecessor's checkpoint.
pub struct PrestagePlan {
    pub archive: ArchiveHandle,
    pub prestage_dir: String,
    pub predecessor_config_id: u64,
    pub predecessor_digest: LogHash,
    pub target_node_id: String,
    pub execution_profile: ExecutionProfile,
    pub target_config_id: u64,
    pub target_digest: LogHash,
    pub tail_config: TailReaderConfig,
    pub effect_consensus: bool,
}

/// How far a stage is.
#[derive(Clone, Copy, Debug, PartialEq, Eq, Structural)]
pub enum SuccessorPrestageState {
    /// It is still being made.
    Preparing,
    Ready,
    Published,
    Finalized,
}

/// Which transition a stage belongs to.
#[derive(Debug, PartialEq, Eq)]
pub struct HaSuccessorPrestageIdentity {
    pub cluster_id: String,
    pub epoch: u64,
    pub predecessor_config_id: u64,
    pub predecessor_membership_digest: LogHash,
    pub predecessor_recovery_generation: u64,
    pub node_id: String,
    pub execution_profile: ExecutionProfile,
    pub target_config_id: u64,
    pub target_membership_digest: LogHash,
    pub seed_anchor: LogAnchor,
}

impl HaSuccessorPrestageIdentity {
    pub fn cluster_id(&self) -> (cluster_id: &str)
        ensures
            cluster_id@ == self.cluster_id@,
    {
        self.cluster_id.as_str()
    }

    pub fn epoch(&self) -> (epoch: u64)
        ensures
            epoch == self.epoch,
    {
        self.epoch
    }

    pub fn predecessor_config_id(&self) -> (config_id: u64)
        ensures
            config_id == self.predecessor_config_id,
    {
        self.predecessor_config_id
    }

    pub fn predecessor_membership_digest(&self) -> (digest: LogHash)
        ensures
            digest == self.predecessor_membership_digest,
    {
        self.predecessor_membership_digest
    }

    pub fn predecessor_recovery_generation(&self) -> (generation: u64)
        ensures
            generation == self.predecessor_recovery_generation,
    {
        self.predecessor_recovery_generation
    }

    pub fn node_id(&self) -> (node_id: &str)
        ensures
            node_id@ == self.node_id@,
    {
        self.node_id.as_str()
    }

    pub fn execution_profile(&self) -> (profile: ExecutionProfile)
        ensures
            profile == self.execution_profile,
    {
        self.execution_profile
    }

    pub fn target_config_id(&self) -> (config_id: u64)
        ensures
            config_id == self.target_config_id,
    {
        self.target_config_id
    }

    pub fn target_membership_digest(&self) -> (digest: LogHash)
        ensures
            digest == self.target_membership_digest,
    {
        self.target_membership_digest
    }

    pub fn seed_anchor(&self) -> (anchor: LogAnchor)
        ensures
            anchor == self.seed_anchor,
    {
        self.seed_anchor
    }
}

/// A request for a certified tail.
#[derive(Clone, Copy, Debug, PartialEq, Eq, Structural)]
pub struct CertifiedTailRequest {
    pub from: LogAnchor,
    pub max_entries: u32,
}

/// A request for at most `max_entries` entries after `from`, where that is
/// within what one request may ask for.
pub fn tail_request(from: LogAnchor, max_entries: u32, limit: u32) -> (request: Result<
    CertifiedTailRequest,
    HaStartupError,
>)
    ensures
        if 1 <= max_entries <= limit {
            request == Ok::<CertifiedTailRequest, HaStartupError>(
                CertifiedTailRequest { from, max_entries },
            )
        } else {
            request matches Err(error) && error.is_source(
                "certified tail max_entries must be in 1..="@ + crate::text::decimal(limit as nat),
            )
        },
{
    if max_entries == 0 || max_entries > limit {
        let bound = decimal_text(limit as u64);
        return Err(
            HaStartupError::Source(
                joined("certified tail max_entries must be in 1..=", bound.as_str()),
            ),
        );
    }
    Ok(CertifiedTailRequest { from, max_entries })
}

/// A stage that may be followed or published goes on; any other is refused.
pub fn require_resumable_successor_prestage(state: SuccessorPrestageState) -> (result: Result<
    (),
    HaStartupError,
>)
    ensures
        result is Ok <==> state == SuccessorPrestageState::Ready || state
            == SuccessorPrestageState::Published,
        result matches Err(error) ==> error.is_source(
            "successor prestage resume requires a ready or published stage"@,
        ),
{
    match state {
        SuccessorPrestageState::Ready | SuccessorPrestageState::Published => Ok(()),
        _ => Err(fail("successor prestage resume requires a ready or published stage")),
    }
}

/// A live successor that was just started.
pub struct StartedHaSuccessor {
    pub node: HaSuccessorNode,
    pub prestage: HaSuccessorPrestageConfig,
    pub startup: HaStartupConfig,
    pub serve: SuccessorServeConfig,
    pub live: LiveSuccessor,
}

impl HaSuccessorPrestageConfig {
    /// A stage that asks no recorders for effects.
    pub fn new(
        archive: ArchiveHandle,
        prestage_dir: String,
        target_node_id: String,
        execution_profile: ExecutionProfile,
        predecessor_membership: Membership,
        target_membership: Membership,
        tail_token: String,
    ) -> (config: Self)
        ensures
            config == (HaSuccessorPrestageConfig {
                archive,
                prestage_dir,
                target_node_id,
                execution_profile,
                predecessor_membership,
                target_membership,
                tail_token,
                effect_consensus: false,
            }),
    {
        HaSuccessorPrestageConfig {
            archive,
            prestage_dir,
            target_node_id,
            execution_profile,
            predecessor_membership,
            target_membership,
            tail_token,
            effect_consensus: false,
        }
    }

    /// Asks the predecessor's recorders for effects.
    pub fn with_effect_consensus(self) -> (config: Self)
        ensures
            config == (HaSuccessorPrestageConfig { effect_consensus: true, ..self }),
    {
        HaSuccessorPrestageConfig { effect_consensus: true, ..self }
    }

    /// The stage for the configuration right after that of the checkpoint.
    pub open spec fn plan(self, checkpoint_identity: CheckpointIdentity) -> PrestagePlan {
        PrestagePlan {
            archive: self.archive,
            prestage_dir: self.prestage_dir,
            predecessor_config_id: checkpoint_identity.config_id,
            predecessor_digest: self.predecessor_membership.digest,
            target_node_id: self.target_node_id,
            execution_profile: self.execution_profile,
            target_config_id: (checkpoint_identity.config_id + 1) as u64,
            target_digest: self.target_membership.digest,
            tail_config: TailReaderConfig {
                cluster_id: checkpoint_identity.cluster_id,
                epoch: checkpoint_identity.epoch,
                config_id: checkpoint_identity.config_id,
                membership: self.predecessor_membership,
                recovery_generation: checkpoint_identity.recovery_generation,
                tail_token: self.tail_token,
            },
            effect_consensus: self.effect_consensus,
        }
    }

    /// How the stage is made from the checkpoint with this identity: for the
    /// configuration right after the predecessor's.
    pub fn prepare(self, checkpoint_identity: CheckpointIdentity) -> (plan: Result<
        PrestagePlan,
        HaStartupError,
    >)
        ensures
            checkpoint_identity.config_id == u64::MAX ==> (plan matches Err(error)
                && error.is_source("successor prestage target config_id cannot advance"@)),
            checkpoint_identity.config_id < u64::MAX ==> plan == Ok::<PrestagePlan, HaStartupError>(
                self.plan(checkpoint_identity),
            ),
    {
        let target_config_id: u64 = match checkpoint_identity.config_id.checked_add(1) {
            Some(target) => target,
            None => {
                return Err(fail("successor prestage target config_id cannot advance"));
            },
        };
        let predecessor_digest = self.predecessor_membership.digest;
        Ok(
            PrestagePlan {
                archive: self.archive,
                prestage_dir: self.prestage_dir,
                predecessor_config_id: checkpoint_identity.config_id,
                predecessor_digest,
                target_node_id: self.target_node_id,
                execution_profile: self.execution_profile,
                target_config_id,
                target_digest: self.target_membership.digest,
                tail_config: TailReaderConfig {
                    cluster_id: checkpoint_identity.cluster_id,
                    epoch: checkpoint_identity.epoch,
                    config_id: checkpoint_identity.config_id,
                    membership: self.predecessor_membership,
                    recovery_generation: checkpoint_identity.recovery_generation,
                    tail_token: self.tail_token,
                },
                effect_consensus: self.effect_consensus,
            },
        )
    }

    /// Goes on with a stage that was found: with its own history, and with the
    /// predecessor's members as the application names them. It asks no
    /// recorders for effects.
    pub fn resume(
        state: SuccessorPrestageState,
        identity: HaSuccessorPrestageIdentity,
        predecessor_membership: Membership,
        tail_token: String,
    ) -> (prepared: Result<PreparedHaSuccessorPrestage, HaStartupError>)
        ensures
            state == SuccessorPrestageState::Ready || state == SuccessorPrestageState::Published
                ==> (prepared matches Ok(prepared) && prepared.identity == identity
                && prepared.tail_config.cluster_id@ == identity.cluster_id@
                && prepared.tail_config.epoch == identity.epoch && prepared.tail_config.config_id
                == identity.predecessor_config_id && prepared.tail_config.membership
                == predecessor_membership && prepared.tail_config.recovery_generation
                == identity.predecessor_recovery_generation && prepared.tail_config.tail_token
                == tail_token && !prepared.effect_consensus),
            state != SuccessorPrestageState::Ready && state != SuccessorPrestageState::Published
                ==> (prepared matches Err(error) && error.is_source(
                "successor prestage resume requires a ready or published stage"@,
            )),
    {
        match require_resumable_successor_prestage(state) {
            Ok(()) => {},
            Err(error) => {
                return Err(error);
            },
        }
        let tail_config = TailReaderConfig {
            cluster_id: identity.cluster_id.clone(),
            epoch: identity.epoch,
            config_id: identity.predecessor_config_id,
            membership: predecessor_membership,
            recovery_generation: identity.predecessor_recovery_generation,
            tail_token,
        };
        Ok(PreparedHaSuccessorPrestage { identity, tail_config, effect_consensus: false })
    }

    /// The draft that this stage and the two checkpoints make.
    pub open spec fn draft(
        self,
        source: CheckpointIdentity,
        target: CheckpointIdentity,
    ) -> LiveSuccessorDraft {
        LiveSuccessorDraft {
            source_identity: source,
            target_identity: target,
            target_node_id: self.target_node_id,
            execution_profile: self.execution_profile,
            target_membership: self.target_membership,
        }
    }

    /// Why a live successor cannot start with these, if it cannot.
    pub open spec fn refusal(
        self,
        startup: HaStartupConfig,
        serve: HaServeConfig,
        source: Result<CheckpointIdentity, String>,
        target: Result<CheckpointIdentity, String>,
    ) -> Option<Seq<char>> {
        if startup.mode != HaStartupMode::Rejoin || startup.predecessor is Some
            || !startup.node_config.configuration_state.spec_is_active() {
            Some("live successor requires an unbound active draft in rejoin mode"@)
        } else {
            match (source, target) {
                (Err(message), _) => Some(message@),
                (Ok(_), Err(message)) => Some(message@),
                (Ok(source), Ok(target)) => if !crate::binding::draft_is_consistent(
                    startup.node_config,
                    self.draft(source, target),
                ) {
                    Some(
                        "live successor draft, source checkpoint, and target checkpoint identities differ"@,
                    )
                } else if serve.service_listener == crate::activation::ServiceListener::Deferred {
                    Some(
                        "live successor cannot start from an internally deferred service listener"@,
                    )
                } else {
                    None
                },
            }
        }
    }

    /// Starts a live successor, where the stage, the startup and the two
    /// checkpoints describe one transition of this node: its owner sees it
    /// restoring, and its supervisor begins with the staging service, which
    /// takes the listener.
    pub fn start_live(
        self,
        startup: HaStartupConfig,
        serve: HaServeConfig,
        source: Result<CheckpointIdentity, String>,
        target: Result<CheckpointIdentity, String>,
    ) -> (started: Result<StartedHaSuccessor, HaStartupError>)
        ensures
            match self.refusal(startup, serve, source, target) {
                Some(message) => started matches Err(error) && error.is_source(message),
                None => {
                    &&& started is Ok
                    &&& started->Ok_0.prestage == self
                    &&& started->Ok_0.startup == startup
                    &&& started->Ok_0.node.shutdown is None
                    &&& started->Ok_0.node.predecessor_binding is None
                    &&& started->Ok_0.node.state == crate::node::HaNodeSnapshot::plain(
                        crate::status::HaNodeStatus::Restoring,
                    )
                    &&& started->Ok_0.node.state_open
                    &&& started->Ok_0.node.supervised
                    &&& started->Ok_0.serve == (SuccessorServeConfig {
                        owns_listener: false,
                        recorder_transport: serve.recorder_transport,
                        recorders: serve.recorders,
                        admin: serve.admin,
                        tail_token: serve.tail_token,
                    })
                    &&& started->Ok_0.live.phase is StartingStaging
                    &&& started->Ok_0.live.well_formed()
                },
            },
    {
        if startup.mode != HaStartupMode::Rejoin || startup.predecessor.is_some()
            || !startup.node_config.configuration_state.is_active() {
            return Err(fail("live successor requires an unbound active draft in rejoin mode"));
        }
        let source_identity = match source {
            Ok(identity) => identity,
            Err(message) => {
                return Err(HaStartupError::Source(message));
            },
        };
        let target_identity = match target {
            Ok(identity) => identity,
            Err(message) => {
                return Err(HaStartupError::Source(message));
            },
        };
        let draft = LiveSuccessorDraft {
            source_identity,
            target_identity,
            target_node_id: self.target_node_id,
            execution_profile: self.execution_profile,
            target_membership: self.target_membership,
        };
        match validate_live_successor_draft(&startup.node_config, startup.mode, false, &draft) {
            Ok(()) => {},
            Err(error) => {
                return Err(error);
            },
        }
        let mut serve = match SuccessorServeConfig::of(serve) {
            Ok(serve) => serve,
            Err(error) => {
                return Err(error);
            },
        };
        serve.take_service_listener();
        let prestage = HaSuccessorPrestageConfig {
            archive: self.archive,
            prestage_dir: self.prestage_dir,
            target_node_id: draft.target_node_id,
            execution_profile: self.execution_profile,
            predecessor_membership: self.predecessor_membership,
            target_membership: draft.target_membership,
            tail_token: self.tail_token,
            effect_consensus: self.effect_consensus,
        };
        Ok(
            StartedHaSuccessor {
                node: HaSuccessorNode::started(),
                prestage,
                startup,
                serve,
                live: LiveSuccessor::start(),
            },
        )
    }
}

/// A stage that is ready to be published.
pub struct PreparedHaSuccessorPrestage {
    pub identity: HaSuccessorPrestageIdentity,
    pub tail_config: TailReaderConfig,
    pub effect_consensus: bool,
}

/// A stage that was published, and follows the predecessor's log.
#[derive(Debug)]
pub struct PublishedHaSuccessorPrestage {
    pub identity: HaSuccessorPrestageIdentity,
}

impl PreparedHaSuccessorPrestage {
    /// The stage that was made, unless it turned out not to be ready.
    pub fn of(
        state: SuccessorPrestageState,
        identity: HaSuccessorPrestageIdentity,
        tail_config: TailReaderConfig,
        effect_consensus: bool,
    ) -> (prepared: Result<Self, HaStartupError>)
        ensures
            state == SuccessorPrestageState::Ready || state == SuccessorPrestageState::Published
                ==> prepared == Ok::<Self, HaStartupError>(
                PreparedHaSuccessorPrestage { identity, tail_config, effect_consensus },
            ),
            state != SuccessorPrestageState::Ready && state != SuccessorPrestageState::Published
                ==> (prepared matches Err(error) && error.is_source(
                "successor prestage resume requires a ready or published stage"@,
            )),
    {
        match require_resumable_successor_prestage(state) {
            Ok(()) => Ok(PreparedHaSuccessorPrestage { identity, tail_config, effect_consensus }),
            Err(error) => Err(error),
        }
    }

    /// Which transition the stage belongs to.
    pub fn identity(&self) -> (identity: &HaSuccessorPrestageIdentity)
        ensures
            *identity == self.identity,
    {
        &self.identity
    }

    /// The first request for the predecessor's tail: from where the stage
    /// begins.
    pub fn tail_request(&self, max_entries: u32, limit: u32) -> (request: Result<
        CertifiedTailRequest,
        HaStartupError,
    >)
        ensures
            if 1 <= max_entries <= limit {
                request == Ok::<CertifiedTailRequest, HaStartupError>(
                    CertifiedTailRequest { from: self.identity.seed_anchor, max_entries },
                )
            } else {
                request matches Err(error) && error.is_source(
                    "certified tail max_entries must be in 1..="@ + crate::text::decimal(
                        limit as nat,
                    ),
                )
            },
    {
        tail_request(self.identity.seed_anchor, max_entries, limit)
    }

    /// What came of moving the stage into place and of opening it there: the
    /// first failure, or the published stage.
    pub fn publish(self, moved: Result<(), String>, opened: Result<(), String>) -> (published: Result<
        PublishedHaSuccessorPrestage,
        HaStartupError,
    >)
        ensures
            match (moved, opened) {
                (Err(message), _) => published == Err::<
                    PublishedHaSuccessorPrestage,
                    HaStartupError,
                >(HaStartupError::Source(message)),
                (Ok(_), Err(message)) => published == Err::<
                    PublishedHaSuccessorPrestage,
                    HaStartupError,
                >(HaStartupError::Source(message)),
                (Ok(_), Ok(_)) => published == Ok::<PublishedHaSuccessorPrestage, HaStartupError>(
                    PublishedHaSuccessorPrestage { identity: self.identity },
                ),
            },
    {
        match moved {
            Ok(()) => {},
            Err(message) => {
                return Err(HaStartupError::Source(message));
            },
        }
        match opened {
            Ok(()) => Ok(PublishedHaSuccessorPrestage { identity: self.identity }),
            Err(message) => Err(HaStartupError::Source(message)),
        }
    }
}

impl PublishedHaSuccessorPrestage {
    /// Which transition the stage belongs to.
    pub fn identity(&self) -> (identity: &HaSuccessorPrestageIdentity)
        ensures
            *identity == self.identity,
    {
        &self.identity
    }

    /// Whether the stage may be finalized for this startup: only in rejoin
    /// mode, and only with a predecessor that is bound exactly to the target.
    /// Nothing is written before this holds.
    pub fn finalize(&self, startup: &HaStartupConfig, reading: &StopReading) -> (result: Result<
        (),
        HaStartupError,
    >)
        ensures
            startup.mode != HaStartupMode::Rejoin ==> (result matches Err(error)
                && error.is_source("successor prestage finalization requires rejoin mode"@)),
            startup.mode == HaStartupMode::Rejoin && startup.predecessor is None ==> (
            result matches Err(error) && error.is_source(
                "successor prestage finalization requires a predecessor"@,
            )),
            startup.mode == HaStartupMode::Rejoin && startup.predecessor is Some ==> match
            startup.spec_target_config_id() {
                None => result matches Err(error) && error.is_source(
                    "successor config_id cannot advance"@,
                ),
                Some(target_config_id) => {
                    &&& result is Ok <==> crate::binding::binds_exactly(
                        startup.node_config,
                        target_config_id,
                        startup.predecessor->0,
                        *reading,
                    )
                    &&& result is Err ==> crate::binding::is_binding_error(
                        startup.node_config,
                        target_config_id,
                        startup.predecessor->0,
                        *reading,
                        result->Err_0,
                    )
                },
            },
    {
        if startup.mode != HaStartupMode::Rejoin {
            return Err(fail("successor prestage finalization requires rejoin mode"));
        }
        let predecessor = match &startup.predecessor {
            Some(predecessor) => predecessor,
            None => {
                return Err(fail("successor prestage finalization requires a predecessor"));
            },
        };
        let target_config_id: u64 = match startup.target_config_id() {
            Ok(target) => target,
            Err(error) => {
                return Err(error);
            },
        };
        validate_predecessor_binding(&startup.node_config, target_config_id, predecessor, reading)
    }
}

/// A live successor starts only for the very next configuration of the node
/// that it is staged for, in the history that its checkpoints belong to.
pub proof fn law_live_start_is_one_transition(
    prestage: HaSuccessorPrestageConfig,
    startup: HaStartupConfig,
    serve: HaServeConfig,
    source: CheckpointIdentity,
    target: CheckpointIdentity,
)
    requires
        prestage.refusal(startup, serve, Ok(source), Ok(target)) is None,
    ensures
        target.config_id == source.config_id + 1,
        target.config_id == startup.node_config.config_id,
        source.cluster_id@ == target.cluster_id@,
        source.epoch == target.epoch,
        source.recovery_generation == target.recovery_generation,
        prestage.target_node_id@ == startup.node_config.node_id@,
        startup.predecessor is None,
{
}

/// A successor that is staged from the checkpoint of a running node, with that
/// node's members and token, asks for the very tail that the node serves.
pub proof fn law_a_stage_reads_the_tail_that_its_predecessor_serves(
    config: NodeConfig,
    identity: CheckpointIdentity,
    served: TailReaderConfig,
    prestage: HaSuccessorPrestageConfig,
)
    requires
        crate::binding::is_archive_of(config, identity.config_id, identity),
        is_served_tail(served, config, identity.config_id, prestage.tail_token@),
        prestage.predecessor_membership.same_as(config.membership),
    ensures
        prestage.plan(identity).tail_config.same_as(served),
{
}

/// A stage is planned from the checkpoint of the configuration right before
/// its target, in that checkpoint's own history: for the node, profile and
/// members that it was asked for, and following the tail of the predecessor
/// under the token that it was given.
pub proof fn law_a_stage_is_planned_from_its_own_checkpoint(
    prestage: HaSuccessorPrestageConfig,
    identity: CheckpointIdentity,
    result: Result<PrestagePlan, HaStartupError>,
)
    requires
        call_ensures(HaSuccessorPrestageConfig::prepare, (prestage, identity), result),
    ensures
        result is Ok <==> identity.config_id < u64::MAX,
        result matches Err(error) ==> error.is_source(
            "successor prestage target config_id cannot advance"@,
        ),
        result matches Ok(plan) ==> {
            &&& plan.predecessor_config_id == identity.config_id && plan.target_config_id
                == identity.config_id + 1
            &&& plan.archive == prestage.archive && plan.prestage_dir == prestage.prestage_dir
            &&& plan.target_node_id == prestage.target_node_id && plan.execution_profile
                == prestage.execution_profile
            &&& plan.predecessor_digest == prestage.predecessor_membership.digest
                && plan.target_digest == prestage.target_membership.digest
            &&& plan.effect_consensus == prestage.effect_consensus
            &&& plan.tail_config.cluster_id == identity.cluster_id && plan.tail_config.epoch
                == identity.epoch && plan.tail_config.config_id == identity.config_id
                && plan.tail_config.recovery_generation == identity.recovery_generation
            &&& plan.tail_config.membership == prestage.predecessor_membership
                && plan.tail_config.tail_token == prestage.tail_token
        },
{
}

/// Two tails are read alike exactly where every part of them is the same, and
/// the tail that a node serves is of its own history, members and token.
pub proof fn law_a_tail_is_read_by_every_part(
    left: TailReaderConfig,
    right: TailReaderConfig,
    config: NodeConfig,
    target: u64,
    token: &str,
    served: TailReaderConfig,
)
    requires
        call_ensures(certified_tail_config, (&config, target, token), served),
    ensures
        left.same_as(right) <==> left.cluster_id@ == right.cluster_id@ && left.epoch == right.epoch
            && left.config_id == right.config_id && left.membership.same_as(right.membership)
            && left.recovery_generation == right.recovery_generation && left.tail_token@
            == right.tail_token@,
        served.cluster_id@ == config.cluster_id@ && served.epoch == config.epoch && served.config_id
            == target && served.membership.same_as(config.membership) && served.recovery_generation
            == config.recovery_generation && served.tail_token@ == token@,
{
}

/// A request for a tail asks for at least one entry and no more than one
/// request may ask for, from where it was said; any other count is refused with
/// the bound.
pub proof fn law_a_tail_request_stays_within_its_bound(
    from: LogAnchor,
    max_entries: u32,
    limit: u32,
    request: Result<CertifiedTailRequest, HaStartupError>,
)
    requires
        call_ensures(tail_request, (from, max_entries, limit), request),
    ensures
        request is Ok <==> 0 < max_entries <= limit,
        request matches Ok(asked) ==> asked.from == from && asked.max_entries == max_entries,
        request matches Err(error) ==> error.is_source(
            "certified tail max_entries must be in 1..="@ + crate::text::decimal(limit as nat),
        ),
{
}

/// A stage goes on exactly where it is ready or was published, however it is
/// come by: with the identity that it has, and following the tail of its own
/// history. One that was resumed asks no recorders for effects, and one that
/// was made asks as it was told.
pub proof fn law_only_a_ready_or_published_stage_goes_on(
    state: SuccessorPrestageState,
    identity: HaSuccessorPrestageIdentity,
    membership: Membership,
    token: String,
    tail_config: TailReaderConfig,
    effect_consensus: bool,
    required: Result<(), HaStartupError>,
    resumed: Result<PreparedHaSuccessorPrestage, HaStartupError>,
    made: Result<PreparedHaSuccessorPrestage, HaStartupError>,
)
    requires
        call_ensures(require_resumable_successor_prestage, (state,), required),
        call_ensures(
            HaSuccessorPrestageConfig::resume,
            (state, identity, membership, token),
            resumed,
        ),
        call_ensures(
            PreparedHaSuccessorPrestage::of,
            (state, identity, tail_config, effect_consensus),
            made,
        ),
    ensures
        ({
            let goes_on = state == SuccessorPrestageState::Ready || state
                == SuccessorPrestageState::Published;
            let reason = "successor prestage resume requires a ready or published stage"@;
            &&& required is Ok <==> goes_on
            &&& resumed is Ok <==> goes_on
            &&& made is Ok <==> goes_on
            &&& required matches Err(error) ==> error.is_source(reason)
            &&& resumed matches Err(error) ==> error.is_source(reason)
            &&& made matches Err(error) ==> error.is_source(reason)
        }),
        resumed matches Ok(stage) ==> stage.identity == identity && !stage.effect_consensus
            && stage.tail_config.cluster_id@ == identity.cluster_id@ && stage.tail_config.epoch
            == identity.epoch && stage.tail_config.config_id == identity.predecessor_config_id
            && stage.tail_config.membership == membership && stage.tail_config.recovery_generation
            == identity.predecessor_recovery_generation && stage.tail_config.tail_token == token,
        made matches Ok(stage) ==> stage.identity == identity && stage.tail_config == tail_config
            && stage.effect_consensus == effect_consensus,
{
}

/// A stage is published as what it is once it was moved into place and opened
/// there, and the first failure of the two is told otherwise.
pub proof fn law_a_stage_is_published_as_what_it_is(
    stage: PreparedHaSuccessorPrestage,
    moved: Result<(), String>,
    opened: Result<(), String>,
    published: Result<PublishedHaSuccessorPrestage, HaStartupError>,
)
    requires
        call_ensures(PreparedHaSuccessorPrestage::publish, (stage, moved, opened), published),
    ensures
        published is Ok <==> moved is Ok && opened is Ok,
        published matches Ok(there) ==> there.identity == stage.identity,
        moved matches Err(message) ==> published == Err::<
            PublishedHaSuccessorPrestage,
            HaStartupError,
        >(HaStartupError::Source(message)),
        moved is Ok ==> (opened matches Err(message) ==> published == Err::<
            PublishedHaSuccessorPrestage,
            HaStartupError,
        >(HaStartupError::Source(message))),
{
}

/// A stage is finalized only in rejoin mode, with a predecessor, and bound
/// exactly to the configuration right after that predecessor's.
pub proof fn law_a_stage_is_finalized_only_for_its_exact_binding(
    stage: PublishedHaSuccessorPrestage,
    startup: HaStartupConfig,
    reading: StopReading,
    result: Result<(), HaStartupError>,
)
    requires
        call_ensures(PublishedHaSuccessorPrestage::finalize, (&stage, &startup, &reading), result),
    ensures
        result is Ok <==> startup.mode == HaStartupMode::Rejoin && startup.predecessor is Some
            && startup.predecessor->0.stop.entry.config_id < u64::MAX
            && crate::binding::binds_exactly(
            startup.node_config,
            (startup.predecessor->0.stop.entry.config_id + 1) as u64,
            startup.predecessor->0,
            reading,
        ),
        startup.mode != HaStartupMode::Rejoin ==> (result matches Err(error) && error.is_source(
            "successor prestage finalization requires rejoin mode"@,
        )),
        startup.mode == HaStartupMode::Rejoin && startup.predecessor is None ==> (result matches Err(
            error,
        ) && error.is_source("successor prestage finalization requires a predecessor"@)),
{
}

/// A live successor is refused for the first thing that is wrong: what it is
/// started as, its source checkpoint, its target checkpoint, that the three do
/// not describe one transition, or a listener that is itself deferred. It is
/// started in every other case.
pub proof fn law_a_live_start_is_refused_for_the_first_reason(
    prestage: HaSuccessorPrestageConfig,
    startup: HaStartupConfig,
    serve: HaServeConfig,
    source: Result<CheckpointIdentity, String>,
    target: Result<CheckpointIdentity, String>,
)
    ensures
        ({
            let refusal = prestage.refusal(startup, serve, source, target);
            let unbound = startup.mode == HaStartupMode::Rejoin && startup.predecessor is None
                && startup.node_config.configuration_state is Active;
            &&& !unbound ==> refusal == Some(
                "live successor requires an unbound active draft in rejoin mode"@,
            )
            &&& unbound ==> (source matches Err(message) ==> refusal == Some(message@))
            &&& unbound && source is Ok ==> (target matches Err(message) ==> refusal == Some(
                message@,
            ))
            &&& unbound && source is Ok && target is Ok ==> {
                let one = source->Ok_0;
                let other = target->Ok_0;
                let config = startup.node_config;
                let consistent = one.cluster_id@ == config.cluster_id@ && other.cluster_id@
                    == config.cluster_id@ && one.epoch == config.epoch && other.epoch
                    == config.epoch && one.config_id + 1 == other.config_id && other.config_id
                    == config.config_id && one.recovery_generation == config.recovery_generation
                    && other.recovery_generation == config.recovery_generation
                    && prestage.target_node_id@ == config.node_id@ && prestage.execution_profile
                    == config.execution_profile && prestage.target_membership.same_as(
                    config.membership,
                );
                &&& !consistent ==> refusal == Some(
                    "live successor draft, source checkpoint, and target checkpoint identities differ"@,
                )
                &&& consistent && serve.service_listener is Deferred ==> refusal == Some(
                    "live successor cannot start from an internally deferred service listener"@,
                )
                &&& consistent && serve.service_listener is Bound ==> refusal is None
            }
        }),
{
}

/// A prepared stage reads its tail from where it was seeded, and is known by the
/// identity that it was prepared with.
pub proof fn law_a_stage_reads_its_tail_from_its_seed(
    prepared: PreparedHaSuccessorPrestage,
    max_entries: u32,
    limit: u32,
    request: Result<CertifiedTailRequest, HaStartupError>,
    identity: &HaSuccessorPrestageIdentity,
)
    requires
        call_ensures(
            PreparedHaSuccessorPrestage::tail_request,
            (&prepared, max_entries, limit),
            request,
        ),
        call_ensures(PreparedHaSuccessorPrestage::identity, (&prepared,), identity),
    ensures
        request is Ok <==> 0 < max_entries <= limit,
        request matches Ok(request) ==> request.from == prepared.identity.seed_anchor
            && request.max_entries == max_entries,
        request matches Err(error) ==> (error matches HaStartupError::Source(told) && told@
            == "certified tail max_entries must be in 1..="@ + crate::text::decimal(limit as nat)),
        *identity == prepared.identity,
{
}

/// A stage is configured as it was told, for its own effects or for those that
/// consensus decides.
pub proof fn law_a_stage_is_configured_as_it_was_told(
    archive: ArchiveHandle,
    prestage_dir: String,
    target_node_id: String,
    execution_profile: ExecutionProfile,
    predecessor_membership: Membership,
    target_membership: Membership,
    tail_token: String,
    made: HaSuccessorPrestageConfig,
    effects: HaSuccessorPrestageConfig,
)
    requires
        call_ensures(
            HaSuccessorPrestageConfig::new,
            (
                archive,
                prestage_dir,
                target_node_id,
                execution_profile,
                predecessor_membership,
                target_membership,
                tail_token,
            ),
            made,
        ),
        call_ensures(HaSuccessorPrestageConfig::with_effect_consensus, (made,), effects),
    ensures
        made.archive == archive && effects.archive == archive,
        made.prestage_dir == prestage_dir && effects.prestage_dir == prestage_dir,
        made.target_node_id == target_node_id && effects.target_node_id == target_node_id,
        made.execution_profile == execution_profile && effects.execution_profile
            == execution_profile,
        made.predecessor_membership == predecessor_membership && effects.predecessor_membership
            == predecessor_membership,
        made.target_membership == target_membership && effects.target_membership
            == target_membership,
        made.tail_token == tail_token && effects.tail_token == tail_token,
        !made.effect_consensus && effects.effect_consensus,
{
}

/// A live successor that is started stages its listener away: its owner sees it
/// restoring, unbound and running, and what it was given is handed on as it is.
pub proof fn law_a_live_successor_starts_with_what_it_was_given(
    prestage: HaSuccessorPrestageConfig,
    startup: HaStartupConfig,
    serve: HaServeConfig,
    source: Result<CheckpointIdentity, String>,
    target: Result<CheckpointIdentity, String>,
    started: Result<StartedHaSuccessor, HaStartupError>,
)
    requires
        call_ensures(
            HaSuccessorPrestageConfig::start_live,
            (prestage, startup, serve, source, target),
            started,
        ),
    ensures
        started is Ok <==> prestage.refusal(startup, serve, source, target) is None,
        started matches Ok(live) ==> {
            &&& live.prestage == prestage
            &&& live.startup == startup
            &&& live.node.state.status is Restoring
            &&& live.node.shutdown is None
            &&& live.node.predecessor_binding is None
            &&& live.node.state_open
            &&& live.node.supervised
            &&& !live.serve.owns_listener
            &&& live.serve.recorder_transport == serve.recorder_transport
            &&& live.serve.recorders == serve.recorders
            &&& live.serve.admin == serve.admin
            &&& live.serve.tail_token == serve.tail_token
            &&& live.live.phase is StartingStaging
        },
        started matches Err(error) ==> (error matches HaStartupError::Source(told) && Some(told@)
            == prestage.refusal(startup, serve, source, target)),
{
}

/// An identity tells each of its parts as it is.
pub proof fn law_an_identity_tells_its_own_parts(
    identity: HaSuccessorPrestageIdentity,
    epoch: u64,
    predecessor_config_id: u64,
    predecessor_membership_digest: LogHash,
    predecessor_recovery_generation: u64,
    target_config_id: u64,
    target_membership_digest: LogHash,
    seed_anchor: LogAnchor,
)
    requires
        call_ensures(HaSuccessorPrestageIdentity::epoch, (&identity,), epoch),
        call_ensures(
            HaSuccessorPrestageIdentity::predecessor_config_id,
            (&identity,),
            predecessor_config_id,
        ),
        call_ensures(
            HaSuccessorPrestageIdentity::predecessor_membership_digest,
            (&identity,),
            predecessor_membership_digest,
        ),
        call_ensures(
            HaSuccessorPrestageIdentity::predecessor_recovery_generation,
            (&identity,),
            predecessor_recovery_generation,
        ),
        call_ensures(HaSuccessorPrestageIdentity::target_config_id, (&identity,), target_config_id),
        call_ensures(
            HaSuccessorPrestageIdentity::target_membership_digest,
            (&identity,),
            target_membership_digest,
        ),
        call_ensures(HaSuccessorPrestageIdentity::seed_anchor, (&identity,), seed_anchor),
    ensures
        epoch == identity.epoch,
        predecessor_config_id == identity.predecessor_config_id,
        predecessor_membership_digest == identity.predecessor_membership_digest,
        predecessor_recovery_generation == identity.predecessor_recovery_generation,
        target_config_id == identity.target_config_id,
        target_membership_digest == identity.target_membership_digest,
        seed_anchor == identity.seed_anchor,
{
}

} // verus!
