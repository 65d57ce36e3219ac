//! The predecessor that a successor is bound to.
use crate::config::{
    same_bytes, CheckpointIdentity, ExecutionProfile, Membership, NodeConfig, SuccessorDescriptor,
};
use crate::error::{fail, HaStartupError};
use crate::log::{LogAnchor, LogHash};
use crate::status::HaStartupMode;
use crate::text::joined;
use vstd::prelude::*;

verus! {

/// One entry of the replicated log.
#[derive(Clone, Debug, PartialEq, Eq)]
pub struct LogEntry {
    pub cluster_id: String,
    pub epoch: u64,
    pub config_id: u64,
    pub index: u64,
    pub entry_type: u8,
    pub payload: Vec<u8>,
    pub prev_hash: LogHash,
    pub hash: LogHash,
}

impl LogEntry {
    pub open spec fn same_as(self, other: LogEntry) -> bool {
        &&& self.cluster_id@ == other.cluster_id@
        &&& self.epoch == other.epoch
        &&& self.config_id == other.config_id
        &&& self.index == other.index
        &&& self.entry_type == other.entry_type
        &&& self.payload@ == other.payload@
        &&& self.prev_hash == other.prev_hash
        &&& self.hash == other.hash
    }

    pub fn same(&self, other: &LogEntry) -> (same: bool)
        ensures
            same == self.same_as(*other),
    {
        self.cluster_id == other.cluster_id && self.epoch == other.epoch && self.config_id
            == other.config_id && self.index == other.index && self.entry_type == other.entry_type
            && same_bytes(&self.payload, &other.payload) && self.prev_hash == other.prev_hash
            && self.hash == other.hash
    }

    pub open spec fn spec_anchor(self) -> LogAnchor {
        LogAnchor { index: self.index, hash: self.hash }
    }

    /// Where the entry stands in the log.
    pub fn anchor(&self) -> (anchor: LogAnchor)
        ensures
            anchor == self.spec_anchor(),
    {
        LogAnchor::new(self.index, self.hash)
    }
}

/// The Stop of a configuration with the encoded proof of its decision.
#[derive(Clone, Debug, PartialEq, Eq)]
pub struct StopInformation {
    pub entry: LogEntry,
    pub proof: Vec<u8>,
}

/// The predecessor of a successor: its members and its Stop.
#[derive(Clone, Debug, PartialEq, Eq)]
pub struct HaPredecessor {
    pub membership: Membership,
    pub stop: StopInformation,
}

impl HaPredecessor {
    #[verifier::allow_in_spec]
    pub fn new(membership: Membership, stop: StopInformation) -> (predecessor: Self)
        returns
            (HaPredecessor { membership, stop }),
    {
        HaPredecessor { membership, stop }
    }

    /// The two name the same predecessor, down to the bytes of the proof.
    pub open spec fn same_as(self, other: HaPredecessor) -> bool {
        &&& self.membership.same_as(other.membership)
        &&& self.stop.entry.same_as(other.stop.entry)
        &&& self.stop.proof@ == other.stop.proof@
    }

    /// Whether the two name the same predecessor.
    pub fn same(&self, other: &HaPredecessor) -> (same: bool)
        ensures
            same == self.same_as(*other),
    {
        self.membership.same(&other.membership) && self.stop.entry.same(&other.stop.entry)
            && same_bytes(&self.stop.proof, &other.stop.proof)
    }
}

/// What a log entry's type and payload say of the configuration.
#[derive(Debug)]
pub enum ConfigChange {
    BoundStop { successor: SuccessorDescriptor },
    Other,
}

/// What the log and consensus codecs make of a Stop.
#[derive(Debug)]
pub struct StopReading {
    /// The hash that the entry's parts amount to.
    pub recomputed_hash: LogHash,
    /// The configuration change that the entry encodes, if it encodes one.
    pub change: Option<ConfigChange>,
    /// The hash of the entry's type and payload as a stored command.
    pub command_hash: LogHash,
    /// What is wrong with the proof for the predecessor's cluster, index,
    /// epoch, configuration and members, if anything.
    pub proof_error: Option<String>,
    /// The proof's proposal carries the value that this very entry stands for.
    pub proof_certifies_entry: bool,
}

/// The Stop belongs to the configuration right before the target, in the
/// node's own cluster and epoch, and its hash is its own.
pub open spec fn stop_binds_target(
    config: NodeConfig,
    target_config_id: u64,
    predecessor: HaPredecessor,
    reading: StopReading,
) -> bool {
    let entry = predecessor.stop.entry;
    &&& entry.cluster_id@ == config.cluster_id@
    &&& entry.epoch == config.epoch
    &&& entry.config_id + 1 == target_config_id
    &&& reading.recomputed_hash == entry.hash
}

/// The successor that the Stop names is exactly the target.
pub open spec fn successor_is_target(
    config: NodeConfig,
    target_config_id: u64,
    predecessor: HaPredecessor,
    successor: SuccessorDescriptor,
) -> bool {
    &&& successor.cluster_id@ == config.cluster_id@
    &&& successor.predecessor_config_id == predecessor.stop.entry.config_id
    &&& successor.predecessor_config_digest == predecessor.membership.digest
    &&& successor.config_id == target_config_id
    &&& successor.digest == config.membership.digest
    &&& crate::config::texts(successor.members@) == crate::config::texts(config.membership.members@)
}

/// The node's configuration started out as the active predecessor and is now
/// stopped by exactly this Stop.
pub open spec fn configuration_encodes_stop(
    config: NodeConfig,
    predecessor: HaPredecessor,
    successor: SuccessorDescriptor,
    command_hash: LogHash,
) -> bool {
    let entry = predecessor.stop.entry;
    &&& config.log_initial_configuration.is_active_as(
        entry.config_id,
        predecessor.membership.digest,
    )
    &&& config.configuration_state.is_stopped_as(
        entry.config_id,
        predecessor.membership.digest,
        entry.spec_anchor(),
        successor,
        command_hash,
    )
}

/// The predecessor is bound to the target in every respect.
pub open spec fn binds_exactly(
    config: NodeConfig,
    target_config_id: u64,
    predecessor: HaPredecessor,
    reading: StopReading,
) -> bool {
    &&& stop_binds_target(config, target_config_id, predecessor, reading)
    &&& reading.change matches Some(ConfigChange::BoundStop { successor }) && successor_is_target(
        config,
        target_config_id,
        predecessor,
        successor,
    ) && configuration_encodes_stop(config, predecessor, successor, reading.command_hash)
    &&& reading.proof_error is None
    &&& reading.proof_certifies_entry
}

/// `error` says what keeps the predecessor from being bound to the target.
pub open spec fn is_binding_error(
    config: NodeConfig,
    target_config_id: u64,
    predecessor: HaPredecessor,
    reading: StopReading,
    error: HaStartupError,
) -> bool {
    if !stop_binds_target(
        config,
        target_config_id,
        predecessor,
        reading,
    ) {
        error.is_source(
            "predecessor Stop does not exactly bind the target node configuration"@,
        )
    } else {
        match reading.change {
            None => error.is_source("predecessor Stop is not a bound configuration change"@),
            Some(ConfigChange::Other) => error.is_source(
                "predecessor entry is not a bound Stop"@,
            ),
            Some(ConfigChange::BoundStop { successor }) => if !successor_is_target(
                config,
                target_config_id,
                predecessor,
                successor,
            ) {
                error.is_source(
                    "predecessor membership or Stop binding conflicts with the prestage target"@,
                )
            } else if !configuration_encodes_stop(
                config,
                predecessor,
                successor,
                reading.command_hash,
            ) {
                error.is_source(
                    "successor startup configuration does not durably encode the exact Stop binding"@,
                )
            } else {
                match reading.proof_error {
                    Some(proof_error) => error.is_source(
                        "predecessor Stop proof is not valid for its membership: "@
                            + proof_error@,
                    ),
                    None => error.is_source(
                        "predecessor Stop proof does not certify the exact Stop entry"@,
                    ),
                }
            },
        }
    }
}

/// Accepts a predecessor only where its Stop, the successor that the Stop
/// names, the node's own configuration and the proof all bind it to the
/// target. Otherwise the error says which of them failed first.
pub fn validate_predecessor_binding(
    config: &NodeConfig,
    target_config_id: u64,
    predecessor: &HaPredecessor,
    reading: &StopReading,
) -> (result: Result<(), HaStartupError>)
    ensures
        result is Ok <==> binds_exactly(*config, target_config_id, *predecessor, *reading),
        result matches Err(error) ==> is_binding_error(
            *config,
            target_config_id,
            *predecessor,
            *reading,
            error,
        ),
{
    let entry = &predecessor.stop.entry;
    if entry.cluster_id != config.cluster_id || entry.epoch != config.epoch
        || entry.config_id.checked_add(1) != Some(target_config_id) || reading.recomputed_hash
        != entry.hash {
        return Err(fail("predecessor Stop does not exactly bind the target node configuration"));
    }
    let successor = match &reading.change {
        None => {
            return Err(fail("predecessor Stop is not a bound configuration change"));
        },
        Some(ConfigChange::Other) => {
            return Err(fail("predecessor entry is not a bound Stop"));
        },
        Some(ConfigChange::BoundStop { successor }) => successor,
    };
    if successor.cluster_id != config.cluster_id || successor.predecessor_config_id
        != entry.config_id || successor.predecessor_config_digest != predecessor.membership.digest
        || successor.config_id != target_config_id || successor.digest != config.membership.digest
        || !crate::config::same_texts(&successor.members, &config.membership.members) {
        return Err(
            fail("predecessor membership or Stop binding conflicts with the prestage target"),
        );
    }
    if !config.log_initial_configuration.active_as(entry.config_id, predecessor.membership.digest)
        || !config.configuration_state.stopped_as(
        entry.config_id,
        predecessor.membership.digest,
        entry.anchor(),
        successor,
        reading.command_hash,
    ) {
        return Err(
            fail("successor startup configuration does not durably encode the exact Stop binding"),
        );
    }
    match &reading.proof_error {
        Some(proof_error) => {
            let message = joined(
                "predecessor Stop proof is not valid for its membership: ",
                proof_error.as_str(),
            );
            return Err(HaStartupError::Source(message));
        },
        None => {},
    }
    if !reading.proof_certifies_entry {
        return Err(fail("predecessor Stop proof does not certify the exact Stop entry"));
    }
    Ok(())
}

/// The configuration that startup targets: the node's own, or the one right
/// after that of its predecessor's Stop.
pub fn target_config_id(config: &NodeConfig, predecessor: &Option<HaPredecessor>) -> (target: Result<
    u64,
    HaStartupError,
>)
    ensures
        match predecessor {
            None => target == Ok::<u64, HaStartupError>(config.config_id),
            Some(predecessor) => if predecessor.stop.entry.config_id == u64::MAX {
                target matches Err(error) && error.is_source("successor config_id cannot advance"@)
            } else {
                target == Ok::<u64, HaStartupError>((predecessor.stop.entry.config_id + 1) as u64)
            },
        },
{
    match predecessor {
        None => Ok(config.config_id),
        Some(predecessor) => match predecessor.stop.entry.config_id.checked_add(1) {
            Some(target) => Ok(target),
            None => Err(fail("successor config_id cannot advance")),
        },
    }
}

/// The identity is that of this node's checkpoints in the target configuration.
pub open spec fn is_archive_of(
    config: NodeConfig,
    target_config_id: u64,
    identity: CheckpointIdentity,
) -> bool {
    &&& identity.cluster_id@ == config.cluster_id@
    &&& identity.epoch == config.epoch
    &&& identity.config_id == target_config_id
    &&& identity.recovery_generation == config.recovery_generation
}

/// Accepts the archive's checkpoint identity only where it is that of the
/// target configuration.
pub fn validate_archive_identity(
    config: &NodeConfig,
    identity: &CheckpointIdentity,
    target_config_id: u64,
) -> (result: Result<(), HaStartupError>)
    ensures
        result is Ok <==> is_archive_of(*config, target_config_id, *identity),
        result matches Err(error) ==> error.is_source(
            "checkpoint identity does not match target node configuration"@,
        ),
{
    if identity.cluster_id != config.cluster_id || identity.epoch != config.epoch
        || identity.config_id != target_config_id || identity.recovery_generation
        != config.recovery_generation {
        return Err(fail("checkpoint identity does not match target node configuration"));
    }
    Ok(())
}

/// What a live successor is drafted with, besides its startup.
#[derive(Debug)]
pub struct LiveSuccessorDraft {
    pub source_identity: CheckpointIdentity,
    pub target_identity: CheckpointIdentity,
    pub target_node_id: String,
    pub execution_profile: ExecutionProfile,
    pub target_membership: Membership,
}

/// The draft, its source checkpoint and its target checkpoint name one
/// transition of this very node.
pub open spec fn draft_is_consistent(config: NodeConfig, draft: LiveSuccessorDraft) -> bool {
    let source = draft.source_identity;
    let target = draft.target_identity;
    &&& source.cluster_id@ == config.cluster_id@
    &&& target.cluster_id@ == config.cluster_id@
    &&& source.epoch == config.epoch
    &&& target.epoch == config.epoch
    &&& source.config_id + 1 == target.config_id
    &&& target.config_id == config.config_id
    &&& source.recovery_generation == target.recovery_generation
    &&& target.recovery_generation == config.recovery_generation
    &&& draft.target_node_id@ == config.node_id@
    &&& draft.execution_profile == config.execution_profile
    &&& draft.target_membership.same_as(config.membership)
}

/// Accepts only an unbound active draft in rejoin mode whose identities agree.
pub fn validate_live_successor_draft(
    config: &NodeConfig,
    mode: HaStartupMode,
    has_predecessor: bool,
    draft: &LiveSuccessorDraft,
) -> (result: Result<(), HaStartupError>)
    ensures
        result is Ok <==> mode == HaStartupMode::Rejoin && !has_predecessor
            && config.configuration_state.spec_is_active() && draft_is_consistent(*config, *draft),
        result matches Err(error) ==> if mode != HaStartupMode::Rejoin || has_predecessor
            || !config.configuration_state.spec_is_active() {
            error.is_source("live successor requires an unbound active draft in rejoin mode"@)
        } else {
            error.is_source(
                "live successor draft, source checkpoint, and target checkpoint identities differ"@,
            )
        },
{
    if mode != HaStartupMode::Rejoin || has_predecessor || !config.configuration_state.is_active() {
        return Err(fail("live successor requires an unbound active draft in rejoin mode"));
    }
    let source = &draft.source_identity;
    let target = &draft.target_identity;
    if source.cluster_id != config.cluster_id || target.cluster_id != config.cluster_id
        || source.epoch != config.epoch || target.epoch != config.epoch
        || source.config_id.checked_add(1) != Some(target.config_id) || target.config_id
        != config.config_id || source.recovery_generation != target.recovery_generation
        || target.recovery_generation != config.recovery_generation || draft.target_node_id
        != config.node_id || draft.execution_profile != config.execution_profile
        || !draft.target_membership.same(&config.membership) {
        return Err(
            fail("live successor draft, source checkpoint, and target checkpoint identities differ"),
        );
    }
    Ok(())
}

/// A startup of a live successor once it is bound: the predecessor and the
/// Stop at which it activates by itself.
#[derive(Debug)]
pub struct LiveBinding {
    pub predecessor: HaPredecessor,
    pub auto_activate_stop: LogAnchor,
}

/// Binds an unbound live successor to its predecessor. `config` is the node's
/// configuration with the Stop already encoded in it, or what went wrong when
/// it was.
pub fn bind_live_predecessor(
    bound: bool,
    predecessor: HaPredecessor,
    config: Result<NodeConfig, String>,
    reading: &StopReading,
) -> (result: Result<(NodeConfig, LiveBinding), HaStartupError>)
    ensures
        bound ==> (result matches Err(error) && error.is_source(
            "live successor startup is already bound to a predecessor"@,
        )),
        !bound && config is Err ==> (result matches Err(error) && error.is_source(config->Err_0@)),
        !bound && config is Ok && predecessor.stop.entry.config_id == u64::MAX ==> (result matches
            Err(error) && error.is_source("successor config_id cannot advance"@)),
        !bound && config is Ok && predecessor.stop.entry.config_id < u64::MAX ==> (result is Ok
            <==> binds_exactly(
            config->Ok_0,
            (predecessor.stop.entry.config_id + 1) as u64,
            predecessor,
            *reading,
        )),
        !bound && config is Ok && predecessor.stop.entry.config_id < u64::MAX && result is Err
            ==> is_binding_error(
            config->Ok_0,
            (predecessor.stop.entry.config_id + 1) as u64,
            predecessor,
            *reading,
            result->Err_0,
        ),
        result matches Ok((configured, binding)) ==> configured == config->Ok_0
            && binding.predecessor == predecessor && binding.auto_activate_stop
            == predecessor.stop.entry.spec_anchor(),
{
    if bound {
        return Err(fail("live successor startup is already bound to a predecessor"));
    }
    let stop_anchor = predecessor.stop.entry.anchor();
    let config = match config {
        Ok(config) => config,
        Err(message) => {
            return Err(HaStartupError::Source(message));
        },
    };
    let target_config_id: u64 = match predecessor.stop.entry.config_id.checked_add(1) {
        Some(target) => target,
        None => {
            return Err(fail("successor config_id cannot advance"));
        },
    };
    match validate_predecessor_binding(&config, target_config_id, &predecessor, reading) {
        Ok(()) => {},
        Err(error) => {
            return Err(error);
        },
    }
    Ok((config, LiveBinding { predecessor, auto_activate_stop: stop_anchor }))
}

/// A bound predecessor determines the target: one predecessor is bound to at
/// most one configuration of one cluster.
pub proof fn law_binding_determines_the_target(
    left: NodeConfig,
    right: NodeConfig,
    left_target: u64,
    right_target: u64,
    predecessor: HaPredecessor,
    reading: StopReading,
)
    requires
        binds_exactly(left, left_target, predecessor, reading),
        binds_exactly(right, right_target, predecessor, reading),
    ensures
        left_target == right_target,
        left.cluster_id@ == right.cluster_id@,
        left.epoch == right.epoch,
        left.membership.same_as(right.membership),
{
}

/// A predecessor is the same as another exactly where every part of its Stop,
/// the bytes of its proof and its members are; being the same is symmetric.
pub proof fn law_predecessors_are_the_same_down_to_the_bytes(
    left: HaPredecessor,
    right: HaPredecessor,
)
    ensures
        left.same_as(right) <==> {
            let one = left.stop.entry;
            let other = right.stop.entry;
            &&& left.membership.same_as(right.membership)
            &&& left.stop.proof@ == right.stop.proof@
            &&& one.cluster_id@ == other.cluster_id@ && one.epoch == other.epoch && one.config_id
                == other.config_id && one.index == other.index && one.entry_type == other.entry_type
            &&& one.payload@ == other.payload@ && one.prev_hash == other.prev_hash && one.hash
                == other.hash
        },
        left.same_as(left),
        left.same_as(right) ==> right.same_as(left),
        left.same_as(right) ==> left.stop.entry.spec_anchor() == right.stop.entry.spec_anchor(),
        left.stop.entry.spec_anchor().index == left.stop.entry.index,
        left.stop.entry.spec_anchor().hash == left.stop.entry.hash,
{
}

/// A predecessor is bound to the target in every respect or not at all: its
/// Stop is of the node's cluster and epoch and of the configuration right
/// before the target, and has the hash that it claims; the successor that it
/// names is the target with its very members; the node's configuration started
/// as the predecessor's and holds this very Stop; and the proof is valid and
/// certifies this very entry.
pub proof fn law_a_predecessor_is_bound_in_every_respect(
    config: NodeConfig,
    target: u64,
    predecessor: HaPredecessor,
    reading: StopReading,
)
    ensures
        binds_exactly(config, target, predecessor, reading) <==> {
            let entry = predecessor.stop.entry;
            &&& entry.cluster_id@ == config.cluster_id@ && entry.epoch == config.epoch
            &&& entry.config_id + 1 == target && reading.recomputed_hash == entry.hash
            &&& reading.change matches Some(ConfigChange::BoundStop { successor }) && {
                &&& successor.cluster_id@ == config.cluster_id@ && successor.config_id == target
                &&& successor.predecessor_config_id == entry.config_id
                &&& successor.predecessor_config_digest == predecessor.membership.digest
                &&& successor.digest == config.membership.digest
                &&& crate::config::texts(successor.members@) == crate::config::texts(
                    config.membership.members@,
                )
                &&& config.log_initial_configuration.is_active_as(
                    entry.config_id,
                    predecessor.membership.digest,
                )
                &&& config.configuration_state.is_stopped_as(
                    entry.config_id,
                    predecessor.membership.digest,
                    LogAnchor { index: entry.index, hash: entry.hash },
                    successor,
                    reading.command_hash,
                )
            }
            &&& reading.proof_error is None && reading.proof_certifies_entry
        },
{
}

/// Why a predecessor is not bound is told of the first respect that fails: the
/// Stop itself, then what it says, then the successor that it names, then the
/// node's configuration, and the proof last.
pub proof fn law_a_refused_predecessor_is_told_the_first_reason(
    config: NodeConfig,
    target: u64,
    predecessor: HaPredecessor,
    reading: StopReading,
    result: Result<(), HaStartupError>,
)
    requires
        call_ensures(validate_predecessor_binding, (&config, target, &predecessor, &reading), result),
    ensures
        result is Ok <==> binds_exactly(config, target, predecessor, reading),
        ({
            let entry = predecessor.stop.entry;
            let of_target = entry.cluster_id@ == config.cluster_id@ && entry.epoch == config.epoch
                && entry.config_id + 1 == target && reading.recomputed_hash == entry.hash;
            &&& !of_target ==> (result matches Err(error) && error.is_source(
                "predecessor Stop does not exactly bind the target node configuration"@,
            ))
            &&& of_target && reading.change is None ==> (result matches Err(error)
                && error.is_source("predecessor Stop is not a bound configuration change"@))
            &&& of_target && (reading.change matches Some(change) && change is Other) ==> (
            result matches Err(error) && error.is_source("predecessor entry is not a bound Stop"@))
            &&& reading.change matches Some(ConfigChange::BoundStop { successor }) ==> {
                let named = successor_is_target(config, target, predecessor, successor);
                let encoded = configuration_encodes_stop(
                    config,
                    predecessor,
                    successor,
                    reading.command_hash,
                );
                &&& of_target && !named ==> (result matches Err(error) && error.is_source(
                    "predecessor membership or Stop binding conflicts with the prestage target"@,
                ))
                &&& of_target && named && !encoded ==> (result matches Err(error)
                    && error.is_source(
                    "successor startup configuration does not durably encode the exact Stop binding"@,
                ))
                &&& of_target && named && encoded ==> match reading.proof_error {
                    Some(proof_error) => result matches Err(error) && error.is_source(
                        "predecessor Stop proof is not valid for its membership: "@
                            + proof_error@,
                    ),
                    None => if reading.proof_certifies_entry {
                        result is Ok
                    } else {
                        result matches Err(error) && error.is_source(
                            "predecessor Stop proof does not certify the exact Stop entry"@,
                        )
                    },
                }
            }
        }),
{
}

/// A draft is consistent exactly where its two checkpoints are of this node's
/// history, one configuration apart, the later one its own, and it is drafted
/// for this very node, profile and members. It is accepted where it also is an
/// unbound active one in rejoin mode, and that is asked first.
pub proof fn law_a_live_draft_is_one_transition_of_this_node(
    config: NodeConfig,
    mode: HaStartupMode,
    has_predecessor: bool,
    draft: LiveSuccessorDraft,
    result: Result<(), HaStartupError>,
)
    requires
        call_ensures(validate_live_successor_draft, (&config, mode, has_predecessor, &draft), result),
    ensures
        ({
            let source = draft.source_identity;
            let target = draft.target_identity;
            let unbound = mode == HaStartupMode::Rejoin && !has_predecessor
                && config.configuration_state is Active;
            let consistent = source.cluster_id@ == config.cluster_id@ && target.cluster_id@
                == config.cluster_id@ && source.epoch == config.epoch && target.epoch
                == config.epoch && source.config_id + 1 == target.config_id && target.config_id
                == config.config_id && source.recovery_generation == config.recovery_generation
                && target.recovery_generation == config.recovery_generation && draft.target_node_id@
                == config.node_id@ && draft.execution_profile == config.execution_profile
                && draft.target_membership.same_as(config.membership);
            &&& result is Ok <==> unbound && consistent
            &&& !unbound ==> (result matches Err(error) && error.is_source(
                "live successor requires an unbound active draft in rejoin mode"@,
            ))
            &&& unbound && !consistent ==> (result matches Err(error) && error.is_source(
                "live successor draft, source checkpoint, and target checkpoint identities differ"@,
            ))
        }),
{
}

/// A checkpoint history is that of the target exactly where its cluster, epoch
/// and recovery generation are the node's and its configuration is the target.
pub proof fn law_an_archive_is_that_of_the_target(
    config: NodeConfig,
    identity: CheckpointIdentity,
    target: u64,
    result: Result<(), HaStartupError>,
)
    requires
        call_ensures(validate_archive_identity, (&config, &identity, target), result),
    ensures
        result is Ok <==> identity.cluster_id@ == config.cluster_id@ && identity.epoch
            == config.epoch && identity.config_id == target && identity.recovery_generation
            == config.recovery_generation,
        result matches Err(error) ==> error.is_source(
            "checkpoint identity does not match target node configuration"@,
        ),
{
}

/// A live successor is bound once, to a predecessor whose very Stop it then
/// activates at; it is configured as it was handed, and for the configuration
/// right after that of the Stop.
pub proof fn law_a_live_successor_is_bound_once(
    bound: bool,
    predecessor: HaPredecessor,
    config: Result<NodeConfig, String>,
    reading: StopReading,
    result: Result<(NodeConfig, LiveBinding), HaStartupError>,
)
    requires
        call_ensures(bind_live_predecessor, (bound, predecessor, config, &reading), result),
    ensures
        result is Ok <==> !bound && config is Ok && predecessor.stop.entry.config_id < u64::MAX
            && binds_exactly(
            config->Ok_0,
            (predecessor.stop.entry.config_id + 1) as u64,
            predecessor,
            reading,
        ),
        result matches Ok((configured, binding)) ==> configured == config->Ok_0
            && binding.predecessor == predecessor && binding.auto_activate_stop.index
            == predecessor.stop.entry.index && binding.auto_activate_stop.hash
            == predecessor.stop.entry.hash,
        bound ==> (result matches Err(error) && error.is_source(
            "live successor startup is already bound to a predecessor"@,
        )),
        !bound ==> (config matches Err(message) ==> (result matches Err(error) && error.is_source(
            message@,
        ))),
{
}

} // verus!
