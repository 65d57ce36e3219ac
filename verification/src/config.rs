//! The configuration that a node is started with.
use crate::log::{LogAnchor, LogHash};
use vstd::prelude::*;

verus! {

/// Stands for one checkpoint archive of the embedding application.
#[derive(Clone, Copy, Debug, PartialEq, Eq, Structural)]
pub struct ArchiveHandle {
    pub id: u64,
}

/// How durable a node's checkpoints are. The node hands it on to its archive;
/// modes that it does not know by name keep the application's number.
#[derive(Clone, Copy, Debug, PartialEq, Eq, Structural)]
pub enum DurabilityMode {
    Sync,
    Other { id: u64 },
}

/// The texts of a sequence of strings.
pub open spec fn texts(strings: Seq<String>) -> Seq<Seq<char>> {
    Seq::new(strings.len(), |i: int| strings[i]@)
}

/// Whether two lists of strings read the same.
pub fn same_texts(left: &Vec<String>, right: &Vec<String>) -> (same: bool)
    ensures
        same == (texts(left@) == texts(right@)),
{
    if left.len() != right.len() {
        assert(texts(left@).len() != texts(right@).len());
        return false;
    }
    let mut i: usize = 0;
    while i < left.len()
        invariant
            i <= left.len(),
            left.len() == right.len(),
            forall|j: int| 0 <= j < i ==> left@[j]@ == right@[j]@,
        decreases left.len() - i,
    {
        if left[i] != right[i] {
            assert(texts(left@)[i as int] != texts(right@)[i as int]);
            return false;
        }
        i = i + 1;
    }
    assert(texts(left@) =~= texts(right@));
    true
}

/// Whether two byte strings are equal.
pub fn same_bytes(left: &Vec<u8>, right: &Vec<u8>) -> (same: bool)
    ensures
        same == (left@ == right@),
{
    if left.len() != right.len() {
        return false;
    }
    let mut i: usize = 0;
    while i < left.len()
        invariant
            i <= left.len(),
            left.len() == right.len(),
            forall|j: int| 0 <= j < i ==> left@[j] == right@[j],
        decreases left.len() - i,
    {
        if left[i] != right[i] {
            return false;
        }
        i = i + 1;
    }
    assert(left@ =~= right@);
    true
}

/// A clone of a list of strings.
pub fn clone_texts(strings: &Vec<String>) -> (copy: Vec<String>)
    ensures
        copy@ == strings@,
{
    let mut copy: Vec<String> = Vec::new();
    let mut i: usize = 0;
    while i < strings.len()
        invariant
            i <= strings.len(),
            copy@ == strings@.take(i as int),
        decreases strings.len() - i,
    {
        copy.push(strings[i].clone());
        assert(copy@ =~= strings@.take(i as int + 1));
        i = i + 1;
    }
    assert(strings@.take(i as int) =~= strings@);
    copy
}

/// What materializes the log on a node.
#[derive(Clone, Copy, Debug, PartialEq, Eq, Structural)]
pub enum ExecutionProfile {
    Sqlite,
    Graph,
    Kv,
}

/// The voting members of a configuration, in order, with their digest.
#[derive(Debug, PartialEq, Eq)]
pub struct Membership {
    pub members: Vec<String>,
    pub digest: LogHash,
}

impl Membership {
    pub open spec fn same_as(self, other: Membership) -> bool {
        texts(self.members@) == texts(other.members@) && self.digest == other.digest
    }

    pub fn same(&self, other: &Membership) -> (same: bool)
        ensures
            same == self.same_as(*other),
    {
        same_texts(&self.members, &other.members) && self.digest == other.digest
    }
}

impl Clone for Membership {
    fn clone(&self) -> (copy: Self)
        ensures
            copy.members@ == self.members@,
            copy.digest == self.digest,
    {
        Membership { members: clone_texts(&self.members), digest: self.digest }
    }
}

/// The configuration that a bound Stop names as its successor.
#[derive(Clone, Debug, PartialEq, Eq)]
pub struct SuccessorDescriptor {
    pub cluster_id: String,
    pub predecessor_config_id: u64,
    pub predecessor_config_digest: LogHash,
    pub config_id: u64,
    pub digest: LogHash,
    pub members: Vec<String>,
}

impl SuccessorDescriptor {
    pub open spec fn same_as(self, other: SuccessorDescriptor) -> bool {
        &&& self.cluster_id@ == other.cluster_id@
        &&& self.predecessor_config_id == other.predecessor_config_id
        &&& self.predecessor_config_digest == other.predecessor_config_digest
        &&& self.config_id == other.config_id
        &&& self.digest == other.digest
        &&& texts(self.members@) == texts(other.members@)
    }

    pub fn same(&self, other: &SuccessorDescriptor) -> (same: bool)
        ensures
            same == self.same_as(*other),
    {
        self.cluster_id == other.cluster_id && self.predecessor_config_id
            == other.predecessor_config_id && self.predecessor_config_digest
            == other.predecessor_config_digest && self.config_id == other.config_id && self.digest
            == other.digest && same_texts(&self.members, &other.members)
    }
}

/// What a Stop binds its configuration to.
#[derive(Clone, Debug, PartialEq, Eq)]
pub enum StopBinding {
    Unbound,
    Bound { successor: SuccessorDescriptor, stop_command_hash: LogHash },
}

/// Whether a configuration is active or stopped.
#[derive(Clone, Debug, PartialEq, Eq)]
pub enum ConfigurationState {
    Active { config_id: u64, digest: LogHash },
    Stopped { config_id: u64, digest: LogHash, stop: LogAnchor, binding: StopBinding },
}

impl ConfigurationState {
    pub open spec fn spec_is_active(self) -> bool {
        self is Active
    }

    pub fn is_active(&self) -> (active: bool)
        ensures
            active == self.spec_is_active(),
    {
        matches!(self, ConfigurationState::Active { .. })
    }

    /// This is the active configuration with these parts.
    pub open spec fn is_active_as(self, config_id: u64, digest: LogHash) -> bool {
        self == (ConfigurationState::Active { config_id, digest })
    }

    pub fn active_as(&self, config_id: u64, digest: LogHash) -> (same: bool)
        ensures
            same == self.is_active_as(config_id, digest),
    {
        match self {
            ConfigurationState::Active { config_id: own_id, digest: own_digest } => *own_id
                == config_id && *own_digest == digest,
            _ => false,
        }
    }

    /// This is the stopped configuration with these parts, bound to
    /// `successor` by the command with this hash.
    pub open spec fn is_stopped_as(
        self,
        config_id: u64,
        digest: LogHash,
        stop: LogAnchor,
        successor: SuccessorDescriptor,
        stop_command_hash: LogHash,
    ) -> bool {
        self matches ConfigurationState::Stopped {
            config_id: own_id,
            digest: own_digest,
            stop: own_stop,
            binding,
        } && own_id == config_id && own_digest == digest && own_stop == stop && (binding matches
            StopBinding::Bound { successor: own_successor, stop_command_hash: own_hash }
            && own_successor.same_as(successor) && own_hash == stop_command_hash)
    }

    pub fn stopped_as(
        &self,
        config_id: u64,
        digest: LogHash,
        stop: LogAnchor,
        successor: &SuccessorDescriptor,
        stop_command_hash: LogHash,
    ) -> (same: bool)
        ensures
            same == self.is_stopped_as(config_id, digest, stop, *successor, stop_command_hash),
    {
        match self {
            ConfigurationState::Stopped {
                config_id: own_id,
                digest: own_digest,
                stop: own_stop,
                binding: StopBinding::Bound { successor: own_successor, stop_command_hash: own_hash },
            } => *own_id == config_id && *own_digest == digest && *own_stop == stop
                && own_successor.same(successor) && *own_hash == stop_command_hash,
            _ => false,
        }
    }
}

/// What startup reads of a node's configuration.
#[derive(Clone, Debug, PartialEq, Eq)]
pub struct NodeConfig {
    pub cluster_id: String,
    pub node_id: String,
    pub epoch: u64,
    pub config_id: u64,
    pub recovery_generation: u64,
    pub execution_profile: ExecutionProfile,
    /// The execution profile as cluster identities carry it.
    pub profile_name: String,
    pub membership: Membership,
    pub log_initial_configuration: ConfigurationState,
    pub configuration_state: ConfigurationState,
}

/// Which history a checkpoint belongs to.
#[derive(Debug, PartialEq, Eq)]
pub struct CheckpointIdentity {
    pub cluster_id: String,
    pub epoch: u64,
    pub config_id: u64,
    pub config_digest: LogHash,
    pub recovery_generation: u64,
}

impl Clone for CheckpointIdentity {
    fn clone(&self) -> (copy: Self)
        ensures
            copy == *self,
    {
        CheckpointIdentity {
            cluster_id: self.cluster_id.clone(),
            epoch: self.epoch,
            config_id: self.config_id,
            config_digest: self.config_digest,
            recovery_generation: self.recovery_generation,
        }
    }
}

impl CheckpointIdentity {
    pub open spec fn same_as(self, other: CheckpointIdentity) -> bool {
        &&& self.cluster_id@ == other.cluster_id@
        &&& self.epoch == other.epoch
        &&& self.config_id == other.config_id
        &&& self.config_digest == other.config_digest
        &&& self.recovery_generation == other.recovery_generation
    }

    pub fn same(&self, other: &CheckpointIdentity) -> (same: bool)
        ensures
            same == self.same_as(*other),
    {
        self.cluster_id == other.cluster_id && self.epoch == other.epoch && self.config_id
            == other.config_id && self.config_digest == other.config_digest
            && self.recovery_generation == other.recovery_generation
    }
}

/// Two memberships are the same exactly where they name the same members, in
/// order, under one digest; being the same is an equivalence.
pub proof fn law_memberships_are_the_same_member_by_member(
    left: Membership,
    right: Membership,
    third: Membership,
)
    ensures
        left.same_as(right) <==> left.digest == right.digest && left.members@.len()
            == right.members@.len() && (forall|i: int|
            0 <= i < left.members@.len() ==> (#[trigger] left.members@[i])@ == right.members@[i]@),
        left.same_as(left),
        left.same_as(right) ==> right.same_as(left),
        left.same_as(right) && right.same_as(third) ==> left.same_as(third),
{
    lemma_texts(left.members@, right.members@);
}

proof fn lemma_texts(left: Seq<String>, right: Seq<String>)
    ensures
        texts(left) == texts(right) <==> left.len() == right.len() && (forall|i: int|
            0 <= i < left.len() ==> (#[trigger] left[i])@ == right[i]@),
{
    if texts(left) == texts(right) {
        assert(texts(left).len() == texts(right).len());
        assert forall|i: int| 0 <= i < left.len() implies (#[trigger] left[i])@ == right[i]@ by {
            assert(texts(left)[i] == texts(right)[i]);
        }
    } else if left.len() == right.len() && (forall|i: int|
        0 <= i < left.len() ==> (#[trigger] left[i])@ == right[i]@) {
        assert(texts(left) =~= texts(right));
    }
}

/// Two successors are the same exactly where every part of them is.
pub proof fn law_successors_are_the_same_part_by_part(
    left: SuccessorDescriptor,
    right: SuccessorDescriptor,
)
    ensures
        left.same_as(right) <==> left.cluster_id@ == right.cluster_id@ && left.predecessor_config_id
            == right.predecessor_config_id && left.predecessor_config_digest
            == right.predecessor_config_digest && left.config_id == right.config_id && left.digest
            == right.digest && texts(left.members@) == texts(right.members@),
        left.same_as(right) ==> right.same_as(left),
{
}

/// Two checkpoint histories are the same exactly where every part of them is.
pub proof fn law_checkpoint_identities_are_the_same_part_by_part(
    left: CheckpointIdentity,
    right: CheckpointIdentity,
)
    ensures
        left.same_as(right) <==> left.cluster_id@ == right.cluster_id@ && left.epoch == right.epoch
            && left.config_id == right.config_id && left.config_digest == right.config_digest
            && left.recovery_generation == right.recovery_generation,
        left.same_as(right) ==> right.same_as(left),
{
}

/// A configuration is active or stopped, never both, and is recognized as one
/// or the other only by every part of it: a stopped one also by the Stop, the
/// successor that it is bound to and the command that stopped it.
pub proof fn law_a_configuration_is_recognized_by_every_part(
    state: ConfigurationState,
    config_id: u64,
    digest: LogHash,
    stop: LogAnchor,
    successor: SuccessorDescriptor,
    stop_command_hash: LogHash,
)
    ensures
        state.is_active_as(config_id, digest) ==> state.spec_is_active(),
        state.spec_is_active() <==> !(state is Stopped),
        state.is_stopped_as(config_id, digest, stop, successor, stop_command_hash)
            ==> !state.spec_is_active(),
        state matches ConfigurationState::Active { config_id: id, digest: own } ==> (
        state.is_active_as(config_id, digest) <==> id == config_id && own == digest),
        state matches ConfigurationState::Stopped {
            config_id: id,
            digest: own,
            stop: at,
            binding: StopBinding::Bound { successor: bound, stop_command_hash: hash },
        } ==> (state.is_stopped_as(config_id, digest, stop, successor, stop_command_hash) <==> id
            == config_id && own == digest && at == stop && bound.same_as(successor) && hash
            == stop_command_hash),
        state matches ConfigurationState::Stopped { binding: StopBinding::Unbound, .. }
            ==> !state.is_stopped_as(config_id, digest, stop, successor, stop_command_hash),
{
}

} // verus!
