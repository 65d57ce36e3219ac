//! What preparing local state comes to.
use crate::config::CheckpointIdentity;
use crate::log::LogAnchor;
use vstd::prelude::*;

verus! {

/// How the local recorder is opened once startup is prepared.
#[derive(Clone, Copy, Debug, PartialEq, Eq, Structural)]
pub enum RecorderOpenPolicy {
    /// A recorder that is not there is a failure.
    MustExist,
    /// A recorder that is there is a failure.
    CreateAfterRehydration,
}

/// What was found of the local recorder.
#[derive(Clone, Copy, Debug, PartialEq, Eq, Structural)]
pub enum LocalRecorderState {
    Missing,
    Valid,
    /// It was left by a crash and can be recovered.
    Recoverable,
}

/// A recorder is created only where none was found.
#[verifier::allow_in_spec]
pub fn recorder_open_policy_for_state(state: LocalRecorderState) -> (policy: RecorderOpenPolicy)
    returns
        (match state {
            LocalRecorderState::Missing => RecorderOpenPolicy::CreateAfterRehydration,
            _ => RecorderOpenPolicy::MustExist,
        }),
{
    match state {
        LocalRecorderState::Missing => RecorderOpenPolicy::CreateAfterRehydration,
        LocalRecorderState::Valid | LocalRecorderState::Recoverable => RecorderOpenPolicy::MustExist,
    }
}

/// What preparation leaves for opening the runtime.
#[derive(Debug)]
pub enum StartupPreparation {
    /// The local recorder takes part at once.
    RecorderFirst { open_policy: RecorderOpenPolicy },
    /// The local log must be shown to hold this checkpoint.
    VerifyLocalCheckpoint { identity: CheckpointIdentity, root: LogAnchor },
    /// The runtime catches up from its peers before the local recorder takes
    /// part.
    RuntimeFirstWithPeerCatchup { checkpoint_root: LogAnchor, open_policy: RecorderOpenPolicy },
}

impl StartupPreparation {
    pub open spec fn spec_open_policy(self) -> RecorderOpenPolicy {
        match self {
            StartupPreparation::RecorderFirst { open_policy } => open_policy,
            StartupPreparation::RuntimeFirstWithPeerCatchup { open_policy, .. } => open_policy,
            StartupPreparation::VerifyLocalCheckpoint { .. } => RecorderOpenPolicy::MustExist,
        }
    }

    /// How the local recorder is opened.
    pub fn open_policy(&self) -> (policy: RecorderOpenPolicy)
        ensures
            policy == self.spec_open_policy(),
    {
        match self {
            StartupPreparation::RecorderFirst { open_policy } => *open_policy,
            StartupPreparation::RuntimeFirstWithPeerCatchup { open_policy, .. } => *open_policy,
            StartupPreparation::VerifyLocalCheckpoint { .. } => RecorderOpenPolicy::MustExist,
        }
    }

    pub open spec fn spec_checkpoint_root(self) -> Option<LogAnchor> {
        match self {
            StartupPreparation::RuntimeFirstWithPeerCatchup { checkpoint_root, .. } => Some(
                checkpoint_root,
            ),
            _ => None,
        }
    }

    /// The checkpoint that the runtime catches up from, before the local
    /// recorder takes part.
    pub fn checkpoint_root(&self) -> (root: Option<LogAnchor>)
        ensures
            root == self.spec_checkpoint_root(),
    {
        match self {
            StartupPreparation::RuntimeFirstWithPeerCatchup { checkpoint_root, .. } => Some(
                *checkpoint_root,
            ),
            _ => None,
        }
    }

    /// Whether the local recorder takes part while the runtime is opened.
    pub fn uses_local_recorder(&self) -> (uses: bool)
        ensures
            uses == !(self is RuntimeFirstWithPeerCatchup),
    {
        !matches!(self, StartupPreparation::RuntimeFirstWithPeerCatchup { .. })
    }

    /// Whether the runtime catches up from its peers while it is opened.
    pub fn uses_log_peers(&self) -> (uses: bool)
        ensures
            uses == (self is RuntimeFirstWithPeerCatchup),
    {
        matches!(self, StartupPreparation::RuntimeFirstWithPeerCatchup { .. })
    }

    pub open spec fn spec_checkpoint_to_verify(self, authoritative: CheckpointIdentity) -> Option<
        (CheckpointIdentity, LogAnchor),
    > {
        match self {
            StartupPreparation::VerifyLocalCheckpoint { identity, root } => Some((identity, root)),
            StartupPreparation::RuntimeFirstWithPeerCatchup { checkpoint_root, .. } => Some(
                (authoritative, checkpoint_root),
            ),
            StartupPreparation::RecorderFirst { .. } => None,
        }
    }

    /// The checkpoint that the opened log must be shown to hold, if any.
    /// `authoritative` is the identity that the archive has.
    pub fn checkpoint_to_verify<'a>(&'a self, authoritative: &'a CheckpointIdentity) -> (checkpoint:
        Option<(&'a CheckpointIdentity, LogAnchor)>)
        ensures
            match self.spec_checkpoint_to_verify(*authoritative) {
                Some((identity, root)) => checkpoint matches Some(found) && *found.0 == identity
                    && found.1 == root,
                None => checkpoint is None,
            },
    {
        match self {
            StartupPreparation::VerifyLocalCheckpoint { identity, root } => Some((identity, *root)),
            StartupPreparation::RuntimeFirstWithPeerCatchup { checkpoint_root, .. } => Some(
                (authoritative, *checkpoint_root),
            ),
            StartupPreparation::RecorderFirst { .. } => None,
        }
    }
}

/// A recorder is created exactly where none was found, and must be there
/// otherwise; what a preparation leaves says how it is opened.
pub proof fn law_a_recorder_is_created_only_where_none_was_found(
    state: LocalRecorderState,
    preparation: StartupPreparation,
)
    ensures
        recorder_open_policy_for_state(state) == RecorderOpenPolicy::CreateAfterRehydration <==> state
            == LocalRecorderState::Missing,
        preparation is VerifyLocalCheckpoint ==> preparation.spec_open_policy()
            == RecorderOpenPolicy::MustExist,
        preparation matches StartupPreparation::RecorderFirst { open_policy }
            ==> preparation.spec_open_policy() == open_policy,
        preparation matches StartupPreparation::RuntimeFirstWithPeerCatchup { open_policy, .. }
            ==> preparation.spec_open_policy() == open_policy,
{
}

/// What the opened log must be shown to hold: the checkpoint that was verified
/// by name, or the archive's own where the runtime catches up from its root,
/// and nothing where the recorder takes part at once.
pub proof fn law_a_log_is_held_against_the_checkpoint_it_starts_from(
    preparation: StartupPreparation,
    authoritative: CheckpointIdentity,
)
    ensures
        match preparation {
            StartupPreparation::RecorderFirst { .. } => preparation.spec_checkpoint_to_verify(
                authoritative,
            ) is None && preparation.spec_checkpoint_root() is None,
            StartupPreparation::VerifyLocalCheckpoint { identity, root } => {
                preparation.spec_checkpoint_to_verify(authoritative) == Some((identity, root))
                    && preparation.spec_checkpoint_root() is None
            },
            StartupPreparation::RuntimeFirstWithPeerCatchup { checkpoint_root, .. } => {
                preparation.spec_checkpoint_to_verify(authoritative) == Some(
                    (authoritative, checkpoint_root),
                ) && preparation.spec_checkpoint_root() == Some(checkpoint_root)
            },
        },
{
}

/// A node uses its own recorder or the logs of its peers, and never both: the
/// peers exactly where it catches up from them before it has one.
pub proof fn law_a_node_uses_its_recorder_or_its_peers(
    preparation: StartupPreparation,
    local: bool,
    peers: bool,
)
    requires
        call_ensures(StartupPreparation::uses_local_recorder, (&preparation,), local),
        call_ensures(StartupPreparation::uses_log_peers, (&preparation,), peers),
    ensures
        local != peers,
        peers <==> preparation is RuntimeFirstWithPeerCatchup,
{
}

} // verus!
