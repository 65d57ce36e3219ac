//! Whether the local log holds the checkpoint that the archive vouches for.
use crate::config::{CheckpointIdentity, NodeConfig};
use crate::error::{fail, HaStartupError};
use crate::log::{LogAnchor, LogHash};
use crate::text::{decimal_text, joined3, starts_with};
use vstd::prelude::*;

verus! {

/// What the local log says of itself.
#[derive(Clone, Copy, Debug, PartialEq, Eq, Structural)]
pub struct LogicalState {
    /// The last entry, if there is one.
    pub tip: Option<LogAnchor>,
    /// Where the log was compacted, if it was.
    pub compacted: Option<LogAnchor>,
}

/// What the local runtime says of itself. Each part is what was found, or
/// what went wrong when it was looked for.
#[derive(Debug)]
pub struct LocalLog {
    pub consensus_config_id: u64,
    pub configuration_digest: Result<LogHash, String>,
    pub logical_state: Result<LogicalState, String>,
    /// The hash of the entry at the checkpoint's index, if there is one.
    pub entry_hash: Result<Option<LogHash>, String>,
}

/// The history that the local log belongs to.
pub open spec fn is_local_identity(
    config: NodeConfig,
    local: LocalLog,
    digest: LogHash,
    identity: CheckpointIdentity,
) -> bool {
    &&& identity.cluster_id@ == config.cluster_id@
    &&& identity.epoch == config.epoch
    &&& identity.config_id == local.consensus_config_id
    &&& identity.config_digest == digest
    &&& identity.recovery_generation == config.recovery_generation
}

/// How a cluster of the node's execution profile is named.
pub open spec fn profile_prefix(config: NodeConfig) -> Seq<char> {
    "rhiza:"@ + config.profile_name@ + ":"@
}

/// Where the local log ends.
pub open spec fn local_tip(state: LogicalState) -> LogAnchor {
    match state.tip {
        Some(tip) => tip,
        None => LogAnchor { index: 0, hash: LogHash::zero() },
    }
}

/// `result` says whether the local log with this state holds `root`.
pub open spec fn holds_root(
    state: LogicalState,
    entry_hash: Result<Option<LogHash>, String>,
    root: LogAnchor,
    result: Result<(), HaStartupError>,
) -> bool {
    if local_tip(state).index < root.index {
        result matches Err(error) && error.is_source(
            "nonfresh rejoin local qlog tip "@ + crate::text::decimal(
                local_tip(state).index as nat,
            ) + " is behind authoritative checkpoint "@ + crate::text::decimal(root.index as nat),
        )
    } else if root.index == 0 {
        if root.hash == LogHash::zero() {
            result is Ok
        } else {
            result matches Err(error) && error.is_source(
                "authoritative checkpoint genesis hash is not zero"@,
            )
        }
    } else if state.compacted matches Some(compacted) && compacted.index > root.index {
        result matches Err(error) && error.is_source(
            "nonfresh rejoin local qlog compacted past the authoritative checkpoint without exact inclusion evidence"@,
        )
    } else if state.compacted matches Some(compacted) && compacted.index == root.index {
        matches_root(Some(state.compacted->0.hash), root, result)
    } else {
        match entry_hash {
            Err(failure) => result matches Err(error) && error.is_source(failure@),
            Ok(hash) => matches_root(hash, root, result),
        }
    }
}

/// `result` says whether the hash found locally is that of `root`.
pub open spec fn matches_root(
    hash: Option<LogHash>,
    root: LogAnchor,
    result: Result<(), HaStartupError>,
) -> bool {
    if hash == Some(root.hash) {
        result is Ok
    } else {
        result matches Err(error) && error.is_source(
            "nonfresh rejoin local qlog hash at index "@ + crate::text::decimal(root.index as nat)
                + " does not match the authoritative checkpoint"@,
        )
    }
}

fn check_root_hash(hash: Option<LogHash>, root: LogAnchor) -> (result: Result<(), HaStartupError>)
    ensures
        matches_root(hash, root, result),
{
    let same = match hash {
        Some(hash) => hash == root.hash,
        None => false,
    };
    if same {
        Ok(())
    } else {
        let message = joined3(
            "nonfresh rejoin local qlog hash at index ",
            decimal_text(root.index).as_str(),
            " does not match the authoritative checkpoint",
        );
        Err(HaStartupError::Source(message))
    }
}

fn check_root(
    state: LogicalState,
    entry_hash: &Result<Option<LogHash>, String>,
    root: LogAnchor,
) -> (result: Result<(), HaStartupError>)
    ensures
        holds_root(state, *entry_hash, root, result),
{
    let tip = match state.tip {
        Some(tip) => tip,
        None => LogAnchor::new(0, LogHash::zero()),
    };
    if tip.index < root.index {
        let mut message = joined3(
            "nonfresh rejoin local qlog tip ",
            decimal_text(tip.index).as_str(),
            " is behind authoritative checkpoint ",
        );
        message.append(decimal_text(root.index).as_str());
        return Err(HaStartupError::Source(message));
    }
    if root.index == 0 {
        return if root.hash == LogHash::zero() {
            Ok(())
        } else {
            Err(fail("authoritative checkpoint genesis hash is not zero"))
        };
    }
    match state.compacted {
        Some(compacted) => {
            if compacted.index == root.index {
                return check_root_hash(Some(compacted.hash), root);
            }
            if compacted.index > root.index {
                return Err(
                    fail(
                        "nonfresh rejoin local qlog compacted past the authoritative checkpoint without exact inclusion evidence",
                    ),
                );
            }
        },
        None => {},
    }
    match entry_hash {
        Err(failure) => Err(HaStartupError::Source(failure.clone())),
        Ok(hash) => check_root_hash(*hash, root),
    }
}

/// `result` says whether the local log is that of `identity` and holds `root`.
pub open spec fn checkpoint_verdict(
    config: NodeConfig,
    local: LocalLog,
    identity: CheckpointIdentity,
    root: LogAnchor,
    result: Result<(), HaStartupError>,
) -> bool {
    match local.configuration_digest {
        Err(failure) => result matches Err(error) && error.is_source(failure@),
        Ok(digest) => if !is_local_identity(config, local, digest, identity) {
            result matches Err(error) && error.is_source(
                "nonfresh rejoin local qlog identity does not match the authoritative checkpoint"@,
            )
        } else if !profile_prefix(config).is_prefix_of(identity.cluster_id@) {
            result matches Err(error) && error.is_source(
                "nonfresh rejoin execution profile does not match the checkpoint identity"@,
            )
        } else {
            match local.logical_state {
                Err(failure) => result matches Err(error) && error.is_source(failure@),
                Ok(state) => holds_root(state, local.entry_hash, root, result),
            }
        },
    }
}

/// Accepts the local log only where it belongs to the checkpoint's history and
/// execution profile, reaches the checkpoint, and holds exactly its hash there.
pub fn verify_local_rejoin_checkpoint(
    config: &NodeConfig,
    local: &LocalLog,
    identity: &CheckpointIdentity,
    root: LogAnchor,
) -> (result: Result<(), HaStartupError>)
    ensures
        checkpoint_verdict(*config, *local, *identity, root, result),
{
    let digest = match &local.configuration_digest {
        Err(failure) => {
            return Err(HaStartupError::Source(failure.clone()));
        },
        Ok(digest) => *digest,
    };
    if identity.cluster_id != config.cluster_id || identity.epoch != config.epoch
        || identity.config_id != local.consensus_config_id || identity.config_digest != digest
        || identity.recovery_generation != config.recovery_generation {
        return Err(
            fail("nonfresh rejoin local qlog identity does not match the authoritative checkpoint"),
        );
    }
    let prefix = joined3("rhiza:", config.profile_name.as_str(), ":");
    if !starts_with(identity.cluster_id.as_str(), prefix.as_str()) {
        return Err(
            fail("nonfresh rejoin execution profile does not match the checkpoint identity"),
        );
    }
    match &local.logical_state {
        Err(failure) => Err(HaStartupError::Source(failure.clone())),
        Ok(state) => check_root(*state, &local.entry_hash, root),
    }
}

/// A local log that was accepted is of the checkpoint's history and execution
/// profile, and holds the checkpoint: it reaches its index, and what it holds
/// there, compacted or not, has the checkpoint's hash.
pub proof fn law_accepted_log_holds_the_checkpoint(
    config: NodeConfig,
    local: LocalLog,
    identity: CheckpointIdentity,
    root: LogAnchor,
    result: Result<(), HaStartupError>,
)
    requires
        checkpoint_verdict(config, local, identity, root, result),
        result is Ok,
    ensures
        local.logical_state is Ok,
        local_tip(local.logical_state->Ok_0).index >= root.index,
        root.index > 0 ==> (local.logical_state->Ok_0.compacted == Some(root) || (
        local.entry_hash == Ok::<Option<LogHash>, String>(Some(root.hash)) && (
        local.logical_state->Ok_0.compacted matches Some(compacted) ==> compacted.index
            < root.index))),
        root.index == 0 ==> root.hash == LogHash::zero(),
        local.configuration_digest matches Ok(digest) && is_local_identity(
            config,
            local,
            digest,
            identity,
        ),
        profile_prefix(config).is_prefix_of(identity.cluster_id@),
{
}

/// A local log is accepted wherever it holds the checkpoint: one of the
/// checkpoint's history and profile that reaches it, and has its hash there, in
/// the log or where the log was compacted to. Nothing else is asked of it.
pub proof fn law_a_log_that_holds_the_checkpoint_is_accepted(
    config: NodeConfig,
    local: LocalLog,
    identity: CheckpointIdentity,
    root: LogAnchor,
    result: Result<(), HaStartupError>,
)
    requires
        checkpoint_verdict(config, local, identity, root, result),
    ensures
        result is Ok <==> {
            &&& local.configuration_digest matches Ok(digest) && identity.config_digest == digest
            &&& identity.cluster_id@ == config.cluster_id@ && identity.epoch == config.epoch
                && identity.config_id == local.consensus_config_id && identity.recovery_generation
                == config.recovery_generation
            &&& ("rhiza:"@ + config.profile_name@ + ":"@).is_prefix_of(identity.cluster_id@)
            &&& local.logical_state matches Ok(state) && (if root.index == 0 {
                root.hash == LogHash::zero()
            } else {
                &&& state.tip matches Some(tip) && tip.index >= root.index
                &&& match state.compacted {
                    Some(compacted) => compacted == root || (compacted.index < root.index
                        && local.entry_hash == Ok::<Option<LogHash>, String>(Some(root.hash))),
                    None => local.entry_hash == Ok::<Option<LogHash>, String>(Some(root.hash)),
                }
            })
        },
{
}

/// Why a local log is refused is told of the first thing that is wrong with it:
/// its digest, its history, its profile, its state, that it ends too early, a
/// genesis that is none, that it was compacted too far, or its hash.
pub proof fn law_a_refused_log_is_told_the_first_reason(
    config: NodeConfig,
    local: LocalLog,
    identity: CheckpointIdentity,
    root: LogAnchor,
    result: Result<(), HaStartupError>,
)
    requires
        checkpoint_verdict(config, local, identity, root, result),
    ensures
        local.configuration_digest matches Err(failure) ==> (result matches Err(error)
            && error.is_source(failure@)),
        local.configuration_digest matches Ok(digest) ==> {
            let of_history = identity.cluster_id@ == config.cluster_id@ && identity.epoch
                == config.epoch && identity.config_id == local.consensus_config_id
                && identity.config_digest == digest && identity.recovery_generation
                == config.recovery_generation;
            let of_profile = ("rhiza:"@ + config.profile_name@ + ":"@).is_prefix_of(
                identity.cluster_id@,
            );
            &&& !of_history ==> (result matches Err(error) && error.is_source(
                "nonfresh rejoin local qlog identity does not match the authoritative checkpoint"@,
            ))
            &&& of_history && !of_profile ==> (result matches Err(error) && error.is_source(
                "nonfresh rejoin execution profile does not match the checkpoint identity"@,
            ))
            &&& of_history && of_profile ==> (local.logical_state matches Err(failure) ==> (
            result matches Err(error) && error.is_source(failure@)))
            &&& of_history && of_profile ==> (local.logical_state matches Ok(state) ==> {
                let end: u64 = match state.tip {
                    Some(tip) => tip.index,
                    None => 0,
                };
                let over = state.compacted is Some && state.compacted->0.index > root.index;
                let at = state.compacted is Some && state.compacted->0.index == root.index;
                let mismatch = "nonfresh rejoin local qlog hash at index "@ + crate::text::decimal(
                    root.index as nat,
                ) + " does not match the authoritative checkpoint"@;
                &&& end < root.index ==> (result matches Err(error) && error.is_source(
                    "nonfresh rejoin local qlog tip "@ + crate::text::decimal(end as nat)
                        + " is behind authoritative checkpoint "@ + crate::text::decimal(
                        root.index as nat,
                    ),
                ))
                &&& root.index == 0 && root.hash != LogHash::zero() ==> (result matches Err(error)
                    && error.is_source("authoritative checkpoint genesis hash is not zero"@))
                &&& end >= root.index && root.index > 0 && over ==> (result matches Err(error)
                    && error.is_source(
                    "nonfresh rejoin local qlog compacted past the authoritative checkpoint without exact inclusion evidence"@,
                ))
                &&& end >= root.index && root.index > 0 && at ==> (result matches Err(error)
                    ==> error.is_source(mismatch))
                &&& end >= root.index && root.index > 0 && !over && !at ==> match local.entry_hash {
                    Err(failure) => result matches Err(error) && error.is_source(failure@),
                    Ok(_) => result matches Err(error) ==> error.is_source(mismatch),
                }
            })
        },
{
}

/// What holds of the verdict on a local log holds of the function that reaches
/// it.
pub proof fn law_a_log_is_judged_by_its_checkpoint(
    config: NodeConfig,
    local: LocalLog,
    identity: CheckpointIdentity,
    root: LogAnchor,
    result: Result<(), HaStartupError>,
)
    requires
        call_ensures(verify_local_rejoin_checkpoint, (&config, &local, &identity, root), result),
    ensures
        checkpoint_verdict(config, local, identity, root, result),
{
}

} // verus!
