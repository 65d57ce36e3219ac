//! What the files of a data directory say to startup.
use crate::binding::{
    validate_predecessor_binding, HaPredecessor, StopReading,
};
use crate::config::{same_bytes, CheckpointIdentity, ExecutionProfile, NodeConfig};
use crate::error::{fail, HaStartupError};
use crate::text::{joined, joined3};
use vstd::prelude::*;

verus! {

/// The most bytes that a local checkpoint identity marker may have.
pub const MAX_LOCAL_CHECKPOINT_IDENTITY_BYTES: u64 = 4096;

/// The most bytes that a successor restore control may have.
pub const MAX_SUCCESSOR_RESTORE_CONTROL_BYTES: u64 = 16384;

/// What is known of an open file.
#[derive(Clone, Copy, Debug, PartialEq, Eq, Structural)]
pub struct FileMetadata {
    pub is_file: bool,
    pub len: u64,
}

/// What came of reading a file without following a link at its end.
#[derive(Debug)]
pub enum FileObservation {
    Missing,
    /// It could not be opened. `symlink` says whether it is a link.
    OpenFailed { symlink: bool, unix_os_error: Option<i32>, message: String },
    /// It was opened, inspected, read to one byte past the limit, and
    /// inspected again.
    Opened {
        before: Result<FileMetadata, String>,
        read: Result<Vec<u8>, String>,
        after: Result<FileMetadata, String>,
    },
}

/// A file that may be read: a regular one with at least one byte and no more
/// than the limit.
pub open spec fn is_readable(metadata: FileMetadata, max_bytes: u64) -> bool {
    metadata.is_file && 0 < metadata.len <= max_bytes
}

/// `error` says why a file may not be read.
pub open spec fn is_unreadable_error(
    before: Result<FileMetadata, String>,
    label: Seq<char>,
    error: HaStartupError,
) -> bool {
    match before {
        Err(message) => error.is_source("cannot inspect open "@ + label + ": "@ + message@),
        Ok(metadata) => if !metadata.is_file {
            error.is_source(label + " must be a regular file"@)
        } else {
            error.is_source(label + " has an invalid size"@)
        },
    }
}

/// Whether an open file may be read, by what is known of it.
pub fn accept_before_read(
    before: &Result<FileMetadata, String>,
    max_bytes: u64,
    label: &str,
) -> (result: Result<u64, HaStartupError>)
    ensures
        match result {
            Ok(len) => before matches Ok(metadata) && is_readable(*metadata, max_bytes) && len
                == metadata.len,
            Err(error) => !(before matches Ok(metadata) && is_readable(*metadata, max_bytes))
                && is_unreadable_error(*before, label@, error),
        },
{
    let metadata = match before {
        Err(message) => {
            let mut text = joined3("cannot inspect open ", label, ": ");
            text.append(message.as_str());
            return Err(HaStartupError::Source(text));
        },
        Ok(metadata) => *metadata,
    };
    if !metadata.is_file {
        return Err(HaStartupError::Source(joined(label, " must be a regular file")));
    }
    if metadata.len == 0 || metadata.len > max_bytes {
        return Err(HaStartupError::Source(joined(label, " has an invalid size")));
    }
    Ok(metadata.len)
}

/// The file is still what it was, and `bytes` is all of it.
pub open spec fn is_unchanged(after: FileMetadata, bytes: Seq<u8>, len: u64, max_bytes: u64) -> bool {
    after.is_file && after.len == len && bytes.len() == len && bytes.len() <= max_bytes
}

/// `result` is what an optional bounded read gives.
pub open spec fn bounded_read(
    observation: FileObservation,
    max_bytes: u64,
    label: Seq<char>,
    result: Result<Option<Vec<u8>>, HaStartupError>,
) -> bool {
    match observation {
        FileObservation::Missing => result == Ok::<Option<Vec<u8>>, HaStartupError>(None),
        FileObservation::OpenFailed { symlink, unix_os_error, message } => result matches Err(error)
            && if symlink || unix_os_error == Some(40i32) {
            error.is_source(label + " must be a regular file"@)
        } else {
            error.is_source("cannot open "@ + label + ": "@ + message@)
        },
        FileObservation::Opened { before, read, after } => if !(before matches Ok(metadata)
            && is_readable(metadata, max_bytes)) {
            result matches Err(error) && is_unreadable_error(before, label, error)
        } else {
            match read {
                Err(message) => result matches Err(error) && error.is_source(
                    "cannot read "@ + label + ": "@ + message@,
                ),
                Ok(bytes) => match after {
                    Err(message) => result matches Err(error) && error.is_source(
                        "cannot inspect open "@ + label + ": "@ + message@,
                    ),
                    Ok(metadata) => if is_unchanged(
                        metadata,
                        bytes@,
                        before->Ok_0.len,
                        max_bytes,
                    ) {
                        result == Ok::<Option<Vec<u8>>, HaStartupError>(Some(bytes))
                    } else {
                        result matches Err(error) && error.is_source(
                            label + " changed during bounded read"@,
                        )
                    },
                },
            }
        },
    }
}

/// What an optional bounded read gives: nothing where there is no file, and
/// all bytes of a regular file of acceptable size that did not change.
pub fn read_optional_bounded_regular_file_no_follow(
    observation: FileObservation,
    max_bytes: u64,
    label: &str,
) -> (result: Result<Option<Vec<u8>>, HaStartupError>)
    ensures
        bounded_read(observation, max_bytes, label@, result),
{
    match observation {
        FileObservation::Missing => Ok(None),
        FileObservation::OpenFailed { symlink, unix_os_error, message } => {
            let refused = match unix_os_error {
                Some(number) => number == 40,
                None => false,
            };
            if symlink || refused {
                Err(HaStartupError::Source(joined(label, " must be a regular file")))
            } else {
                let mut text = joined3("cannot open ", label, ": ");
                text.append(message.as_str());
                Err(HaStartupError::Source(text))
            }
        },
        FileObservation::Opened { before, read, after } => {
            let len: u64 = match accept_before_read(&before, max_bytes, label) {
                Ok(len) => len,
                Err(error) => {
                    return Err(error);
                },
            };
            let bytes = match read {
                Ok(bytes) => bytes,
                Err(message) => {
                    let mut text = joined3("cannot read ", label, ": ");
                    text.append(message.as_str());
                    return Err(HaStartupError::Source(text));
                },
            };
            let after = match after {
                Ok(after) => after,
                Err(message) => {
                    let mut text = joined3("cannot inspect open ", label, ": ");
                    text.append(message.as_str());
                    return Err(HaStartupError::Source(text));
                },
            };
            let size: u64 = bytes.len() as u64;
            if !after.is_file || after.len != len || size != len || size > max_bytes {
                return Err(HaStartupError::Source(joined(label, " changed during bounded read")));
            }
            Ok(Some(bytes))
        },
    }
}

/// What a bounded read of a file that must be there gives.
pub fn read_bounded_regular_file_no_follow(
    observation: FileObservation,
    max_bytes: u64,
    label: &str,
) -> (result: Result<Vec<u8>, HaStartupError>)
    ensures
        observation is Missing ==> (result matches Err(error) && error.is_source(
            "nonfresh rejoin requires a "@ + label@,
        )),
        !(observation is Missing) ==> bounded_read(
            observation,
            max_bytes,
            label@,
            match result {
                Ok(bytes) => Ok(Some(bytes)),
                Err(error) => Err(error),
            },
        ),
{
    match read_optional_bounded_regular_file_no_follow(observation, max_bytes, label) {
        Ok(Some(bytes)) => Ok(bytes),
        Ok(None) => Err(HaStartupError::Source(joined("nonfresh rejoin requires a ", label))),
        Err(error) => Err(error),
    }
}

/// What was found at one path of the data directory.
#[derive(Debug)]
pub enum PathObservation {
    Missing,
    /// It could not be inspected.
    Unknown(String),
    /// It is not a directory.
    NotDirectory,
    /// It is a directory, and has an entry or not, or could not be listed.
    Directory { has_entry: Result<bool, String> },
}

/// Whether there is any state at the path.
pub open spec fn spec_has_state(observation: PathObservation) -> Result<bool, String> {
    match observation {
        PathObservation::Missing => Ok(false),
        PathObservation::Unknown(message) => Err(message),
        PathObservation::NotDirectory => Ok(true),
        PathObservation::Directory { has_entry } => has_entry,
    }
}

/// Whether there is any state at the path. An empty directory is none.
pub fn path_has_state(observation: &PathObservation) -> (result: Result<bool, String>)
    ensures
        result == spec_has_state(*observation),
{
    match observation {
        PathObservation::Missing => Ok(false),
        PathObservation::Unknown(message) => Err(message.clone()),
        PathObservation::NotDirectory => Ok(true),
        PathObservation::Directory { has_entry } => match has_entry {
            Ok(has_entry) => Ok(*has_entry),
            Err(message) => Err(message.clone()),
        },
    }
}

/// The paths that hold a node's state, below its data directory. `marker` is
/// the name of the checkpoint identity marker.
pub fn local_state_paths(marker: &str) -> (paths: Vec<String>)
    ensures
        crate::config::texts(paths@) == seq![
            marker@,
            "consensus/log"@,
            "sqlite"@,
            "ladybug"@,
            "kv"@,
            "recorder"@,
            "consensus/recorder"@,
        ],
{
    let mut paths: Vec<String> = Vec::new();
    paths.push(marker.to_owned());
    paths.push("consensus/log".to_owned());
    paths.push("sqlite".to_owned());
    paths.push("ladybug".to_owned());
    paths.push("kv".to_owned());
    paths.push("recorder".to_owned());
    paths.push("consensus/recorder".to_owned());
    assert(crate::config::texts(paths@) =~= seq![
        marker@,
        "consensus/log"@,
        "sqlite"@,
        "ladybug"@,
        "kv"@,
        "recorder"@,
        "consensus/recorder"@,
    ]);
    paths
}

/// The first path that is not known to be without state, counted from `from`.
pub open spec fn first_with_state(paths: Seq<PathObservation>, from: int) -> int
    decreases paths.len() - from,
{
    if from < 0 || from >= paths.len() {
        paths.len() as int
    } else if spec_has_state(paths[from]) == Ok::<bool, String>(false) {
        first_with_state(paths, from + 1)
    } else {
        from
    }
}

/// Whether the data directory is fresh, by what was found at its state paths
/// in order: no path has state. The first path that has, or that cannot be
/// inspected, decides.
pub fn local_data_is_fresh(paths: &Vec<PathObservation>) -> (result: Result<bool, HaStartupError>)
    ensures
        ({
            let first = first_with_state(paths@, 0);
            if first == paths@.len() {
                result == Ok::<bool, HaStartupError>(true)
            } else {
                match spec_has_state(paths@[first]) {
                    Ok(_) => result == Ok::<bool, HaStartupError>(false),
                    Err(message) => result == Err::<bool, HaStartupError>(
                        HaStartupError::Source(message),
                    ),
                }
            }
        }),
{
    let mut i: usize = 0;
    while i < paths.len()
        invariant
            i <= paths.len(),
            first_with_state(paths@, 0) == first_with_state(paths@, i as int),
        decreases paths.len() - i,
    {
        match path_has_state(&paths[i]) {
            Ok(true) => {
                return Ok(false);
            },
            Ok(false) => {},
            Err(message) => {
                return Err(HaStartupError::Source(message));
            },
        }
        i = i + 1;
    }
    Ok(true)
}

/// A directory is fresh exactly where every path could be inspected and none
/// has state.
pub proof fn law_fresh_means_no_state_anywhere(paths: Seq<PathObservation>)
    ensures
        first_with_state(paths, 0) == paths.len() <==> (forall|i: int|
            0 <= i < paths.len() ==> spec_has_state(#[trigger] paths[i]) == Ok::<bool, String>(
                false,
            )),
{
    lemma_first_with_state(paths, 0);
}

proof fn lemma_first_with_state(paths: Seq<PathObservation>, from: int)
    requires
        0 <= from <= paths.len(),
    ensures
        from <= first_with_state(paths, from) <= paths.len(),
        forall|i: int|
            from <= i < first_with_state(paths, from) ==> spec_has_state(#[trigger] paths[i])
                == Ok::<bool, String>(false),
        first_with_state(paths, from) < paths.len() ==> spec_has_state(
            paths[first_with_state(paths, from)],
        ) != Ok::<bool, String>(false),
    decreases paths.len() - from,
{
    if from < paths.len() {
        if spec_has_state(paths[from]) == Ok::<bool, String>(false) {
            lemma_first_with_state(paths, from + 1);
        }
    }
}

/// What a local checkpoint identity marker says.
#[derive(Debug, PartialEq, Eq)]
pub struct LocalCheckpointIdentityMarker {
    pub cluster_id: String,
    pub node_id: String,
    pub execution_profile: ExecutionProfile,
    pub epoch: u64,
    pub config_id: u64,
    pub recovery_generation: u64,
}

impl LocalCheckpointIdentityMarker {
    /// The marker is that of this node at this checkpoint.
    pub open spec fn marks(
        self,
        execution_profile: ExecutionProfile,
        identity: CheckpointIdentity,
        node_id: Seq<char>,
    ) -> bool {
        &&& self.cluster_id@ == identity.cluster_id@
        &&& self.node_id@ == node_id
        &&& self.execution_profile == execution_profile
        &&& self.epoch == identity.epoch
        &&& self.config_id == identity.config_id
        &&& self.recovery_generation == identity.recovery_generation
    }
}

/// The marker of this node at this checkpoint.
pub fn marker_from_identity(
    execution_profile: ExecutionProfile,
    identity: &CheckpointIdentity,
    node_id: &str,
) -> (marker: LocalCheckpointIdentityMarker)
    ensures
        marker.marks(execution_profile, *identity, node_id@),
{
    LocalCheckpointIdentityMarker {
        cluster_id: identity.cluster_id.clone(),
        node_id: node_id.to_owned(),
        execution_profile,
        epoch: identity.epoch,
        config_id: identity.config_id,
        recovery_generation: identity.recovery_generation,
    }
}

/// The bytes of a marker. `encoded` is what its codec made of it, or what went
/// wrong.
pub fn encode_local_checkpoint_identity_marker(encoded: Result<Vec<u8>, String>) -> (result: Result<
    Vec<u8>,
    HaStartupError,
>)
    ensures
        match encoded {
            Ok(bytes) => result == Ok::<Vec<u8>, HaStartupError>(bytes),
            Err(failure) => result matches Err(error) && error.is_source(
                "cannot encode local checkpoint identity marker: "@ + failure@,
            ),
        },
{
    match encoded {
        Ok(bytes) => Ok(bytes),
        Err(failure) => Err(
            HaStartupError::Source(
                joined("cannot encode local checkpoint identity marker: ", failure.as_str()),
            ),
        ),
    }
}

/// Accepts only the exact marker of this node at this checkpoint.
pub fn validate_local_checkpoint_identity_marker(
    marker: &LocalCheckpointIdentityMarker,
    execution_profile: ExecutionProfile,
    identity: &CheckpointIdentity,
    node_id: &String,
) -> (result: Result<(), HaStartupError>)
    ensures
        result is Ok <==> marker.marks(execution_profile, *identity, node_id@),
        result matches Err(error) ==> error.is_source(
            "local checkpoint identity marker does not exactly match the authoritative checkpoint"@,
        ),
{
    if marker.cluster_id != identity.cluster_id || marker.node_id != *node_id
        || marker.execution_profile != execution_profile || marker.epoch != identity.epoch
        || marker.config_id != identity.config_id || marker.recovery_generation
        != identity.recovery_generation {
        return Err(
            fail(
                "local checkpoint identity marker does not exactly match the authoritative checkpoint",
            ),
        );
    }
    Ok(())
}

/// What came of reading and decoding the marker.
#[derive(Debug)]
pub enum MarkerReading {
    /// The bounded read failed.
    Unreadable(HaStartupError),
    /// The bytes are no marker.
    Undecodable,
    Decoded(LocalCheckpointIdentityMarker),
}

/// `result` is what a reading of the marker is worth.
pub open spec fn marker_verdict(
    reading: MarkerReading,
    execution_profile: ExecutionProfile,
    identity: CheckpointIdentity,
    node_id: Seq<char>,
    result: Result<(), HaStartupError>,
) -> bool {
    match reading {
        MarkerReading::Unreadable(error) => result == Err::<(), HaStartupError>(error),
        MarkerReading::Undecodable => result matches Err(error) && error.is_source(
            "local checkpoint identity marker is invalid"@,
        ),
        MarkerReading::Decoded(marker) => if marker.marks(execution_profile, identity, node_id) {
            result is Ok
        } else {
            result matches Err(error) && error.is_source(
                "local checkpoint identity marker does not exactly match the authoritative checkpoint"@,
            )
        },
    }
}

/// What a reading of the marker is worth.
pub fn read_and_validate_local_checkpoint_identity_marker(
    reading: MarkerReading,
    execution_profile: ExecutionProfile,
    identity: &CheckpointIdentity,
    node_id: &String,
) -> (result: Result<(), HaStartupError>)
    ensures
        marker_verdict(reading, execution_profile, *identity, node_id@, result),
{
    match reading {
        MarkerReading::Unreadable(error) => Err(error),
        MarkerReading::Undecodable => Err(fail("local checkpoint identity marker is invalid")),
        MarkerReading::Decoded(marker) => validate_local_checkpoint_identity_marker(
            &marker,
            execution_profile,
            identity,
            node_id,
        ),
    }
}

/// Whether something is at a path.
#[derive(Debug)]
pub enum PathPresence {
    Present,
    Missing,
    Unknown(String),
}

/// Whether the exact marker is there. A marker that is there but is not the
/// exact one is an error.
pub fn exact_checkpoint_marker_exists(
    presence: &PathPresence,
    reading: MarkerReading,
    execution_profile: ExecutionProfile,
    identity: &CheckpointIdentity,
    node_id: &String,
) -> (result: Result<bool, HaStartupError>)
    ensures
        match presence {
            PathPresence::Missing => result == Ok::<bool, HaStartupError>(false),
            PathPresence::Unknown(message) => result matches Err(error) && error.is_source(
                "cannot inspect local checkpoint identity marker: "@ + message@,
            ),
            PathPresence::Present => {
                &&& result != Ok::<bool, HaStartupError>(false)
                &&& marker_verdict(
                    reading,
                    execution_profile,
                    *identity,
                    node_id@,
                    match result {
                        Ok(_) => Ok(()),
                        Err(error) => Err(error),
                    },
                )
            },
        },
{
    match presence {
        PathPresence::Missing => Ok(false),
        PathPresence::Unknown(message) => Err(
            HaStartupError::Source(
                joined(
                    "cannot inspect local checkpoint identity marker: ",
                    message.as_str(),
                ),
            ),
        ),
        PathPresence::Present => match read_and_validate_local_checkpoint_identity_marker(
            reading,
            execution_profile,
            identity,
            node_id,
        ) {
            Ok(()) => Ok(true),
            Err(error) => Err(error),
        },
    }
}

/// What the receipt of a restored successor says.
#[derive(Debug, PartialEq, Eq)]
pub struct SuccessorRestoreReceipt {
    pub cluster_id: String,
    pub epoch: u64,
    pub target_config_id: u64,
    pub recovery_generation: u64,
    pub node_id: String,
    pub membership_digest: String,
    pub predecessor_config_id: u64,
    pub stop_index: u64,
    pub stop_hash: String,
}

impl SuccessorRestoreReceipt {
    /// The receipt is that of this node, target and predecessor.
    pub open spec fn receipts(
        self,
        config: NodeConfig,
        target_config_id: u64,
        predecessor: HaPredecessor,
    ) -> bool {
        &&& self.cluster_id@ == config.cluster_id@
        &&& self.epoch == config.epoch
        &&& self.target_config_id == target_config_id
        &&& self.recovery_generation == config.recovery_generation
        &&& self.node_id@ == config.node_id@
        &&& self.membership_digest@ == config.membership.digest.spec_hex()
        &&& self.predecessor_config_id == predecessor.stop.entry.config_id
        &&& self.stop_index == predecessor.stop.entry.index
        &&& self.stop_hash@ == predecessor.stop.entry.hash.spec_hex()
    }
}

/// The receipt that a restored successor of this predecessor must hold. A
/// predecessor that is not bound to the target has none.
pub fn expected_successor_restore_receipt(
    config: &NodeConfig,
    target_config_id: u64,
    predecessor: &HaPredecessor,
    reading: &StopReading,
) -> (result: Result<SuccessorRestoreReceipt, HaStartupError>)
    ensures
        result is Ok <==> crate::binding::binds_exactly(
            *config,
            target_config_id,
            *predecessor,
            *reading,
        ),
        result matches Ok(receipt) ==> receipt.receipts(*config, target_config_id, *predecessor),
        result matches Err(error) ==> crate::binding::is_binding_error(
            *config,
            target_config_id,
            *predecessor,
            *reading,
            error,
        ),
{
    match validate_predecessor_binding(config, target_config_id, predecessor, reading) {
        Ok(()) => {},
        Err(error) => {
            return Err(error);
        },
    }
    Ok(
        SuccessorRestoreReceipt {
            cluster_id: config.cluster_id.clone(),
            epoch: config.epoch,
            target_config_id,
            recovery_generation: config.recovery_generation,
            node_id: config.node_id.clone(),
            membership_digest: config.membership.digest.to_hex(),
            predecessor_config_id: predecessor.stop.entry.config_id,
            stop_index: predecessor.stop.entry.index,
            stop_hash: predecessor.stop.entry.hash.to_hex(),
        },
    )
}

/// The bytes of a receipt. `encoded` is what its codec made of it, or what went
/// wrong.
pub fn encode_successor_restore_receipt(encoded: Result<Vec<u8>, String>) -> (result: Result<
    Vec<u8>,
    HaStartupError,
>)
    ensures
        match encoded {
            Ok(bytes) => result == Ok::<Vec<u8>, HaStartupError>(bytes),
            Err(failure) => result matches Err(error) && error.is_source(
                "cannot encode successor restore receipt: "@ + failure@,
            ),
        },
{
    match encoded {
        Ok(bytes) => Ok(bytes),
        Err(failure) => Err(
            HaStartupError::Source(
                joined("cannot encode successor restore receipt: ", failure.as_str()),
            ),
        ),
    }
}

/// How far the restore of a successor got.
#[derive(Clone, Copy, Debug, PartialEq, Eq, Structural)]
pub enum SuccessorRestoreControlState {
    Fresh,
    Intent,
    Complete,
}

/// `state` is what the two control files say: at most one of them is there,
/// and it is the expected receipt, byte for byte.
pub open spec fn control_state(
    intent: Option<Vec<u8>>,
    complete: Option<Vec<u8>>,
    expected: Seq<u8>,
) -> Option<SuccessorRestoreControlState> {
    match (intent, complete) {
        (None, None) => Some(SuccessorRestoreControlState::Fresh),
        (Some(actual), None) => if actual@ == expected {
            Some(SuccessorRestoreControlState::Intent)
        } else {
            None
        },
        (None, Some(actual)) => if actual@ == expected {
            Some(SuccessorRestoreControlState::Complete)
        } else {
            None
        },
        (Some(_), Some(_)) => None,
    }
}

/// What the two control files of a successor restore say. The intent is read
/// first, and its failure reported first.
pub fn validate_successor_restore_controls(
    intent: Result<Option<Vec<u8>>, HaStartupError>,
    complete: Result<Option<Vec<u8>>, HaStartupError>,
    expected: &Vec<u8>,
) -> (result: Result<SuccessorRestoreControlState, HaStartupError>)
    ensures
        match (intent, complete) {
            (Err(error), _) => result == Err::<SuccessorRestoreControlState, HaStartupError>(error),
            (Ok(_), Err(error)) => result == Err::<SuccessorRestoreControlState, HaStartupError>(
                error,
            ),
            (Ok(intent), Ok(complete)) => match control_state(intent, complete, expected@) {
                Some(state) => result == Ok::<SuccessorRestoreControlState, HaStartupError>(state),
                None => result matches Err(error) && error.is_source(
                    "successor restore receipt does not exactly match this node and checkpoint"@,
                ),
            },
        },
{
    let intent = match intent {
        Ok(intent) => intent,
        Err(error) => {
            return Err(error);
        },
    };
    let complete = match complete {
        Ok(complete) => complete,
        Err(error) => {
            return Err(error);
        },
    };
    match (intent, complete) {
        (None, None) => {
            return Ok(SuccessorRestoreControlState::Fresh);
        },
        (Some(actual), None) => {
            if same_bytes(&actual, expected) {
                return Ok(SuccessorRestoreControlState::Intent);
            }
        },
        (None, Some(actual)) => {
            if same_bytes(&actual, expected) {
                return Ok(SuccessorRestoreControlState::Complete);
            }
        },
        (Some(_), Some(_)) => {},
    }
    Err(fail("successor restore receipt does not exactly match this node and checkpoint"))
}

/// Bytes that a bounded read hands out are within the bound, not empty, and
/// as many as the file had before and after it was read.
pub proof fn law_bounded_read_is_bounded(
    observation: FileObservation,
    max_bytes: u64,
    label: Seq<char>,
    result: Result<Option<Vec<u8>>, HaStartupError>,
)
    requires
        bounded_read(observation, max_bytes, label, result),
        result matches Ok(Some(_)),
    ensures
        result matches Ok(Some(bytes)) && 0 < bytes@.len() <= max_bytes && (observation matches
            FileObservation::Opened { before: Ok(before), after: Ok(after), .. } && before.is_file
            && after.is_file && before.len == bytes@.len() && after.len == bytes@.len()),
{
}

/// A marker that a node writes is one that it accepts again, and the only
/// checkpoint histories that it accepts are those with the same cluster,
/// epoch, configuration and recovery generation.
pub proof fn law_marker_identifies_one_checkpoint(
    marker: LocalCheckpointIdentityMarker,
    execution_profile: ExecutionProfile,
    written: CheckpointIdentity,
    read: CheckpointIdentity,
    writer: Seq<char>,
    reader: Seq<char>,
    reader_profile: ExecutionProfile,
)
    requires
        marker.marks(execution_profile, written, writer),
    ensures
        marker.marks(reader_profile, read, reader) <==> reader == writer && reader_profile
            == execution_profile && read.cluster_id@ == written.cluster_id@ && read.epoch
            == written.epoch && read.config_id == written.config_id && read.recovery_generation
            == written.recovery_generation,
{
}

/// A bounded read gives all bytes of a regular file of acceptable size wherever
/// nothing about it changed while it was read, nothing where there is no file,
/// and a failure otherwise.
pub proof fn law_an_unchanged_file_is_read_whole(
    observation: FileObservation,
    max_bytes: u64,
    label: Seq<char>,
    result: Result<Option<Vec<u8>>, HaStartupError>,
)
    requires
        bounded_read(observation, max_bytes, label, result),
    ensures
        result == Ok::<Option<Vec<u8>>, HaStartupError>(None) <==> observation is Missing,
        observation matches FileObservation::Opened { before, read, after } ==> {
            let whole = before is Ok && before->Ok_0.is_file && 0 < before->Ok_0.len <= max_bytes
                && read is Ok && after is Ok && after->Ok_0.is_file && after->Ok_0.len
                == before->Ok_0.len && read->Ok_0@.len() == before->Ok_0.len;
            &&& result is Ok <==> whole
            &&& whole ==> result == Ok::<Option<Vec<u8>>, HaStartupError>(Some(read->Ok_0))
        },
        observation is OpenFailed ==> result is Err,
{
}

/// Why a file was not read is told under its label: a link or anything else
/// that is no regular file, a size out of bounds, a change on the way, or what
/// the system said.
pub proof fn law_an_unread_file_is_told_why(
    observation: FileObservation,
    max_bytes: u64,
    label: Seq<char>,
    result: Result<Option<Vec<u8>>, HaStartupError>,
)
    requires
        bounded_read(observation, max_bytes, label, result),
    ensures
        observation matches FileObservation::OpenFailed { symlink, unix_os_error, message } ==> (
        result matches Err(error) && error.is_source(
            if symlink || unix_os_error == Some(40i32) {
                label + " must be a regular file"@
            } else {
                "cannot open "@ + label + ": "@ + message@
            },
        )),
        observation matches FileObservation::Opened { before, read, after } ==> match before {
            Err(message) => result matches Err(error) && error.is_source(
                "cannot inspect open "@ + label + ": "@ + message@,
            ),
            Ok(first) => if !first.is_file {
                result matches Err(error) && error.is_source(label + " must be a regular file"@)
            } else if first.len == 0 || first.len > max_bytes {
                result matches Err(error) && error.is_source(label + " has an invalid size"@)
            } else {
                match (read, after) {
                    (Err(message), _) => result matches Err(error) && error.is_source(
                        "cannot read "@ + label + ": "@ + message@,
                    ),
                    (Ok(_), Err(message)) => result matches Err(error) && error.is_source(
                        "cannot inspect open "@ + label + ": "@ + message@,
                    ),
                    (Ok(_), Ok(_)) => result matches Err(error) ==> error.is_source(
                        label + " changed during bounded read"@,
                    ),
                }
            },
        },
{
}

/// A file that must be there is read as one that may be, and is missed by name
/// where it is not.
pub proof fn law_a_required_file_is_missed_by_name(
    observation: FileObservation,
    max_bytes: u64,
    label: &str,
    required: Result<Vec<u8>, HaStartupError>,
)
    requires
        call_ensures(
            read_bounded_regular_file_no_follow,
            (observation, max_bytes, label),
            required,
        ),
    ensures
        observation is Missing ==> (required matches Err(error) && error.is_source(
            "nonfresh rejoin requires a "@ + label@,
        )),
        required matches Ok(bytes) ==> (observation matches FileObservation::Opened {
            read: Ok(read),
            ..
        } && bytes == read),
        !(observation is Missing) ==> bounded_read(
            observation,
            max_bytes,
            label@,
            match required {
                Ok(bytes) => Ok(Some(bytes)),
                Err(error) => Err(error),
            },
        ),
{
}

/// A path has state unless nothing is there, or an empty directory; what cannot
/// be inspected or listed is not known.
pub proof fn law_only_an_empty_directory_has_no_state(observation: PathObservation)
    ensures
        spec_has_state(observation) == Ok::<bool, String>(false) <==> observation is Missing
            || observation == (PathObservation::Directory { has_entry: Ok(false) }),
        observation is NotDirectory ==> spec_has_state(observation) == Ok::<bool, String>(true),
        observation == (PathObservation::Directory { has_entry: Ok(true) }) ==> spec_has_state(
            observation,
        ) == Ok::<bool, String>(true),
        observation matches PathObservation::Unknown(message) ==> spec_has_state(observation)
            == Err::<bool, String>(message),
        observation matches PathObservation::Directory { has_entry: Err(message) }
            ==> spec_has_state(observation) == Err::<bool, String>(message),
{
}

/// The data directory is fresh exactly where no path has state; the first path
/// that is not known to have none decides otherwise.
pub proof fn law_the_first_path_with_state_decides(
    paths: Vec<PathObservation>,
    result: Result<bool, HaStartupError>,
    i: int,
)
    requires
        call_ensures(local_data_is_fresh, (&paths,), result),
        0 <= i < paths@.len(),
        forall|j: int|
            0 <= j < i ==> spec_has_state(#[trigger] paths@[j]) == Ok::<bool, String>(false),
        spec_has_state(paths@[i]) != Ok::<bool, String>(false),
    ensures
        spec_has_state(paths@[i]) is Ok ==> result == Ok::<bool, HaStartupError>(false),
        spec_has_state(paths@[i]) matches Err(message) ==> result == Err::<bool, HaStartupError>(
            HaStartupError::Source(message),
        ),
{
    lemma_first_with_state(paths@, 0);
    let first = first_with_state(paths@, 0);
    if first < i {
        assert(spec_has_state(paths@[first]) == Ok::<bool, String>(false));
    }
}

/// A directory without state at any path is fresh, and no other is.
pub proof fn law_a_directory_without_state_is_fresh(
    paths: Vec<PathObservation>,
    result: Result<bool, HaStartupError>,
)
    requires
        call_ensures(local_data_is_fresh, (&paths,), result),
    ensures
        result == Ok::<bool, HaStartupError>(true) <==> (forall|j: int|
            0 <= j < paths@.len() ==> spec_has_state(#[trigger] paths@[j]) == Ok::<bool, String>(
                false,
            )),
{
    law_fresh_means_no_state_anywhere(paths@);
}

/// A node's state lives in its marker, its log, its materialized state of
/// either profile, and its recorder, old place and new.
pub proof fn law_the_state_of_a_node_has_its_places(marker: &str, paths: Vec<String>)
    requires
        call_ensures(local_state_paths, (marker,), paths),
    ensures
        paths@.len() == 7,
        paths@[0]@ == marker@,
        paths@[1]@ == "consensus/log"@,
        paths@[2]@ == "sqlite"@,
        paths@[3]@ == "ladybug"@,
        paths@[4]@ == "kv"@,
        paths@[5]@ == "recorder"@,
        paths@[6]@ == "consensus/recorder"@,
{
    let texts = crate::config::texts(paths@);
    assert(texts.len() == 7);
    assert(texts[0] == paths@[0]@ && texts[1] == paths@[1]@ && texts[2] == paths@[2]@ && texts[3]
        == paths@[3]@ && texts[4] == paths@[4]@ && texts[5] == paths@[5]@ && texts[6]
        == paths@[6]@);
}

/// A marker is the exact one exactly where every part of it is that of this
/// node at this checkpoint, and is worth that; one that could not be read is
/// worth its own failure, and bytes that are none are invalid.
pub proof fn law_a_marker_is_exact_in_every_part(
    reading: MarkerReading,
    execution_profile: ExecutionProfile,
    identity: CheckpointIdentity,
    node_id: Seq<char>,
    result: Result<(), HaStartupError>,
)
    requires
        marker_verdict(reading, execution_profile, identity, node_id, result),
    ensures
        result is Ok <==> (reading matches MarkerReading::Decoded(marker) && marker.cluster_id@
            == identity.cluster_id@ && marker.node_id@ == node_id && marker.execution_profile
            == execution_profile && marker.epoch == identity.epoch && marker.config_id
            == identity.config_id && marker.recovery_generation == identity.recovery_generation),
        reading matches MarkerReading::Unreadable(error) ==> result == Err::<(), HaStartupError>(
            error,
        ),
        reading is Undecodable ==> (result matches Err(error) && error.is_source(
            "local checkpoint identity marker is invalid"@,
        )),
        reading is Decoded ==> (result matches Err(error) ==> error.is_source(
            "local checkpoint identity marker does not exactly match the authoritative checkpoint"@,
        )),
{
}

/// The exact marker exists where something is at its place and is the exact
/// one; something else there is a failure, nothing there is not, and what
/// cannot be inspected is a failure.
pub proof fn law_a_marker_exists_exactly_or_fails(
    presence: PathPresence,
    reading: MarkerReading,
    execution_profile: ExecutionProfile,
    identity: CheckpointIdentity,
    node_id: String,
    result: Result<bool, HaStartupError>,
)
    requires
        call_ensures(
            exact_checkpoint_marker_exists,
            (&presence, reading, execution_profile, &identity, &node_id),
            result,
        ),
    ensures
        result == Ok::<bool, HaStartupError>(true) <==> presence is Present && (reading matches
            MarkerReading::Decoded(marker) && marker.marks(execution_profile, identity, node_id@)),
        result == Ok::<bool, HaStartupError>(false) <==> presence is Missing,
        presence matches PathPresence::Unknown(message) ==> (result matches Err(error)
            && error.is_source("cannot inspect local checkpoint identity marker: "@ + message@)),
{
    if let Ok(found) = result {
        assert(result == Ok::<bool, HaStartupError>(found));
        if presence is Present {
            assert(found);
        }
    }
}

/// What a node writes as its marker or its receipt is exactly what its codec
/// made of it, and what went wrong there is told.
pub proof fn law_what_is_written_is_what_was_encoded(
    encoded: Result<Vec<u8>, String>,
    marker: Result<Vec<u8>, HaStartupError>,
    receipt: Result<Vec<u8>, HaStartupError>,
)
    requires
        call_ensures(encode_local_checkpoint_identity_marker, (encoded,), marker),
        call_ensures(encode_successor_restore_receipt, (encoded,), receipt),
    ensures
        encoded matches Ok(bytes) ==> marker == Ok::<Vec<u8>, HaStartupError>(bytes) && receipt
            == Ok::<Vec<u8>, HaStartupError>(bytes),
        encoded matches Err(failure) ==> (marker matches Err(error) && error.is_source(
            "cannot encode local checkpoint identity marker: "@ + failure@,
        )) && (receipt matches Err(error) && error.is_source(
            "cannot encode successor restore receipt: "@ + failure@,
        )),
{
}

/// The receipt of a restored successor names this node, its history, its target
/// and its members, and its predecessor's very Stop; a predecessor that is not
/// bound to the target has none.
pub proof fn law_a_receipt_names_the_whole_transition(
    config: NodeConfig,
    target: u64,
    predecessor: HaPredecessor,
    reading: StopReading,
    result: Result<SuccessorRestoreReceipt, HaStartupError>,
)
    requires
        call_ensures(
            expected_successor_restore_receipt,
            (&config, target, &predecessor, &reading),
            result,
        ),
    ensures
        result is Ok <==> crate::binding::binds_exactly(config, target, predecessor, reading),
        result matches Ok(receipt) ==> receipt.cluster_id@ == config.cluster_id@ && receipt.epoch
            == config.epoch && receipt.target_config_id == target && receipt.recovery_generation
            == config.recovery_generation && receipt.node_id@ == config.node_id@
            && receipt.membership_digest@ == config.membership.digest.spec_hex()
            && receipt.predecessor_config_id == predecessor.stop.entry.config_id
            && receipt.stop_index == predecessor.stop.entry.index && receipt.stop_hash@
            == predecessor.stop.entry.hash.spec_hex(),
        result matches Ok(receipt) ==> receipt.predecessor_config_id + 1 == target,
{
}

/// A restore is fresh where there is neither control, intended or complete
/// where there is exactly the one and it is the expected receipt byte for byte,
/// and otherwise refused. A control that could not be read fails first.
pub proof fn law_the_controls_of_a_restore_are_exact(
    intent: Result<Option<Vec<u8>>, HaStartupError>,
    complete: Result<Option<Vec<u8>>, HaStartupError>,
    expected: Vec<u8>,
    result: Result<SuccessorRestoreControlState, HaStartupError>,
)
    requires
        call_ensures(validate_successor_restore_controls, (intent, complete, &expected), result),
    ensures
        intent matches Err(error) ==> result == Err::<
            SuccessorRestoreControlState,
            HaStartupError,
        >(error),
        intent is Ok ==> (complete matches Err(error) ==> result == Err::<
            SuccessorRestoreControlState,
            HaStartupError,
        >(error)),
        intent is Ok && complete is Ok ==> {
            let first = intent->Ok_0;
            let second = complete->Ok_0;
            &&& result == Ok::<SuccessorRestoreControlState, HaStartupError>(
                SuccessorRestoreControlState::Fresh,
            ) <==> first is None && second is None
            &&& result == Ok::<SuccessorRestoreControlState, HaStartupError>(
                SuccessorRestoreControlState::Intent,
            ) <==> second is None && first is Some && first->0@ == expected@
            &&& result == Ok::<SuccessorRestoreControlState, HaStartupError>(
                SuccessorRestoreControlState::Complete,
            ) <==> first is None && second is Some && second->0@ == expected@
            &&& result matches Err(error) ==> error.is_source(
                "successor restore receipt does not exactly match this node and checkpoint"@,
            )
        },
{
}

/// A file is read exactly where it is a regular one with at least a byte and no
/// more than the limit; a file that is not is told why by its label.
pub proof fn law_a_file_is_read_only_within_its_limit(
    before: Result<FileMetadata, String>,
    max_bytes: u64,
    label: &str,
    result: Result<u64, HaStartupError>,
)
    requires
        call_ensures(accept_before_read, (&before, max_bytes, label), result),
    ensures
        result is Ok <==> before is Ok && before->Ok_0.is_file && 1 <= before->Ok_0.len
            <= max_bytes,
        result matches Ok(len) ==> len == before->Ok_0.len,
        before matches Err(message) ==> (result matches Err(HaStartupError::Source(told)) && told@
            == "cannot inspect open "@ + label@ + ": "@ + message@),
        before is Ok && !before->Ok_0.is_file ==> (result matches Err(HaStartupError::Source(told))
            && told@ == label@ + " must be a regular file"@),
        before is Ok && before->Ok_0.is_file && (before->Ok_0.len == 0 || before->Ok_0.len
            > max_bytes) ==> (result matches Err(HaStartupError::Source(told)) && told@ == label@
            + " has an invalid size"@),
        MAX_LOCAL_CHECKPOINT_IDENTITY_BYTES == 4096,
        MAX_SUCCESSOR_RESTORE_CONTROL_BYTES == 4 * MAX_LOCAL_CHECKPOINT_IDENTITY_BYTES,
{
}

} // verus!
