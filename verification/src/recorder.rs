//! The local recorder as the cluster sees it while the node recovers.
use crate::log::LogAnchor;
use crate::text::{decimal_text, joined3};
use vstd::prelude::*;

verus! {

/// What a peer asks of a recorder.
#[derive(Clone, Copy, Debug, PartialEq, Eq, Structural)]
pub enum RecorderOperation {
    Identify,
    StoreCommand,
    FetchCommand,
    StageEffectBundleChunk,
    FinalizeStagedEffectBundle,
    FetchEffectBundleManifest,
    FetchEffectBundleChunk,
    Record,
    InstallDecisionProof,
    InspectDecisionProof { slot: u64 },
    InspectRecordSummary { slot: u64 },
    SupportsContextReadFence,
    ObserveReadFence { slot: u64 },
}

impl RecorderOperation {
    /// The operation writes, or its answer counts as a vote.
    #[verifier::allow_in_spec]
    pub fn needs_active(self) -> (needs: bool)
        returns
            (match self {
                RecorderOperation::StoreCommand => true,
                RecorderOperation::StageEffectBundleChunk => true,
                RecorderOperation::FinalizeStagedEffectBundle => true,
                RecorderOperation::Record => true,
                RecorderOperation::InstallDecisionProof => true,
                RecorderOperation::ObserveReadFence { .. } => true,
                _ => false,
            }),
    {
        match self {
            RecorderOperation::StoreCommand => true,
            RecorderOperation::StageEffectBundleChunk => true,
            RecorderOperation::FinalizeStagedEffectBundle => true,
            RecorderOperation::Record => true,
            RecorderOperation::InstallDecisionProof => true,
            RecorderOperation::ObserveReadFence { .. } => true,
            _ => false,
        }
    }

    /// The slot that the operation is answered about, if any.
    #[verifier::allow_in_spec]
    pub fn slot(self) -> (slot: Option<u64>)
        returns
            (match self {
                RecorderOperation::InspectDecisionProof { slot } => Some(slot),
                RecorderOperation::InspectRecordSummary { slot } => Some(slot),
                RecorderOperation::ObserveReadFence { slot } => Some(slot),
                _ => None,
            }),
    {
        match self {
            RecorderOperation::InspectDecisionProof { slot } => Some(slot),
            RecorderOperation::InspectRecordSummary { slot } => Some(slot),
            RecorderOperation::ObserveReadFence { slot } => Some(slot),
            _ => None,
        }
    }
}

/// The local recorder: whether it takes part, and the checkpoint at and below
/// which it holds no history of its own.
#[derive(Clone, Copy, Debug, PartialEq, Eq, Structural)]
pub struct HaRecorder {
    pub checkpoint_root: Option<LogAnchor>,
    pub active: bool,
}

impl HaRecorder {
    /// A recorder that takes part at once.
    #[verifier::allow_in_spec]
    pub fn active() -> (recorder: Self)
        returns
            (HaRecorder { checkpoint_root: None, active: true }),
    {
        HaRecorder { checkpoint_root: None, active: true }
    }

    /// A recorder that stays out until the runtime has caught up from
    /// `checkpoint_root`.
    #[verifier::allow_in_spec]
    pub fn quarantined(checkpoint_root: LogAnchor) -> (recorder: Self)
        returns
            (HaRecorder { checkpoint_root: Some(checkpoint_root), active: false }),
    {
        HaRecorder { checkpoint_root: Some(checkpoint_root), active: false }
    }

    /// Lets the recorder take part.
    pub fn activate(&mut self)
        ensures
            *final(self) == (HaRecorder { active: true, ..*old(self) }),
    {
        self.active = true;
    }

    /// The slot lies above the checkpoint.
    pub open spec fn exposes(self, slot: u64) -> bool {
        self.checkpoint_root matches Some(root) ==> slot > root.index
    }

    /// Refuses while the recorder is quarantined.
    pub fn require_active(&self) -> (result: Result<(), String>)
        ensures
            result is Ok <==> self.active,
            result matches Err(message) ==> message@
                == "recorder is quarantined during checkpoint recovery"@,
    {
        if self.active {
            Ok(())
        } else {
            Err("recorder is quarantined during checkpoint recovery".to_owned())
        }
    }

    /// Refuses a slot at or below the checkpoint.
    pub fn require_visible_slot(&self, slot: u64) -> (result: Result<(), String>)
        ensures
            result is Ok <==> self.exposes(slot),
            result matches Err(message) ==> message@ == "recorder checkpoint root "@
                + crate::text::decimal(self.checkpoint_root->0.index as nat)
                + " does not expose historical slot "@ + crate::text::decimal(slot as nat),
    {
        match self.checkpoint_root {
            Some(root) => if slot <= root.index {
                let mut message = joined3(
                    "recorder checkpoint root ",
                    decimal_text(root.index).as_str(),
                    " does not expose historical slot ",
                );
                message.append(decimal_text(slot).as_str());
                Err(message)
            } else {
                Ok(())
            },
            None => Ok(()),
        }
    }

    /// The operation is passed on to the recorder's store.
    pub open spec fn admits(self, operation: RecorderOperation) -> bool {
        &&& operation.needs_active() ==> self.active
        &&& operation.slot() matches Some(slot) ==> self.exposes(slot)
    }

    /// Whether an operation is passed on to the recorder's store. A quarantine
    /// is reported before a hidden slot.
    pub fn authorize(&self, operation: RecorderOperation) -> (result: Result<(), String>)
        ensures
            result is Ok <==> self.admits(operation),
            result matches Err(message) ==> if operation.needs_active() && !self.active {
                message@ == "recorder is quarantined during checkpoint recovery"@
            } else {
                message@ == "recorder checkpoint root "@ + crate::text::decimal(
                    self.checkpoint_root->0.index as nat,
                ) + " does not expose historical slot "@ + crate::text::decimal(
                    operation.slot()->0 as nat,
                )
            },
    {
        if operation.needs_active() {
            match self.require_active() {
                Ok(()) => {},
                Err(message) => {
                    return Err(message);
                },
            }
        }
        match operation.slot() {
            Some(slot) => self.require_visible_slot(slot),
            None => Ok(()),
        }
    }
}

/// A quarantined recorder neither votes nor writes, whatever it is asked.
pub proof fn law_quarantined_recorder_never_votes(root: LogAnchor, operation: RecorderOperation)
    ensures
        HaRecorder::quarantined(root).admits(operation) ==> !operation.needs_active(),
        forall|slot: u64| !#[trigger] HaRecorder::quarantined(root).admits(
            RecorderOperation::ObserveReadFence { slot },
        ),
{
}

/// Activation lifts the quarantine and nothing else: slots at and below the
/// checkpoint stay hidden, and what was admitted stays admitted.
pub proof fn law_activation_keeps_history_hidden(recorder: HaRecorder, operation: RecorderOperation)
    ensures
        ({
            let activated = HaRecorder { active: true, ..recorder };
            &&& activated.admits(operation) <==> (operation.slot() matches Some(slot)
                ==> recorder.exposes(slot))
            &&& recorder.admits(operation) ==> activated.admits(operation)
        }),
{
}

/// What needs a recorder that takes part: whatever writes, and the one answer
/// that counts as a vote. Everything else may be asked of a quarantined one.
pub proof fn law_only_writes_and_votes_need_an_active_recorder(operation: RecorderOperation)
    ensures
        operation.needs_active() <==> {
            ||| operation is StoreCommand
            ||| operation is StageEffectBundleChunk
            ||| operation is FinalizeStagedEffectBundle
            ||| operation is Record
            ||| operation is InstallDecisionProof
            ||| operation is ObserveReadFence
        },
        operation.slot() is Some <==> {
            ||| operation is InspectDecisionProof
            ||| operation is InspectRecordSummary
            ||| operation is ObserveReadFence
        },
        operation matches RecorderOperation::InspectDecisionProof { slot } ==> operation.slot()
            == Some(slot),
        operation matches RecorderOperation::InspectRecordSummary { slot } ==> operation.slot()
            == Some(slot),
        operation matches RecorderOperation::ObserveReadFence { slot } ==> operation.slot() == Some(
            slot,
        ),
{
}

/// A recorder admits an operation exactly where it takes part, if that is
/// needed, and the slot asked about lies above its checkpoint, if one is.
pub proof fn law_a_recorder_admits_what_it_can_answer(
    recorder: HaRecorder,
    operation: RecorderOperation,
)
    ensures
        recorder.admits(operation) <==> (operation.needs_active() ==> recorder.active) && (
        operation.slot() is Some && recorder.checkpoint_root is Some ==> operation.slot()->0
            > recorder.checkpoint_root->0.index),
        recorder == HaRecorder::active() ==> recorder.admits(operation),
{
}

/// An operation that a recorder refuses is told why: a quarantine first, and
/// then the slot that lies at or below the checkpoint.
pub proof fn law_a_refused_operation_is_told_why(
    recorder: HaRecorder,
    operation: RecorderOperation,
    result: Result<(), String>,
)
    requires
        call_ensures(HaRecorder::authorize, (&recorder, operation), result),
    ensures
        ({
            let quarantined = operation.needs_active() && !recorder.active;
            let hidden = operation.slot() is Some && recorder.checkpoint_root is Some
                && operation.slot()->0 <= recorder.checkpoint_root->0.index;
            &&& result is Err <==> quarantined || hidden
            &&& quarantined ==> (result matches Err(message) && message@
                == "recorder is quarantined during checkpoint recovery"@)
            &&& !quarantined && hidden ==> (result matches Err(message) && message@
                == "recorder checkpoint root "@ + crate::text::decimal(
                recorder.checkpoint_root->0.index as nat,
            ) + " does not expose historical slot "@ + crate::text::decimal(
                operation.slot()->0 as nat,
            ))
        }),
{
}

/// The two questions that admission is made of are answered alike wherever
/// they are asked: whether the recorder takes part, and whether it shows a
/// slot. A recorder that takes part from the start has nothing to hide.
pub proof fn law_a_recorder_shows_what_lies_above_its_checkpoint(
    recorder: HaRecorder,
    slot: u64,
    active: Result<(), String>,
    visible: Result<(), String>,
    root: LogAnchor,
)
    requires
        call_ensures(HaRecorder::require_active, (&recorder,), active),
        call_ensures(HaRecorder::require_visible_slot, (&recorder, slot), visible),
    ensures
        active is Ok <==> recorder.active,
        visible is Ok <==> (recorder.checkpoint_root is Some ==> slot
            > recorder.checkpoint_root->0.index),
        HaRecorder::active().active && HaRecorder::active().checkpoint_root is None,
        !HaRecorder::quarantined(root).active && HaRecorder::quarantined(root).checkpoint_root
            == Some(root),
{
}

} // verus!
