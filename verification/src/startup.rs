//! What a node is started with, and the way from there to a prepared startup.
use crate::activation::ServiceListener;
use crate::binding::{
    bind_live_predecessor, target_config_id, validate_archive_identity, HaPredecessor, StopReading,
};
use crate::config::{ArchiveHandle, CheckpointIdentity, DurabilityMode, NodeConfig};
use crate::error::{fail, HaStartupError};
use crate::log::LogAnchor;
use crate::node::HaNode;
use crate::preparation::StartupPreparation;
use crate::recorder::HaRecorder;
use crate::scope::HaRecorderTransport;
use crate::starting::StartingPhase;
use crate::status::HaStartupMode;
use vstd::prelude::*;

verus! {

/// What a node serves with. The sockets and the peers' connections stay with
/// the embedding application, which names the recorders here.
pub struct HaServeConfig {
    pub service_listener: ServiceListener,
    pub recorder_transport: HaRecorderTransport,
    pub recorders: Vec<String>,
    /// The administrative interface is served.
    pub admin: bool,
    pub tail_token: Option<String>,
}

impl HaServeConfig {
    /// A node that serves from a bound listener, without an administrative
    /// interface and without certified tails.
    pub fn new(recorder_transport: HaRecorderTransport, recorders: Vec<String>) -> (serve: Self)
        ensures
            serve.service_listener == ServiceListener::Bound,
            serve.recorder_transport == recorder_transport,
            serve.recorders == recorders,
            !serve.admin,
            serve.tail_token is None,
    {
        HaServeConfig {
            service_listener: ServiceListener::Bound,
            recorder_transport,
            recorders,
            admin: false,
            tail_token: None,
        }
    }

    /// Serves the administrative interface too.
    pub fn with_admin(self) -> (serve: Self)
        ensures
            serve == (HaServeConfig { admin: true, ..self }),
    {
        HaServeConfig { admin: true, ..self }
    }

    /// Serves certified tails to holders of this token.
    pub fn with_tail_token(self, tail_token: String) -> (serve: Self)
        ensures
            serve == (HaServeConfig { tail_token: Some(tail_token), ..self }),
    {
        HaServeConfig { tail_token: Some(tail_token), ..self }
    }
}

/// What a live successor serves with while its supervisor holds the one
/// service listener.
pub struct SuccessorServeConfig {
    /// The listener was not moved to the staging server yet.
    pub owns_listener: bool,
    pub recorder_transport: HaRecorderTransport,
    pub recorders: Vec<String>,
    pub admin: bool,
    pub tail_token: Option<String>,
}

impl SuccessorServeConfig {
    /// Takes over a bound listener. A listener that is itself handed over
    /// later cannot be staged.
    pub fn of(serve: HaServeConfig) -> (successor: Result<Self, HaStartupError>)
        ensures
            match serve.service_listener {
                ServiceListener::Bound => successor == Ok::<Self, HaStartupError>(
                    SuccessorServeConfig {
                        owns_listener: true,
                        recorder_transport: serve.recorder_transport,
                        recorders: serve.recorders,
                        admin: serve.admin,
                        tail_token: serve.tail_token,
                    },
                ),
                ServiceListener::Deferred => successor matches Err(error) && error.is_source(
                    "live successor cannot start from an internally deferred service listener"@,
                ),
            },
    {
        match serve.service_listener {
            ServiceListener::Bound => Ok(
                SuccessorServeConfig {
                    owns_listener: true,
                    recorder_transport: serve.recorder_transport,
                    recorders: serve.recorders,
                    admin: serve.admin,
                    tail_token: serve.tail_token,
                },
            ),
            ServiceListener::Deferred => Err(
                fail("live successor cannot start from an internally deferred service listener"),
            ),
        }
    }

    /// Moves the listener out. There is one, so it is moved once.
    pub fn take_service_listener(&mut self)
        requires
            old(self).owns_listener,
        ensures
            *final(self) == (SuccessorServeConfig { owns_listener: false, ..*old(self) }),
    {
        self.owns_listener = false;
    }

    /// What the child serves with: the listener comes later, from staging.
    pub fn into_deferred_child(self) -> (serve: HaServeConfig)
        requires
            !self.owns_listener,
        ensures
            serve == (HaServeConfig {
                service_listener: ServiceListener::Deferred,
                recorder_transport: self.recorder_transport,
                recorders: self.recorders,
                admin: self.admin,
                tail_token: self.tail_token,
            }),
    {
        HaServeConfig {
            service_listener: ServiceListener::Deferred,
            recorder_transport: self.recorder_transport,
            recorders: self.recorders,
            admin: self.admin,
            tail_token: self.tail_token,
        }
    }
}

/// What a node is started with.
pub struct HaStartupConfig {
    pub node_config: NodeConfig,
    /// The archive of the node's own checkpoints.
    pub archive: ArchiveHandle,
    pub durability: DurabilityMode,
    pub lease_duration_ms: u64,
    pub mode: HaStartupMode,
    pub predecessor: Option<HaPredecessor>,
    /// The Stop at which a live successor activates by itself.
    pub auto_activate_stop: Option<LogAnchor>,
}

/// A node that was just started.
pub struct StartedHaNode {
    pub node: HaNode,
    pub startup: HaStartupConfig,
    pub serve: HaServeConfig,
    pub supervisor: StartingPhase,
}

impl HaStartupConfig {
    /// A node without a predecessor.
    pub fn new(
        node_config: NodeConfig,
        archive: ArchiveHandle,
        durability: DurabilityMode,
        lease_duration_ms: u64,
        mode: HaStartupMode,
    ) -> (startup: Self)
        ensures
            startup == (HaStartupConfig {
                node_config,
                archive,
                durability,
                lease_duration_ms,
                mode,
                predecessor: None,
                auto_activate_stop: None,
            }),
    {
        HaStartupConfig {
            node_config,
            archive,
            durability,
            lease_duration_ms,
            mode,
            predecessor: None,
            auto_activate_stop: None,
        }
    }

    /// Starts as the successor of `predecessor`.
    pub fn with_predecessor(self, predecessor: HaPredecessor) -> (startup: Self)
        ensures
            startup == (HaStartupConfig { predecessor: Some(predecessor), ..self }),
    {
        HaStartupConfig { predecessor: Some(predecessor), ..self }
    }

    /// The configuration that startup targets.
    pub open spec fn spec_target_config_id(self) -> Option<u64> {
        match self.predecessor {
            None => Some(self.node_config.config_id),
            Some(predecessor) => if predecessor.stop.entry.config_id == u64::MAX {
                None
            } else {
                Some((predecessor.stop.entry.config_id + 1) as u64)
            },
        }
    }

    /// The configuration that startup targets: the node's own, or the one
    /// right after that of its predecessor's Stop.
    pub fn target_config_id(&self) -> (target: Result<u64, HaStartupError>)
        ensures
            match self.spec_target_config_id() {
                Some(target_config_id) => target == Ok::<u64, HaStartupError>(target_config_id),
                None => target matches Err(error) && error.is_source(
                    "successor config_id cannot advance"@,
                ),
            },
    {
        target_config_id(&self.node_config, &self.predecessor)
    }

    /// Binds an unbound live successor to its predecessor. `config` is the
    /// node's configuration with the Stop encoded in it, or what went wrong
    /// when it was.
    pub fn bind_live_predecessor(
        self,
        predecessor: HaPredecessor,
        config: Result<NodeConfig, String>,
        reading: &StopReading,
    ) -> (result: Result<Self, HaStartupError>)
        ensures
            self.predecessor is Some ==> (result matches Err(error) && error.is_source(
                "live successor startup is already bound to a predecessor"@,
            )),
            self.predecessor is None && config is Err ==> (result matches Err(error)
                && error.is_source(config->Err_0@)),
            self.predecessor is None && config is Ok && predecessor.stop.entry.config_id
                == u64::MAX ==> (result matches Err(error) && error.is_source(
                "successor config_id cannot advance"@,
            )),
            self.predecessor is None && config is Ok && predecessor.stop.entry.config_id < u64::MAX
                ==> (result is Ok <==> crate::binding::binds_exactly(
                config->Ok_0,
                (predecessor.stop.entry.config_id + 1) as u64,
                predecessor,
                *reading,
            )),
            self.predecessor is None && config is Ok && predecessor.stop.entry.config_id < u64::MAX
                && result is Err ==> crate::binding::is_binding_error(
                config->Ok_0,
                (predecessor.stop.entry.config_id + 1) as u64,
                predecessor,
                *reading,
                result->Err_0,
            ),
            result matches Ok(startup) ==> startup == (HaStartupConfig {
                node_config: config->Ok_0,
                predecessor: Some(predecessor),
                auto_activate_stop: Some(predecessor.stop.entry.spec_anchor()),
                ..self
            }),
    {
        match bind_live_predecessor(self.predecessor.is_some(), predecessor, config, reading) {
            Ok((node_config, binding)) => Ok(
                HaStartupConfig {
                    node_config,
                    archive: self.archive,
                    durability: self.durability,
                    lease_duration_ms: self.lease_duration_ms,
                    mode: self.mode,
                    predecessor: Some(binding.predecessor),
                    auto_activate_stop: Some(binding.auto_activate_stop),
                },
            ),
            Err(error) => Err(error),
        }
    }

    /// Starts the node: its owner sees it starting, and its supervisor begins
    /// with preparing local state.
    pub fn start(self, serve: HaServeConfig) -> (started: StartedHaNode)
        ensures
            started.node.shutdown is None,
            !started.node.recorder_shutdown,
            started.node.startup.cancellation is None,
            started.node.state == crate::node::HaNodeSnapshot::plain(
                crate::status::HaNodeStatus::Starting,
            ),
            started.node.state_open,
            started.node.supervised,
            started.startup == self,
            started.serve == serve,
            started.supervisor is Preparing,
    {
        StartedHaNode {
            node: HaNode::started(),
            startup: self,
            serve,
            supervisor: StartingPhase::Preparing,
        }
    }
}

/// A startup whose local state is prepared.
pub struct PreparedHaStartup {
    pub authoritative_identity: CheckpointIdentity,
    pub target_config_id: u64,
    pub preparation: StartupPreparation,
    pub recorder_hook: HaRecorder,
}

impl PreparedHaStartup {
    /// What a preparation leaves, once its recorder is open: a recorder that
    /// holds no history of its own yet stays quarantined.
    pub open spec fn finished(
        identity: CheckpointIdentity,
        target_config_id: u64,
        preparation: StartupPreparation,
    ) -> PreparedHaStartup {
        PreparedHaStartup {
            authoritative_identity: identity,
            target_config_id,
            preparation,
            recorder_hook: match preparation.spec_checkpoint_root() {
                Some(root) => HaRecorder::quarantined(root),
                None => HaRecorder::active(),
            },
        }
    }
}

/// What preparing a startup is waiting for.
pub enum PreparePhase {
    CheckingConfiguration,
    CheckingIdentity,
    ReadingIdentity,
    /// Local state is prepared, as that of a successor where there is a
    /// predecessor.
    Preparing { identity: CheckpointIdentity, target_config_id: u64 },
    CheckingRecorder {
        identity: CheckpointIdentity,
        target_config_id: u64,
        preparation: StartupPreparation,
    },
    OpeningRecorder {
        identity: CheckpointIdentity,
        target_config_id: u64,
        preparation: StartupPreparation,
    },
    Done(Result<PreparedHaStartup, HaStartupError>),
}

/// What preparing a startup can see happen.
#[derive(Debug)]
pub enum PrepareEvent {
    /// Startup's answer whether it was cancelled.
    Checked(Result<(), HaStartupError>),
    IdentityRead(Result<CheckpointIdentity, HaStartupError>),
    Prepared(Result<StartupPreparation, HaStartupError>),
    RecorderOpened(Result<(), HaStartupError>),
}

impl PreparePhase {
    pub open spec fn fails(next: PreparePhase, message: Seq<char>) -> bool {
        next matches PreparePhase::Done(Err(error)) && error.is_source(message)
    }

    pub open spec fn refuses(next: PreparePhase, error: HaStartupError) -> bool {
        next == PreparePhase::Done(Err(error))
    }

    /// `next` is what `event` makes of this phase.
    pub open spec fn steps_to(
        self,
        startup: HaStartupConfig,
        event: PrepareEvent,
        next: PreparePhase,
    ) -> bool {
        match (self, event) {
            (PreparePhase::CheckingConfiguration, PrepareEvent::Checked(result)) => match result {
                Ok(_) => if startup.predecessor is None
                    && !startup.node_config.configuration_state.spec_is_active() {
                    Self::fails(next, "stopped configuration requires a predecessor"@)
                } else {
                    next is CheckingIdentity
                },
                Err(error) => Self::refuses(next, error),
            },
            (PreparePhase::CheckingIdentity, PrepareEvent::Checked(result)) => match result {
                Ok(_) => next is ReadingIdentity,
                Err(error) => Self::refuses(next, error),
            },
            (PreparePhase::ReadingIdentity, PrepareEvent::IdentityRead(result)) => match result {
                Ok(identity) => match startup.spec_target_config_id() {
                    None => Self::fails(next, "successor config_id cannot advance"@),
                    Some(target_config_id) => if crate::binding::is_archive_of(
                        startup.node_config,
                        target_config_id,
                        identity,
                    ) {
                        next == (PreparePhase::Preparing { identity, target_config_id })
                    } else {
                        Self::fails(
                            next,
                            "checkpoint identity does not match target node configuration"@,
                        )
                    },
                },
                Err(error) => Self::refuses(next, error),
            },
            (
                PreparePhase::Preparing { identity, target_config_id },
                PrepareEvent::Prepared(result),
            ) => match result {
                Ok(preparation) => next == (PreparePhase::CheckingRecorder {
                    identity,
                    target_config_id,
                    preparation,
                }),
                Err(error) => Self::refuses(next, error),
            },
            (
                PreparePhase::CheckingRecorder { identity, target_config_id, preparation },
                PrepareEvent::Checked(result),
            ) => match result {
                Ok(_) => next == (PreparePhase::OpeningRecorder {
                    identity,
                    target_config_id,
                    preparation,
                }),
                Err(error) => Self::refuses(next, error),
            },
            (
                PreparePhase::OpeningRecorder { identity, target_config_id, preparation },
                PrepareEvent::RecorderOpened(result),
            ) => match result {
                Ok(_) => next == PreparePhase::Done(
                    Ok(PreparedHaStartup::finished(identity, target_config_id, preparation)),
                ),
                Err(error) => Self::refuses(next, error),
            },
            _ => next == self,
        }
    }

    /// The stage that startup is asked about, where it is asked.
    pub open spec fn spec_check_stage(self) -> Option<Seq<char>> {
        match self {
            PreparePhase::CheckingConfiguration => Some("HA startup configuration validation"@),
            PreparePhase::CheckingIdentity => Some("checkpoint identity inspection"@),
            PreparePhase::CheckingRecorder { .. } => Some("local recorder open"@),
            _ => None,
        }
    }

    /// The stage that startup is asked about, where it is asked.
    pub fn check_stage(&self) -> (stage: Option<&'static str>)
        ensures
            match self.spec_check_stage() {
                Some(text) => stage matches Some(stage) && stage@ == text,
                None => stage is None,
            },
    {
        match self {
            PreparePhase::CheckingConfiguration => Some("HA startup configuration validation"),
            PreparePhase::CheckingIdentity => Some("checkpoint identity inspection"),
            PreparePhase::CheckingRecorder { .. } => Some("local recorder open"),
            _ => None,
        }
    }
}

fn refuse(error: HaStartupError) -> (phase: PreparePhase)
    ensures
        PreparePhase::refuses(phase, error),
{
    PreparePhase::Done(Err(error))
}

/// What a preparation leaves, once its recorder is open.
pub fn finish_prepare(
    identity: CheckpointIdentity,
    target_config_id: u64,
    preparation: StartupPreparation,
) -> (prepared: PreparedHaStartup)
    ensures
        prepared == PreparedHaStartup::finished(identity, target_config_id, preparation),
{
    let recorder_hook = match preparation.checkpoint_root() {
        Some(root) => HaRecorder::quarantined(root),
        None => HaRecorder::active(),
    };
    PreparedHaStartup {
        authoritative_identity: identity,
        target_config_id,
        preparation,
        recorder_hook,
    }
}

/// Advances the preparation of a startup by one event. An event that it does
/// not wait for leaves it as it is.
pub fn prepare(startup: &HaStartupConfig, phase: PreparePhase, event: PrepareEvent) -> (next:
    PreparePhase)
    ensures
        phase.steps_to(*startup, event, next),
{
    match (phase, event) {
        (PreparePhase::CheckingConfiguration, PrepareEvent::Checked(result)) => match result {
            Ok(()) => if startup.predecessor.is_none()
                && !startup.node_config.configuration_state.is_active() {
                PreparePhase::Done(Err(fail("stopped configuration requires a predecessor")))
            } else {
                PreparePhase::CheckingIdentity
            },
            Err(error) => refuse(error),
        },
        (PreparePhase::CheckingIdentity, PrepareEvent::Checked(result)) => match result {
            Ok(()) => PreparePhase::ReadingIdentity,
            Err(error) => refuse(error),
        },
        (PreparePhase::ReadingIdentity, PrepareEvent::IdentityRead(result)) => match result {
            Ok(identity) => match startup.target_config_id() {
                Err(error) => refuse(error),
                Ok(target_config_id) => match validate_archive_identity(
                    &startup.node_config,
                    &identity,
                    target_config_id,
                ) {
                    Ok(()) => PreparePhase::Preparing { identity, target_config_id },
                    Err(error) => refuse(error),
                },
            },
            Err(error) => refuse(error),
        },
        (PreparePhase::Preparing { identity, target_config_id }, PrepareEvent::Prepared(result)) => {
            match result {
                Ok(preparation) => PreparePhase::CheckingRecorder {
                    identity,
                    target_config_id,
                    preparation,
                },
                Err(error) => refuse(error),
            }
        },
        (
            PreparePhase::CheckingRecorder { identity, target_config_id, preparation },
            PrepareEvent::Checked(result),
        ) => match result {
            Ok(()) => PreparePhase::OpeningRecorder { identity, target_config_id, preparation },
            Err(error) => refuse(error),
        },
        (
            PreparePhase::OpeningRecorder { identity, target_config_id, preparation },
            PrepareEvent::RecorderOpened(result),
        ) => match result {
            Ok(()) => PreparePhase::Done(
                Ok(finish_prepare(identity, target_config_id, preparation)),
            ),
            Err(error) => refuse(error),
        },
        (phase, _) => phase,
    }
}

/// The recorder of a prepared startup is quarantined exactly where the runtime
/// has to catch up from its peers first, and then at the checkpoint that it
/// catches up from.
pub proof fn law_recorder_is_quarantined_exactly_while_it_lacks_history(
    identity: CheckpointIdentity,
    target_config_id: u64,
    preparation: StartupPreparation,
)
    ensures
        ({
            let prepared = PreparedHaStartup::finished(identity, target_config_id, preparation);
            &&& prepared.recorder_hook.active <==> !(preparation is RuntimeFirstWithPeerCatchup)
            &&& prepared.recorder_hook.checkpoint_root == preparation.spec_checkpoint_root()
        }),
{
}

/// A run of the preparation of a startup: `phases[i + 1]` is what `events[i]`
/// makes of `phases[i]`.
pub open spec fn is_startup_preparation(
    startup: HaStartupConfig,
    phases: Seq<PreparePhase>,
    events: Seq<PrepareEvent>,
) -> bool {
    &&& phases.len() == events.len() + 1
    &&& phases[0] is CheckingConfiguration
    &&& forall|i: int|
        0 <= i < events.len() ==> (#[trigger] phases[i]).steps_to(startup, events[i], phases[i + 1])
}

/// What the preparation of a startup has made sure of by the time it is in
/// `phase`.
pub open spec fn startup_evidence(startup: HaStartupConfig, phase: PreparePhase) -> bool {
    let admissible = startup.predecessor is Some
        || startup.node_config.configuration_state.spec_is_active();
    match phase {
        PreparePhase::CheckingConfiguration => true,
        PreparePhase::CheckingIdentity => admissible,
        PreparePhase::ReadingIdentity => admissible,
        PreparePhase::Preparing { identity, target_config_id } => admissible
            && startup.spec_target_config_id() == Some(target_config_id)
            && crate::binding::is_archive_of(startup.node_config, target_config_id, identity),
        PreparePhase::CheckingRecorder { identity, target_config_id, .. } => admissible
            && startup.spec_target_config_id() == Some(target_config_id)
            && crate::binding::is_archive_of(startup.node_config, target_config_id, identity),
        PreparePhase::OpeningRecorder { identity, target_config_id, .. } => admissible
            && startup.spec_target_config_id() == Some(target_config_id)
            && crate::binding::is_archive_of(startup.node_config, target_config_id, identity),
        PreparePhase::Done(Ok(prepared)) => admissible && startup.spec_target_config_id() == Some(
            prepared.target_config_id,
        ) && crate::binding::is_archive_of(
            startup.node_config,
            prepared.target_config_id,
            prepared.authoritative_identity,
        ),
        PreparePhase::Done(Err(_)) => true,
    }
}

/// A startup is prepared only for the configuration that it targets, and only
/// with the checkpoint history of that configuration. A stopped configuration
/// needs a predecessor.
pub proof fn law_startup_is_prepared_for_its_own_target(
    startup: HaStartupConfig,
    phases: Seq<PreparePhase>,
    events: Seq<PrepareEvent>,
)
    requires
        is_startup_preparation(startup, phases, events),
    ensures
        startup_evidence(startup, phases.last()),
    decreases events.len(),
{
    if events.len() > 0 {
        let n = events.len() - 1;
        let before = phases.drop_last();
        let old_events = events.drop_last();
        assert forall|i: int| 0 <= i < n implies (#[trigger] before[i]).steps_to(
            startup,
            old_events[i],
            before[i + 1],
        ) by {
            assert(phases[i].steps_to(startup, events[i], phases[i + 1]));
        }
        law_startup_is_prepared_for_its_own_target(startup, before, old_events);
        assert(before.last() == phases[n]);
        assert(phases[n].steps_to(startup, events[n], phases[n + 1]));
    }
}

/// A startup targets its own configuration, or the one right after that of its
/// predecessor's Stop, if there is one.
pub proof fn law_a_successor_targets_the_next_configuration(startup: HaStartupConfig)
    ensures
        startup.predecessor is None ==> startup.spec_target_config_id() == Some(
            startup.node_config.config_id,
        ),
        startup.predecessor matches Some(predecessor) ==> match startup.spec_target_config_id() {
            Some(target) => target == predecessor.stop.entry.config_id + 1,
            None => predecessor.stop.entry.config_id == u64::MAX,
        },
{
}

/// How a preparation that meets no failure goes on: the configuration is
/// checked, then the identity of its checkpoints is read, then local state is
/// prepared and the recorder opened. What was read and prepared on the way is
/// what it leaves.
pub proof fn law_a_startup_is_prepared_step_by_step(
    startup: HaStartupConfig,
    phase: PreparePhase,
    event: PrepareEvent,
    next: PreparePhase,
)
    requires
        phase.steps_to(startup, event, next),
    ensures
        phase is CheckingConfiguration ==> (event matches PrepareEvent::Checked(Ok(_))
            ==> if startup.predecessor is Some
            || startup.node_config.configuration_state.spec_is_active() {
            next is CheckingIdentity
        } else {
            next matches PreparePhase::Done(Err(error)) && error.is_source(
                "stopped configuration requires a predecessor"@,
            )
        }),
        phase is CheckingIdentity ==> (event matches PrepareEvent::Checked(Ok(_)) ==> next
            is ReadingIdentity),
        phase is ReadingIdentity ==> (event matches PrepareEvent::IdentityRead(Ok(read))
            ==> match startup.spec_target_config_id() {
            None => next matches PreparePhase::Done(Err(error)) && error.is_source(
                "successor config_id cannot advance"@,
            ),
            Some(target) => if read.cluster_id@ == startup.node_config.cluster_id@ && read.epoch
                == startup.node_config.epoch && read.config_id == target && read.recovery_generation
                == startup.node_config.recovery_generation {
                next == (PreparePhase::Preparing { identity: read, target_config_id: target })
            } else {
                next matches PreparePhase::Done(Err(error)) && error.is_source(
                    "checkpoint identity does not match target node configuration"@,
                )
            },
        }),
        phase matches PreparePhase::Preparing { identity, target_config_id } ==> (event matches
            PrepareEvent::Prepared(Ok(preparation)) ==> next == (PreparePhase::CheckingRecorder {
            identity,
            target_config_id,
            preparation,
        })),
        phase matches PreparePhase::CheckingRecorder { identity, target_config_id, preparation }
            ==> (event matches PrepareEvent::Checked(Ok(_)) ==> next == (
        PreparePhase::OpeningRecorder { identity, target_config_id, preparation })),
        phase matches PreparePhase::OpeningRecorder { identity, target_config_id, preparation }
            ==> (event matches PrepareEvent::RecorderOpened(Ok(_)) ==> (next matches
            PreparePhase::Done(Ok(prepared)) && prepared.authoritative_identity == identity
            && prepared.target_config_id == target_config_id && prepared.preparation == preparation
            && match preparation {
            StartupPreparation::RuntimeFirstWithPeerCatchup { checkpoint_root, .. } => {
                !prepared.recorder_hook.active && prepared.recorder_hook.checkpoint_root == Some(
                    checkpoint_root,
                )
            },
            _ => prepared.recorder_hook.active && prepared.recorder_hook.checkpoint_root is None,
        })),
{
}

/// Every failure of what a preparation waits for ends it with that very
/// failure, and what it does not wait for changes nothing.
pub proof fn law_a_startup_fails_as_it_was_told(
    startup: HaStartupConfig,
    phase: PreparePhase,
    event: PrepareEvent,
    next: PreparePhase,
)
    requires
        phase.steps_to(startup, event, next),
    ensures
        ({
            let awaited = match phase {
                PreparePhase::CheckingConfiguration
                | PreparePhase::CheckingIdentity
                | PreparePhase::CheckingRecorder { .. } => event is Checked,
                PreparePhase::ReadingIdentity => event is IdentityRead,
                PreparePhase::Preparing { .. } => event is Prepared,
                PreparePhase::OpeningRecorder { .. } => event is RecorderOpened,
                PreparePhase::Done(_) => false,
            };
            &&& !awaited ==> next == phase
            &&& awaited ==> match event {
                PrepareEvent::Checked(Err(error)) => next == PreparePhase::Done(Err(error)),
                PrepareEvent::IdentityRead(Err(error)) => next == PreparePhase::Done(Err(error)),
                PrepareEvent::Prepared(Err(error)) => next == PreparePhase::Done(Err(error)),
                PrepareEvent::RecorderOpened(Err(error)) => next == PreparePhase::Done(Err(error)),
                _ => true,
            }
        }),
        phase.spec_check_stage() == match phase {
            PreparePhase::CheckingConfiguration => Some("HA startup configuration validation"@),
            PreparePhase::CheckingIdentity => Some("checkpoint identity inspection"@),
            PreparePhase::CheckingRecorder { .. } => Some("local recorder open"@),
            _ => None,
        },
{
}

/// A live successor takes over a bound listener with all that it serves with,
/// and its child serves with the same once that listener comes from staging. A
/// deferred listener cannot be staged.
pub proof fn law_a_listener_goes_through_staging_to_the_child(
    serve: HaServeConfig,
    taken: Result<SuccessorServeConfig, HaStartupError>,
    staged: SuccessorServeConfig,
    child: HaServeConfig,
)
    requires
        call_ensures(SuccessorServeConfig::of, (serve,), taken),
        call_ensures(SuccessorServeConfig::into_deferred_child, (staged,), child),
    ensures
        taken is Ok <==> serve.service_listener == ServiceListener::Bound,
        taken matches Err(error) ==> error.is_source(
            "live successor cannot start from an internally deferred service listener"@,
        ),
        taken matches Ok(successor) ==> successor.owns_listener && successor.recorder_transport
            == serve.recorder_transport && successor.recorders == serve.recorders && successor.admin
            == serve.admin && successor.tail_token == serve.tail_token,
        child.service_listener == ServiceListener::Deferred,
        child.recorder_transport == staged.recorder_transport && child.recorders == staged.recorders
            && child.admin == staged.admin && child.tail_token == staged.tail_token,
{
}

/// What holds of a step of a startup's preparation holds of the function that
/// takes it.
pub proof fn law_a_startup_is_prepared_by_its_steps(
    startup: HaStartupConfig,
    phase: PreparePhase,
    event: PrepareEvent,
    next: PreparePhase,
)
    requires
        call_ensures(prepare, (&startup, phase, event), next),
    ensures
        phase.steps_to(startup, event, next),
{
}

/// A startup is of its own node's configuration until it is given a
/// predecessor, which changes nothing else of it.
pub proof fn law_a_predecessor_changes_only_the_target(
    node_config: NodeConfig,
    archive: ArchiveHandle,
    durability: DurabilityMode,
    lease_duration_ms: u64,
    mode: HaStartupMode,
    predecessor: HaPredecessor,
    made: HaStartupConfig,
    given: HaStartupConfig,
)
    requires
        call_ensures(
            HaStartupConfig::new,
            (node_config, archive, durability, lease_duration_ms, mode),
            made,
        ),
        call_ensures(HaStartupConfig::with_predecessor, (made, predecessor), given),
    ensures
        made.predecessor is None,
        made.auto_activate_stop is None,
        given.predecessor == Some(predecessor),
        given.auto_activate_stop is None,
        made.node_config == node_config && given.node_config == node_config,
        made.archive == archive && given.archive == archive,
        made.durability == durability && given.durability == durability,
        made.lease_duration_ms == lease_duration_ms && given.lease_duration_ms == lease_duration_ms,
        made.mode == mode && given.mode == mode,
{
}

/// A server is made with its listener bound, and without administration or a
/// token for its tail; each is added without changing the rest.
pub proof fn law_a_server_is_made_with_what_it_is_given(
    recorder_transport: HaRecorderTransport,
    recorders: Vec<String>,
    tail_token: String,
    made: HaServeConfig,
    administered: HaServeConfig,
    tailed: HaServeConfig,
)
    requires
        call_ensures(HaServeConfig::new, (recorder_transport, recorders), made),
        call_ensures(HaServeConfig::with_admin, (made,), administered),
        call_ensures(HaServeConfig::with_tail_token, (administered, tail_token), tailed),
    ensures
        made.service_listener is Bound && tailed.service_listener is Bound,
        made.recorder_transport == recorder_transport && tailed.recorder_transport
            == recorder_transport,
        made.recorders == recorders && tailed.recorders == recorders,
        !made.admin && administered.admin && tailed.admin,
        made.tail_token is None && administered.tail_token is None,
        tailed.tail_token == Some(tail_token),
{
}

/// A node starts from the startup and the server that it was given, without a
/// shutdown or a cancellation.
pub proof fn law_a_node_starts_from_what_it_was_given(
    startup: HaStartupConfig,
    serve: HaServeConfig,
    started: StartedHaNode,
)
    requires
        call_ensures(HaStartupConfig::start, (startup, serve), started),
    ensures
        started.startup == startup,
        started.serve == serve,
        started.node.state.status is Starting,
        started.node.state.handle is None,
        started.node.state.terminal_error is None,
        started.node.shutdown is None,
        !started.node.recorder_shutdown,
        started.node.startup.cancellation is None,
        started.node.state_open,
        started.node.supervised,
        started.supervisor is Preparing,
{
}

} // verus!
