//! The supervisor of a live successor from the start of its child on: the
//! child recovers while staging holds the listener, gets the listener, and
//! serves.
use crate::activation::ServiceListener;
use crate::error::{combine_ha_errors, combine_ha_results, HaNodeError};
use crate::node::HaNodeSnapshot;
use crate::staging::{
    handoff_staging_listener, unexpected_staging_server_exit, StagingTaskExit, StagingWait,
};
use crate::startup::{HaServeConfig, HaStartupConfig, StartedHaNode, SuccessorServeConfig};
use crate::status::HaNodeStatus;
use crate::successor::{
    combine_live_successor_child_and_staging, live_successor_cleanup_token, Moment,
    SuccessorEffect,
};
use crate::token::ShutdownToken;
use vstd::prelude::*;

verus! {

/// A cleanup that is under way, and what its results will amount to.
#[derive(Debug)]
pub struct ChildCleanup {
    /// The failure that caused it, if one did.
    pub primary: Option<HaNodeError>,
    /// The child published the failure itself, so its result may contain it.
    pub normalize: bool,
    /// The staging service is stopped too.
    pub with_staging: bool,
    /// The outcome is published here.
    pub publish: bool,
}

/// The failures of the child's and the staging service's shutdown, in order.
pub open spec fn failures(
    child: Result<(), HaNodeError>,
    staging: Result<(), HaNodeError>,
) -> Seq<HaNodeError> {
    (match child {
        Ok(_) => Seq::<HaNodeError>::empty(),
        Err(error) => seq![error],
    }) + (match staging {
        Ok(_) => Seq::<HaNodeError>::empty(),
        Err(error) => seq![error],
    })
}

impl ChildCleanup {
    /// What the cleanup amounts to. The result of a staging service that was
    /// not stopped is not looked at.
    pub open spec fn result(
        self,
        child: Result<(), HaNodeError>,
        staging: Result<(), HaNodeError>,
    ) -> Result<(), HaNodeError> {
        let staging = if self.with_staging {
            staging
        } else {
            Ok(())
        };
        if self.normalize {
            crate::successor::combined_child_and_staging(self.primary, child, staging)
        } else {
            crate::error::combined(
                self.primary,
                crate::error::combined_all(failures(child, staging)),
            )
        }
    }

    /// What the cleanup amounts to.
    pub fn finish(self, child: Result<(), HaNodeError>, staging: Result<(), HaNodeError>) -> (result:
        Result<(), HaNodeError>)
        ensures
            result == self.result(child, staging),
    {
        let staging: Result<(), HaNodeError> = if self.with_staging {
            staging
        } else {
            Ok(())
        };
        if self.normalize {
            return combine_live_successor_child_and_staging(self.primary, child, staging);
        }
        let ghost all = failures(child, staging);
        let mut errors: Vec<HaNodeError> = Vec::new();
        match child {
            Ok(()) => {},
            Err(error) => {
                errors.push(error);
            },
        }
        match staging {
            Ok(()) => {},
            Err(error) => {
                errors.push(error);
            },
        }
        assert(errors@ =~= all);
        combine_ha_results(self.primary, combine_ha_errors(errors))
    }
}

/// Where the supervisor of a live successor's child stands.
#[derive(Debug)]
pub enum ChildPhase {
    /// The child recovers; staging holds the listener.
    AwaitingService,
    /// Staging was told to hand the listener over by `deadline`.
    HandingOver { deadline: u64 },
    /// The listener came out of staging and goes to the child.
    Delivering { deadline: u64 },
    /// The child holds the listener, and its state is the successor's state.
    Serving,
    /// The child and, where it is still there, staging are shut down.
    Cleaning(ChildCleanup),
    Finished(Result<(), HaNodeError>),
}

/// What the supervisor of a live successor's child can see happen.
#[derive(Debug)]
pub enum ChildEvent {
    /// The child's state, at first and after each change.
    ChildObserved(HaNodeSnapshot),
    /// The child will publish no further state.
    ChildStateClosed,
    StagingExited(StagingTaskExit),
    /// The shutdown signal changed, or its sender is gone.
    ShutdownChanged,
    /// The child is ready for the listener.
    ServiceReady,
    /// The child will never ask for the listener. This was its last state.
    ServiceReadyClosed(HaNodeSnapshot),
    /// Staging ended after it was told to hand over, or did not in time.
    HandoffEnded(StagingWait),
    /// The child took the listener, or was gone.
    ListenerSent { accepted: bool },
    /// The cleanup is over.
    CleanedUp { child: Result<(), HaNodeError>, staging: Result<(), HaNodeError> },
}

/// What is stopped together with the child, and how.
#[derive(Clone, Copy, Debug, PartialEq, Eq, Structural)]
pub enum StagingCleanup {
    Nothing,
    Stop,
    Abort,
}

/// What shutting the child down under `token` asks for.
pub open spec fn shutdown_effects(token: ShutdownToken, staging: StagingCleanup) -> Seq<
    SuccessorEffect,
> {
    match staging {
        StagingCleanup::Nothing => seq![SuccessorEffect::ShutdownChild(token)],
        StagingCleanup::Stop => seq![
            SuccessorEffect::ShutdownChild(token),
            SuccessorEffect::StopStaging { deadline: token.spec_deadline() },
        ],
        StagingCleanup::Abort => seq![
            SuccessorEffect::ShutdownChild(token),
            SuccessorEffect::AbortStaging { deadline: token.spec_deadline() },
        ],
    }
}

impl ChildPhase {
    /// Nothing changes and nothing is asked for.
    pub open spec fn stutters(self, next: ChildPhase, effects: Seq<SuccessorEffect>) -> bool {
        next == self && effects == Seq::<SuccessorEffect>::empty()
    }

    /// The child is shut down under `token`, after `before` was done.
    pub open spec fn cleans(
        cleanup: ChildCleanup,
        before: Seq<SuccessorEffect>,
        token: ShutdownToken,
        staging: StagingCleanup,
        next: ChildPhase,
        effects: Seq<SuccessorEffect>,
    ) -> bool {
        &&& next == ChildPhase::Cleaning(cleanup)
        &&& cleanup.with_staging == (staging != StagingCleanup::Nothing)
        &&& effects == before + shutdown_effects(token, staging)
    }

    /// The child is shut down after a failure with this message of the
    /// service. The failure is the supervisor's own.
    pub open spec fn blames(
        message: Seq<char>,
        normalize: bool,
        publish: bool,
        token: ShutdownToken,
        staging: StagingCleanup,
        next: ChildPhase,
        effects: Seq<SuccessorEffect>,
    ) -> bool {
        next matches ChildPhase::Cleaning(cleanup) && cleanup.normalize == normalize
            && cleanup.publish == publish && (cleanup.primary matches Some(error)
            && error.is_service_server(message)) && Self::cleans(
            cleanup,
            Seq::<SuccessorEffect>::empty(),
            token,
            staging,
            next,
            effects,
        )
    }

    /// What an event does while the child waits for the listener.
    pub open spec fn awaits(
        event: ChildEvent,
        moment: Moment,
        next: ChildPhase,
        effects: Seq<SuccessorEffect>,
    ) -> bool {
        let own_token = moment.cleanup_token(moment.spec_own_deadline());
        match event {
            ChildEvent::ChildObserved(snapshot) => match snapshot.terminal_error {
                Some(error) => Self::cleans(
                    ChildCleanup {
                        primary: Some(error),
                        normalize: true,
                        with_staging: true,
                        publish: false,
                    },
                    Seq::<SuccessorEffect>::empty(),
                    own_token,
                    StagingCleanup::Stop,
                    next,
                    effects,
                ),
                None => if snapshot.status == HaNodeStatus::Stopped {
                    Self::cleans(
                        ChildCleanup {
                            primary: None,
                            normalize: true,
                            with_staging: true,
                            publish: true,
                        },
                        Seq::<SuccessorEffect>::empty(),
                        own_token,
                        StagingCleanup::Stop,
                        next,
                        effects,
                    )
                } else {
                    ChildPhase::AwaitingService.stutters(next, effects)
                },
            },
            ChildEvent::StagingExited(exit) => next matches ChildPhase::Cleaning(cleanup) && (
            cleanup.primary matches Some(error) && crate::staging::is_unexpected_staging_exit(
                exit,
                error,
            )) && !cleanup.normalize && !cleanup.publish && Self::cleans(
                cleanup,
                Seq::<SuccessorEffect>::empty(),
                own_token,
                StagingCleanup::Nothing,
                next,
                effects,
            ),
            ChildEvent::ShutdownChanged => match moment.signal {
                Some(token) => Self::cleans(
                    ChildCleanup {
                        primary: None,
                        normalize: false,
                        with_staging: true,
                        publish: true,
                    },
                    seq![SuccessorEffect::Publish(HaNodeSnapshot::plain(HaNodeStatus::ShuttingDown))],
                    token,
                    StagingCleanup::Stop,
                    next,
                    effects,
                ),
                None => next matches ChildPhase::Finished(Err(error)) && error.is_service_server(
                    "live successor shutdown signal closed without a token"@,
                ) && effects == seq![
                    SuccessorEffect::Publish(HaNodeSnapshot::failure(error)),
                    SuccessorEffect::AbandonChild,
                    SuccessorEffect::AbandonStaging,
                ],
            },
            ChildEvent::ServiceReadyClosed(snapshot) => match snapshot.terminal_error {
                Some(error) => Self::cleans(
                    ChildCleanup {
                        primary: Some(error),
                        normalize: true,
                        with_staging: true,
                        publish: false,
                    },
                    Seq::<SuccessorEffect>::empty(),
                    own_token,
                    StagingCleanup::Stop,
                    next,
                    effects,
                ),
                None => if snapshot.status == HaNodeStatus::Stopped {
                    Self::cleans(
                        ChildCleanup {
                            primary: None,
                            normalize: true,
                            with_staging: true,
                            publish: true,
                        },
                        Seq::<SuccessorEffect>::empty(),
                        own_token,
                        StagingCleanup::Stop,
                        next,
                        effects,
                    )
                } else {
                    Self::blames(
                        "live successor child stopped before service activation"@,
                        true,
                        false,
                        own_token,
                        StagingCleanup::Stop,
                        next,
                        effects,
                    )
                },
            },
            ChildEvent::ServiceReady => {
                &&& next == (ChildPhase::HandingOver { deadline: moment.spec_own_deadline() })
                &&& effects == seq![
                    SuccessorEffect::RequestHandoff { deadline: moment.spec_own_deadline() },
                ]
            },
            ChildEvent::ChildStateClosed => Self::blames(
                "HA child supervisor state channel closed before service activation"@,
                false,
                false,
                own_token,
                StagingCleanup::Stop,
                next,
                effects,
            ),
            _ => ChildPhase::AwaitingService.stutters(next, effects),
        }
    }

    /// What an event does while the listener is handed over.
    pub open spec fn hands_over(
        deadline: u64,
        event: ChildEvent,
        moment: Moment,
        next: ChildPhase,
        effects: Seq<SuccessorEffect>,
    ) -> bool {
        match event {
            ChildEvent::ShutdownChanged => match moment.signal {
                Some(token) => Self::cleans(
                    ChildCleanup {
                        primary: None,
                        normalize: false,
                        with_staging: true,
                        publish: true,
                    },
                    Seq::<SuccessorEffect>::empty(),
                    token,
                    StagingCleanup::Abort,
                    next,
                    effects,
                ),
                None => Self::blames(
                    "live successor shutdown signal closed during listener handoff"@,
                    false,
                    false,
                    moment.cleanup_token(deadline),
                    StagingCleanup::Abort,
                    next,
                    effects,
                ),
            },
            ChildEvent::HandoffEnded(wait) => exists|result: Result<(), HaNodeError>| #[trigger]
                crate::staging::handed_off(wait, result) && match result {
                    Ok(_) => next == (ChildPhase::Delivering { deadline }) && effects == seq![
                        SuccessorEffect::SendListener,
                    ],
                    Err(error) => Self::cleans(
                        ChildCleanup {
                            primary: Some(error),
                            normalize: false,
                            with_staging: false,
                            publish: false,
                        },
                        if wait is DeadlineReached {
                            seq![SuccessorEffect::AbandonStaging]
                        } else {
                            Seq::<SuccessorEffect>::empty()
                        },
                        moment.cleanup_token(deadline),
                        StagingCleanup::Nothing,
                        next,
                        effects,
                    ),
                },
            _ => (ChildPhase::HandingOver { deadline }).stutters(next, effects),
        }
    }

    /// What an event does while the child serves.
    pub open spec fn serves(
        event: ChildEvent,
        moment: Moment,
        next: ChildPhase,
        effects: Seq<SuccessorEffect>,
    ) -> bool {
        let own_token = moment.cleanup_token(moment.spec_own_deadline());
        match event {
            ChildEvent::ChildObserved(snapshot) => if snapshot.terminal_error is Some
                || snapshot.status == HaNodeStatus::Stopped {
                Self::cleans(
                    ChildCleanup {
                        primary: snapshot.terminal_error,
                        normalize: true,
                        with_staging: false,
                        publish: true,
                    },
                    seq![SuccessorEffect::Publish(snapshot)],
                    own_token,
                    StagingCleanup::Nothing,
                    next,
                    effects,
                )
            } else {
                next is Serving && effects == seq![SuccessorEffect::Publish(snapshot)]
            },
            ChildEvent::ShutdownChanged => match moment.signal {
                Some(token) => Self::cleans(
                    ChildCleanup {
                        primary: None,
                        normalize: false,
                        with_staging: false,
                        publish: true,
                    },
                    seq![SuccessorEffect::Publish(HaNodeSnapshot::plain(HaNodeStatus::ShuttingDown))],
                    token,
                    StagingCleanup::Nothing,
                    next,
                    effects,
                ),
                None => next matches ChildPhase::Finished(Err(error)) && error.is_service_server(
                    "live successor shutdown signal closed without a token"@,
                ) && effects == seq![
                    SuccessorEffect::Publish(HaNodeSnapshot::plain(HaNodeStatus::ShuttingDown)),
                    SuccessorEffect::AbandonChild,
                ],
            },
            ChildEvent::ChildStateClosed => Self::blames(
                "HA child supervisor state channel closed"@,
                true,
                true,
                own_token,
                StagingCleanup::Nothing,
                next,
                effects,
            ),
            _ => ChildPhase::Serving.stutters(next, effects),
        }
    }

    /// `next` and `effects` are what `event` makes of this phase at `moment`.
    pub open spec fn steps_to(
        self,
        event: ChildEvent,
        moment: Moment,
        next: ChildPhase,
        effects: Seq<SuccessorEffect>,
    ) -> bool {
        match self {
            ChildPhase::AwaitingService => Self::awaits(event, moment, next, effects),
            ChildPhase::HandingOver { deadline } => Self::hands_over(
                deadline,
                event,
                moment,
                next,
                effects,
            ),
            ChildPhase::Delivering { deadline } => match event {
                ChildEvent::ListenerSent { accepted } => if accepted {
                    next is Serving && effects == Seq::<SuccessorEffect>::empty()
                } else {
                    Self::blames(
                        "live successor child dropped the service listener handoff"@,
                        false,
                        false,
                        moment.cleanup_token(deadline),
                        StagingCleanup::Nothing,
                        next,
                        effects,
                    )
                },
                _ => self.stutters(next, effects),
            },
            ChildPhase::Serving => Self::serves(event, moment, next, effects),
            ChildPhase::Cleaning(cleanup) => match event {
                ChildEvent::CleanedUp { child, staging } => {
                    let result = cleanup.result(child, staging);
                    &&& next == ChildPhase::Finished(result)
                    &&& effects == if cleanup.publish {
                        seq![SuccessorEffect::Publish(HaNodeSnapshot::end(result))]
                    } else {
                        Seq::<SuccessorEffect>::empty()
                    }
                },
                _ => self.stutters(next, effects),
            },
            ChildPhase::Finished(_) => self.stutters(next, effects),
        }
    }
}

fn stay(phase: ChildPhase) -> (step: (ChildPhase, Vec<SuccessorEffect>))
    ensures
        phase.stutters(step.0, step.1@),
{
    (phase, Vec::new())
}

fn clean_up(
    cleanup: ChildCleanup,
    before: Vec<SuccessorEffect>,
    token: ShutdownToken,
    staging: StagingCleanup,
) -> (step: (ChildPhase, Vec<SuccessorEffect>))
    requires
        cleanup.with_staging == (staging != StagingCleanup::Nothing),
    ensures
        ChildPhase::cleans(cleanup, before@, token, staging, step.0, step.1@),
{
    let mut effects = before;
    let ghost start = effects@;
    effects.push(SuccessorEffect::ShutdownChild(token));
    match staging {
        StagingCleanup::Nothing => {},
        StagingCleanup::Stop => {
            effects.push(SuccessorEffect::StopStaging { deadline: token.deadline() });
        },
        StagingCleanup::Abort => {
            effects.push(SuccessorEffect::AbortStaging { deadline: token.deadline() });
        },
    }
    assert(effects@ =~= start + shutdown_effects(token, staging));
    (ChildPhase::Cleaning(cleanup), effects)
}

fn blame(
    message: &str,
    normalize: bool,
    publish: bool,
    token: ShutdownToken,
    staging: StagingCleanup,
) -> (step: (ChildPhase, Vec<SuccessorEffect>))
    ensures
        ChildPhase::blames(message@, normalize, publish, token, staging, step.0, step.1@),
{
    let cleanup = ChildCleanup {
        primary: Some(HaNodeError::ServiceServer(message.to_owned())),
        normalize,
        with_staging: staging != StagingCleanup::Nothing,
        publish,
    };
    clean_up(cleanup, Vec::new(), token, staging)
}

fn publishing(snapshot: HaNodeSnapshot) -> (effects: Vec<SuccessorEffect>)
    ensures
        effects@ == seq![SuccessorEffect::Publish(snapshot)],
{
    let mut effects: Vec<SuccessorEffect> = Vec::new();
    effects.push(SuccessorEffect::Publish(snapshot));
    assert(effects@ =~= seq![SuccessorEffect::Publish(snapshot)]);
    effects
}

fn shut_down_with_staging(primary: Option<HaNodeError>, publish: bool, moment: &Moment) -> (step: (
    ChildPhase,
    Vec<SuccessorEffect>,
))
    requires
        moment.is_tellable(),
    ensures
        ChildPhase::cleans(
            ChildCleanup { primary, normalize: true, with_staging: true, publish },
            Seq::<SuccessorEffect>::empty(),
            moment.cleanup_token(moment.spec_own_deadline()),
            StagingCleanup::Stop,
            step.0,
            step.1@,
        ),
{
    clean_up(
        ChildCleanup { primary, normalize: true, with_staging: true, publish },
        Vec::new(),
        live_successor_cleanup_token(moment, moment.own_deadline()),
        StagingCleanup::Stop,
    )
}

/// Advances the supervision of a child that waits for its listener by one
/// event.
fn await_service(event: ChildEvent, moment: &Moment) -> (step: (ChildPhase, Vec<SuccessorEffect>))
    requires
        moment.is_tellable(),
    ensures
        ChildPhase::awaits(event, *moment, step.0, step.1@),
{
    match event {
        ChildEvent::ChildObserved(snapshot) => match snapshot.terminal_error {
            Some(error) => shut_down_with_staging(Some(error), false, moment),
            None => if snapshot.status == HaNodeStatus::Stopped {
                shut_down_with_staging(None, true, moment)
            } else {
                stay(ChildPhase::AwaitingService)
            },
        },
        ChildEvent::StagingExited(exit) => {
            let error = unexpected_staging_server_exit(exit);
            clean_up(
                ChildCleanup {
                    primary: Some(error),
                    normalize: false,
                    with_staging: false,
                    publish: false,
                },
                Vec::new(),
                live_successor_cleanup_token(moment, moment.own_deadline()),
                StagingCleanup::Nothing,
            )
        },
        ChildEvent::ShutdownChanged => match moment.signal {
            Some(token) => clean_up(
                ChildCleanup {
                    primary: None,
                    normalize: false,
                    with_staging: true,
                    publish: true,
                },
                publishing(HaNodeSnapshot::of(HaNodeStatus::ShuttingDown)),
                token,
                StagingCleanup::Stop,
            ),
            None => {
                let error = HaNodeError::ServiceServer(
                    "live successor shutdown signal closed without a token".to_owned(),
                );
                let mut effects = publishing(HaNodeSnapshot::failed(error.clone()));
                effects.push(SuccessorEffect::AbandonChild);
                effects.push(SuccessorEffect::AbandonStaging);
                assert(effects@ =~= seq![
                    SuccessorEffect::Publish(HaNodeSnapshot::failure(error)),
                    SuccessorEffect::AbandonChild,
                    SuccessorEffect::AbandonStaging,
                ]);
                (ChildPhase::Finished(Err(error)), effects)
            },
        },
        ChildEvent::ServiceReadyClosed(snapshot) => match snapshot.terminal_error {
            Some(error) => shut_down_with_staging(Some(error), false, moment),
            None => if snapshot.status == HaNodeStatus::Stopped {
                shut_down_with_staging(None, true, moment)
            } else {
                blame(
                    "live successor child stopped before service activation",
                    true,
                    false,
                    live_successor_cleanup_token(moment, moment.own_deadline()),
                    StagingCleanup::Stop,
                )
            },
        },
        ChildEvent::ServiceReady => {
            let deadline: u64 = moment.own_deadline();
            let mut effects: Vec<SuccessorEffect> = Vec::new();
            effects.push(SuccessorEffect::RequestHandoff { deadline });
            assert(effects@ =~= seq![SuccessorEffect::RequestHandoff { deadline }]);
            (ChildPhase::HandingOver { deadline }, effects)
        },
        ChildEvent::ChildStateClosed => blame(
            "HA child supervisor state channel closed before service activation",
            false,
            false,
            live_successor_cleanup_token(moment, moment.own_deadline()),
            StagingCleanup::Stop,
        ),
        _ => stay(ChildPhase::AwaitingService),
    }
}

/// Advances the handover of the listener by one event.
fn hand_over(deadline: u64, event: ChildEvent, moment: &Moment) -> (step: (
    ChildPhase,
    Vec<SuccessorEffect>,
))
    ensures
        ChildPhase::hands_over(deadline, event, *moment, step.0, step.1@),
{
    match event {
        ChildEvent::ShutdownChanged => match moment.signal {
            Some(token) => clean_up(
                ChildCleanup {
                    primary: None,
                    normalize: false,
                    with_staging: true,
                    publish: true,
                },
                Vec::new(),
                token,
                StagingCleanup::Abort,
            ),
            None => blame(
                "live successor shutdown signal closed during listener handoff",
                false,
                false,
                live_successor_cleanup_token(moment, deadline),
                StagingCleanup::Abort,
            ),
        },
        ChildEvent::HandoffEnded(wait) => {
            let outcome = handoff_staging_listener(wait);
            assert(crate::staging::handed_off(wait, outcome.result));
            let mut effects: Vec<SuccessorEffect> = Vec::new();
            match outcome.result {
                Ok(()) => {
                    effects.push(SuccessorEffect::SendListener);
                    assert(effects@ =~= seq![SuccessorEffect::SendListener]);
                    (ChildPhase::Delivering { deadline }, effects)
                },
                Err(error) => {
                    if outcome.abort {
                        effects.push(SuccessorEffect::AbandonStaging);
                        assert(effects@ =~= seq![SuccessorEffect::AbandonStaging]);
                    }
                    clean_up(
                        ChildCleanup {
                            primary: Some(error),
                            normalize: false,
                            with_staging: false,
                            publish: false,
                        },
                        effects,
                        live_successor_cleanup_token(moment, deadline),
                        StagingCleanup::Nothing,
                    )
                },
            }
        },
        _ => stay(ChildPhase::HandingOver { deadline }),
    }
}

/// Advances the supervision of a child that serves by one event. An event
/// that it does not wait for changes nothing.
pub fn supervise_live_successor_child(event: ChildEvent, moment: &Moment) -> (step: (
    ChildPhase,
    Vec<SuccessorEffect>,
))
    requires
        moment.is_tellable(),
    ensures
        ChildPhase::serves(event, *moment, step.0, step.1@),
{
    match event {
        ChildEvent::ChildObserved(snapshot) => {
            let effects = publishing(snapshot.clone());
            if snapshot.terminal_error.is_some() || snapshot.status == HaNodeStatus::Stopped {
                clean_up(
                    ChildCleanup {
                        primary: snapshot.terminal_error,
                        normalize: true,
                        with_staging: false,
                        publish: true,
                    },
                    effects,
                    live_successor_cleanup_token(moment, moment.own_deadline()),
                    StagingCleanup::Nothing,
                )
            } else {
                (ChildPhase::Serving, effects)
            }
        },
        ChildEvent::ShutdownChanged => {
            let mut effects = publishing(HaNodeSnapshot::of(HaNodeStatus::ShuttingDown));
            match moment.signal {
                Some(token) => clean_up(
                    ChildCleanup {
                        primary: None,
                        normalize: false,
                        with_staging: false,
                        publish: true,
                    },
                    effects,
                    token,
                    StagingCleanup::Nothing,
                ),
                None => {
                    effects.push(SuccessorEffect::AbandonChild);
                    assert(effects@ =~= seq![
                        SuccessorEffect::Publish(HaNodeSnapshot::plain(HaNodeStatus::ShuttingDown)),
                        SuccessorEffect::AbandonChild,
                    ]);
                    let error = HaNodeError::ServiceServer(
                        "live successor shutdown signal closed without a token".to_owned(),
                    );
                    (ChildPhase::Finished(Err(error)), effects)
                },
            }
        },
        ChildEvent::ChildStateClosed => blame(
            "HA child supervisor state channel closed",
            true,
            true,
            live_successor_cleanup_token(moment, moment.own_deadline()),
            StagingCleanup::Nothing,
        ),
        _ => stay(ChildPhase::Serving),
    }
}

/// Advances the supervision of a live successor's child by one event, from
/// its start until it has ended. An event that is not waited for changes
/// nothing.
pub fn supervise_live_successor_child_after_staging_with_child(
    phase: ChildPhase,
    event: ChildEvent,
    moment: &Moment,
) -> (step: (ChildPhase, Vec<SuccessorEffect>))
    requires
        moment.is_tellable(),
    ensures
        phase.steps_to(event, *moment, step.0, step.1@),
{
    match phase {
        ChildPhase::AwaitingService => await_service(event, moment),
        ChildPhase::HandingOver { deadline } => hand_over(deadline, event, moment),
        ChildPhase::Delivering { deadline } => match event {
            ChildEvent::ListenerSent { accepted } => if accepted {
                (ChildPhase::Serving, Vec::new())
            } else {
                blame(
                    "live successor child dropped the service listener handoff",
                    false,
                    false,
                    live_successor_cleanup_token(moment, deadline),
                    StagingCleanup::Nothing,
                )
            },
            _ => stay(ChildPhase::Delivering { deadline }),
        },
        ChildPhase::Serving => supervise_live_successor_child(event, moment),
        ChildPhase::Cleaning(cleanup) => match event {
            ChildEvent::CleanedUp { child, staging } => {
                let publish = cleanup.publish;
                let result = cleanup.finish(child, staging);
                let effects = if publish {
                    publishing(HaNodeSnapshot::ended(&result))
                } else {
                    Vec::new()
                };
                (ChildPhase::Finished(result), effects)
            },
            _ => stay(ChildPhase::Cleaning(cleanup)),
        },
        ChildPhase::Finished(result) => stay(ChildPhase::Finished(result)),
    }
}

/// Starts the child of a live successor while staging holds the listener, and
/// its supervision with it.
pub fn supervise_live_successor_child_after_staging(
    startup: HaStartupConfig,
    serve: SuccessorServeConfig,
) -> (child: (StartedHaNode, ChildPhase))
    requires
        !serve.owns_listener,
    ensures
        child.0.startup == startup,
        child.0.serve == (HaServeConfig {
            service_listener: ServiceListener::Deferred,
            recorder_transport: serve.recorder_transport,
            recorders: serve.recorders,
            admin: serve.admin,
            tail_token: serve.tail_token,
        }),
        child.0.node.state == HaNodeSnapshot::plain(HaNodeStatus::Starting),
        child.0.node.shutdown is None,
        child.0.node.supervised,
        child.0.supervisor is Preparing,
        child.1 is AwaitingService,
{
    (startup.start(serve.into_deferred_child()), ChildPhase::AwaitingService)
}

} // verus!
