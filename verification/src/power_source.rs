//! What the computer runs on, as the platform reports it.

use crate::automatic_protection::{
    reconciled, AutomaticProtectionController, PendingReconciliation, PowerSource, ProtectionModel,
    ProtectionProgress, Reconciled,
};
use crate::local_log::{EventOutcome, SafeEvent};
use crate::text::{decimal, decimal_text};
use crate::wake_coordinator::{ProtectionState, WakeCoordinator};
use vstd::prelude::*;
use vstd::string::*;

pub mod laws;
pub mod macos;
pub mod windows;

verus! {

/// Whether the observer can be relied on.
#[derive(Clone, Copy, Debug, PartialEq, Eq, Structural)]
pub enum PowerSourceObserverHealth {
    Starting,
    Observing,
    Degraded,
    Stopped,
}

/// What was asked of the platform.
#[derive(Clone, Copy, Debug, PartialEq, Eq, Structural)]
pub enum PowerSourceOperation {
    Registration,
    Sample,
    Unregistration,
}

/// What the platform refused, with its code where it gave one.
#[derive(Clone, Copy, Debug, PartialEq, Eq, Structural)]
pub struct PowerSourceFailure {
    pub operation: PowerSourceOperation,
    pub code: Option<u32>,
}

/// The name of an operation.
pub open spec fn operation_word(operation: PowerSourceOperation) -> Seq<char> {
    match operation {
        PowerSourceOperation::Registration => "Registration"@,
        PowerSourceOperation::Sample => "Sample"@,
        PowerSourceOperation::Unregistration => "Unregistration"@,
    }
}

fn operation_name(operation: PowerSourceOperation) -> (r: &'static str)
    ensures
        r@ == operation_word(operation),
{
    match operation {
        PowerSourceOperation::Registration => "Registration",
        PowerSourceOperation::Sample => "Sample",
        PowerSourceOperation::Unregistration => "Unregistration",
    }
}

impl PowerSourceFailure {
    /// What was refused.
    pub fn new(operation: PowerSourceOperation, code: Option<u32>) -> (r: PowerSourceFailure)
        ensures
            r == (PowerSourceFailure { operation, code }),
    {
        PowerSourceFailure { operation, code }
    }

    /// What was asked.
    pub fn operation(&self) -> (r: PowerSourceOperation)
        ensures
            r == self.operation,
    {
        self.operation
    }

    /// The platform's code.
    pub fn code(&self) -> (r: Option<u32>)
        ensures
            r == self.code,
    {
        self.code
    }

    /// The failure in words.
    pub open spec fn words(self) -> Seq<char> {
        let first = "power source "@ + operation_word(self.operation) + " failed"@;
        match self.code {
            Some(code) => first + " with platform code "@ + decimal(code as nat),
            None => first,
        }
    }

    /// The failure in words.
    pub fn message(&self) -> (r: String)
        ensures
            r@ == self.words(),
    {
        let first = String::from_str("power source ").concat(
            operation_name(self.operation),
        ).concat(" failed");
        match self.code {
            Some(code) => first.concat(" with platform code ").concat(
                decimal_text(code as u128).as_str(),
            ),
            None => first,
        }
    }
}

/// The word for a power source in a log line.
pub open spec fn source_word(source: PowerSource) -> &'static str {
    match source {
        PowerSource::External => "external",
        PowerSource::Limited => "limited",
        PowerSource::Unknown => "unknown",
    }
}

/// The word for a power source in a log line.
pub fn power_source_name(source: PowerSource) -> (r: &'static str)
    ensures
        r == source_word(source),
{
    match source {
        PowerSource::External => "external",
        PowerSource::Limited => "limited",
        PowerSource::Unknown => "unknown",
    }
}

/// The word for the observer's health in a log line.
pub open spec fn health_word(health: PowerSourceObserverHealth) -> &'static str {
    match health {
        PowerSourceObserverHealth::Starting => "starting",
        PowerSourceObserverHealth::Observing => "observing",
        PowerSourceObserverHealth::Degraded => "degraded",
        PowerSourceObserverHealth::Stopped => "stopped",
    }
}

/// The word for the observer's health in a log line.
pub fn power_health_name(health: PowerSourceObserverHealth) -> (r: &'static str)
    ensures
        r == health_word(health),
{
    match health {
        PowerSourceObserverHealth::Starting => "starting",
        PowerSourceObserverHealth::Observing => "observing",
        PowerSourceObserverHealth::Degraded => "degraded",
        PowerSourceObserverHealth::Stopped => "stopped",
    }
}

/// What the observer shows of itself.
#[derive(Clone, Copy, Debug, PartialEq, Eq, Structural)]
pub struct PowerSourceObserverSnapshot {
    pub source: PowerSource,
    pub health: PowerSourceObserverHealth,
    pub latest_failure: Option<PowerSourceFailure>,
}

impl PowerSourceObserverSnapshot {
    /// What the computer runs on.
    pub fn source(&self) -> (r: PowerSource)
        ensures
            r == self.source,
    {
        self.source
    }

    /// Whether the observer can be relied on.
    pub fn health(&self) -> (r: PowerSourceObserverHealth)
        ensures
            r == self.health,
    {
        self.health
    }

    /// What the platform refused, while it matters.
    pub fn latest_failure(&self) -> (r: Option<PowerSourceFailure>)
        ensures
            r == self.latest_failure,
    {
        self.latest_failure
    }

    /// After a report of the platform. A failure leaves the power unknown.
    pub open spec fn reported(
        self,
        result: Result<PowerSource, PowerSourceFailure>,
    ) -> PowerSourceObserverSnapshot {
        match result {
            Ok(source) => PowerSourceObserverSnapshot {
                source,
                health: PowerSourceObserverHealth::Observing,
                latest_failure: None,
            },
            Err(failure) => PowerSourceObserverSnapshot {
                source: PowerSource::Unknown,
                health: PowerSourceObserverHealth::Degraded,
                latest_failure: Some(failure),
            },
        }
    }

    /// After the end of the observation, with what went wrong in it, if
    /// anything did.
    pub open spec fn ended(self, failure: Option<PowerSourceFailure>) -> PowerSourceObserverSnapshot {
        PowerSourceObserverSnapshot {
            source: PowerSource::Unknown,
            health: PowerSourceObserverHealth::Stopped,
            latest_failure: if failure is Some {
                failure
            } else {
                self.latest_failure
            },
        }
    }

    /// What is logged where the source or the health has changed.
    pub open spec fn change_log(self, before: PowerSourceObserverSnapshot) -> Seq<SafeEvent> {
        if self.source == before.source && self.health == before.health {
            Seq::empty()
        } else {
            seq![
                SafeEvent::PowerChanged {
                    source: source_word(self.source),
                    health: health_word(self.health),
                },
            ]
        }
    }
}

/// A report for which the platform's inhibitor has to be asked.
#[derive(Clone, Copy, Debug, PartialEq, Eq, Structural)]
pub struct PendingReport {
    pub reconciliation: PendingReconciliation,
    pub before: PowerSourceObserverSnapshot,
}

/// What a power source leads to in the controller.
pub open spec fn source_reconciled(
    controller: ProtectionModel,
    source: PowerSource,
    wake: WakeCoordinator,
) -> Reconciled {
    reconciled(controller.eligibility(), ProtectionModel { power: source, ..controller }, wake)
}

/// The observer of the power source.
#[derive(Clone, Copy, Debug, PartialEq, Eq, Structural)]
pub struct PowerSourceObserver {
    pub state: PowerSourceObserverSnapshot,
}

impl PowerSourceObserver {
    /// An observer that has seen nothing.
    pub fn new() -> (r: PowerSourceObserver)
        ensures
            r.state == (PowerSourceObserverSnapshot {
                source: PowerSource::Unknown,
                health: PowerSourceObserverHealth::Starting,
                latest_failure: None,
            }),
    {
        PowerSourceObserver {
            state: PowerSourceObserverSnapshot {
                source: PowerSource::Unknown,
                health: PowerSourceObserverHealth::Starting,
                latest_failure: None,
            },
        }
    }

    /// What the observer shows of itself.
    pub fn snapshot(&self) -> (r: PowerSourceObserverSnapshot)
        ensures
            r == self.state,
    {
        self.state
    }

    fn record_state_if_changed(
        &self,
        before: PowerSourceObserverSnapshot,
        log: &mut Vec<SafeEvent>,
    )
        ensures
            final(log)@ == old(log)@ + self.state.change_log(before),
    {
        if self.state.source != before.source || self.state.health != before.health {
            log.push(
                SafeEvent::PowerChanged {
                    source: power_source_name(self.state.source),
                    health: power_health_name(self.state.health),
                },
            );
        }
        assert(log@ =~= old(log)@ + self.state.change_log(before));
    }

    fn hand_over(
        &mut self,
        state: PowerSourceObserverSnapshot,
        controller: &mut AutomaticProtectionController,
        wake: &mut WakeCoordinator,
        log: &mut Vec<SafeEvent>,
    ) -> (r: Option<PendingReport>)
        ensures
            hands_over(
                old(self).state,
                final(self).state,
                state,
                old(controller)@,
                final(controller)@,
                *old(wake),
                *final(wake),
                old(log)@,
                final(log)@,
                r,
            ),
    {
        let before = self.state;
        self.state = state;
        match controller.set_power_source(state.source, wake, log) {
            ProtectionProgress::Native(reconciliation) => Some(
                PendingReport { reconciliation, before },
            ),
            ProtectionProgress::Finished(_) => {
                self.record_state_if_changed(before, log);
                None
            },
        }
    }

    /// Takes over a report of the platform, and tells the controller. Where
    /// the platform's inhibitor has to be asked after that, `report_returned`
    /// ends it.
    pub fn publish(
        &mut self,
        result: Result<PowerSource, PowerSourceFailure>,
        controller: &mut AutomaticProtectionController,
        wake: &mut WakeCoordinator,
        log: &mut Vec<SafeEvent>,
    ) -> (r: Option<PendingReport>)
        ensures
            hands_over(
                old(self).state,
                final(self).state,
                old(self).state.reported(result),
                old(controller)@,
                final(controller)@,
                *old(wake),
                *final(wake),
                old(log)@,
                final(log)@,
                r,
            ),
    {
        let state = match result {
            Ok(source) => PowerSourceObserverSnapshot {
                source,
                health: PowerSourceObserverHealth::Observing,
                latest_failure: None,
            },
            Err(failure) => PowerSourceObserverSnapshot {
                source: PowerSource::Unknown,
                health: PowerSourceObserverHealth::Degraded,
                latest_failure: Some(failure),
            },
        };
        self.hand_over(state, controller, wake, log)
    }

    /// Takes note of the end of the observation, and tells the controller that
    /// the power is no longer known.
    pub fn stopped(
        &mut self,
        failure: Option<PowerSourceFailure>,
        controller: &mut AutomaticProtectionController,
        wake: &mut WakeCoordinator,
        log: &mut Vec<SafeEvent>,
    ) -> (r: Option<PendingReport>)
        ensures
            hands_over(
                old(self).state,
                final(self).state,
                old(self).state.ended(failure),
                old(controller)@,
                final(controller)@,
                *old(wake),
                *final(wake),
                old(log)@,
                final(log)@,
                r,
            ),
    {
        let latest_failure = match failure {
            Some(failure) => Some(failure),
            None => self.state.latest_failure,
        };
        let state = PowerSourceObserverSnapshot {
            source: PowerSource::Unknown,
            health: PowerSourceObserverHealth::Stopped,
            latest_failure,
        };
        self.hand_over(state, controller, wake, log)
    }

    /// Ends a report for which the platform's inhibitor was asked. A failure
    /// stays with the controller.
    pub fn report_returned(
        &self,
        pending: PendingReport,
        outcome: Result<(), String>,
        protection: ProtectionState,
        controller: &mut AutomaticProtectionController,
        wake: &mut WakeCoordinator,
        log: &mut Vec<SafeEvent>,
    )
        ensures
            *final(wake) == (WakeCoordinator { protection, ..*old(wake) }),
            final(controller)@ == (ProtectionModel {
                failure: match outcome {
                    Ok(_) => None,
                    Err(error) => Some(error@),
                },
                ..old(controller)@
            }),
            final(log)@ == old(log)@.push(
                SafeEvent::NativeProtection {
                    action: pending.reconciliation.action,
                    outcome: if outcome is Ok {
                        EventOutcome::Succeeded
                    } else {
                        EventOutcome::Failed
                    },
                },
            ) + old(controller)@.outcome_events(pending.reconciliation.before, outcome is Ok)
                + self.state.change_log(pending.before),
    {
        let snapshot = controller.returned(
            pending.reconciliation,
            outcome,
            protection,
            wake,
            log,
        );
        self.record_state_if_changed(pending.before, log);
    }
}

/// Whether an observer has gone from one state to another and told the
/// controller of the source. A change is logged once the controller is done.
pub open spec fn hands_over(
    before: PowerSourceObserverSnapshot,
    after: PowerSourceObserverSnapshot,
    state: PowerSourceObserverSnapshot,
    controller: ProtectionModel,
    controller_after: ProtectionModel,
    wake: WakeCoordinator,
    wake_after: WakeCoordinator,
    log: Seq<SafeEvent>,
    log_after: Seq<SafeEvent>,
    pending: Option<PendingReport>,
) -> bool {
    let end = source_reconciled(controller, state.source, wake);
    &&& after == state
    &&& controller_after == end.model
    &&& wake_after == end.wake
    &&& match end.asks {
        Some(action) => {
            &&& pending == Some(
                PendingReport {
                    reconciliation: PendingReconciliation {
                        action,
                        before: controller.eligibility(),
                    },
                    before,
                },
            )
            &&& log_after == log + end.events
        },
        None => {
            &&& pending is None
            &&& log_after == log + end.events + state.change_log(before)
        },
    }
}

/// A failure or the end of the observation never leaves a known power source
/// behind, and so never keeps the computer awake without the user's
/// permission.
pub proof fn lost_observation_is_unknown_power(
    state: PowerSourceObserverSnapshot,
    failure: PowerSourceFailure,
    ending: Option<PowerSourceFailure>,
    controller: ProtectionModel,
)
    ensures
        state.reported(Err(failure)).source == PowerSource::Unknown,
        state.ended(ending).source == PowerSource::Unknown,
        !controller.settings.protect_on_battery ==> !(ProtectionModel {
            power: PowerSource::Unknown,
            ..controller
        }).desired(),
{
}

} // verus!
