//! Why the computer is kept awake, and whether it is.
//!
//! The coordinator holds the reasons and what is known of the native
//! protection. Asking the platform is left to the caller: an operation answers
//! what to ask, and the caller reports what came of it.

pub mod laws;

use crate::local_log::{EventOutcome, ProtectionAction, SafeEvent};
use vstd::prelude::*;

verus! {

/// A reason to keep the computer awake.
#[derive(Clone, Copy, Debug, PartialEq, Eq, Structural)]
pub enum WakeReason {
    AutomaticDownload,
    ManualKeepAwake,
}

/// Whether the platform keeps the computer awake for this program.
#[derive(Clone, Copy, Debug, PartialEq, Eq, Structural)]
pub enum ProtectionState {
    Inactive,
    Active,
}

/// What the coordinator shows of itself.
#[derive(Clone, Debug, PartialEq, Eq)]
pub struct WakeSnapshot {
    pub active_reasons: Vec<WakeReason>,
    pub protection_state: ProtectionState,
}

/// The reasons in force, in their fixed order.
pub open spec fn reasons_in_order(automatic: bool, manual: bool) -> Seq<WakeReason> {
    let first = if automatic {
        seq![WakeReason::AutomaticDownload]
    } else {
        Seq::empty()
    };
    if manual {
        first.push(WakeReason::ManualKeepAwake)
    } else {
        first
    }
}

/// The reasons to keep the computer awake, and the native protection.
#[derive(Clone, Copy, Debug, PartialEq, Eq, Structural)]
pub struct WakeCoordinator {
    pub automatic: bool,
    pub manual: bool,
    pub protection: ProtectionState,
}

impl WakeCoordinator {
    /// Whether a reason is in force.
    pub open spec fn holds(self, reason: WakeReason) -> bool {
        match reason {
            WakeReason::AutomaticDownload => self.automatic,
            WakeReason::ManualKeepAwake => self.manual,
        }
    }

    /// The coordinator with one reason put in force or lifted.
    pub open spec fn with_reason(self, reason: WakeReason, active: bool) -> WakeCoordinator {
        match reason {
            WakeReason::AutomaticDownload => WakeCoordinator { automatic: active, ..self },
            WakeReason::ManualKeepAwake => WakeCoordinator { manual: active, ..self },
        }
    }

    /// The coordinator without a reason.
    pub open spec fn without_reasons(self) -> WakeCoordinator {
        WakeCoordinator { automatic: false, manual: false, ..self }
    }

    /// Whether the native protection is as the reasons want it.
    pub open spec fn settled(self) -> bool {
        (self.automatic || self.manual) <==> self.protection == ProtectionState::Active
    }

    /// What the platform has to be asked so that the native protection becomes
    /// what the reasons want.
    pub open spec fn needed(self) -> Option<ProtectionAction> {
        if self.settled() {
            None
        } else if self.automatic || self.manual {
            Some(ProtectionAction::Acquire)
        } else {
            Some(ProtectionAction::Release)
        }
    }

    /// What is logged where the reasons change from these to those of `after`.
    pub open spec fn change_events(self, after: WakeCoordinator) -> Seq<SafeEvent> {
        if self.automatic == after.automatic && self.manual == after.manual {
            Seq::empty()
        } else {
            seq![
                SafeEvent::WakeReasonsChanged { automatic: after.automatic, manual: after.manual },
            ]
        }
    }

    /// No reason, and no native protection.
    pub fn new() -> (r: WakeCoordinator)
        ensures
            r == (WakeCoordinator {
                automatic: false,
                manual: false,
                protection: ProtectionState::Inactive,
            }),
    {
        WakeCoordinator { automatic: false, manual: false, protection: ProtectionState::Inactive }
    }

    fn needed_action(&self) -> (r: Option<ProtectionAction>)
        ensures
            r == self.needed(),
    {
        match (self.automatic || self.manual, self.protection) {
            (true, ProtectionState::Inactive) => Some(ProtectionAction::Acquire),
            (false, ProtectionState::Active) => Some(ProtectionAction::Release),
            _ => None,
        }
    }

    fn log_change(&self, after: WakeCoordinator, log: &mut Vec<SafeEvent>)
        ensures
            final(log)@ == old(log)@ + self.change_events(after),
    {
        if self.automatic != after.automatic || self.manual != after.manual {
            log.push(
                SafeEvent::WakeReasonsChanged { automatic: after.automatic, manual: after.manual },
            );
        }
        assert(log@ =~= old(log)@ + self.change_events(after));
    }

    /// Puts a reason in force or lifts it, and answers what the platform has
    /// to be asked. A protection that an earlier attempt left wrong is asked
    /// for again, whether or not the reason changes.
    pub fn set_reason_active(
        &mut self,
        reason: WakeReason,
        active: bool,
        log: &mut Vec<SafeEvent>,
    ) -> (r: Option<ProtectionAction>)
        ensures
            *final(self) == old(self).with_reason(reason, active),
            r == final(self).needed(),
            final(log)@ == old(log)@ + old(self).change_events(*final(self)),
    {
        let before = *self;
        match reason {
            WakeReason::AutomaticDownload => {
                self.automatic = active;
            },
            WakeReason::ManualKeepAwake => {
                self.manual = active;
            },
        }
        before.log_change(*self, log);
        self.needed_action()
    }

    /// Lifts every reason, and answers what the platform has to be asked.
    pub fn shutdown(&mut self, log: &mut Vec<SafeEvent>) -> (r: Option<ProtectionAction>)
        ensures
            *final(self) == old(self).without_reasons(),
            r == final(self).needed(),
            final(log)@ == old(log)@ + old(self).change_events(*final(self)),
    {
        let before = *self;
        self.automatic = false;
        self.manual = false;
        before.log_change(*self, log);
        self.needed_action()
    }

    /// Takes note of what the platform answered to `action`: whether it
    /// succeeded, and the state in which the inhibitor is now.
    pub fn native_returned(
        &mut self,
        action: ProtectionAction,
        succeeded: bool,
        state: ProtectionState,
        log: &mut Vec<SafeEvent>,
    )
        ensures
            *final(self) == (WakeCoordinator { protection: state, ..*old(self) }),
            final(log)@ == old(log)@.push(
                SafeEvent::NativeProtection {
                    action,
                    outcome: if succeeded {
                        EventOutcome::Succeeded
                    } else {
                        EventOutcome::Failed
                    },
                },
            ),
    {
        self.protection = state;
        let outcome = if succeeded {
            EventOutcome::Succeeded
        } else {
            EventOutcome::Failed
        };
        log.push(SafeEvent::NativeProtection { action, outcome });
    }

    /// The reasons in force, in their fixed order, and the native protection.
    pub fn snapshot(&self) -> (r: WakeSnapshot)
        ensures
            r.active_reasons@ == reasons_in_order(self.automatic, self.manual),
            r.protection_state == self.protection,
    {
        let mut active_reasons: Vec<WakeReason> = Vec::new();
        if self.automatic {
            active_reasons.push(WakeReason::AutomaticDownload);
        }
        if self.manual {
            active_reasons.push(WakeReason::ManualKeepAwake);
        }
        assert(active_reasons@ =~= reasons_in_order(self.automatic, self.manual));
        WakeSnapshot { active_reasons, protection_state: self.protection }
    }
}

impl WakeSnapshot {
    /// The reasons in force.
    pub fn active_reasons(&self) -> (r: &Vec<WakeReason>)
        ensures
            r@ == self.active_reasons@,
    {
        &self.active_reasons
    }

    /// Whether the platform keeps the computer awake.
    pub fn protection_state(&self) -> (r: ProtectionState)
        ensures
            r == self.protection_state,
    {
        self.protection_state
    }
}

/// Putting a reason in force or lifting it leaves the other reason alone.
pub proof fn reasons_are_independent(wake: WakeCoordinator, reason: WakeReason, active: bool)
    ensures
        wake.with_reason(reason, active).holds(reason) == active,
        forall|other: WakeReason|
            other != reason ==> #[trigger] wake.with_reason(reason, active).holds(other)
                == wake.holds(other),
{
}

/// While one reason is in force, lifting the other does not release the
/// native protection.
pub proof fn protection_outlasts_one_reason(
    wake: WakeCoordinator,
    kept: WakeReason,
    lifted: WakeReason,
)
    requires
        kept != lifted,
        wake.holds(kept),
    ensures
        wake.with_reason(lifted, false).needed() != Some(ProtectionAction::Release),
{
}

/// Once the platform has done what it was asked, nothing is left to ask.
pub proof fn success_settles(wake: WakeCoordinator)
    ensures
        wake.needed() == Some(ProtectionAction::Acquire) ==> (WakeCoordinator {
            protection: ProtectionState::Active,
            ..wake
        }).needed() is None,
        wake.needed() == Some(ProtectionAction::Release) ==> (WakeCoordinator {
            protection: ProtectionState::Inactive,
            ..wake
        }).needed() is None,
{
}

/// What failed is asked for again the next time that the same reason is set
/// to the same value.
pub proof fn failure_is_retried(wake: WakeCoordinator, reason: WakeReason)
    ensures
        wake.with_reason(reason, wake.holds(reason)).needed() == wake.needed(),
{
}

} // verus!
