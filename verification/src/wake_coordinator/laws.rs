//! What the coordinator is for: the computer is kept awake exactly while there
//! is a reason to.

use super::{reasons_in_order, ProtectionState, WakeCoordinator, WakeReason};
use crate::local_log::{ProtectionAction, SafeEvent};
use vstd::prelude::*;

verus! {

/// Protection is asked for exactly where there is a reason and none is in
/// force, and lifted exactly where it is in force without a reason.
pub proof fn protection_follows_the_reasons(wake: WakeCoordinator)
    ensures
        ({
            let reason = wake.automatic || wake.manual;
            let active = wake.protection == ProtectionState::Active;
            &&& wake.needed() == Some(ProtectionAction::Acquire) <==> reason && !active
            &&& wake.needed() == Some(ProtectionAction::Release) <==> !reason && active
            &&& wake.needed() is None <==> reason == active
        }),
{
}

/// Each reason is set by its own name, and leaves the other and the
/// protection as they are.
pub proof fn reasons_are_set_by_name(wake: WakeCoordinator, active: bool)
    ensures
        wake.with_reason(WakeReason::AutomaticDownload, active) == (WakeCoordinator {
            automatic: active,
            ..wake
        }),
        wake.with_reason(WakeReason::ManualKeepAwake, active) == (WakeCoordinator {
            manual: active,
            ..wake
        }),
        !wake.without_reasons().automatic,
        !wake.without_reasons().manual,
        wake.without_reasons().protection == wake.protection,
        wake.without_reasons().needed() != Some(ProtectionAction::Acquire),
{
}

/// A change of the reasons is told once, with the reasons that there are
/// afterwards, and no change is not told.
pub proof fn changes_of_reasons_are_told(before: WakeCoordinator, after: WakeCoordinator)
    ensures
        ({
            let told = before.change_events(after);
            let same = before.automatic == after.automatic && before.manual == after.manual;
            &&& same <==> told.len() == 0
            &&& !same ==> told.len() == 1 && told[0] == (SafeEvent::WakeReasonsChanged {
                automatic: after.automatic,
                manual: after.manual,
            })
        }),
{
}

/// The reasons are listed each once, downloads first.
pub proof fn reasons_are_listed_in_order(automatic: bool, manual: bool)
    ensures
        ({
            let list = reasons_in_order(automatic, manual);
            &&& list.len() == (if automatic {
                1int
            } else {
                0
            }) + (if manual {
                1int
            } else {
                0
            })
            &&& automatic ==> list[0] == WakeReason::AutomaticDownload
            &&& manual ==> list[list.len() - 1] == WakeReason::ManualKeepAwake
        }),
{
}

} // verus!
