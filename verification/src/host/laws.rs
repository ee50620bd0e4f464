//! What the host does in which order, and what it logs of it.

use super::{
    begun, cleanup_log, presentation_event, start_event, unavailable_log, HostStart,
    PresentationStage, StartStage, StartStep,
};
use crate::application::OperationFailure;
use crate::local_log::SafeEvent;
use vstd::prelude::*;

verus! {

/// While all goes well the host, the dialogs, the tray and the product come
/// one after the other, and from then on the menu is drawn.
pub proof fn the_start_has_its_order(outcomes: Seq<bool>)
    requires
        forall|i: int| 0 <= i < outcomes.len() ==> #[trigger] outcomes[i],
    ensures
        ({
            let step = begun(outcomes).step();
            &&& outcomes.len() == 0 ==> step == StartStep::ConfigureHost
            &&& outcomes.len() == 1 ==> step == StartStep::RegisterDialogs
            &&& outcomes.len() == 2 ==> step == StartStep::StartTray
            &&& outcomes.len() == 3 ==> step == StartStep::StartProduct
            &&& outcomes.len() >= 4 ==> step == StartStep::RefreshMenu
        }),
    decreases outcomes.len(),
{
    if outcomes.len() > 0 {
        let before = outcomes.drop_last();
        assert forall|i: int| 0 <= i < before.len() implies #[trigger] before[i] by {
            assert(outcomes[i]);
        }
        the_start_has_its_order(before);
        assert(outcomes[outcomes.len() - 1]);
    }
}

/// Only the host itself and the tray can end the start, with the code 1.
/// Dialogs and a product that fail to start end nothing.
pub proof fn little_can_end_the_start(start: HostStart, succeeded: bool)
    ensures
        start.after(succeeded).stage == StartStage::Ended <==> start.stage == StartStage::Ended
            || (!succeeded && (start.stage == StartStage::Host || start.stage == StartStage::Tray)),
        start.stage == StartStage::Ended ==> start.step() == StartStep::Exit(1),
        start.stage == StartStage::Dialogs || start.stage == StartStage::Product ==> start.after(
            true,
        ) == start.after(false),
{
}

/// The start of the process is logged once the host is there, and what cannot
/// be shown is logged by what it was for.
pub proof fn the_start_is_logged(start: HostStart, succeeded: bool)
    ensures
        ({
            let told = start.events(succeeded);
            &&& told.len() <= 1
            &&& told.contains(SafeEvent::ProcessStarted) <==> start.stage == StartStage::Host
                && succeeded
            &&& start.stage == StartStage::Dialogs && !succeeded <==> told.contains(
                SafeEvent::PresentationFailure { stage: "dialog-initialization" },
            )
            &&& start.stage == StartStage::Tray && !succeeded <==> told.contains(
                SafeEvent::PresentationFailure { stage: "startup" },
            )
        }),
        presentation_event(PresentationStage::Shutdown) == (SafeEvent::PresentationFailure {
            stage: "shutdown",
        }),
{
    reveal_strlit("dialog-initialization");
    reveal_strlit("startup");
    let told = start.events(succeeded);
    if told.len() > 0 {
        assert(told.contains(told[0]));
    }
    assert("dialog-initialization"@.len() == 21);
    assert("startup"@.len() == 7);
    assert("dialog-initialization" != "startup");
}

/// Each capability that failed is logged under its name, in turn.
pub proof fn failures_are_logged_in_turn(failures: Seq<OperationFailure>, i: int)
    requires
        0 <= i < failures.len(),
    ensures
        cleanup_log(failures).len() == failures.len(),
        cleanup_log(failures)[i] == (SafeEvent::CleanupFailed {
            capability: failures[i].capability.0,
        }),
        unavailable_log(failures).len() == failures.len(),
        unavailable_log(failures)[i] == (SafeEvent::OptionalCapabilityUnavailable {
            capability: failures[i].capability.0,
        }),
{
}

/// A start is logged as ready exactly where nothing failed, and else as
/// degraded.
pub proof fn a_whole_start_is_logged_as_ready(failures: Seq<OperationFailure>)
    ensures
        start_event(failures) == SafeEvent::ApplicationReady <==> failures.len() == 0,
        start_event(failures) == SafeEvent::ApplicationDegraded <==> failures.len() > 0,
{
}

} // verus!
