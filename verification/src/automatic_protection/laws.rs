//! What automatic protection is for: a download keeps the computer awake
//! exactly where it may.

use super::{
    reconciled, shows_protection, AutomaticProtectionSettings, AutomaticProtectionSnapshot,
    AutomaticProtectionSuppression, Eligibility, PowerSource, ProtectionModel,
};
use crate::local_log::{EventOutcome, ProtectionAction, SafeEvent};
use crate::settings::SettingsModel;
use crate::wake_coordinator::{ProtectionState, WakeCoordinator};
use vstd::prelude::*;
use vstd::string::*;

verus! {

/// A download keeps the computer awake exactly where protection is switched
/// on and there is external power, or battery is allowed. Where it does not,
/// the one thing that is in the way is named.
pub proof fn a_download_counts_where_it_may(model: ProtectionModel)
    ensures
        ({
            let on = model.settings.automatic_download_protection_enabled;
            let anywhere = model.settings.protect_on_battery;
            let power = model.power;
            &&& model.desired() <==> model.intent && on && (anywhere || power
                == PowerSource::External)
            &&& model.suppression() == Some(AutomaticProtectionSuppression::AutomaticDisabled)
                <==> model.intent && !on
            &&& model.suppression() == Some(AutomaticProtectionSuppression::LimitedPower)
                <==> model.intent && on && !anywhere && power == PowerSource::Limited
            &&& model.suppression() == Some(AutomaticProtectionSuppression::UnknownPower)
                <==> model.intent && on && !anywhere && power == PowerSource::Unknown
        }),
{
}

/// The two switches that count are the saved ones.
pub proof fn the_saved_switches_count(settings: SettingsModel)
    ensures
        AutomaticProtectionSettings::of(settings).automatic_download_protection_enabled
            == settings.protection,
        AutomaticProtectionSettings::of(settings).protect_on_battery == settings.on_battery,
{
}

/// Once a change is dealt with, the download is a reason exactly where it
/// counts. The system is asked for something only where that is needed for
/// it: to keep the computer awake where nothing does so yet, and to let it
/// sleep where no other reason is left.
pub proof fn a_change_comes_into_force(
    before: Eligibility,
    changed: ProtectionModel,
    wake: WakeCoordinator,
)
    requires
        changed.commanded == wake.automatic,
    ensures
        ({
            let end = reconciled(before, changed, wake);
            let active = wake.protection == ProtectionState::Active;
            let moved = changed.desired() != changed.commanded || changed.failure is Some;
            &&& end.wake.automatic == changed.desired()
            &&& end.wake.manual == wake.manual
            &&& end.wake.protection == wake.protection
            &&& end.model.commanded == changed.desired()
            &&& end.model.intent == changed.intent
            &&& end.model.settings == changed.settings
            &&& end.model.power == changed.power
            &&& end.asks == Some(ProtectionAction::Acquire) <==> moved && (changed.desired()
                || wake.manual) && !active
            &&& end.asks == Some(ProtectionAction::Release) <==> moved && !changed.desired()
                && !wake.manual && active
            &&& end.asks is None ==> end.model.failure is None
            &&& end.asks is Some ==> end.model.failure == changed.failure
        }),
{
}

/// What a finished change tells: the new reasons where they changed, that it
/// came into force, and whether a download counts now where that changed.
pub proof fn a_finished_change_is_told(
    before: Eligibility,
    changed: ProtectionModel,
    wake: WakeCoordinator,
    word: &'static str,
)
    requires
        reconciled(before, changed, wake).asks is None,
        changed.desired() != changed.commanded || changed.failure is Some,
        changed.suppression() is None ==> word == "none",
        changed.suppression() == Some(AutomaticProtectionSuppression::AutomaticDisabled) ==> word
            == "automatic-disabled",
        changed.suppression() == Some(AutomaticProtectionSuppression::LimitedPower) ==> word
            == "limited-power",
        changed.suppression() == Some(AutomaticProtectionSuppression::UnknownPower) ==> word
            == "unknown-power",
    ensures
        ({
            let told = reconciled(before, changed, wake).events;
            let reasons = SafeEvent::WakeReasonsChanged {
                automatic: changed.desired(),
                manual: wake.manual,
            };
            let done = SafeEvent::AutomaticReconciliation {
                active: changed.desired(),
                outcome: EventOutcome::Succeeded,
            };
            let counts = SafeEvent::AutomaticEligibilityChanged {
                eligible: changed.desired(),
                suppression: word,
            };
            let same = before.desired == changed.desired() && before.suppression
                == changed.suppression();
            &&& wake.automatic != changed.desired() && !same ==> told == seq![
                reasons,
                done,
                counts,
            ]
            &&& wake.automatic != changed.desired() && same ==> told == seq![reasons, done]
            &&& wake.automatic == changed.desired() && !same ==> told == seq![done, counts]
            &&& wake.automatic == changed.desired() && same ==> told == seq![done]
        }),
{
    let told = reconciled(before, changed, wake).events;
    let reasons = SafeEvent::WakeReasonsChanged {
        automatic: changed.desired(),
        manual: wake.manual,
    };
    let done = SafeEvent::AutomaticReconciliation {
        active: changed.desired(),
        outcome: EventOutcome::Succeeded,
    };
    let counts = SafeEvent::AutomaticEligibilityChanged {
        eligible: changed.desired(),
        suppression: word,
    };
    let same = before.desired == changed.desired() && before.suppression == changed.suppression();
    if wake.automatic != changed.desired() && !same {
        assert(told =~= seq![reasons, done, counts]);
    } else if wake.automatic != changed.desired() {
        assert(told =~= seq![reasons, done]);
    } else if !same {
        assert(told =~= seq![done, counts]);
    } else {
        assert(told =~= seq![done]);
    }
}

/// What the system answered is told with what it was asked for, and first.
pub proof fn an_answer_is_told(model: ProtectionModel, before: Eligibility, succeeded: bool)
    ensures
        ({
            let told = model.outcome_events(before, succeeded);
            let outcome = if succeeded {
                EventOutcome::Succeeded
            } else {
                EventOutcome::Failed
            };
            let same = before.desired == model.desired() && before.suppression
                == model.suppression();
            &&& told[0] == (SafeEvent::AutomaticReconciliation { active: model.desired(), outcome })
            &&& same <==> told.len() == 1
            &&& !same ==> told.len() == 2 && told[1] is AutomaticEligibilityChanged
                && told[1]->eligible == model.desired()
        }),
{
}

/// What is shown is what is so.
pub proof fn what_is_shown_is_what_is_so(
    snapshot: AutomaticProtectionSnapshot,
    model: ProtectionModel,
)
    requires
        shows_protection(snapshot, model),
    ensures
        snapshot.detector_intent == model.intent,
        snapshot.settings == model.settings,
        snapshot.power_source == model.power,
        snapshot.desired_automatic_reason <==> model.intent
            && model.settings.automatic_download_protection_enabled && (
        model.settings.protect_on_battery || model.power == PowerSource::External),
        snapshot.suppression_reason is Some <==> model.intent
            && !snapshot.desired_automatic_reason,
        snapshot.latest_coordination_failure is Some <==> model.failure is Some,
        model.failure is Some ==> snapshot.latest_coordination_failure->0@ == model.failure->0,
{
}

} // verus!
