//! What the power source is for: what is known of it counts, and what is not
//! known is not guessed.

use super::macos::kind_source;
use super::windows::{
    carries_power_source, condition_source, counter_after, outcome_is, token_from, Guid,
    NotificationHeader,
};
use super::{
    source_reconciled, PowerSourceFailure, PowerSourceObserverHealth, PowerSourceObserverSnapshot,
    PowerSourceOperation,
};
use crate::automatic_protection::{PowerSource, ProtectionModel};
use crate::text::decimal;
use crate::wake_coordinator::WakeCoordinator;
use vstd::prelude::*;
use vstd::string::*;

verus! {

/// After a report the source is the one that was reported, and after a failure
/// it is unknown and the failure is kept. Neither depends on what was so
/// before.
pub proof fn reports_replace_what_was_known(
    state: PowerSourceObserverSnapshot,
    source: PowerSource,
    failure: PowerSourceFailure,
)
    ensures
        ({
            let known = state.reported(Ok(source));
            let lost = state.reported(Err(failure));
            &&& known.source == source
            &&& known.health == PowerSourceObserverHealth::Observing
            &&& known.latest_failure is None
            &&& lost.source == PowerSource::Unknown
            &&& lost.health == PowerSourceObserverHealth::Degraded
            &&& lost.latest_failure == Some(failure)
            &&& lost.reported(Ok(source)) == known
        }),
{
}

/// At the end nothing is known of the source. The last failure stays, unless
/// ending fails too.
pub proof fn the_last_failure_outlasts_the_end(
    state: PowerSourceObserverSnapshot,
    failure: PowerSourceFailure,
)
    ensures
        state.ended(None).health == PowerSourceObserverHealth::Stopped,
        state.ended(None).source == PowerSource::Unknown,
        state.ended(None).latest_failure == state.latest_failure,
        state.ended(Some(failure)).health == PowerSourceObserverHealth::Stopped,
        state.ended(Some(failure)).source == PowerSource::Unknown,
        state.ended(Some(failure)).latest_failure == Some(failure),
{
}

/// A change of the source or of how well it is observed is told once, with
/// both as they are afterwards, and nothing else is told.
pub proof fn changes_of_power_are_told(
    before: PowerSourceObserverSnapshot,
    after: PowerSourceObserverSnapshot,
)
    ensures
        ({
            let told = after.change_log(before);
            let event = told[0];
            let same = before.source == after.source && before.health == after.health;
            &&& same <==> told.len() == 0
            &&& !same ==> {
                &&& told.len() == 1
                &&& event is PowerChanged
                &&& after.source == PowerSource::External ==> event->source == "external"
                &&& after.source == PowerSource::Limited ==> event->source == "limited"
                &&& after.source == PowerSource::Unknown ==> event->source == "unknown"
                &&& after.health == PowerSourceObserverHealth::Starting ==> event->health
                    == "starting"
                &&& after.health == PowerSourceObserverHealth::Observing ==> event->health
                    == "observing"
                &&& after.health == PowerSourceObserverHealth::Degraded ==> event->health
                    == "degraded"
                &&& after.health == PowerSourceObserverHealth::Stopped ==> event->health
                    == "stopped"
            }
        }),
{
}

/// A source that is handed over counts at once: afterwards a download is a
/// reason exactly where it may be one on that source.
pub proof fn a_source_counts_at_once(
    controller: ProtectionModel,
    source: PowerSource,
    wake: WakeCoordinator,
)
    requires
        controller.commanded == wake.automatic,
    ensures
        ({
            let end = source_reconciled(controller, source, wake);
            &&& end.model.power == source
            &&& end.model.intent == controller.intent
            &&& end.model.settings == controller.settings
            &&& end.wake.automatic <==> controller.intent
                && controller.settings.automatic_download_protection_enabled && (
            controller.settings.protect_on_battery || source == PowerSource::External)
            &&& end.wake.manual == wake.manual
        }),
{
}

/// A failure says what failed, and the code of the platform where there is one.
pub proof fn failures_say_what_failed(code: u32)
    ensures
        (PowerSourceFailure { operation: PowerSourceOperation::Registration, code: None }).words()
            == "power source "@ + "Registration"@ + " failed"@,
        (PowerSourceFailure { operation: PowerSourceOperation::Sample, code: None }).words()
            == "power source "@ + "Sample"@ + " failed"@,
        (PowerSourceFailure { operation: PowerSourceOperation::Unregistration, code: None }).words()
            == "power source "@ + "Unregistration"@ + " failed"@,
        (PowerSourceFailure {
            operation: PowerSourceOperation::Registration,
            code: Some(code),
        }).words() == "power source "@ + "Registration"@ + " failed"@ + " with platform code "@
            + decimal(code as nat),
        (PowerSourceFailure { operation: PowerSourceOperation::Sample, code: Some(code) }).words()
            == "power source "@ + "Sample"@ + " failed"@ + " with platform code "@ + decimal(
            code as nat,
        ),
        (PowerSourceFailure {
            operation: PowerSourceOperation::Unregistration,
            code: Some(code),
        }).words() == "power source "@ + "Unregistration"@ + " failed"@ + " with platform code "@
            + decimal(code as nat),
{
}

/// On Windows the mains are condition 0, a battery is condition 1, a short-term
/// source such as a backup supply is condition 2, and no other is known.
pub proof fn conditions_name_the_source(condition: u32)
    ensures
        condition_source(condition) == PowerSource::External <==> condition == 0,
        condition_source(condition) == PowerSource::Limited <==> condition == 1 || condition == 2,
        condition_source(condition) == PowerSource::Unknown <==> condition > 2,
{
}

/// On Windows a notice tells of the power source exactly where it is a change
/// of a power setting, that setting is the power source, and it holds four
/// bytes.
pub proof fn only_notices_of_the_power_source_count(
    event_type: u32,
    header: Option<NotificationHeader>,
)
    ensures
        carries_power_source(event_type, header) <==> {
            &&& event_type == 0x8013
            &&& header is Some
            &&& header->0.data_length == 4
            &&& header->0.setting == (Guid {
                data1: 0x5d3e_9a59,
                data2: 0xe9d5,
                data3: 0x4b00,
                data4: 0xa6bd_ff34_ff51_6548,
            })
        },
{
}

/// On Windows a call succeeds exactly where it returns nothing but zero, and
/// every other code is kept with what was attempted.
pub proof fn codes_of_failures_are_kept(
    outcome: Result<(), PowerSourceFailure>,
    operation: PowerSourceOperation,
    code: u32,
)
    requires
        outcome_is(outcome, operation, code),
    ensures
        outcome is Ok <==> code == 0,
        code != 0 ==> outcome->Err_0.operation == operation && outcome->Err_0.code == Some(code),
{
}

/// On Windows a token is never zero, and two tokens in a row differ.
pub proof fn tokens_differ(counter: usize)
    ensures
        token_from(counter) != 0,
        token_from(counter_after(counter)) != token_from(counter),
        0 < counter < usize::MAX ==> token_from(counter) == counter && counter_after(counter)
            == counter + 1,
{
}

/// On macOS the mains are external power, a battery and a backup supply are
/// limited, and no other name is known.
pub proof fn kinds_name_the_source(kind: Seq<char>)
    ensures
        kind_source(kind) == PowerSource::External <==> kind == "AC Power"@,
        kind_source(kind) == PowerSource::Limited <==> kind == "Battery Power"@ || kind
            == "UPS Power"@,
{
    reveal_strlit("AC Power");
    reveal_strlit("Battery Power");
    reveal_strlit("UPS Power");
    assert("AC Power"@.len() == 8);
    assert("Battery Power"@.len() == 13);
    assert("UPS Power"@.len() == 9);
}

} // verus!
