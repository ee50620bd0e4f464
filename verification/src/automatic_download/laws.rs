//! What the detector is for, over whole runs of samples.

use super::{
    consumed_log, intent_reconciled, note_of, shows_monitor, takes_over, tuning_step,
    tuning_update, AutomaticDownloadSnapshot, AutomaticDownloadState, MonitorModel, PhaseModel,
    TuningModel, TuningStep,
};
use crate::automatic_protection::{IntentProgress, ProtectionModel};
use crate::local_log::{DetectorStateEvent, SafeEvent};
use crate::network_activity::{NetworkActivityEvent, SampleModel};
use crate::settings::SettingsUpdateError;
use crate::wake_coordinator::WakeCoordinator;
use vstd::arithmetic::div_mod::{lemma_fundamental_div_mod, lemma_mod_bound};
use vstd::prelude::*;

verus! {

/// The detector after samples taken one after the other.
pub open spec fn after_all(model: MonitorModel, samples: Seq<SampleModel>) -> MonitorModel
    decreases samples.len(),
{
    if samples.len() == 0 {
        model
    } else {
        after_all(model, samples.drop_last()).after_sample(samples.last())
    }
}

/// The time that samples cover together.
pub open spec fn total_time(samples: Seq<SampleModel>) -> nat
    decreases samples.len(),
{
    if samples.len() == 0 {
        0
    } else {
        total_time(samples.drop_last()) + samples.last().nanos
    }
}

/// Whether so many bytes in so many nanoseconds are at least a rate in bytes
/// per second.
pub open spec fn is_at_least(sample: SampleModel, bytes_per_second: nat) -> bool {
    sample.bytes * 1_000_000_000 >= bytes_per_second * sample.nanos
}

/// Whether all samples cover some time and have at least a rate.
pub open spec fn all_at_least(samples: Seq<SampleModel>, bytes_per_second: nat) -> bool {
    forall|i: int|
        0 <= i < samples.len() ==> (#[trigger] samples[i]).nanos > 0 && is_at_least(
            samples[i],
            bytes_per_second,
        )
}

/// Whether all samples cover some time and are below a rate.
pub open spec fn all_below(samples: Seq<SampleModel>, bytes_per_second: nat) -> bool {
    forall|i: int|
        0 <= i < samples.len() ==> (#[trigger] samples[i]).nanos > 0 && !is_at_least(
            samples[i],
            bytes_per_second,
        )
}

/// The rate that is shown is the number of whole bytes per second: so many
/// bytes came in each second of the sample, and not one more.
pub proof fn the_rate_is_in_whole_bytes_per_second(model: MonitorModel, sample: SampleModel)
    requires
        sample.nanos > 0,
    ensures
        ({
            let rate = model.after_sample(sample).rate;
            &&& rate is Some
            &&& rate->0 * sample.nanos <= sample.bytes * 1_000_000_000
            &&& sample.bytes * 1_000_000_000 < (rate->0 + 1) * sample.nanos
        }),
{
    let scaled = sample.bytes * 1_000_000_000;
    let rate = model.after_sample(sample).rate->0;
    lemma_fundamental_div_mod(scaled as int, sample.nanos as int);
    lemma_mod_bound(scaled as int, sample.nanos as int);
    assert(rate * sample.nanos == sample.nanos * rate) by (nonlinear_arith);
    assert((rate + 1) * sample.nanos == sample.nanos * rate + sample.nanos) by (nonlinear_arith);
}

proof fn rates_compare(model: MonitorModel, sample: SampleModel, rate: nat)
    requires
        sample.nanos > 0,
    ensures
        super::rate_of(sample) >= rate <==> is_at_least(sample, rate),
{
    the_rate_is_in_whole_bytes_per_second(model, sample);
    let shown = super::rate_of(sample);
    let scaled = sample.bytes * 1_000_000_000;
    if shown >= rate {
        assert(rate * sample.nanos <= shown * sample.nanos) by (nonlinear_arith)
            requires
                shown >= rate,
        ;
    } else {
        assert((shown + 1) * sample.nanos <= rate * sample.nanos) by (nonlinear_arith)
            requires
                shown + 1 <= rate,
        ;
    }
}

/// A download turns the detector on: over samples that all have the rate that
/// counts, the time adds up, the detector waits with exactly that time as long
/// as it is shorter than the qualification, and from then on it is on.
pub proof fn a_download_turns_the_detector_on(model: MonitorModel, samples: Seq<SampleModel>)
    requires
        model.phase == (PhaseModel::Idle { elapsed: 0 }),
        model.tuning.qualification > 0,
        all_at_least(samples, model.tuning.rate),
    ensures
        total_time(samples) < model.tuning.qualification ==> after_all(model, samples).phase == (
        PhaseModel::Idle { elapsed: total_time(samples) }),
        total_time(samples) >= model.tuning.qualification ==> after_all(model, samples).phase
            == PhaseModel::Active,
        after_all(model, samples).tuning == model.tuning,
    decreases samples.len(),
{
    if samples.len() > 0 {
        let rest = samples.drop_last();
        assert forall|i: int| 0 <= i < rest.len() implies (#[trigger] rest[i]).nanos > 0
            && is_at_least(rest[i], model.tuning.rate) by {
            assert(rest[i] == samples[i]);
        }
        a_download_turns_the_detector_on(model, rest);
        assert(samples[samples.len() - 1].nanos > 0);
        rates_compare(model, samples.last(), model.tuning.rate);
    }
}

/// Quiet turns the detector off: over samples that are all below the rate that
/// counts, the quiet adds up, the detector holds with exactly that quiet as
/// long as it is shorter than the grace, and from then on it is off and counts
/// from the start.
pub proof fn quiet_turns_the_detector_off(model: MonitorModel, samples: Seq<SampleModel>)
    requires
        model.phase == PhaseModel::Active,
        samples.len() > 0,
        all_below(samples, model.tuning.rate),
    ensures
        total_time(samples) < model.tuning.grace ==> after_all(model, samples).phase == (
        PhaseModel::Hold { quiet: total_time(samples) }),
        total_time(samples) >= model.tuning.grace ==> after_all(model, samples).phase == (
        PhaseModel::Idle { elapsed: 0 }),
        after_all(model, samples).tuning == model.tuning,
    decreases samples.len(),
{
    let rest = samples.drop_last();
    assert(samples[samples.len() - 1].nanos > 0);
    rates_compare(model, samples.last(), model.tuning.rate);
    reveal_with_fuel(after_all, 2);
    reveal_with_fuel(total_time, 2);
    if rest.len() > 0 {
        assert forall|i: int| 0 <= i < rest.len() implies (#[trigger] rest[i]).nanos > 0
            && !is_at_least(rest[i], model.tuning.rate) by {
            assert(rest[i] == samples[i]);
        }
        quiet_turns_the_detector_off(model, rest);
    }
}

/// A break in the activity is bridged: once on, one sample with enough
/// activity brings the detector back however long the quiet before it was, as
/// long as the detector still held.
pub proof fn activity_within_the_grace_goes_on(model: MonitorModel, sample: SampleModel)
    requires
        model.phase == PhaseModel::Active || model.phase is Hold,
        sample.nanos > 0,
        is_at_least(sample, model.tuning.rate),
    ensures
        model.after_sample(sample).phase == PhaseModel::Active,
{
    rates_compare(model, sample, model.tuning.rate);
}

/// A detector that is off and sees too little starts to count anew, whatever
/// it had counted.
pub proof fn too_little_activity_counts_for_nothing(model: MonitorModel, sample: SampleModel)
    requires
        model.phase is Idle,
        sample.nanos > 0,
        !is_at_least(sample, model.tuning.rate),
    ensures
        model.after_sample(sample).phase == (PhaseModel::Idle { elapsed: 0 }),
{
    rates_compare(model, sample, model.tuning.rate);
}

/// The computer is wanted awake exactly while the detector is on or holds,
/// which is what is shown of it.
pub proof fn the_wish_is_what_is_shown(
    model: MonitorModel,
    snapshot: AutomaticDownloadSnapshot,
)
    requires
        shows_monitor(snapshot, model),
    ensures
        model.wants() <==> snapshot.state != AutomaticDownloadState::Idle,
        snapshot.state == AutomaticDownloadState::Active <==> model.phase == PhaseModel::Active,
        model.phase is Hold ==> snapshot.state is Hold && snapshot.state->remaining_grace@
            == model.tuning.grace - model.phase->quiet,
        snapshot.latest_receive_rate_bytes_per_second is Some <==> model.rate is Some,
        model.rate is Some ==> snapshot.latest_receive_rate_bytes_per_second->0 == model.rate->0,
{
}

/// With nothing in its way, a detector that is on keeps the computer awake:
/// the automatic reason is in force after an event exactly where the detector
/// is on or holds, the protection is switched on, and the power allows it.
pub proof fn the_wish_becomes_a_reason(
    controller: ProtectionModel,
    wake: WakeCoordinator,
    wish: bool,
)
    requires
        controller.failure is None,
        controller.commanded == wake.automatic,
    ensures
        intent_reconciled(controller, wish, wake).wake.automatic <==> wish
            && controller.settings.automatic_download_protection_enabled && (
        controller.settings.protect_on_battery || controller.power
            == crate::automatic_protection::PowerSource::External),
        intent_reconciled(controller, wish, wake).wake.manual == wake.manual,
        intent_reconciled(controller, wish, wake).model.intent == wish,
        intent_reconciled(controller, wish, wake).model.commanded == intent_reconciled(
            controller,
            wish,
            wake,
        ).wake.automatic,
{
}

/// Events other than samples never turn the detector on.
pub proof fn only_samples_turn_the_detector_on(model: MonitorModel, event: NetworkActivityEvent)
    requires
        !(event is Sample),
    ensures
        model.after(event).wants() ==> model.wants() && event is AvailabilityChanged,
        event is ContinuityLost ==> model.after(event).rate is None && model.after(event).phase == (
        PhaseModel::Idle { elapsed: 0 }),
        event is AvailabilityChanged ==> model.after(event) == model,
        model.after(event).tuning == model.tuning,
{
}

/// A tuning is saved as its rate and its times in whole milliseconds.
pub proof fn a_tuning_is_saved_in_milliseconds(tuning: TuningModel)
    requires
        tuning.rate <= u64::MAX,
        tuning.qualification < (u64::MAX + 1) * 1_000_000,
        tuning.grace < (u64::MAX + 1) * 1_000_000,
    ensures
        ({
            let update = tuning_update(tuning);
            &&& update is AutomaticDownloadTuning
            &&& update->meaningful_receive_rate_bytes_per_second == tuning.rate
            &&& update->activation_qualification_milliseconds * 1_000_000 <= tuning.qualification
                < (update->activation_qualification_milliseconds + 1) * 1_000_000
            &&& update->grace_milliseconds * 1_000_000 <= tuning.grace < (
            update->grace_milliseconds + 1) * 1_000_000
        }),
{
}

/// A change of the detector's state is logged with both states, a loss of
/// continuity by itself and first, and steady events are not logged.
pub proof fn changes_of_state_are_logged(before: MonitorModel, event: NetworkActivityEvent)
    ensures
        ({
            let log = consumed_log(note_of(before, event));
            let after = before.after(event);
            let same = before.phase is Idle == after.phase is Idle && before.phase is Active
                == after.phase is Active;
            let n = log.len();
            &&& event is ContinuityLost ==> n > 0 && log[0] == SafeEvent::DetectorContinuityReset
            &&& n == (if event is ContinuityLost {
                1int
            } else {
                0
            }) + (if same {
                0int
            } else {
                1
            })
            &&& !same ==> {
                let change = log[n - 1];
                &&& change is DetectorTransition
                &&& change->from == DetectorStateEvent::Idle <==> before.phase is Idle
                &&& change->from == DetectorStateEvent::Active <==> before.phase is Active
                &&& change->from == DetectorStateEvent::Hold <==> before.phase is Hold
                &&& change->to == DetectorStateEvent::Idle <==> after.phase is Idle
                &&& change->to == DetectorStateEvent::Active <==> after.phase is Active
                &&& change->to == DetectorStateEvent::Hold <==> after.phase is Hold
            }
        }),
{
}

/// A tuning is refused exactly where its rate is nothing, and changes nothing
/// exactly where it is in force already. Else it is saved as it is.
pub proof fn a_tuning_is_saved_where_it_is_new(
    step: Result<TuningStep, SettingsUpdateError>,
    monitor: MonitorModel,
    tuning: TuningModel,
)
    requires
        tuning_step(step, monitor, tuning),
    ensures
        step is Err <==> tuning.rate == 0,
        step is Ok ==> (step->Ok_0 is Unchanged <==> tuning.rate == monitor.tuning.rate
            && tuning.qualification == monitor.tuning.qualification && tuning.grace
            == monitor.tuning.grace),
        step is Ok && step->Ok_0 is Persist ==> step->Ok_0->Persist_tuning@ == tuning,
        step is Err ==> step->Err_0 is InvalidAutomaticDownload,
{
}

/// A detector that takes over a tuning begins anew: it is at rest, and the
/// download is no reason any more.
pub proof fn a_new_tuning_begins_anew(
    outcome: (AutomaticDownloadSnapshot, IntentProgress),
    tuning: TuningModel,
    monitor: MonitorModel,
    controller: ProtectionModel,
    controller_after: ProtectionModel,
    wake: WakeCoordinator,
    wake_after: WakeCoordinator,
    log: Seq<SafeEvent>,
    log_after: Seq<SafeEvent>,
)
    requires
        takes_over(
            outcome,
            tuning,
            monitor,
            controller,
            controller_after,
            wake,
            wake_after,
            log,
            log_after,
        ),
        controller.commanded == wake.automatic,
    ensures
        monitor.tuning == tuning,
        monitor.phase == (PhaseModel::Idle { elapsed: 0 }),
        monitor.rate is None,
        !controller_after.intent,
        controller_after.settings == controller.settings,
        controller_after.power == controller.power,
        !wake_after.automatic,
        wake_after.manual == wake.manual,
        log.len() <= log_after.len(),
{
}

} // verus!
