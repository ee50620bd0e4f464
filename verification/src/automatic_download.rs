//! The detector of downloads.
//!
//! Enough activity over long enough turns the detector on. Quiet turns it off
//! again, but only after a time of grace in which activity brings it straight
//! back.

use crate::automatic_protection::{
    reconciled, AutomaticProtectionController, IntentProgress, PendingReconciliation,
    ProtectionModel, Reconciled,
};
use crate::duration::{duration_is_its_length, Duration, NANOS_PER_MILLISECOND, NANOS_PER_SECOND};
use crate::local_log::{DetectorStateEvent, EventOutcome, SafeEvent};
use crate::network_activity::{trusted, NetworkActivityEvent, ReceiveActivitySample, SampleModel};
use crate::settings::{
    whole_milliseconds, Settings, SettingsModel, SettingsUpdate, SettingsUpdateError,
};
use crate::wake_coordinator::{ProtectionState, WakeCoordinator};
use vstd::prelude::*;
use vstd::string::*;

pub mod laws;

verus! {

/// The receive rate that counts as a download, unless the user sets another,
/// in bytes per second.
pub const PROVISIONAL_MEANINGFUL_RECEIVE_RATE_BYTES_PER_SECOND: u64 = 1_048_576;

/// The time of activity that turns the detector on, in seconds.
pub const PROVISIONAL_ACTIVATION_QUALIFICATION_SECONDS: u64 = 5;

/// The time of grace, unless the user sets another, in seconds.
pub const PROVISIONAL_GRACE_SECONDS: u64 = 120;

/// How the detector is tuned.
#[derive(Clone, Copy, Debug, PartialEq, Eq, Structural)]
pub struct AutomaticDownloadSettings {
    meaningful_receive_rate_bytes_per_second: u64,
    activation_qualification: Duration,
    grace: Duration,
}

/// The tuning as a mathematical value: bytes per second, and nanoseconds.
pub ghost struct TuningModel {
    pub rate: nat,
    pub qualification: nat,
    pub grace: nat,
}

impl TuningModel {
    /// Neither the rate nor the qualification may be zero.
    pub open spec fn valid(self) -> bool {
        self.rate > 0 && self.qualification > 0
    }

    /// The tuning of a detector that the user has not touched.
    pub open spec fn provisional() -> TuningModel {
        TuningModel {
            rate: PROVISIONAL_MEANINGFUL_RECEIVE_RATE_BYTES_PER_SECOND as nat,
            qualification: PROVISIONAL_ACTIVATION_QUALIFICATION_SECONDS as nat
                * NANOS_PER_SECOND as nat,
            grace: PROVISIONAL_GRACE_SECONDS as nat * NANOS_PER_SECOND as nat,
        }
    }

    /// Whether both times can be saved in milliseconds.
    pub open spec fn fits_milliseconds(self) -> bool {
        &&& self.qualification / NANOS_PER_MILLISECOND as nat <= u64::MAX
        &&& self.grace / NANOS_PER_MILLISECOND as nat <= u64::MAX
    }
}

impl View for AutomaticDownloadSettings {
    type V = TuningModel;

    closed spec fn view(&self) -> TuningModel {
        TuningModel {
            rate: self.meaningful_receive_rate_bytes_per_second as nat,
            qualification: self.activation_qualification@,
            grace: self.grace@,
        }
    }
}

/// Why a tuning is not valid.
#[derive(Clone, Copy, Debug, PartialEq, Eq, Structural)]
pub enum AutomaticDownloadSettingsError {
    ZeroMeaningfulReceiveRate,
    ZeroActivationQualification,
}

impl AutomaticDownloadSettingsError {
    /// The error in words.
    pub open spec fn words(self) -> Seq<char> {
        match self {
            AutomaticDownloadSettingsError::ZeroMeaningfulReceiveRate =>
                "meaningful receive-rate threshold must be non-zero"@,
            AutomaticDownloadSettingsError::ZeroActivationQualification =>
                "activation qualification duration must be non-zero"@,
        }
    }

    /// The error in words.
    pub fn message(&self) -> (r: String)
        ensures
            r@ == self.words(),
    {
        match self {
            AutomaticDownloadSettingsError::ZeroMeaningfulReceiveRate => String::from_str(
                "meaningful receive-rate threshold must be non-zero",
            ),
            AutomaticDownloadSettingsError::ZeroActivationQualification => String::from_str(
                "activation qualification duration must be non-zero",
            ),
        }
    }
}

/// Two tunings are equal exactly when their rates and times are.
pub proof fn tuning_is_its_model(a: AutomaticDownloadSettings, b: AutomaticDownloadSettings)
    ensures
        a@ == b@ <==> a == b,
{
    broadcast use duration_is_its_length;

    if a@ == b@ {
        assert(a.activation_qualification@ == b.activation_qualification@);
        assert(a.grace@ == b.grace@);
    }
}

impl AutomaticDownloadSettings {
    #[verifier::type_invariant]
    spec fn is_valid(self) -> bool {
        self@.valid()
    }

    /// A tuning, where it is valid. A rate of zero is named before a
    /// qualification of zero.
    pub fn try_new(
        meaningful_receive_rate_bytes_per_second: u64,
        activation_qualification: Duration,
        grace: Duration,
    ) -> (r: Result<AutomaticDownloadSettings, AutomaticDownloadSettingsError>)
        ensures
            match r {
                Ok(settings) => {
                    &&& settings@ == (TuningModel {
                        rate: meaningful_receive_rate_bytes_per_second as nat,
                        qualification: activation_qualification@,
                        grace: grace@,
                    })
                    &&& settings@.valid()
                },
                Err(AutomaticDownloadSettingsError::ZeroMeaningfulReceiveRate) =>
                    meaningful_receive_rate_bytes_per_second == 0,
                Err(AutomaticDownloadSettingsError::ZeroActivationQualification) =>
                    meaningful_receive_rate_bytes_per_second > 0 && activation_qualification@ == 0,
            },
            r is Ok <==> meaningful_receive_rate_bytes_per_second > 0 && activation_qualification@
                > 0,
    {
        if meaningful_receive_rate_bytes_per_second == 0 {
            return Err(AutomaticDownloadSettingsError::ZeroMeaningfulReceiveRate);
        }
        if activation_qualification.is_zero() {
            return Err(AutomaticDownloadSettingsError::ZeroActivationQualification);
        }
        Ok(
            AutomaticDownloadSettings {
                meaningful_receive_rate_bytes_per_second,
                activation_qualification,
                grace,
            },
        )
    }

    /// The receive rate that counts as a download, in bytes per second.
    pub fn meaningful_receive_rate_bytes_per_second(self) -> (r: u64)
        ensures
            r == self@.rate,
            r > 0,
    {
        proof {
            use_type_invariant(&self);
        }
        self.meaningful_receive_rate_bytes_per_second
    }

    /// The time of activity that turns the detector on.
    pub fn activation_qualification(self) -> (r: Duration)
        ensures
            r@ == self@.qualification,
            r@ > 0,
    {
        proof {
            use_type_invariant(&self);
        }
        self.activation_qualification
    }

    /// The time of grace.
    pub fn grace(self) -> (r: Duration)
        ensures
            r@ == self@.grace,
    {
        self.grace
    }
}

impl Default for AutomaticDownloadSettings {
    fn default() -> (r: AutomaticDownloadSettings)
        ensures
            r@ == TuningModel::provisional(),
    {
        AutomaticDownloadSettings {
            meaningful_receive_rate_bytes_per_second:
                PROVISIONAL_MEANINGFUL_RECEIVE_RATE_BYTES_PER_SECOND,
            activation_qualification: Duration::from_secs(
                PROVISIONAL_ACTIVATION_QUALIFICATION_SECONDS,
            ),
            grace: Duration::from_secs(PROVISIONAL_GRACE_SECONDS),
        }
    }
}

/// The detector as it is shown.
#[derive(Clone, Copy, Debug, PartialEq, Eq, Structural)]
pub enum AutomaticDownloadState {
    Idle,
    Active,
    Hold { remaining_grace: Duration },
}

/// The detector as it is shown, with the latest receive rate and the tuning.
#[derive(Clone, Copy, Debug, PartialEq, Eq, Structural)]
pub struct AutomaticDownloadSnapshot {
    pub state: AutomaticDownloadState,
    pub latest_receive_rate_bytes_per_second: Option<u128>,
    pub settings: AutomaticDownloadSettings,
}

/// How far the detector has come.
#[derive(Clone, Copy, Debug, PartialEq, Eq, Structural)]
pub enum DetectorPhase {
    Idle { activation_elapsed: Duration },
    Active,
    Hold { quiet_elapsed: Duration },
}

/// How far the detector has come, with times in nanoseconds.
pub ghost enum PhaseModel {
    Idle { elapsed: nat },
    Active,
    Hold { quiet: nat },
}

/// The detector as a mathematical value.
pub ghost struct MonitorModel {
    pub phase: PhaseModel,
    pub rate: Option<nat>,
    pub tuning: TuningModel,
}

/// The receive rate of a sample, in whole bytes per second.
pub open spec fn rate_of(sample: SampleModel) -> nat {
    sample.bytes * NANOS_PER_SECOND as nat / sample.nanos
}

/// The detector that has seen nothing.
pub open spec fn at_rest() -> PhaseModel {
    PhaseModel::Idle { elapsed: 0 }
}

/// How far the detector has come after a time with or without enough
/// activity.
pub open spec fn next_phase(
    phase: PhaseModel,
    tuning: TuningModel,
    meaningful: bool,
    nanos: nat,
) -> PhaseModel {
    match (phase, meaningful) {
        (PhaseModel::Idle { elapsed }, true) => if elapsed + nanos >= tuning.qualification {
            PhaseModel::Active
        } else {
            PhaseModel::Idle { elapsed: elapsed + nanos }
        },
        (PhaseModel::Idle { elapsed }, false) => at_rest(),
        (PhaseModel::Active, true) => PhaseModel::Active,
        (PhaseModel::Active, false) => if nanos >= tuning.grace {
            at_rest()
        } else {
            PhaseModel::Hold { quiet: nanos }
        },
        (PhaseModel::Hold { quiet }, true) => PhaseModel::Active,
        (PhaseModel::Hold { quiet }, false) => if quiet + nanos >= tuning.grace {
            at_rest()
        } else {
            PhaseModel::Hold { quiet: quiet + nanos }
        },
    }
}

impl MonitorModel {
    /// A detector never dwells on a time that is already enough for the next
    /// phase. While it wants the computer kept awake it knows a rate, which is
    /// meaningful while there is activity and is not during quiet.
    pub open spec fn consistent(self) -> bool {
        &&& self.tuning.valid()
        &&& match self.phase {
            PhaseModel::Idle { elapsed } => elapsed < self.tuning.qualification,
            PhaseModel::Active => self.rate is Some && self.rate->0 >= self.tuning.rate,
            PhaseModel::Hold { quiet } => {
                &&& 0 < quiet < self.tuning.grace
                &&& self.rate is Some && self.rate->0 < self.tuning.rate
            },
        }
    }

    /// Whether the detector wants the computer kept awake.
    pub open spec fn wants(self) -> bool {
        !(self.phase is Idle)
    }

    /// The detector after a sample.
    pub open spec fn after_sample(self, sample: SampleModel) -> MonitorModel {
        MonitorModel {
            phase: next_phase(
                self.phase,
                self.tuning,
                rate_of(sample) >= self.tuning.rate,
                sample.nanos,
            ),
            rate: Some(rate_of(sample)),
            tuning: self.tuning,
        }
    }

    /// The detector after it has forgotten what it saw.
    pub open spec fn forgotten(self) -> MonitorModel {
        MonitorModel { phase: at_rest(), rate: None, tuning: self.tuning }
    }

    /// The detector after an event.
    pub open spec fn after(self, event: NetworkActivityEvent) -> MonitorModel {
        match event {
            NetworkActivityEvent::Sample(sample) => self.after_sample(sample@),
            NetworkActivityEvent::ContinuityLost(_) => self.forgotten(),
            NetworkActivityEvent::AvailabilityChanged(_) => self,
        }
    }

    /// The detector's state in a log line.
    pub open spec fn state_event(self) -> DetectorStateEvent {
        match self.phase {
            PhaseModel::Idle { elapsed } => DetectorStateEvent::Idle,
            PhaseModel::Active => DetectorStateEvent::Active,
            PhaseModel::Hold { quiet } => DetectorStateEvent::Hold,
        }
    }
}

/// Whether a snapshot is that of a detector.
pub open spec fn shows_monitor(snapshot: AutomaticDownloadSnapshot, model: MonitorModel) -> bool {
    &&& match model.phase {
        PhaseModel::Idle { elapsed } => snapshot.state is Idle,
        PhaseModel::Active => snapshot.state is Active,
        PhaseModel::Hold { quiet } => snapshot.state is Hold
            && snapshot.state->remaining_grace@ + quiet == model.tuning.grace,
    }
    &&& match snapshot.latest_receive_rate_bytes_per_second {
        Some(rate) => model.rate == Some(rate as nat),
        None => model.rate is None,
    }
    &&& snapshot.settings@ == model.tuning
}

/// What is logged of an event once the detector has taken it over: a loss of
/// continuity, and a change of state. Steady samples are not.
pub open spec fn consumed_log(note: ConsumedNote) -> Seq<SafeEvent> {
    let loss = if note.continuity_lost {
        seq![SafeEvent::DetectorContinuityReset]
    } else {
        Seq::empty()
    };
    if note.from == note.to {
        loss
    } else {
        loss.push(SafeEvent::DetectorTransition { from: note.from, to: note.to })
    }
}

/// What is to be logged of an event.
#[derive(Clone, Copy, Debug, PartialEq, Eq, Structural)]
pub struct ConsumedNote {
    pub continuity_lost: bool,
    pub from: DetectorStateEvent,
    pub to: DetectorStateEvent,
}

/// What is to be logged of an event that takes a detector from one state to
/// another.
pub open spec fn note_of(
    before: MonitorModel,
    event: NetworkActivityEvent,
) -> ConsumedNote {
    ConsumedNote {
        continuity_lost: event is ContinuityLost,
        from: before.state_event(),
        to: before.after(event).state_event(),
    }
}

/// An event for which the platform has to be asked.
#[derive(Clone, Copy, Debug, PartialEq, Eq, Structural)]
pub struct PendingEvent {
    pub reconciliation: PendingReconciliation,
    pub note: ConsumedNote,
}

/// The detector of downloads.
#[derive(Clone, Copy, Debug)]
pub struct AutomaticDownloadMonitor {
    phase: DetectorPhase,
    latest_receive_rate_bytes_per_second: Option<u128>,
    settings: AutomaticDownloadSettings,
}

impl View for AutomaticDownloadMonitor {
    type V = MonitorModel;

    closed spec fn view(&self) -> MonitorModel {
        MonitorModel {
            phase: match self.phase {
                DetectorPhase::Idle { activation_elapsed } => PhaseModel::Idle {
                    elapsed: activation_elapsed@,
                },
                DetectorPhase::Active => PhaseModel::Active,
                DetectorPhase::Hold { quiet_elapsed } => PhaseModel::Hold { quiet: quiet_elapsed@ },
            },
            rate: match self.latest_receive_rate_bytes_per_second {
                Some(rate) => Some(rate as nat),
                None => None,
            },
            tuning: self.settings@,
        }
    }
}

/// What the detector's wish leads to in the controller.
pub open spec fn intent_reconciled(
    controller: ProtectionModel,
    wish: bool,
    wake: WakeCoordinator,
) -> Reconciled {
    reconciled(
        controller.eligibility(),
        ProtectionModel { intent: wish, ..controller },
        wake,
    )
}

/// Whether a detector has taken over a tuning: it has forgotten what it saw,
/// the controller knows that it wants nothing, and the outcome says what is
/// shown and how far the controller has come.
pub open spec fn takes_over(
    outcome: (AutomaticDownloadSnapshot, IntentProgress),
    tuning: TuningModel,
    monitor: MonitorModel,
    controller: ProtectionModel,
    controller_after: ProtectionModel,
    wake: WakeCoordinator,
    wake_after: WakeCoordinator,
    log: Seq<SafeEvent>,
    log_after: Seq<SafeEvent>,
) -> bool {
    let end = intent_reconciled(controller, false, wake);
    &&& monitor == (MonitorModel { phase: at_rest(), rate: None, tuning })
    &&& shows_monitor(outcome.0, monitor)
    &&& controller_after == end.model
    &&& wake_after == end.wake
    &&& log_after == log + end.events
    &&& match end.asks {
        Some(action) => outcome.1 == IntentProgress::Native(
            PendingReconciliation { action, before: controller.eligibility() },
        ),
        None => outcome.1 is Finished && crate::automatic_protection::intent_result(
            outcome.1->Finished_0,
            end.model,
        ),
    }
}

impl AutomaticDownloadMonitor {
    #[verifier::type_invariant]
    spec fn is_consistent(self) -> bool {
        self@.consistent()
    }

    /// A detector that has seen nothing.
    pub fn new(settings: AutomaticDownloadSettings) -> (r: AutomaticDownloadMonitor)
        ensures
            r@ == (MonitorModel { phase: at_rest(), rate: None, tuning: settings@ }),
            r@.consistent(),
    {
        proof {
            use_type_invariant(&settings);
        }
        AutomaticDownloadMonitor {
            phase: DetectorPhase::Idle { activation_elapsed: Duration::zero() },
            latest_receive_rate_bytes_per_second: None,
            settings,
        }
    }

    /// The detector as it is shown.
    pub fn snapshot(&self) -> (r: AutomaticDownloadSnapshot)
        ensures
            shows_monitor(r, self@),
            self@.consistent(),
    {
        proof {
            use_type_invariant(self);
        }
        self.snapshot_from()
    }

    fn snapshot_from(&self) -> (r: AutomaticDownloadSnapshot)
        ensures
            shows_monitor(r, self@),
    {
        proof {
            use_type_invariant(self);
        }
        let state = match self.phase {
            DetectorPhase::Idle { .. } => AutomaticDownloadState::Idle,
            DetectorPhase::Active => AutomaticDownloadState::Active,
            DetectorPhase::Hold { quiet_elapsed } => AutomaticDownloadState::Hold {
                remaining_grace: self.settings.grace.saturating_sub(quiet_elapsed),
            },
        };
        AutomaticDownloadSnapshot {
            state,
            latest_receive_rate_bytes_per_second: self.latest_receive_rate_bytes_per_second,
            settings: self.settings,
        }
    }

    /// Forgets what was seen.
    fn reset(&mut self)
        ensures
            final(self)@ == old(self)@.forgotten(),
            final(self)@.consistent(),
            final(self).settings == old(self).settings,
    {
        proof {
            use_type_invariant(&*self);
        }
        self.phase = DetectorPhase::Idle { activation_elapsed: Duration::zero() };
        self.latest_receive_rate_bytes_per_second = None;
    }

    fn state_event(&self) -> (r: DetectorStateEvent)
        ensures
            r == self@.state_event(),
    {
        match self.phase {
            DetectorPhase::Idle { .. } => DetectorStateEvent::Idle,
            DetectorPhase::Active => DetectorStateEvent::Active,
            DetectorPhase::Hold { .. } => DetectorStateEvent::Hold,
        }
    }

    /// Takes over a sample.
    pub fn apply_sample(&mut self, sample: ReceiveActivitySample)
        ensures
            final(self)@ == old(self)@.after_sample(sample@),
            final(self)@.consistent(),
    {
        proof {
            use_type_invariant(&*self);
        }
        let observed_over = sample.observed_over();
        let observed_nanos = observed_over.as_nanos();
        let bytes: u128 = sample.received_bytes() as u128;
        let receive_rate: u128 = bytes * NANOS_PER_SECOND / observed_nanos;
        let meaningful = receive_rate
            >= self.settings.meaningful_receive_rate_bytes_per_second as u128;
        let qualification = self.settings.activation_qualification;
        let grace = self.settings.grace;
        let qualification_nanos = qualification.as_nanos();
        let grace_nanos = grace.as_nanos();
        let phase = match self.phase {
            DetectorPhase::Idle { activation_elapsed } => if meaningful {
                let activation_elapsed = activation_elapsed.saturating_add(observed_over).shorter(
                    qualification,
                );
                if activation_elapsed.as_nanos() >= qualification_nanos {
                    DetectorPhase::Active
                } else {
                    DetectorPhase::Idle { activation_elapsed }
                }
            } else {
                DetectorPhase::Idle { activation_elapsed: Duration::zero() }
            },
            DetectorPhase::Active => if meaningful {
                DetectorPhase::Active
            } else if observed_nanos >= grace_nanos {
                DetectorPhase::Idle { activation_elapsed: Duration::zero() }
            } else {
                DetectorPhase::Hold { quiet_elapsed: observed_over }
            },
            DetectorPhase::Hold { quiet_elapsed } => if meaningful {
                DetectorPhase::Active
            } else {
                let quiet_elapsed = quiet_elapsed.saturating_add(observed_over).shorter(grace);
                if quiet_elapsed.as_nanos() >= grace_nanos {
                    DetectorPhase::Idle { activation_elapsed: Duration::zero() }
                } else {
                    DetectorPhase::Hold { quiet_elapsed }
                }
            },
        };
        *self =
        AutomaticDownloadMonitor {
            phase,
            latest_receive_rate_bytes_per_second: Some(receive_rate),
            settings: self.settings,
        };
    }

    /// Takes over an event, and tells the controller what the detector wants.
    /// Where the platform has to be asked after that, `consume_returned` ends
    /// it.
    pub fn consume(
        &mut self,
        event: NetworkActivityEvent,
        controller: &mut AutomaticProtectionController,
        wake: &mut WakeCoordinator,
        log: &mut Vec<SafeEvent>,
    ) -> (r: Option<PendingEvent>)
        ensures
            final(self)@ == old(self)@.after(event),
            final(self)@.consistent(),
            ({
                let end = intent_reconciled(
                    old(controller)@,
                    final(self)@.wants(),
                    *old(wake),
                );
                let note = note_of(old(self)@, event);
                &&& final(controller)@ == end.model
                &&& *final(wake) == end.wake
                &&& match end.asks {
                    Some(action) => {
                        &&& r == Some(
                            PendingEvent {
                                reconciliation: PendingReconciliation {
                                    action,
                                    before: old(controller)@.eligibility(),
                                },
                                note,
                            },
                        )
                        &&& final(log)@ == old(log)@ + end.events
                    },
                    None => {
                        &&& r is None
                        &&& final(log)@ == old(log)@ + end.events + consumed_log(note)
                    },
                }
            }),
    {
        proof {
            use_type_invariant(&*self);
        }
        let from = self.state_event();
        let continuity_lost = match event {
            NetworkActivityEvent::Sample(sample) => {
                self.apply_sample(sample);
                false
            },
            NetworkActivityEvent::ContinuityLost(_) => {
                self.reset();
                true
            },
            NetworkActivityEvent::AvailabilityChanged(_) => false,
        };
        let note = ConsumedNote { continuity_lost, from, to: self.state_event() };
        let desired = match self.phase {
            DetectorPhase::Idle { .. } => false,
            _ => true,
        };
        match controller.set_automatic_intent(desired, wake, log) {
            IntentProgress::Native(reconciliation) => Some(PendingEvent { reconciliation, note }),
            IntentProgress::Finished(_) => {
                Self::record(note, log);
                None
            },
        }
    }

    fn record(note: ConsumedNote, log: &mut Vec<SafeEvent>)
        ensures
            final(log)@ == old(log)@ + consumed_log(note),
    {
        if note.continuity_lost {
            log.push(SafeEvent::DetectorContinuityReset);
        }
        if note.from != note.to {
            log.push(SafeEvent::DetectorTransition { from: note.from, to: note.to });
        }
        assert(log@ =~= old(log)@ + consumed_log(note));
    }

    /// Ends an event for which the platform was asked. A failure stays with
    /// the controller.
    pub fn consume_returned(
        pending: PendingEvent,
        outcome: Result<(), String>,
        state: ProtectionState,
        controller: &mut AutomaticProtectionController,
        wake: &mut WakeCoordinator,
        log: &mut Vec<SafeEvent>,
    )
        ensures
            *final(wake) == (WakeCoordinator { protection: state, ..*old(wake) }),
            final(controller)@ == (ProtectionModel {
                failure: match outcome {
                    Ok(_) => None,
                    Err(error) => Some(error@),
                },
                ..old(controller)@
            }),
            final(log)@ == old(log)@.push(
                SafeEvent::NativeProtection {
                    action: pending.reconciliation.action,
                    outcome: if outcome is Ok {
                        EventOutcome::Succeeded
                    } else {
                        EventOutcome::Failed
                    },
                },
            ) + old(controller)@.outcome_events(pending.reconciliation.before, outcome is Ok)
                + consumed_log(pending.note),
    {
        let snapshot = controller.returned(pending.reconciliation, outcome, state, wake, log);
        Self::record(pending.note, log);
    }

    /// Takes over a tuning. The detector forgets what it saw, and no longer
    /// wants the computer kept awake.
    pub fn apply_settings(
        &mut self,
        settings: AutomaticDownloadSettings,
        controller: &mut AutomaticProtectionController,
        wake: &mut WakeCoordinator,
        log: &mut Vec<SafeEvent>,
    ) -> (r: (AutomaticDownloadSnapshot, IntentProgress))
        ensures
            final(self)@.consistent(),
            takes_over(
                r,
                settings@,
                final(self)@,
                old(controller)@,
                final(controller)@,
                *old(wake),
                *final(wake),
                old(log)@,
                final(log)@,
            ),
    {
        proof {
            use_type_invariant(&settings);
        }
        *self = Self::new(settings);
        let progress = controller.set_automatic_intent(false, wake, log);
        (self.snapshot_from(), progress)
    }

    /// Forgets what was seen, and no longer wants the computer kept awake.
    pub fn shutdown(
        &mut self,
        controller: &mut AutomaticProtectionController,
        wake: &mut WakeCoordinator,
        log: &mut Vec<SafeEvent>,
    ) -> (r: IntentProgress)
        ensures
            final(self)@ == old(self)@.forgotten(),
            final(self)@.consistent(),
            ({
                let end = intent_reconciled(old(controller)@, false, *old(wake));
                &&& final(controller)@ == end.model
                &&& *final(wake) == end.wake
                &&& final(log)@ == old(log)@ + end.events
                &&& match end.asks {
                    Some(action) => r == IntentProgress::Native(
                        PendingReconciliation { action, before: old(controller)@.eligibility() },
                    ),
                    None => r is Finished && crate::automatic_protection::intent_result(
                        r->Finished_0,
                        end.model,
                    ),
                }
            }),
    {
        self.reset();
        controller.set_automatic_intent(false, wake, log)
    }
}

/// The whole milliseconds of a time that can be saved.
pub fn duration_milliseconds(duration: Duration) -> (r: u64)
    requires
        duration@ / NANOS_PER_MILLISECOND as nat <= u64::MAX,
    ensures
        r == duration@ / NANOS_PER_MILLISECOND as nat,
{
    duration.as_millis() as u64
}

/// What a change of the tuning comes to.
#[derive(Clone, Copy, Debug, PartialEq, Eq, Structural)]
pub enum TuningStep {
    /// The tuning is as it was: nothing is saved, and the detector goes on.
    Unchanged(AutomaticDownloadSnapshot),
    /// The change is to be saved, and applied only where that succeeds.
    Persist { update: SettingsUpdate, tuning: AutomaticDownloadSettings },
}

/// The change that saves a tuning.
pub open spec fn tuning_update(tuning: TuningModel) -> SettingsUpdate {
    SettingsUpdate::AutomaticDownloadTuning {
        meaningful_receive_rate_bytes_per_second: tuning.rate as u64,
        activation_qualification_milliseconds: (tuning.qualification
            / NANOS_PER_MILLISECOND as nat) as u64,
        grace_milliseconds: (tuning.grace / NANOS_PER_MILLISECOND as nat) as u64,
    }
}

/// The user's changes of the tuning: each is saved first, and applied only
/// where that succeeded.
pub struct AutomaticDownloadTuningService;

impl AutomaticDownloadTuningService {
    /// What it takes to set the receive rate that counts as a download. The
    /// times stay as they are.
    pub fn set_threshold(
        monitor: &AutomaticDownloadMonitor,
        meaningful_receive_rate_bytes_per_second: u64,
    ) -> (r: Result<TuningStep, SettingsUpdateError>)
        requires
            monitor@.tuning.fits_milliseconds(),
        ensures
            tuning_step(
                r,
                monitor@,
                TuningModel {
                    rate: meaningful_receive_rate_bytes_per_second as nat,
                    ..monitor@.tuning
                },
            ),
            monitor@.consistent(),
    {
        proof {
            use_type_invariant(monitor);
        }
        let current = monitor.settings;
        Self::update(
            monitor,
            AutomaticDownloadSettings::try_new(
                meaningful_receive_rate_bytes_per_second,
                current.activation_qualification(),
                current.grace(),
            ),
        )
    }

    /// What it takes to set the time of grace. The rate and the qualification
    /// stay as they are.
    pub fn set_grace(monitor: &AutomaticDownloadMonitor, grace: Duration) -> (r: Result<
        TuningStep,
        SettingsUpdateError,
    >)
        requires
            monitor@.tuning.fits_milliseconds(),
            grace@ / NANOS_PER_MILLISECOND as nat <= u64::MAX,
        ensures
            tuning_step(r, monitor@, TuningModel { grace: grace@, ..monitor@.tuning }),
            monitor@.consistent(),
    {
        proof {
            use_type_invariant(monitor);
        }
        let current = monitor.settings;
        Self::update(
            monitor,
            AutomaticDownloadSettings::try_new(
                current.meaningful_receive_rate_bytes_per_second(),
                current.activation_qualification(),
                grace,
            ),
        )
    }

    /// Ends a change that was to be saved. Where it could not be, the error is
    /// handed on and the detector goes on as it was; only where it was saved
    /// is the tuning taken over.
    pub fn tuned(
        monitor: &mut AutomaticDownloadMonitor,
        tuning: AutomaticDownloadSettings,
        saved: Result<Settings, SettingsUpdateError>,
        controller: &mut AutomaticProtectionController,
        wake: &mut WakeCoordinator,
        log: &mut Vec<SafeEvent>,
    ) -> (r: Result<(AutomaticDownloadSnapshot, IntentProgress), SettingsUpdateError>)
        ensures
            match saved {
                Err(error) => {
                    &&& r == Err::<(AutomaticDownloadSnapshot, IntentProgress), SettingsUpdateError>(
                        error,
                    )
                    &&& *final(monitor) == *old(monitor)
                    &&& *final(controller) == *old(controller)
                    &&& *final(wake) == *old(wake)
                    &&& final(log)@ == old(log)@
                },
                Ok(_) => {
                    &&& r is Ok
                    &&& final(monitor)@.consistent()
                    &&& takes_over(
                        r->Ok_0,
                        tuning@,
                        final(monitor)@,
                        old(controller)@,
                        final(controller)@,
                        *old(wake),
                        *final(wake),
                        old(log)@,
                        final(log)@,
                    )
                },
            },
    {
        match saved {
            Err(error) => Err(error),
            Ok(_) => Ok(monitor.apply_settings(tuning, controller, wake, log)),
        }
    }

    fn update(
        monitor: &AutomaticDownloadMonitor,
        changed: Result<AutomaticDownloadSettings, AutomaticDownloadSettingsError>,
    ) -> (r: Result<TuningStep, SettingsUpdateError>)
        requires
            changed is Ok ==> changed->Ok_0@.fits_milliseconds(),
        ensures
            match changed {
                Err(error) => r == Err::<TuningStep, SettingsUpdateError>(
                    SettingsUpdateError::InvalidAutomaticDownload(error),
                ),
                Ok(updated) => {
                    &&& r is Ok
                    &&& updated@ == monitor@.tuning ==> r->Ok_0 is Unchanged && shows_monitor(
                        r->Ok_0->Unchanged_0,
                        monitor@,
                    )
                    &&& updated@ != monitor@.tuning ==> r->Ok_0 is Persist
                        && r->Ok_0->Persist_update == tuning_update(updated@)
                        && r->Ok_0->Persist_tuning == updated
                },
            },
    {
        let current = monitor.settings;
        match changed {
            Err(error) => Err(SettingsUpdateError::InvalidAutomaticDownload(error)),
            Ok(updated) => {
                proof {
                    tuning_is_its_model(updated, current);
                }
                if updated == current {
                    return Ok(TuningStep::Unchanged(monitor.snapshot()));
                }
                let update = SettingsUpdate::AutomaticDownloadTuning {
                    meaningful_receive_rate_bytes_per_second:
                        updated.meaningful_receive_rate_bytes_per_second(),
                    activation_qualification_milliseconds: duration_milliseconds(
                        updated.activation_qualification(),
                    ),
                    grace_milliseconds: duration_milliseconds(updated.grace()),
                };
                Ok(TuningStep::Persist { update, tuning: updated })
            },
        }
    }
}

/// Whether a step is what it takes to give a detector another tuning.
pub open spec fn tuning_step(
    step: Result<TuningStep, SettingsUpdateError>,
    monitor: MonitorModel,
    tuning: TuningModel,
) -> bool {
    if tuning.rate == 0 {
        step == Err::<TuningStep, SettingsUpdateError>(
            SettingsUpdateError::InvalidAutomaticDownload(
                AutomaticDownloadSettingsError::ZeroMeaningfulReceiveRate,
            ),
        )
    } else if tuning == monitor.tuning {
        step is Ok && step->Ok_0 is Unchanged && shows_monitor(step->Ok_0->Unchanged_0, monitor)
    } else {
        &&& step is Ok
        &&& step->Ok_0 is Persist
        &&& step->Ok_0->Persist_update == tuning_update(tuning)
        &&& step->Ok_0->Persist_tuning@ == tuning
    }
}

/// The tuning that is saved is the one that the detector takes over: where a
/// tuning is in whole milliseconds, the change that saves it succeeds, makes it
/// the tuning of the settings, and changes nothing else.
pub proof fn the_saved_tuning_is_taken_over(settings: SettingsModel, tuning: TuningModel)
    requires
        whole_milliseconds(tuning),
    ensures
        settings.with(tuning_update(tuning)) == Ok::<SettingsModel, AutomaticDownloadSettingsError>(
            SettingsModel { tuning, ..settings },
        ),
{
}

/// Every detector is consistent: one that has seen nothing is, and every event
/// keeps it so, as does forgetting. The time that a sample covers is trusted.
pub proof fn events_keep_a_detector_consistent(
    model: MonitorModel,
    event: NetworkActivityEvent,
    tuning: TuningModel,
)
    requires
        model.consistent(),
        event is Sample ==> trusted(event->Sample_0@.nanos),
        tuning.valid(),
    ensures
        (MonitorModel { phase: at_rest(), rate: None, tuning }).consistent(),
        model.after(event).consistent(),
        model.forgotten().consistent(),
{
}

/// What is shown of a detector fits together. During quiet some of the grace
/// is left, but not all of it, so that without grace there is no such state.
/// During activity and quiet there is a latest rate: it is at least the one
/// that counts as a download during activity, and below it during quiet.
pub proof fn what_is_shown_fits_together(snapshot: AutomaticDownloadSnapshot, model: MonitorModel)
    requires
        model.consistent(),
        shows_monitor(snapshot, model),
    ensures
        snapshot.state is Hold ==> {
            &&& 0 < snapshot.state->remaining_grace@ < snapshot.settings@.grace
            &&& snapshot.latest_receive_rate_bytes_per_second is Some
            &&& snapshot.latest_receive_rate_bytes_per_second->0 < snapshot.settings@.rate
        },
        snapshot.state is Active ==> {
            &&& snapshot.latest_receive_rate_bytes_per_second is Some
            &&& snapshot.latest_receive_rate_bytes_per_second->0 >= snapshot.settings@.rate
        },
        snapshot.settings@.grace == 0 ==> !(snapshot.state is Hold),
{
}

/// Activity turns the detector on exactly when it has lasted for the
/// qualification without a break, counting the time that each sample covers.
pub proof fn activity_must_last(model: MonitorModel, sample: SampleModel)
    requires
        model.consistent(),
        model.phase is Idle,
    ensures
        model.after_sample(sample).wants() <==> rate_of(sample) >= model.tuning.rate
            && model.phase->elapsed + sample.nanos >= model.tuning.qualification,
{
}

/// One quiet sample makes the detector count activity from the start.
pub proof fn quiet_clears_partial_activity(model: MonitorModel, sample: SampleModel)
    requires
        model.phase is Idle,
        rate_of(sample) < model.tuning.rate,
    ensures
        model.after_sample(sample).phase == at_rest(),
{
}

/// Once on, the detector stays on through quiet that is shorter than the
/// grace, and activity within it brings it straight back.
pub proof fn grace_bridges_quiet(model: MonitorModel, quiet: SampleModel, sample: SampleModel)
    requires
        model.phase is Active,
        rate_of(quiet) < model.tuning.rate,
        quiet.nanos < model.tuning.grace,
        rate_of(sample) >= model.tuning.rate,
    ensures
        model.after_sample(quiet).wants(),
        model.after_sample(quiet).after_sample(sample).phase is Active,
{
}

/// Quiet that lasts as long as the grace turns the detector off, whether it
/// comes in one sample or in several.
pub proof fn grace_ends(model: MonitorModel, first: SampleModel, second: SampleModel)
    requires
        model.consistent(),
        model.phase is Active,
        rate_of(first) < model.tuning.rate,
        rate_of(second) < model.tuning.rate,
    ensures
        first.nanos >= model.tuning.grace ==> model.after_sample(first).phase == at_rest(),
        first.nanos + second.nanos >= model.tuning.grace ==> model.after_sample(first).after_sample(
            second,
        ).phase == at_rest(),
{
}

/// Without grace the first quiet sample turns the detector off.
pub proof fn no_grace_means_no_hold(model: MonitorModel, sample: SampleModel)
    requires
        model.consistent(),
        model.tuning.grace == 0,
    ensures
        !(model.phase is Hold),
        !(model.after_sample(sample).phase is Hold),
        rate_of(sample) < model.tuning.rate ==> !model.after_sample(sample).wants(),
{
}

/// What is known of the availability neither counts as activity nor clears
/// what was counted.
pub proof fn availability_changes_nothing(model: MonitorModel, event: NetworkActivityEvent)
    requires
        event is AvailabilityChanged,
    ensures
        model.after(event) == model,
{
}

/// After a loss of continuity the detector wants nothing, knows no rate, and
/// is as far from wanting something as a detector that has seen nothing.
pub proof fn a_loss_of_continuity_starts_over(model: MonitorModel, event: NetworkActivityEvent)
    requires
        event is ContinuityLost,
    ensures
        !model.after(event).wants(),
        model.after(event) == (MonitorModel {
            phase: at_rest(),
            rate: None,
            tuning: model.tuning,
        }),
{
}

} // verus!
