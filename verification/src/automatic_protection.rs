//! When detected downloads are a reason to keep the computer awake.
//!
//! The detector's intent counts while the protection is switched on and the
//! computer is on external power, or on any power where the user allows it.

pub mod laws;

use crate::local_log::{EventOutcome, ProtectionAction, SafeEvent};
use crate::settings::{Settings, SettingsModel, SettingsUpdate, SettingsUpdateError};
use crate::wake_coordinator::{ProtectionState, WakeCoordinator, WakeReason};
use vstd::prelude::*;

verus! {

/// Why the wake coordinator did not do what the detector's intent asked, in
/// the words of the platform's inhibitor.
#[derive(Clone, Debug, PartialEq, Eq)]
pub struct AutomaticIntentError(pub String);

impl AutomaticIntentError {
    /// The error in words.
    pub fn message(&self) -> (r: String)
        ensures
            r@ == self.0@,
    {
        self.0.clone()
    }
}

/// What the computer runs on.
#[derive(Clone, Copy, Debug, PartialEq, Eq, Structural)]
pub enum PowerSource {
    External,
    Limited,
    Unknown,
}

/// What the user allows.
#[derive(Clone, Copy, Debug, PartialEq, Eq, Structural)]
pub struct AutomaticProtectionSettings {
    pub automatic_download_protection_enabled: bool,
    pub protect_on_battery: bool,
}

impl AutomaticProtectionSettings {
    /// Both choices.
    pub fn new(automatic_download_protection_enabled: bool, protect_on_battery: bool) -> (r:
        AutomaticProtectionSettings)
        ensures
            r == (AutomaticProtectionSettings {
                automatic_download_protection_enabled,
                protect_on_battery,
            }),
    {
        AutomaticProtectionSettings { automatic_download_protection_enabled, protect_on_battery }
    }

    /// The part of the program's settings that is of concern here.
    pub open spec fn of(settings: SettingsModel) -> AutomaticProtectionSettings {
        AutomaticProtectionSettings {
            automatic_download_protection_enabled: settings.protection,
            protect_on_battery: settings.on_battery,
        }
    }

    /// The part of the program's settings that is of concern here.
    pub fn from_settings(settings: &Settings) -> (r: AutomaticProtectionSettings)
        ensures
            r == Self::of(settings@),
    {
        Self::new(settings.automatic_download_protection_enabled(), settings.protect_on_battery())
    }

    /// Whether downloads may keep the computer awake at all.
    pub fn automatic_download_protection_enabled(self) -> (r: bool)
        ensures
            r == self.automatic_download_protection_enabled,
    {
        self.automatic_download_protection_enabled
    }

    /// Whether they may on any power.
    pub fn protect_on_battery(self) -> (r: bool)
        ensures
            r == self.protect_on_battery,
    {
        self.protect_on_battery
    }
}

/// Why a detected download does not keep the computer awake.
#[derive(Clone, Copy, Debug, PartialEq, Eq, Structural)]
pub enum AutomaticProtectionSuppression {
    AutomaticDisabled,
    LimitedPower,
    UnknownPower,
}

/// The word for a suppression in a log line.
pub open spec fn suppression_word(suppression: Option<AutomaticProtectionSuppression>) -> &'static str {
    match suppression {
        None => "none",
        Some(AutomaticProtectionSuppression::AutomaticDisabled) => "automatic-disabled",
        Some(AutomaticProtectionSuppression::LimitedPower) => "limited-power",
        Some(AutomaticProtectionSuppression::UnknownPower) => "unknown-power",
    }
}

/// The word for a suppression in a log line.
pub fn suppression_name(suppression: Option<AutomaticProtectionSuppression>) -> (r: &'static str)
    ensures
        r == suppression_word(suppression),
{
    match suppression {
        None => "none",
        Some(AutomaticProtectionSuppression::AutomaticDisabled) => "automatic-disabled",
        Some(AutomaticProtectionSuppression::LimitedPower) => "limited-power",
        Some(AutomaticProtectionSuppression::UnknownPower) => "unknown-power",
    }
}

/// What the controller shows of itself.
#[derive(Clone, Debug, PartialEq, Eq)]
pub struct AutomaticProtectionSnapshot {
    pub detector_intent: bool,
    pub settings: AutomaticProtectionSettings,
    pub power_source: PowerSource,
    pub desired_automatic_reason: bool,
    pub suppression_reason: Option<AutomaticProtectionSuppression>,
    pub latest_coordination_failure: Option<String>,
}

impl AutomaticProtectionSnapshot {
    /// Whether the detector wants the computer kept awake.
    pub fn detector_intent(&self) -> (r: bool)
        ensures
            r == self.detector_intent,
    {
        self.detector_intent
    }

    /// What the user allows.
    pub fn settings(&self) -> (r: AutomaticProtectionSettings)
        ensures
            r == self.settings,
    {
        self.settings
    }

    /// What the computer runs on.
    pub fn power_source(&self) -> (r: PowerSource)
        ensures
            r == self.power_source,
    {
        self.power_source
    }

    /// Whether downloads are a reason to keep the computer awake.
    pub fn desired_automatic_reason(&self) -> (r: bool)
        ensures
            r == self.desired_automatic_reason,
    {
        self.desired_automatic_reason
    }

    /// Why the detector's intent does not count.
    pub fn suppression_reason(&self) -> (r: Option<AutomaticProtectionSuppression>)
        ensures
            r == self.suppression_reason,
    {
        self.suppression_reason
    }

    /// The latest failure of the wake coordinator, while it lasts.
    pub fn latest_coordination_failure(&self) -> (r: Option<&str>)
        ensures
            r is Some <==> self.latest_coordination_failure is Some,
            r is Some ==> r->0@ == self.latest_coordination_failure->0@,
    {
        match &self.latest_coordination_failure {
            Some(failure) => Some(failure.as_str()),
            None => None,
        }
    }
}

/// What a change is measured by: whether downloads are a reason, and if not,
/// why.
#[derive(Clone, Copy, Debug, PartialEq, Eq, Structural)]
pub struct Eligibility {
    pub desired: bool,
    pub suppression: Option<AutomaticProtectionSuppression>,
}

/// A change for which the platform has to be asked: what to ask, and what the
/// change is measured against.
#[derive(Clone, Copy, Debug, PartialEq, Eq, Structural)]
pub struct PendingReconciliation {
    pub action: ProtectionAction,
    pub before: Eligibility,
}

/// How far a change has come.
#[derive(Clone, Debug, PartialEq, Eq)]
pub enum ProtectionProgress {
    /// It is over; this is the controller after it.
    Finished(AutomaticProtectionSnapshot),
    /// The platform has to be asked, and the answer reported.
    Native(PendingReconciliation),
}

/// How far a change of the detector's intent has come.
#[derive(Debug, PartialEq, Eq)]
pub enum IntentProgress {
    /// It is over, with this result.
    Finished(Result<(), AutomaticIntentError>),
    /// The platform has to be asked, and the answer reported.
    Native(PendingReconciliation),
}

/// The controller as a mathematical value.
pub ghost struct ProtectionModel {
    pub intent: bool,
    pub settings: AutomaticProtectionSettings,
    pub power: PowerSource,
    pub commanded: bool,
    pub failure: Option<Seq<char>>,
}

impl ProtectionModel {
    /// Whether downloads are a reason to keep the computer awake.
    pub open spec fn desired(self) -> bool {
        &&& self.intent
        &&& self.settings.automatic_download_protection_enabled
        &&& self.settings.protect_on_battery || self.power == PowerSource::External
    }

    /// Why the detector's intent does not count.
    pub open spec fn suppression(self) -> Option<AutomaticProtectionSuppression> {
        if !self.intent || self.desired() {
            None
        } else if !self.settings.automatic_download_protection_enabled {
            Some(AutomaticProtectionSuppression::AutomaticDisabled)
        } else if self.power == PowerSource::Limited {
            Some(AutomaticProtectionSuppression::LimitedPower)
        } else {
            Some(AutomaticProtectionSuppression::UnknownPower)
        }
    }

    /// What a change is measured by.
    pub open spec fn eligibility(self) -> Eligibility {
        Eligibility { desired: self.desired(), suppression: self.suppression() }
    }

    /// Whether the wake coordinator has already been told what is desired,
    /// and did it.
    pub open spec fn in_force(self) -> bool {
        self.desired() == self.commanded && self.failure is None
    }

    /// What is logged of a change from an earlier eligibility.
    pub open spec fn eligibility_events(self, before: Eligibility) -> Seq<SafeEvent> {
        if before == self.eligibility() {
            Seq::empty()
        } else {
            seq![
                SafeEvent::AutomaticEligibilityChanged {
                    eligible: self.desired(),
                    suppression: suppression_word(self.suppression()),
                },
            ]
        }
    }

    /// What is logged once the wake coordinator is done.
    pub open spec fn outcome_events(self, before: Eligibility, succeeded: bool) -> Seq<SafeEvent> {
        seq![
            SafeEvent::AutomaticReconciliation {
                active: self.desired(),
                outcome: if succeeded {
                    EventOutcome::Succeeded
                } else {
                    EventOutcome::Failed
                },
            },
        ] + self.eligibility_events(before)
    }
}

/// What a change leads to.
pub ghost struct Reconciled {
    pub model: ProtectionModel,
    pub wake: WakeCoordinator,
    pub events: Seq<SafeEvent>,
    pub asks: Option<ProtectionAction>,
}

/// What follows a change that made the controller what `changed` says, and
/// before which it had the eligibility `before`. Where what is desired is
/// already in force, the wake coordinator is left alone.
pub open spec fn reconciled(
    before: Eligibility,
    changed: ProtectionModel,
    wake: WakeCoordinator,
) -> Reconciled {
    let woken = wake.with_reason(WakeReason::AutomaticDownload, changed.desired());
    let told = ProtectionModel { commanded: changed.desired(), ..changed };
    if changed.in_force() {
        Reconciled { model: changed, wake, events: changed.eligibility_events(before), asks: None }
    } else if woken.needed() is Some {
        Reconciled {
            model: told,
            wake: woken,
            events: wake.change_events(woken),
            asks: woken.needed(),
        }
    } else {
        Reconciled {
            model: ProtectionModel { failure: None, ..told },
            wake: woken,
            events: wake.change_events(woken) + told.outcome_events(before, true),
            asks: None,
        }
    }
}

/// Whether a snapshot is that of a controller.
pub open spec fn shows_protection(
    snapshot: AutomaticProtectionSnapshot,
    model: ProtectionModel,
) -> bool {
    &&& snapshot.detector_intent == model.intent
    &&& snapshot.settings == model.settings
    &&& snapshot.power_source == model.power
    &&& snapshot.desired_automatic_reason == model.desired()
    &&& snapshot.suppression_reason == model.suppression()
    &&& crate::manual_session::text_view(snapshot.latest_coordination_failure) == model.failure
}

/// Whether progress is what a change leads to.
pub open spec fn progress_is(
    progress: ProtectionProgress,
    before: Eligibility,
    end: Reconciled,
) -> bool {
    match end.asks {
        Some(action) => progress == ProtectionProgress::Native(
            PendingReconciliation { action, before },
        ),
        None => progress is Finished && shows_protection(progress->Finished_0, end.model),
    }
}

/// The controller of the automatic reason.
#[derive(Clone, Debug)]
pub struct AutomaticProtectionController {
    detector_intent: bool,
    settings: AutomaticProtectionSettings,
    power_source: PowerSource,
    last_commanded_desired: bool,
    latest_coordination_failure: Option<String>,
}

impl View for AutomaticProtectionController {
    type V = ProtectionModel;

    closed spec fn view(&self) -> ProtectionModel {
        ProtectionModel {
            intent: self.detector_intent,
            settings: self.settings,
            power: self.power_source,
            commanded: self.last_commanded_desired,
            failure: crate::manual_session::text_view(self.latest_coordination_failure),
        }
    }
}

impl AutomaticProtectionController {
    /// A controller without an intent, on unknown power.
    pub fn new(settings: AutomaticProtectionSettings) -> (r: AutomaticProtectionController)
        ensures
            r@ == (ProtectionModel {
                intent: false,
                settings,
                power: PowerSource::Unknown,
                commanded: false,
                failure: None,
            }),
    {
        AutomaticProtectionController {
            detector_intent: false,
            settings,
            power_source: PowerSource::Unknown,
            last_commanded_desired: false,
            latest_coordination_failure: None,
        }
    }

    /// Whether downloads are a reason to keep the computer awake.
    pub fn desired_automatic_reason(&self) -> (r: bool)
        ensures
            r == self@.desired(),
    {
        self.detector_intent && self.settings.automatic_download_protection_enabled && (
        self.settings.protect_on_battery || self.power_source == PowerSource::External)
    }

    /// Why the detector's intent does not count.
    pub fn suppression_reason(&self) -> (r: Option<AutomaticProtectionSuppression>)
        ensures
            r == self@.suppression(),
    {
        if !self.detector_intent || self.desired_automatic_reason() {
            return None;
        }
        if !self.settings.automatic_download_protection_enabled {
            Some(AutomaticProtectionSuppression::AutomaticDisabled)
        } else {
            match self.power_source {
                PowerSource::Limited => Some(AutomaticProtectionSuppression::LimitedPower),
                PowerSource::Unknown => Some(AutomaticProtectionSuppression::UnknownPower),
                PowerSource::External => None,
            }
        }
    }

    /// What the controller shows of itself.
    pub fn snapshot(&self) -> (r: AutomaticProtectionSnapshot)
        ensures
            shows_protection(r, self@),
    {
        let latest_coordination_failure = match &self.latest_coordination_failure {
            Some(failure) => Some(failure.clone()),
            None => None,
        };
        AutomaticProtectionSnapshot {
            detector_intent: self.detector_intent,
            settings: self.settings,
            power_source: self.power_source,
            desired_automatic_reason: self.desired_automatic_reason(),
            suppression_reason: self.suppression_reason(),
            latest_coordination_failure,
        }
    }

    fn eligibility(&self) -> (r: Eligibility)
        ensures
            r == self@.eligibility(),
    {
        Eligibility {
            desired: self.desired_automatic_reason(),
            suppression: self.suppression_reason(),
        }
    }

    fn record_eligibility(&self, before: Eligibility, log: &mut Vec<SafeEvent>)
        ensures
            final(log)@ == old(log)@ + self@.eligibility_events(before),
    {
        let current = self.eligibility();
        if before != current {
            log.push(
                SafeEvent::AutomaticEligibilityChanged {
                    eligible: current.desired,
                    suppression: suppression_name(current.suppression),
                },
            );
        }
        assert(log@ =~= old(log)@ + self@.eligibility_events(before));
    }

    /// Tells the wake coordinator what is desired, unless that is in force
    /// already.
    fn reconcile(
        &mut self,
        before: Eligibility,
        wake: &mut WakeCoordinator,
        log: &mut Vec<SafeEvent>,
    ) -> (r: ProtectionProgress)
        ensures
            ({
                let end = reconciled(before, old(self)@, *old(wake));
                &&& final(self)@ == end.model
                &&& *final(wake) == end.wake
                &&& final(log)@ == old(log)@ + end.events
                &&& progress_is(r, before, end)
            }),
    {
        let desired = self.desired_automatic_reason();
        let failed = self.latest_coordination_failure.is_some();
        if desired == self.last_commanded_desired && !failed {
            self.record_eligibility(before, log);
            return ProtectionProgress::Finished(self.snapshot());
        }
        self.last_commanded_desired = desired;
        match wake.set_reason_active(WakeReason::AutomaticDownload, desired, log) {
            Some(action) => ProtectionProgress::Native(PendingReconciliation { action, before }),
            None => {
                self.latest_coordination_failure = None;
                log.push(
                    SafeEvent::AutomaticReconciliation {
                        active: desired,
                        outcome: EventOutcome::Succeeded,
                    },
                );
                self.record_eligibility(before, log);
                proof {
                    let end = reconciled(before, old(self)@, *old(wake));
                    assert(log@ =~= old(log)@ + end.events);
                }
                ProtectionProgress::Finished(self.snapshot())
            },
        }
    }

    /// Takes over the detector's intent.
    pub fn set_detector_intent(
        &mut self,
        detector_intent: bool,
        wake: &mut WakeCoordinator,
        log: &mut Vec<SafeEvent>,
    ) -> (r: ProtectionProgress)
        ensures
            ({
                let before = old(self)@.eligibility();
                let end = reconciled(
                    before,
                    ProtectionModel { intent: detector_intent, ..old(self)@ },
                    *old(wake),
                );
                &&& final(self)@ == end.model
                &&& *final(wake) == end.wake
                &&& final(log)@ == old(log)@ + end.events
                &&& progress_is(r, before, end)
            }),
    {
        let before = self.eligibility();
        self.detector_intent = detector_intent;
        self.reconcile(before, wake, log)
    }

    /// Takes over what the computer runs on.
    pub fn set_power_source(
        &mut self,
        power_source: PowerSource,
        wake: &mut WakeCoordinator,
        log: &mut Vec<SafeEvent>,
    ) -> (r: ProtectionProgress)
        ensures
            ({
                let before = old(self)@.eligibility();
                let end = reconciled(
                    before,
                    ProtectionModel { power: power_source, ..old(self)@ },
                    *old(wake),
                );
                &&& final(self)@ == end.model
                &&& *final(wake) == end.wake
                &&& final(log)@ == old(log)@ + end.events
                &&& progress_is(r, before, end)
            }),
    {
        let before = self.eligibility();
        self.power_source = power_source;
        self.reconcile(before, wake, log)
    }

    /// Takes over what the user allows.
    pub fn set_settings(
        &mut self,
        settings: AutomaticProtectionSettings,
        wake: &mut WakeCoordinator,
        log: &mut Vec<SafeEvent>,
    ) -> (r: ProtectionProgress)
        ensures
            ({
                let before = old(self)@.eligibility();
                let end = reconciled(
                    before,
                    ProtectionModel { settings, ..old(self)@ },
                    *old(wake),
                );
                &&& final(self)@ == end.model
                &&& *final(wake) == end.wake
                &&& final(log)@ == old(log)@ + end.events
                &&& progress_is(r, before, end)
            }),
    {
        let before = self.eligibility();
        self.settings = settings;
        self.reconcile(before, wake, log)
    }

    /// Ends a change for which the platform was asked: `outcome` is its
    /// answer, and `state` the state in which the inhibitor is now. A failure
    /// is kept until a later change succeeds.
    pub fn returned(
        &mut self,
        pending: PendingReconciliation,
        outcome: Result<(), String>,
        state: ProtectionState,
        wake: &mut WakeCoordinator,
        log: &mut Vec<SafeEvent>,
    ) -> (r: AutomaticProtectionSnapshot)
        ensures
            *final(wake) == (WakeCoordinator { protection: state, ..*old(wake) }),
            final(self)@ == (ProtectionModel {
                failure: match outcome {
                    Ok(_) => None,
                    Err(error) => Some(error@),
                },
                ..old(self)@
            }),
            final(log)@ == old(log)@.push(
                SafeEvent::NativeProtection {
                    action: pending.action,
                    outcome: if outcome is Ok {
                        EventOutcome::Succeeded
                    } else {
                        EventOutcome::Failed
                    },
                },
            ) + old(self)@.outcome_events(pending.before, outcome is Ok),
            shows_protection(r, final(self)@),
    {
        wake.native_returned(pending.action, outcome.is_ok(), state, log);
        let active = self.desired_automatic_reason();
        let ghost mid = log@;
        match outcome {
            Ok(()) => {
                self.latest_coordination_failure = None;
                log.push(
                    SafeEvent::AutomaticReconciliation { active, outcome: EventOutcome::Succeeded },
                );
            },
            Err(error) => {
                self.latest_coordination_failure = Some(error);
                log.push(
                    SafeEvent::AutomaticReconciliation { active, outcome: EventOutcome::Failed },
                );
            },
        }
        self.record_eligibility(pending.before, log);
        assert(log@ =~= mid + old(self)@.outcome_events(pending.before, outcome is Ok));
        self.snapshot()
    }

    /// Takes over the detector's intent, and answers whether that succeeded.
    /// A failure that an earlier change left counts too.
    pub fn set_automatic_intent(
        &mut self,
        active: bool,
        wake: &mut WakeCoordinator,
        log: &mut Vec<SafeEvent>,
    ) -> (r: IntentProgress)
        ensures
            ({
                let before = old(self)@.eligibility();
                let end = reconciled(
                    before,
                    ProtectionModel { intent: active, ..old(self)@ },
                    *old(wake),
                );
                &&& final(self)@ == end.model
                &&& *final(wake) == end.wake
                &&& final(log)@ == old(log)@ + end.events
                &&& match end.asks {
                    Some(action) => r == IntentProgress::Native(
                        PendingReconciliation { action, before },
                    ),
                    None => r is Finished && intent_result(r->Finished_0, end.model),
                }
            }),
    {
        match self.set_detector_intent(active, wake, log) {
            ProtectionProgress::Native(pending) => IntentProgress::Native(pending),
            ProtectionProgress::Finished(snapshot) => IntentProgress::Finished(
                Self::result_of(snapshot),
            ),
        }
    }

    fn result_of(snapshot: AutomaticProtectionSnapshot) -> (r: Result<(), AutomaticIntentError>)
        ensures
            match snapshot.latest_coordination_failure {
                None => r is Ok,
                Some(failure) => r is Err && r->Err_0.0@ == failure@,
            },
    {
        match snapshot.latest_coordination_failure {
            Some(failure) => Err(AutomaticIntentError(failure)),
            None => Ok(()),
        }
    }

    /// Ends a change of the detector's intent for which the platform was
    /// asked.
    pub fn intent_returned(
        &mut self,
        pending: PendingReconciliation,
        outcome: Result<(), String>,
        state: ProtectionState,
        wake: &mut WakeCoordinator,
        log: &mut Vec<SafeEvent>,
    ) -> (r: Result<(), AutomaticIntentError>)
        ensures
            *final(wake) == (WakeCoordinator { protection: state, ..*old(wake) }),
            final(self)@ == (ProtectionModel {
                failure: match outcome {
                    Ok(_) => None,
                    Err(error) => Some(error@),
                },
                ..old(self)@
            }),
            final(log)@ == old(log)@.push(
                SafeEvent::NativeProtection {
                    action: pending.action,
                    outcome: if outcome is Ok {
                        EventOutcome::Succeeded
                    } else {
                        EventOutcome::Failed
                    },
                },
            ) + old(self)@.outcome_events(pending.before, outcome is Ok),
            intent_result(r, final(self)@),
    {
        let snapshot = self.returned(pending, outcome, state, wake, log);
        Self::result_of(snapshot)
    }
}

/// Whether a result says what the controller's failure says.
pub open spec fn intent_result(
    result: Result<(), AutomaticIntentError>,
    model: ProtectionModel,
) -> bool {
    match model.failure {
        None => result is Ok,
        Some(failure) => result is Err && result->Err_0.0@ == failure,
    }
}

/// The user's changes of the settings that concern the protection: each is
/// saved first, and taken over only where that succeeded.
pub struct AutomaticProtectionService;

impl AutomaticProtectionService {
    /// The change that switches the protection over, from what is in force.
    pub fn toggle_automatic_download_protection(controller: &AutomaticProtectionController) -> (r:
        SettingsUpdate)
        ensures
            r == SettingsUpdate::AutomaticDownloadProtectionEnabled(
                !controller@.settings.automatic_download_protection_enabled,
            ),
    {
        SettingsUpdate::AutomaticDownloadProtectionEnabled(
            !controller.settings.automatic_download_protection_enabled,
        )
    }

    /// The change that switches the permission for any power over, from what
    /// is in force.
    pub fn toggle_protect_on_battery(controller: &AutomaticProtectionController) -> (r:
        SettingsUpdate)
        ensures
            r == SettingsUpdate::ProtectOnBattery(!controller@.settings.protect_on_battery),
    {
        SettingsUpdate::ProtectOnBattery(!controller.settings.protect_on_battery)
    }

    /// The change that allows downloads to keep the computer awake, or forbids
    /// it.
    pub fn set_automatic_download_protection_enabled(enabled: bool) -> (r: SettingsUpdate)
        ensures
            r == SettingsUpdate::AutomaticDownloadProtectionEnabled(enabled),
    {
        SettingsUpdate::AutomaticDownloadProtectionEnabled(enabled)
    }

    /// The change that allows it on any power, or not.
    pub fn set_protect_on_battery(enabled: bool) -> (r: SettingsUpdate)
        ensures
            r == SettingsUpdate::ProtectOnBattery(enabled),
    {
        SettingsUpdate::ProtectOnBattery(enabled)
    }

    /// Takes over the settings that were saved. Where they could not be, the
    /// controller is left alone.
    pub fn update(
        controller: &mut AutomaticProtectionController,
        saved: Result<Settings, SettingsUpdateError>,
        wake: &mut WakeCoordinator,
        log: &mut Vec<SafeEvent>,
    ) -> (r: Result<ProtectionProgress, SettingsUpdateError>)
        ensures
            match saved {
                Err(error) => {
                    &&& r == Err::<ProtectionProgress, SettingsUpdateError>(error)
                    &&& final(controller)@ == old(controller)@
                    &&& *final(wake) == *old(wake)
                    &&& final(log)@ == old(log)@
                },
                Ok(settings) => {
                    let before = old(controller)@.eligibility();
                    let end = reconciled(
                        before,
                        ProtectionModel {
                            settings: AutomaticProtectionSettings::of(settings@),
                            ..old(controller)@
                        },
                        *old(wake),
                    );
                    &&& r is Ok
                    &&& final(controller)@ == end.model
                    &&& *final(wake) == end.wake
                    &&& final(log)@ == old(log)@ + end.events
                    &&& progress_is(r->Ok_0, before, end)
                },
            },
    {
        match saved {
            Err(error) => Err(error),
            Ok(settings) => Ok(
                controller.set_settings(
                    AutomaticProtectionSettings::from_settings(&settings),
                    wake,
                    log,
                ),
            ),
        }
    }
}

/// An intent that counts is not suppressed, and one that does not count is
/// suppressed for exactly one reason. Without an intent there is neither.
pub proof fn an_intent_counts_or_is_suppressed(model: ProtectionModel)
    ensures
        model.intent ==> (model.desired() <==> model.suppression() is None),
        !model.intent ==> !model.desired() && model.suppression() is None,
{
}

/// Nothing keeps the computer awake on limited or unknown power unless the
/// user allows it, or while the protection is switched off.
pub proof fn limited_power_needs_permission(model: ProtectionModel)
    ensures
        model.desired() && !model.settings.protect_on_battery ==> model.power
            == PowerSource::External,
        model.desired() ==> model.settings.automatic_download_protection_enabled,
{
}

/// Being switched off is named before the power as the reason.
pub proof fn switched_off_is_named_first(model: ProtectionModel)
    requires
        model.intent,
        !model.settings.automatic_download_protection_enabled,
    ensures
        model.suppression() == Some(AutomaticProtectionSuppression::AutomaticDisabled),
{
}

/// A change after which the same is desired, with no failure to mend, asks
/// nothing of the wake coordinator, and logs at most a new suppression.
pub proof fn what_is_in_force_is_left_alone(
    before: Eligibility,
    changed: ProtectionModel,
    wake: WakeCoordinator,
)
    requires
        changed.in_force(),
    ensures
        reconciled(before, changed, wake).wake == wake,
        reconciled(before, changed, wake).asks is None,
        reconciled(before, changed, wake).model == changed,
        before == changed.eligibility() ==> reconciled(before, changed, wake).events
            == Seq::<SafeEvent>::empty(),
{
}

/// Once a change is over without a failure, repeating it changes nothing.
pub proof fn repeating_a_change_changes_nothing(
    before: Eligibility,
    changed: ProtectionModel,
    wake: WakeCoordinator,
)
    requires
        reconciled(before, changed, wake).asks is None,
    ensures
        ({
            let end = reconciled(before, changed, wake);
            let again = reconciled(end.model.eligibility(), end.model, end.wake);
            &&& again.model == end.model
            &&& again.wake == end.wake
            &&& again.asks is None
            &&& again.events == Seq::<SafeEvent>::empty()
        }),
{
}

/// A failure is followed by another attempt at the next change, whatever that
/// change is.
pub proof fn a_failure_is_tried_again(
    before: Eligibility,
    changed: ProtectionModel,
    wake: WakeCoordinator,
)
    requires
        changed.failure is Some,
    ensures
        reconciled(before, changed, wake).wake == wake.with_reason(
            WakeReason::AutomaticDownload,
            changed.desired(),
        ),
        reconciled(before, changed, wake).asks == wake.with_reason(
            WakeReason::AutomaticDownload,
            changed.desired(),
        ).needed(),
{
}

/// Whatever changes here, the user's own reason stays as it is.
pub proof fn the_manual_reason_is_left_alone(
    before: Eligibility,
    changed: ProtectionModel,
    wake: WakeCoordinator,
)
    ensures
        reconciled(before, changed, wake).wake.manual == wake.manual,
{
}

} // verus!
