//! The tray menu: what it says of the program, and what its commands do.

use crate::application::ApplicationStatus;
use crate::automatic_download::{
    AutomaticDownloadSettings, AutomaticDownloadSnapshot, AutomaticDownloadState,
};
use crate::automatic_protection::{
    AutomaticProtectionSettings, AutomaticProtectionSnapshot, AutomaticProtectionSuppression,
    PowerSource,
};
use crate::diagnostics::{DiagnosticActionFailure, DiagnosticsAvailability};
use crate::duration::{Duration, NANOS_PER_MILLISECOND, NANOS_PER_SECOND};
use crate::launch_at_login::{LaunchAtLoginFailureStage, LaunchAtLoginSnapshot, Registration};
use crate::manual_session::{text_view, ManualSessionSnapshot, ManualSessionState};
use crate::network_activity::{NetworkActivitySnapshot, NetworkActivitySourceStatus};
use crate::power_source::{PowerSourceObserverHealth, PowerSourceObserverSnapshot};
use crate::settings::service::{HealthModel, SettingsHealth};
use crate::settings::{LoadCondition, PersistenceCondition};
use crate::text::{decimal, decimal_text};
use crate::updater::{
    UpdateAvailability, UpdateFailureStage, UpdateStatus, UpdateTrigger, UpdaterSnapshot,
};
use crate::wake_coordinator::{ProtectionState, WakeReason, WakeSnapshot};
use vstd::prelude::*;
use vstd::string::*;

pub mod byte_rate;
pub mod command;
pub mod laws;
use byte_rate::{format_byte_rate, rate_words};
use command::{GracePreset, ThresholdPreset, TrayCommand};

verus! {

/// What is wrong with the settings.
#[derive(Clone, Copy, Debug, PartialEq, Eq, Structural)]
pub enum SettingsAlert {
    Clear,
    Recovered,
    SaveFailed,
    Unavailable,
}

/// What the menu is made from.
#[derive(Clone, Debug, PartialEq, Eq)]
pub struct TrayInput {
    pub application_status: ApplicationStatus,
    pub manual_state: ManualSessionState,
    pub manual_failure: bool,
    pub detector_state: AutomaticDownloadState,
    pub receive_rate: Option<u128>,
    pub tuning: AutomaticDownloadSettings,
    pub automatic_settings: AutomaticProtectionSettings,
    pub detector_intent: bool,
    pub desired_automatic_reason: bool,
    pub suppression: Option<AutomaticProtectionSuppression>,
    pub automatic_failure: bool,
    pub network_status: NetworkActivitySourceStatus,
    pub network_failure: bool,
    pub power_source: PowerSource,
    pub power_health: PowerSourceObserverHealth,
    pub power_failure: bool,
    pub settings_alert: SettingsAlert,
    pub launch_at_login_available: bool,
    pub launch_at_login_desired: bool,
    pub launch_at_login_observed: Registration,
    pub launch_at_login_failure: Option<LaunchAtLoginFailureStage>,
    pub updater: UpdaterSnapshot,
    pub wake_reasons: Vec<WakeReason>,
    pub protection: ProtectionState,
}

/// The manual session in the menu.
#[derive(Clone, Debug, PartialEq, Eq)]
pub enum KeepAwakeView {
    Inactive,
    Finite { remaining: String },
    UntilDisabled,
}

/// A choice among presets: which one is in force, or what else is.
#[derive(Clone, Debug, PartialEq, Eq)]
pub struct ChoiceView<const N: usize> {
    pub checked: [bool; N],
    pub custom: Option<String>,
}

/// The detector in the menu.
#[derive(Clone, Debug, PartialEq, Eq)]
pub struct DetectionView {
    pub state: String,
    pub receive_rate: Option<String>,
    pub power_source: String,
    pub threshold: ChoiceView<3>,
    pub grace: ChoiceView<5>,
}

/// Starting at login in the menu.
#[derive(Clone, Debug, PartialEq, Eq)]
pub struct LaunchAtLoginView {
    pub label: String,
    pub enabled: bool,
    pub checked: bool,
}

/// Updates in the menu.
#[derive(Clone, Debug, PartialEq, Eq)]
pub struct UpdaterView {
    pub automatic_label: String,
    pub automatic_enabled: bool,
    pub automatic_checked: bool,
    pub check_label: String,
    pub check_enabled: bool,
    pub result: Option<String>,
    pub install: Option<(String, bool)>,
}

/// Diagnostics in the menu.
#[derive(Clone, Debug, PartialEq, Eq)]
pub struct DiagnosticsView {
    pub copy_label: String,
    pub copy_enabled: bool,
    pub open_logs_label: String,
    pub open_logs_enabled: bool,
}

/// The menu.
#[derive(Clone, Debug, PartialEq, Eq)]
pub struct TrayView {
    pub primary: String,
    pub detail: Option<String>,
    pub warning: Option<String>,
    pub commands_enabled: bool,
    pub automatic_checked: bool,
    pub protect_on_battery_checked: bool,
    pub keep_awake: KeepAwakeView,
    pub detection: DetectionView,
    pub launch_at_login: LaunchAtLoginView,
    pub updater: UpdaterView,
    pub diagnostics: DiagnosticsView,
}

/// Whether the program runs, so that its commands are to be had.
pub open spec fn runs(status: ApplicationStatus) -> bool {
    status == ApplicationStatus::Ready || status == ApplicationStatus::Degraded
}

fn is_running(status: ApplicationStatus) -> (r: bool)
    ensures
        r == runs(status),
{
    match status {
        ApplicationStatus::Ready => true,
        ApplicationStatus::Degraded => true,
        _ => false,
    }
}

fn has_reason(reasons: &Vec<WakeReason>, reason: WakeReason) -> (r: bool)
    ensures
        r == reasons@.contains(reason),
{
    let mut i: usize = 0;
    while i < reasons.len()
        invariant
            i <= reasons.len(),
            forall|k: int| 0 <= k < i ==> reasons@[k] != reason,
        decreases reasons.len() - i,
    {
        if reasons[i] == reason {
            assert(reasons@[i as int] == reason);
            return true;
        }
        i = i + 1;
    }
    false
}

impl TrayInput {
    /// Whether a reason to keep the computer awake is in force.
    pub open spec fn has(self, reason: WakeReason) -> bool {
        self.wake_reasons@.contains(reason)
    }

    /// Whether any is.
    pub open spec fn has_any(self) -> bool {
        self.wake_reasons@.len() > 0
    }

    /// The first line of the menu. Where the program is in its life comes
    /// first; then whether protection is as the reasons want it; then why
    /// activity is not followed by protection; then what else there is.
    pub open spec fn primary_words(self) -> Seq<char> {
        let active = self.protection == ProtectionState::Active;
        if self.application_status == ApplicationStatus::Starting {
            "Starting…"@
        } else if self.application_status == ApplicationStatus::Failed {
            "Startup failed"@
        } else if !runs(self.application_status) {
            "Shutting down…"@
        } else if self.has_any() && !active {
            "Protection failed"@
        } else if !self.has_any() && active {
            "Sleep protection could not stop"@
        } else if self.has_any() {
            "Keeping awake"@
        } else if self.detector_intent && self.suppression is Some {
            "Network activity detected, not keeping awake"@
        } else if self.network_status != NetworkActivitySourceStatus::Available {
            "Can’t detect network activity"@
        } else if !self.automatic_settings.automatic_download_protection_enabled {
            "Keep awake during downloads: Off"@
        } else {
            "Ready to keep awake"@
        }
    }

    /// The part of the second line on downloads.
    pub open spec fn automatic_reason(self) -> Seq<char> {
        match self.detector_state {
            AutomaticDownloadState::Hold { remaining_grace } => "Recent network activity — "@
                + remaining_words(remaining_grace@),
            AutomaticDownloadState::Active => match self.receive_rate {
                Some(rate) => "Network activity — "@ + rate_words(rate as nat),
                None => "Network activity"@,
            },
            AutomaticDownloadState::Idle => "Network activity"@,
        }
    }

    /// The part of the second line on the manual session.
    pub open spec fn manual_reason(self) -> Seq<char> {
        match self.manual_state {
            ManualSessionState::Finite { remaining } => "Manual — "@ + remaining_words(remaining@),
            ManualSessionState::UntilDisabled => "Manual — until disabled"@,
            ManualSessionState::Inactive => "Manual"@,
        }
    }

    /// The second line of the menu, on why the computer is kept awake.
    pub open spec fn reason_words(self) -> Option<Seq<char>> {
        let automatic = self.has(WakeReason::AutomaticDownload);
        let manual = self.has(WakeReason::ManualKeepAwake);
        if !self.has_any() {
            if self.protection == ProtectionState::Active {
                Some("No wake reason remains"@)
            } else {
                None
            }
        } else if automatic && manual {
            Some("Reasons: "@ + self.automatic_reason() + "; "@ + self.manual_reason())
        } else if automatic {
            Some("Reason: "@ + self.automatic_reason())
        } else if manual {
            Some("Reason: "@ + self.manual_reason())
        } else {
            None
        }
    }

    /// The second line of the menu, on why it is not.
    pub open spec fn suppression_words(self) -> Option<Seq<char>> {
        if self.has_any() || !self.detector_intent {
            None
        } else {
            match self.suppression {
                None => None,
                Some(AutomaticProtectionSuppression::AutomaticDisabled) => Some(
                    "Keep awake during downloads: Off"@,
                ),
                Some(AutomaticProtectionSuppression::LimitedPower) => Some(
                    "Paused on battery or limited power"@,
                ),
                Some(AutomaticProtectionSuppression::UnknownPower) => Some("Power source unknown"@),
            }
        }
    }

    /// The second line of the menu.
    pub open spec fn detail_words(self) -> Option<Seq<char>> {
        if self.reason_words() is Some {
            self.reason_words()
        } else {
            self.suppression_words()
        }
    }

    /// Whether what the parts of the program say of protection does not fit
    /// together.
    pub open spec fn inconsistent(self) -> bool {
        ||| (!(self.manual_state is Inactive)) != self.has(WakeReason::ManualKeepAwake)
        ||| self.desired_automatic_reason != self.has(WakeReason::AutomaticDownload)
        ||| self.detector_intent != !(self.detector_state is Idle)
        ||| self.has_any() != (self.protection == ProtectionState::Active)
    }

    /// The warning about starting at login.
    pub open spec fn launch_warning(self) -> Option<Seq<char>> {
        let agrees = self.launch_at_login_observed == if self.launch_at_login_desired {
            Registration::Enabled
        } else {
            Registration::Disabled
        };
        let not_done = if self.launch_at_login_desired {
            "Launch at login could not be enabled"@
        } else {
            "Launch at login could not be disabled"@
        };
        if !self.launch_at_login_available {
            Some("Launch at login is unavailable"@)
        } else {
            match self.launch_at_login_failure {
                Some(LaunchAtLoginFailureStage::Initialize) => Some(
                    "Launch at login is unavailable"@,
                ),
                Some(LaunchAtLoginFailureStage::Enable) => Some(
                    "Launch at login could not be enabled"@,
                ),
                Some(LaunchAtLoginFailureStage::Disable) => Some(
                    "Launch at login could not be disabled"@,
                ),
                Some(LaunchAtLoginFailureStage::Verify) => if self.launch_at_login_observed
                    == Registration::Unknown {
                    Some("Launch-at-login status could not be verified"@)
                } else {
                    Some(not_done)
                },
                None => if agrees {
                    None
                } else {
                    Some("Launch-at-login status could not be verified"@)
                },
            }
        }
    }

    /// The warning of the menu, which is one at most: what is wrong with
    /// protection before what is wrong with saving, and so on.
    pub open spec fn warning_words(self) -> Option<Seq<char>> {
        let asked = self.updater.failure_for(UpdateTrigger::Manual);
        let unasked = self.updater.failure_for(UpdateTrigger::Automatic);
        if self.manual_failure || self.automatic_failure || self.inconsistent() {
            Some("Sleep protection needs attention"@)
        } else if self.settings_alert == SettingsAlert::SaveFailed {
            Some("Settings could not be saved"@)
        } else if self.settings_alert == SettingsAlert::Unavailable {
            Some("Settings changes are unavailable"@)
        } else if self.launch_warning() is Some {
            self.launch_warning()
        } else if asked is Some {
            Some(update_failure_words(asked->0))
        } else if self.network_failure || self.network_status
            != NetworkActivitySourceStatus::Available {
            Some("Keep awake during downloads is unavailable"@)
        } else if self.power_failure || self.power_health != PowerSourceObserverHealth::Observing {
            Some("Power source monitoring is unavailable"@)
        } else if unasked is Some {
            Some(update_failure_words(unasked->0))
        } else if self.settings_alert == SettingsAlert::Recovered {
            Some("Settings were recovered using safe defaults"@)
        } else {
            None
        }
    }
}

/// A time that is left, in words: in minutes, rounded up, and in hours where
/// there are sixty.
pub open spec fn remaining_words(nanos: nat) -> Seq<char> {
    let minute = 60 * NANOS_PER_SECOND as nat;
    let minutes = (nanos + minute - 1) as nat / minute;
    if nanos < minute {
        "<1 min remaining"@
    } else if minutes < 60 {
        decimal(minutes) + " min remaining"@
    } else if minutes % 60 == 0 {
        decimal(minutes / 60) + " h remaining"@
    } else {
        decimal(minutes / 60) + " h "@ + decimal(minutes % 60) + " min remaining"@
    }
}

proof fn minutes_round_up(nanos: nat)
    ensures
        ({
            let second = NANOS_PER_SECOND as nat;
            let minute = 60 * second;
            let whole = nanos / second;
            (nanos + minute - 1) as nat / minute == whole / 60 + if whole % 60 != 0 || nanos
                % second != 0 {
                1nat
            } else {
                0nat
            }
        }),
{
    let second = 1_000_000_000nat;
    let whole = nanos / second;
    let rest = (whole % 60) * second + nanos % second;
    assert(nanos == whole * second + nanos % second);
    assert(whole == 60 * (whole / 60) + whole % 60);
    assert(nanos == (whole / 60) * 60_000_000_000 + rest);
    assert(rest < 60_000_000_000);
    let end = nanos + 59_999_999_999;
    if rest == 0 {
        assert(end / 60_000_000_000 == whole / 60);
    } else {
        assert(end / 60_000_000_000 == whole / 60 + 1);
    }
}

/// A time that is left, in words.
pub fn format_remaining(remaining: Duration) -> (r: String)
    ensures
        r@ == remaining_words(remaining@),
{
    if remaining.as_nanos() < 60 * NANOS_PER_SECOND {
        return String::from_str("<1 min remaining");
    }
    let whole_seconds: u64 = remaining.as_secs();
    let begun: u64 = if whole_seconds % 60 != 0 || remaining.subsec_nanos() != 0 {
        1
    } else {
        0
    };
    let minutes: u64 = whole_seconds / 60 + begun;
    proof {
        minutes_round_up(remaining@);
    }
    if minutes < 60 {
        return decimal_text(minutes as u128).concat(" min remaining");
    }
    let hours: u64 = minutes / 60;
    let rest: u64 = minutes % 60;
    if rest == 0 {
        decimal_text(hours as u128).concat(" h remaining")
    } else {
        decimal_text(hours as u128).concat(" h ").concat(decimal_text(rest as u128).as_str()).concat(
            " min remaining",
        )
    }
}

/// A number of things in words.
pub open spec fn counted_words(count: nat, thing: Seq<char>) -> Seq<char> {
    if count == 1 {
        decimal(count) + " "@ + thing
    } else {
        decimal(count) + " "@ + thing + "s"@
    }
}

fn counted(count: u128, thing: &str) -> (r: String)
    ensures
        r@ == counted_words(count as nat, thing@),
{
    let words = decimal_text(count).concat(" ").concat(thing);
    if count == 1 {
        words
    } else {
        words.concat("s")
    }
}

/// A time in words: in whole minutes, else in whole seconds, else in
/// milliseconds.
pub open spec fn duration_words(nanos: nat) -> Seq<char> {
    let milliseconds = nanos / NANOS_PER_MILLISECOND as nat;
    if milliseconds % 60_000 == 0 {
        counted_words(milliseconds / 60_000, "minute"@)
    } else if milliseconds % 1_000 == 0 {
        counted_words(milliseconds / 1_000, "second"@)
    } else {
        decimal(milliseconds) + " ms"@
    }
}

/// A time in words.
pub fn format_duration_value(duration: Duration) -> (r: String)
    ensures
        r@ == duration_words(duration@),
{
    let milliseconds: u128 = duration.as_millis();
    if milliseconds % 60_000 == 0 {
        counted(milliseconds / 60_000, "minute")
    } else if milliseconds % 1_000 == 0 {
        counted(milliseconds / 1_000, "second")
    } else {
        decimal_text(milliseconds).concat(" ms")
    }
}

/// What is wrong with the settings, by their health.
pub open spec fn alert_of(health: HealthModel) -> SettingsAlert {
    if health.save_failure is Some {
        SettingsAlert::SaveFailed
    } else if health.persistence != PersistenceCondition::Writable || health.condition
        == LoadCondition::PersistenceUnavailable || health.condition is UnsupportedFutureSchema {
        SettingsAlert::Unavailable
    } else if health.condition == LoadCondition::FirstRun || health.condition
        == LoadCondition::CurrentVersion {
        if health.recoveries.len() > 0 || health.warnings.len() > 0 {
            SettingsAlert::Recovered
        } else {
            SettingsAlert::Clear
        }
    } else {
        SettingsAlert::Recovered
    }
}

/// What is wrong with the settings, by their health.
pub fn settings_alert(settings: &SettingsHealth) -> (r: SettingsAlert)
    ensures
        r == alert_of(settings@),
{
    if settings.last_save_failure.is_some() {
        return SettingsAlert::SaveFailed;
    }
    match settings.persistence {
        PersistenceCondition::Writable => {},
        _ => {
            return SettingsAlert::Unavailable;
        },
    }
    match settings.load_condition {
        LoadCondition::PersistenceUnavailable => SettingsAlert::Unavailable,
        LoadCondition::UnsupportedFutureSchema { .. } => SettingsAlert::Unavailable,
        LoadCondition::FirstRun | LoadCondition::CurrentVersion => if settings.field_recoveries.len()
            > 0 || settings.artifact_warnings.len() > 0 {
            SettingsAlert::Recovered
        } else {
            SettingsAlert::Clear
        },
        _ => SettingsAlert::Recovered,
    }
}

fn reason_detail(input: &TrayInput) -> (r: Option<String>)
    ensures
        text_view(r) == input.reason_words(),
{
    if input.wake_reasons.len() == 0 {
        return if input.protection == ProtectionState::Active {
            Some(String::from_str("No wake reason remains"))
        } else {
            None
        };
    }
    let automatic = if has_reason(&input.wake_reasons, WakeReason::AutomaticDownload) {
        Some(
            match input.detector_state {
                AutomaticDownloadState::Hold { remaining_grace } => String::from_str(
                    "Recent network activity — ",
                ).concat(format_remaining(remaining_grace).as_str()),
                AutomaticDownloadState::Active => match input.receive_rate {
                    Some(rate) => String::from_str("Network activity — ").concat(
                        format_byte_rate(rate).as_str(),
                    ),
                    None => String::from_str("Network activity"),
                },
                AutomaticDownloadState::Idle => String::from_str("Network activity"),
            },
        )
    } else {
        None
    };
    let manual = if has_reason(&input.wake_reasons, WakeReason::ManualKeepAwake) {
        Some(
            match input.manual_state {
                ManualSessionState::Finite { remaining } => String::from_str("Manual — ").concat(
                    format_remaining(remaining).as_str(),
                ),
                ManualSessionState::UntilDisabled => String::from_str("Manual — until disabled"),
                ManualSessionState::Inactive => String::from_str("Manual"),
            },
        )
    } else {
        None
    };
    match (automatic, manual) {
        (Some(automatic), Some(manual)) => Some(
            String::from_str("Reasons: ").concat(automatic.as_str()).concat("; ").concat(
                manual.as_str(),
            ),
        ),
        (Some(reason), None) => Some(String::from_str("Reason: ").concat(reason.as_str())),
        (None, Some(reason)) => Some(String::from_str("Reason: ").concat(reason.as_str())),
        (None, None) => None,
    }
}

fn suppression_detail(input: &TrayInput) -> (r: Option<String>)
    ensures
        text_view(r) == input.suppression_words(),
{
    if input.wake_reasons.len() > 0 || !input.detector_intent {
        return None;
    }
    match input.suppression {
        None => None,
        Some(AutomaticProtectionSuppression::AutomaticDisabled) => Some(
            String::from_str("Keep awake during downloads: Off"),
        ),
        Some(AutomaticProtectionSuppression::LimitedPower) => Some(
            String::from_str("Paused on battery or limited power"),
        ),
        Some(AutomaticProtectionSuppression::UnknownPower) => Some(
            String::from_str("Power source unknown"),
        ),
    }
}

fn protection_is_inconsistent(input: &TrayInput) -> (r: bool)
    ensures
        r == input.inconsistent(),
{
    let manual_intent = match input.manual_state {
        ManualSessionState::Inactive => false,
        _ => true,
    };
    let detecting = match input.detector_state {
        AutomaticDownloadState::Idle => false,
        _ => true,
    };
    let automatic_reason = has_reason(&input.wake_reasons, WakeReason::AutomaticDownload);
    let manual_reason = has_reason(&input.wake_reasons, WakeReason::ManualKeepAwake);
    let any = input.wake_reasons.len() > 0;
    let active = input.protection == ProtectionState::Active;
    manual_intent != manual_reason || input.desired_automatic_reason != automatic_reason
        || input.detector_intent != detecting || any != active
}

fn launch_at_login_warning(input: &TrayInput) -> (r: Option<&'static str>)
    ensures
        r is Some <==> input.launch_warning() is Some,
        r is Some ==> r->0@ == input.launch_warning()->0,
{
    if !input.launch_at_login_available {
        return Some("Launch at login is unavailable");
    }
    match input.launch_at_login_failure {
        Some(LaunchAtLoginFailureStage::Initialize) => Some("Launch at login is unavailable"),
        Some(LaunchAtLoginFailureStage::Enable) => Some("Launch at login could not be enabled"),
        Some(LaunchAtLoginFailureStage::Disable) => Some("Launch at login could not be disabled"),
        Some(LaunchAtLoginFailureStage::Verify) => match input.launch_at_login_observed {
            Registration::Unknown => Some("Launch-at-login status could not be verified"),
            _ => if input.launch_at_login_desired {
                Some("Launch at login could not be enabled")
            } else {
                Some("Launch at login could not be disabled")
            },
        },
        None => match (input.launch_at_login_desired, input.launch_at_login_observed) {
            (true, Registration::Enabled) => None,
            (false, Registration::Disabled) => None,
            _ => Some("Launch-at-login status could not be verified"),
        },
    }
}

fn warning(input: &TrayInput) -> (r: Option<String>)
    ensures
        text_view(r) == input.warning_words(),
{
    if input.manual_failure || input.automatic_failure || protection_is_inconsistent(input) {
        return Some(String::from_str("Sleep protection needs attention"));
    }
    match input.settings_alert {
        SettingsAlert::SaveFailed => {
            return Some(String::from_str("Settings could not be saved"));
        },
        SettingsAlert::Unavailable => {
            return Some(String::from_str("Settings changes are unavailable"));
        },
        _ => {},
    }
    match launch_at_login_warning(input) {
        Some(warning) => {
            return Some(String::from_str(warning));
        },
        None => {},
    }
    match input.updater.user_failure() {
        Some(stage) => {
            return Some(String::from_str(update_failure_label(stage)));
        },
        None => {},
    }
    if input.network_failure || input.network_status != NetworkActivitySourceStatus::Available {
        return Some(String::from_str("Keep awake during downloads is unavailable"));
    }
    if input.power_failure || input.power_health != PowerSourceObserverHealth::Observing {
        return Some(String::from_str("Power source monitoring is unavailable"));
    }
    match input.updater.background_failure() {
        Some(stage) => {
            return Some(String::from_str(update_failure_label(stage)));
        },
        None => {},
    }
    if input.settings_alert == SettingsAlert::Recovered {
        Some(String::from_str("Settings were recovered using safe defaults"))
    } else {
        None
    }
}

/// The failure of an update in words.
pub open spec fn update_failure_words(stage: UpdateFailureStage) -> Seq<char> {
    match stage {
        UpdateFailureStage::Scheduling => "Automatic update scheduling failed"@,
        UpdateFailureStage::Check => "Update check failed"@,
        UpdateFailureStage::Download => "Update download failed"@,
        UpdateFailureStage::Verification => "Update verification failed"@,
        UpdateFailureStage::Install => "Update installation failed"@,
        UpdateFailureStage::Restart => "Update restart failed"@,
    }
}

/// The failure of an update in words.
pub fn update_failure_label(stage: UpdateFailureStage) -> (r: &'static str)
    ensures
        r@ == update_failure_words(stage),
{
    match stage {
        UpdateFailureStage::Scheduling => "Automatic update scheduling failed",
        UpdateFailureStage::Check => "Update check failed",
        UpdateFailureStage::Download => "Update download failed",
        UpdateFailureStage::Verification => "Update verification failed",
        UpdateFailureStage::Install => "Update installation failed",
        UpdateFailureStage::Restart => "Update restart failed",
    }
}

/// That an update is to be had, in words.
pub open spec fn available_words(version: Option<Seq<char>>) -> Seq<char> {
    match version {
        Some(version) => "Update available — Chiù "@ + version,
        None => "Update available"@,
    }
}

/// The label of the command that installs an update.
pub open spec fn install_words(version: Option<Seq<char>>) -> Seq<char> {
    match version {
        Some(version) => "Install Chiù "@ + version + "…"@,
        None => "Install Chiù update…"@,
    }
}

/// The view of an optional text.
pub open spec fn str_view(text: Option<&str>) -> Option<Seq<char>> {
    match text {
        Some(text) => Some(text@),
        None => None,
    }
}

fn as_text(text: &Option<String>) -> (r: Option<&str>)
    ensures
        str_view(r) == text_view(*text),
{
    match text {
        Some(text) => Some(text.as_str()),
        None => None,
    }
}

/// That an update is to be had, in words.
pub fn update_available_label(version: Option<&str>) -> (r: String)
    ensures
        r@ == available_words(str_view(version)),
{
    match version {
        Some(version) => String::from_str("Update available — Chiù ").concat(version),
        None => String::from_str("Update available"),
    }
}

/// The label of the command that installs an update.
pub fn install_label(version: Option<&str>) -> (r: String)
    ensures
        r@ == install_words(str_view(version)),
{
    match version {
        Some(version) => String::from_str("Install Chiù ").concat(version).concat("…"),
        None => String::from_str("Install Chiù update…"),
    }
}

/// The line on how an update stands.
pub open spec fn update_result(status: UpdateStatus) -> Option<Seq<char>> {
    match status {
        UpdateStatus::Idle => None,
        UpdateStatus::Checking(_) => None,
        UpdateStatus::UpToDate => Some("Up to date"@),
        UpdateStatus::UpdateAvailable { version } => Some(available_words(text_view(version))),
        UpdateStatus::AwaitingConfirmation { version } => Some("Waiting for update confirmation…"@),
        UpdateStatus::Downloading { version, percent } => match percent {
            Some(percent) => Some("Downloading update… "@ + decimal(percent as nat) + "%"@),
            None => Some("Downloading update…"@),
        },
        UpdateStatus::Installing { version } => Some("Installing update…"@),
        UpdateStatus::Failed { stage, trigger, pending } => Some(update_failure_words(stage)),
    }
}

/// The label of the command that installs an update, where there is one to
/// install.
pub open spec fn update_install(status: UpdateStatus) -> Option<Seq<char>> {
    match status {
        UpdateStatus::UpdateAvailable { version } => Some(install_words(text_view(version))),
        UpdateStatus::Failed { stage, trigger, pending } => match pending {
            Some(pending) => Some(install_words(pending.version_view())),
            None => None,
        },
        _ => None,
    }
}

/// Whether an update is under way.
pub open spec fn update_active(status: UpdateStatus) -> bool {
    status is Checking || status is AwaitingConfirmation || status is Downloading
        || status is Installing
}

/// Whether a part of the menu is that of an updater that cannot be used.
pub open spec fn shows_no_updater(view: UpdaterView, checked: bool) -> bool {
    &&& view.automatic_label@ == "Automatically check for updates — unavailable"@
    &&& !view.automatic_enabled
    &&& view.automatic_checked == checked
    &&& view.check_label@ == "Check for updates… — unavailable"@
    &&& !view.check_enabled
    &&& view.result is None
    &&& view.install is None
}

/// Whether a part of the menu is that of an updater.
pub open spec fn shows_updater(view: UpdaterView, snapshot: UpdaterSnapshot, enabled: bool) -> bool {
    if snapshot.availability != UpdateAvailability::Available {
        shows_no_updater(view, snapshot.automatic_checks_enabled)
    } else {
        &&& view.automatic_label@ == "Automatically check for updates"@
        &&& view.automatic_enabled == enabled
        &&& view.automatic_checked == snapshot.automatic_checks_enabled
        &&& view.check_label@ == if snapshot.status is Checking {
            "Checking for updates…"@
        } else {
            "Check for updates…"@
        }
        &&& view.check_enabled == (enabled && !update_active(snapshot.status))
        &&& text_view(view.result) == update_result(snapshot.status)
        &&& match update_install(snapshot.status) {
            Some(label) => view.install is Some && (view.install->0).0@ == label && (
            view.install->0).1 == enabled,
            None => view.install is None,
        }
    }
}

/// The part of the menu on an updater that cannot be used.
pub fn unavailable_updater_view(checked: bool) -> (r: UpdaterView)
    ensures
        shows_no_updater(r, checked),
{
    UpdaterView {
        automatic_label: String::from_str("Automatically check for updates — unavailable"),
        automatic_enabled: false,
        automatic_checked: checked,
        check_label: String::from_str("Check for updates… — unavailable"),
        check_enabled: false,
        result: None,
        install: None,
    }
}

/// The part of the menu on updates.
pub fn updater_view(snapshot: &UpdaterSnapshot, commands_enabled: bool) -> (r: UpdaterView)
    ensures
        shows_updater(r, *snapshot, commands_enabled),
{
    match snapshot.availability {
        UpdateAvailability::Available => {},
        _ => {
            return unavailable_updater_view(snapshot.automatic_checks_enabled);
        },
    }
    let mut active = false;
    let mut check_label = "Check for updates…";
    let mut result: Option<String> = None;
    let mut install: Option<(String, bool)> = None;
    match &snapshot.status {
        UpdateStatus::Idle => {},
        UpdateStatus::Checking(_) => {
            active = true;
            check_label = "Checking for updates…";
        },
        UpdateStatus::UpToDate => {
            result = Some(String::from_str("Up to date"));
        },
        UpdateStatus::UpdateAvailable { version } => {
            result = Some(update_available_label(as_text(version)));
            install = Some((install_label(as_text(version)), commands_enabled));
        },
        UpdateStatus::AwaitingConfirmation { version } => {
            active = true;
            result = Some(String::from_str("Waiting for update confirmation…"));
        },
        UpdateStatus::Downloading { version, percent } => {
            active = true;
            result =
            Some(
                match percent {
                    Some(percent) => String::from_str("Downloading update… ").concat(
                        decimal_text(*percent as u128).as_str(),
                    ).concat("%"),
                    None => String::from_str("Downloading update…"),
                },
            );
        },
        UpdateStatus::Installing { version } => {
            active = true;
            result = Some(String::from_str("Installing update…"));
        },
        UpdateStatus::Failed { stage, trigger, pending } => {
            result = Some(String::from_str(update_failure_label(*stage)));
            match pending {
                Some(pending) => {
                    install = Some((install_label(pending.version()), commands_enabled));
                },
                None => {},
            }
        },
    }
    UpdaterView {
        automatic_label: String::from_str("Automatically check for updates"),
        automatic_enabled: commands_enabled,
        automatic_checked: snapshot.automatic_checks_enabled,
        check_label: String::from_str(check_label),
        check_enabled: commands_enabled && !active,
        result,
        install,
    }
}

/// Whether a part of the menu is that of diagnostics.
pub open spec fn shows_diagnostics(
    view: DiagnosticsView,
    availability: DiagnosticsAvailability,
) -> bool {
    &&& view.copy_enabled == availability.copy
    &&& view.copy_label@ == if availability.copy {
        "Copy diagnostics"@
    } else {
        "Copy diagnostics — unavailable"@
    }
    &&& view.open_logs_enabled == availability.open_logs
    &&& view.open_logs_label@ == if availability.open_logs {
        "Open logs"@
    } else {
        "Open logs — unavailable"@
    }
}

/// The part of the menu on diagnostics.
pub fn diagnostics_view(availability: DiagnosticsAvailability) -> (r: DiagnosticsView)
    ensures
        shows_diagnostics(r, availability),
{
    DiagnosticsView {
        copy_label: String::from_str(
            if availability.copy {
                "Copy diagnostics"
            } else {
                "Copy diagnostics — unavailable"
            },
        ),
        copy_enabled: availability.copy,
        open_logs_label: String::from_str(
            if availability.open_logs {
                "Open logs"
            } else {
                "Open logs — unavailable"
            },
        ),
        open_logs_enabled: availability.open_logs,
    }
}

/// Whether a part of the menu is that of a manual session.
pub open spec fn shows_session_state(view: KeepAwakeView, state: ManualSessionState) -> bool {
    match state {
        ManualSessionState::Inactive => view is Inactive,
        ManualSessionState::Finite { remaining } => view is Finite && view->remaining@
            == remaining_words(remaining@),
        ManualSessionState::UntilDisabled => view is UntilDisabled,
    }
}

/// The part of the menu on the manual session.
pub fn keep_awake_view(state: &ManualSessionState) -> (r: KeepAwakeView)
    ensures
        shows_session_state(r, *state),
{
    match state {
        ManualSessionState::Inactive => KeepAwakeView::Inactive,
        ManualSessionState::Finite { remaining } => KeepAwakeView::Finite {
            remaining: format_remaining(*remaining),
        },
        ManualSessionState::UntilDisabled => KeepAwakeView::UntilDisabled,
    }
}

/// Which of the offered receive rates is in force.
pub open spec fn threshold_checks(rate: nat) -> Seq<bool> {
    seq![
        rate == ThresholdPreset::Kibibytes256.rate(),
        rate == ThresholdPreset::Mebibyte1.rate(),
        rate == ThresholdPreset::Mebibytes5.rate(),
    ]
}

/// Which of the offered times of grace is in force.
pub open spec fn grace_checks(nanos: nat) -> Seq<bool> {
    seq![
        nanos == GracePreset::Seconds30.seconds() * NANOS_PER_SECOND,
        nanos == GracePreset::Minutes2.seconds() * NANOS_PER_SECOND,
        nanos == GracePreset::Minutes5.seconds() * NANOS_PER_SECOND,
        nanos == GracePreset::Minutes15.seconds() * NANOS_PER_SECOND,
        nanos == GracePreset::Minutes30.seconds() * NANOS_PER_SECOND,
    ]
}

/// What is shown where none of the offered choices is in force.
pub open spec fn custom_words(checks: Seq<bool>, words: Seq<char>) -> Option<Seq<char>> {
    if checks.contains(true) {
        None
    } else {
        Some("Custom — "@ + words)
    }
}

/// The detector's state in words.
pub open spec fn detector_words(state: AutomaticDownloadState) -> Seq<char> {
    match state {
        AutomaticDownloadState::Idle => "Waiting"@,
        AutomaticDownloadState::Active => "Active"@,
        AutomaticDownloadState::Hold { remaining_grace } => "Grace — "@ + remaining_words(
            remaining_grace@,
        ),
    }
}

/// The power source in words.
pub open spec fn power_words(source: PowerSource) -> Seq<char> {
    match source {
        PowerSource::External => "External power"@,
        PowerSource::Limited => "Battery or limited power"@,
        PowerSource::Unknown => "Unknown"@,
    }
}

/// Whether a part of the menu is that of the detector.
pub open spec fn shows_detection(view: DetectionView, input: TrayInput) -> bool {
    &&& view.state@ == detector_words(input.detector_state)
    &&& text_view(view.receive_rate) == match input.receive_rate {
        Some(rate) => Some(rate_words(rate as nat)),
        None => None,
    }
    &&& view.power_source@ == power_words(input.power_source)
    &&& view.threshold.checked@ == threshold_checks(input.tuning@.rate)
    &&& text_view(view.threshold.custom) == custom_words(
        threshold_checks(input.tuning@.rate),
        rate_words(input.tuning@.rate),
    )
    &&& view.grace.checked@ == grace_checks(input.tuning@.grace)
    &&& text_view(view.grace.custom) == custom_words(
        grace_checks(input.tuning@.grace),
        duration_words(input.tuning@.grace),
    )
}

/// The part of the menu on the detector.
pub fn detection_view(input: &TrayInput) -> (r: DetectionView)
    ensures
        shows_detection(r, *input),
{
    let rate: u64 = input.tuning.meaningful_receive_rate_bytes_per_second();
    let grace = input.tuning.grace();
    let nanos: u128 = grace.as_nanos();
    let thresholds: [bool; 3] = [
        rate == ThresholdPreset::Kibibytes256.bytes_per_second(),
        rate == ThresholdPreset::Mebibyte1.bytes_per_second(),
        rate == ThresholdPreset::Mebibytes5.bytes_per_second(),
    ];
    let graces: [bool; 5] = [
        nanos == GracePreset::Seconds30.duration().as_nanos(),
        nanos == GracePreset::Minutes2.duration().as_nanos(),
        nanos == GracePreset::Minutes5.duration().as_nanos(),
        nanos == GracePreset::Minutes15.duration().as_nanos(),
        nanos == GracePreset::Minutes30.duration().as_nanos(),
    ];
    proof {
        assert(thresholds@ =~= threshold_checks(input.tuning@.rate));
        assert(graces@ =~= grace_checks(input.tuning@.grace));
        if thresholds@.contains(true) {
            let i = choose|i: int| 0 <= i < 3 && thresholds@[i] == true;
            assert(thresholds@[i]);
        }
        if graces@.contains(true) {
            let i = choose|i: int| 0 <= i < 5 && graces@[i] == true;
            assert(graces@[i]);
        }
        assert(thresholds@[0] ==> thresholds@.contains(true));
        assert(thresholds@[1] ==> thresholds@.contains(true));
        assert(thresholds@[2] ==> thresholds@.contains(true));
        assert(graces@[0] ==> graces@.contains(true));
        assert(graces@[1] ==> graces@.contains(true));
        assert(graces@[2] ==> graces@.contains(true));
        assert(graces@[3] ==> graces@.contains(true));
        assert(graces@[4] ==> graces@.contains(true));
    }
    let threshold_custom = if thresholds[0] || thresholds[1] || thresholds[2] {
        None
    } else {
        Some(String::from_str("Custom — ").concat(format_byte_rate(rate as u128).as_str()))
    };
    let grace_custom = if graces[0] || graces[1] || graces[2] || graces[3] || graces[4] {
        None
    } else {
        Some(String::from_str("Custom — ").concat(format_duration_value(grace).as_str()))
    };
    let receive_rate = match input.receive_rate {
        Some(rate) => Some(format_byte_rate(rate)),
        None => None,
    };
    DetectionView {
        state: match input.detector_state {
            AutomaticDownloadState::Idle => String::from_str("Waiting"),
            AutomaticDownloadState::Active => String::from_str("Active"),
            AutomaticDownloadState::Hold { remaining_grace } => String::from_str(
                "Grace — ",
            ).concat(format_remaining(remaining_grace).as_str()),
        },
        receive_rate,
        power_source: String::from_str(
            match input.power_source {
                PowerSource::External => "External power",
                PowerSource::Limited => "Battery or limited power",
                PowerSource::Unknown => "Unknown",
            },
        ),
        threshold: ChoiceView { checked: thresholds, custom: threshold_custom },
        grace: ChoiceView { checked: graces, custom: grace_custom },
    }
}

/// Whether a part of the menu is that of starting at login.
pub open spec fn shows_launch_at_login(view: LaunchAtLoginView, input: TrayInput) -> bool {
    &&& view.label@ == if input.launch_at_login_available {
        "Launch at login"@
    } else {
        "Launch at login — unavailable"@
    }
    &&& view.enabled == (runs(input.application_status) && input.launch_at_login_available)
    &&& view.checked == input.launch_at_login_desired
}

/// Whether a menu is what it is made from, apart from diagnostics.
pub open spec fn shows(view: TrayView, input: TrayInput) -> bool {
    let enabled = runs(input.application_status);
    &&& view.primary@ == input.primary_words()
    &&& text_view(view.detail) == input.detail_words()
    &&& text_view(view.warning) == if enabled {
        input.warning_words()
    } else {
        None
    }
    &&& view.commands_enabled == enabled
    &&& view.automatic_checked == input.automatic_settings.automatic_download_protection_enabled
    &&& view.protect_on_battery_checked == input.automatic_settings.protect_on_battery
    &&& shows_session_state(view.keep_awake, input.manual_state)
    &&& shows_detection(view.detection, input)
    &&& shows_launch_at_login(view.launch_at_login, input)
    &&& shows_updater(view.updater, input.updater, enabled)
}

fn primary(input: &TrayInput) -> (r: &'static str)
    ensures
        r@ == input.primary_words(),
{
    match input.application_status {
        ApplicationStatus::Starting => {
            return "Starting…";
        },
        ApplicationStatus::Failed => {
            return "Startup failed";
        },
        ApplicationStatus::ShuttingDown | ApplicationStatus::Stopped => {
            return "Shutting down…";
        },
        _ => {},
    }
    let any = input.wake_reasons.len() > 0;
    let active = input.protection == ProtectionState::Active;
    if any && !active {
        "Protection failed"
    } else if !any && active {
        "Sleep protection could not stop"
    } else if any {
        "Keeping awake"
    } else if input.detector_intent && input.suppression.is_some() {
        "Network activity detected, not keeping awake"
    } else if input.network_status != NetworkActivitySourceStatus::Available {
        "Can’t detect network activity"
    } else if !input.automatic_settings.automatic_download_protection_enabled {
        "Keep awake during downloads: Off"
    } else {
        "Ready to keep awake"
    }
}

/// The menu of a program that has all its parts. Diagnostics are shown as not
/// to be had, until `TrayApplication` says otherwise.
pub fn project(input: &TrayInput) -> (r: TrayView)
    ensures
        shows(r, *input),
        shows_diagnostics(r.diagnostics, DiagnosticsAvailability { copy: false, open_logs: false }),
{
    let commands_enabled = is_running(input.application_status);
    let launch_at_login = LaunchAtLoginView {
        label: String::from_str(
            if input.launch_at_login_available {
                "Launch at login"
            } else {
                "Launch at login — unavailable"
            },
        ),
        enabled: commands_enabled && input.launch_at_login_available,
        checked: input.launch_at_login_desired,
    };
    let detail = match reason_detail(input) {
        Some(detail) => Some(detail),
        None => suppression_detail(input),
    };
    let warning = if commands_enabled {
        warning(input)
    } else {
        None
    };
    TrayView {
        primary: String::from_str(primary(input)),
        detail,
        warning,
        commands_enabled,
        automatic_checked: input.automatic_settings.automatic_download_protection_enabled,
        protect_on_battery_checked: input.automatic_settings.protect_on_battery,
        keep_awake: keep_awake_view(&input.manual_state),
        detection: detection_view(input),
        launch_at_login,
        updater: updater_view(&input.updater, commands_enabled),
        diagnostics: diagnostics_view(DiagnosticsAvailability { copy: false, open_logs: false }),
    }
}

/// What the menu says while the program has no parts yet, or none that work.
pub open spec fn lifecycle_words(status: ApplicationStatus) -> Seq<char> {
    match status {
        ApplicationStatus::Failed => "Startup failed"@,
        ApplicationStatus::ShuttingDown | ApplicationStatus::Stopped => "Shutting down…"@,
        _ => "Starting…"@,
    }
}

/// Whether a menu is that of a program without parts: apart from diagnostics
/// there is nothing to be had.
pub open spec fn shows_lifecycle(view: TrayView, status: ApplicationStatus) -> bool {
    &&& view.primary@ == lifecycle_words(status)
    &&& view.detail is None
    &&& view.warning is None
    &&& !view.commands_enabled
    &&& !view.automatic_checked
    &&& !view.protect_on_battery_checked
    &&& view.keep_awake is Inactive
    &&& view.detection.state@ == "Unavailable"@
    &&& view.detection.receive_rate is None
    &&& view.detection.power_source@ == "Unknown"@
    &&& view.detection.threshold.checked@ == seq![false, false, false]
    &&& view.detection.threshold.custom is None
    &&& view.detection.grace.checked@ == seq![false, false, false, false, false]
    &&& view.detection.grace.custom is None
    &&& view.launch_at_login.label@ == "Launch at login — unavailable"@
    &&& !view.launch_at_login.enabled
    &&& !view.launch_at_login.checked
    &&& shows_no_updater(view.updater, false)
}

/// The menu of a program without parts.
pub fn lifecycle_only_view(status: ApplicationStatus) -> (r: TrayView)
    ensures
        shows_lifecycle(r, status),
        shows_diagnostics(r.diagnostics, DiagnosticsAvailability { copy: false, open_logs: false }),
{
    let primary = match status {
        ApplicationStatus::Failed => "Startup failed",
        ApplicationStatus::ShuttingDown | ApplicationStatus::Stopped => "Shutting down…",
        _ => "Starting…",
    };
    let thresholds: [bool; 3] = [false, false, false];
    let graces: [bool; 5] = [false, false, false, false, false];
    assert(thresholds@ =~= seq![false, false, false]);
    assert(graces@ =~= seq![false, false, false, false, false]);
    TrayView {
        primary: String::from_str(primary),
        detail: None,
        warning: None,
        commands_enabled: false,
        automatic_checked: false,
        protect_on_battery_checked: false,
        keep_awake: KeepAwakeView::Inactive,
        detection: DetectionView {
            state: String::from_str("Unavailable"),
            receive_rate: None,
            power_source: String::from_str("Unknown"),
            threshold: ChoiceView { checked: thresholds, custom: None },
            grace: ChoiceView { checked: graces, custom: None },
        },
        launch_at_login: LaunchAtLoginView {
            label: String::from_str("Launch at login — unavailable"),
            enabled: false,
            checked: false,
        },
        updater: unavailable_updater_view(false),
        diagnostics: diagnostics_view(DiagnosticsAvailability { copy: false, open_logs: false }),
    }
}

fn copy_reasons(reasons: &Vec<WakeReason>) -> (r: Vec<WakeReason>)
    ensures
        r@ == reasons@,
{
    let mut r: Vec<WakeReason> = Vec::new();
    let mut i: usize = 0;
    while i < reasons.len()
        invariant
            i <= reasons.len(),
            r@ == reasons@.take(i as int),
        decreases reasons.len() - i,
    {
        r.push(reasons[i]);
        i = i + 1;
        assert(r@ =~= reasons@.take(i as int));
    }
    assert(reasons@.take(i as int) =~= reasons@);
    r
}

impl TrayInput {
    /// What the menu is made from, given what the parts of the program show
    /// of themselves. What the wake coordinator shows is to be looked at last,
    /// so that a change in between is shown as trouble and not as protection.
    pub fn collect(
        application_status: ApplicationStatus,
        manual: &ManualSessionSnapshot,
        detector: &AutomaticDownloadSnapshot,
        automatic: &AutomaticProtectionSnapshot,
        network: &NetworkActivitySnapshot,
        power: &PowerSourceObserverSnapshot,
        launch_at_login: &LaunchAtLoginSnapshot,
        updater: UpdaterSnapshot,
        settings: &SettingsHealth,
        wake: &WakeSnapshot,
    ) -> (r: TrayInput)
        ensures
            r.application_status == application_status,
            r.manual_state == manual.state,
            r.manual_failure == (manual.background_failure is Some),
            r.detector_state == detector.state,
            r.receive_rate == detector.latest_receive_rate_bytes_per_second,
            r.tuning == detector.settings,
            r.automatic_settings == automatic.settings,
            r.detector_intent == automatic.detector_intent,
            r.desired_automatic_reason == automatic.desired_automatic_reason,
            r.suppression == automatic.suppression_reason,
            r.automatic_failure == (automatic.latest_coordination_failure is Some),
            r.network_status == network.status,
            r.network_failure == (network.latest_failure is Some),
            r.power_source == automatic.power_source,
            r.power_health == power.health,
            r.power_failure == (power.latest_failure is Some),
            r.settings_alert == alert_of(settings@),
            r.launch_at_login_available == launch_at_login.available,
            r.launch_at_login_desired == launch_at_login.desired,
            r.launch_at_login_observed == launch_at_login.observed,
            r.launch_at_login_failure == match launch_at_login.latest_failure {
                Some(failure) => Some(failure.stage),
                None => None,
            },
            r.updater == updater,
            r.wake_reasons@ == wake.active_reasons@,
            r.protection == wake.protection_state,
    {
        let launch_at_login_failure = match &launch_at_login.latest_failure {
            Some(failure) => Some(failure.stage),
            None => None,
        };
        TrayInput {
            application_status,
            manual_state: manual.state,
            manual_failure: manual.background_failure.is_some(),
            detector_state: detector.state,
            receive_rate: detector.latest_receive_rate_bytes_per_second,
            tuning: detector.settings,
            automatic_settings: automatic.settings,
            detector_intent: automatic.detector_intent,
            desired_automatic_reason: automatic.desired_automatic_reason,
            suppression: automatic.suppression_reason,
            automatic_failure: automatic.latest_coordination_failure.is_some(),
            network_status: network.status,
            network_failure: network.latest_failure.is_some(),
            power_source: automatic.power_source,
            power_health: power.health,
            power_failure: power.latest_failure.is_some(),
            settings_alert: settings_alert(settings),
            launch_at_login_available: launch_at_login.available,
            launch_at_login_desired: launch_at_login.desired,
            launch_at_login_observed: launch_at_login.observed,
            launch_at_login_failure,
            updater,
            wake_reasons: copy_reasons(&wake.active_reasons),
            protection: wake.protection_state,
        }
    }
}

/// What came of a command.
#[derive(Clone, Copy, Debug, PartialEq, Eq, Structural)]
pub enum TrayCommandOutcome {
    RefreshRequested,
    QuitRequested,
    CopyDiagnosticsFailed,
    Ignored,
}

/// Where a command goes.
#[derive(Clone, Copy, Debug, PartialEq, Eq, Structural)]
pub enum TrayRoute {
    /// Nowhere: this is what came of it.
    Finished(TrayCommandOutcome),
    /// To the diagnostics, to be copied.
    CopyDiagnostics,
    /// To the diagnostics, to open the logs.
    OpenLogs,
    /// To the parts of the program.
    Product(TrayCommand),
}

/// The tray of a program: whether it has parts to show and to command.
#[derive(Clone, Copy, Debug, PartialEq, Eq, Structural)]
pub struct TrayApplication {
    pub activated: bool,
}

impl TrayApplication {
    /// The tray of a program without parts.
    pub fn new() -> (r: TrayApplication)
        ensures
            !r.activated,
    {
        TrayApplication { activated: false }
    }

    /// Gives the tray the parts of the program, once.
    pub fn activate(&mut self)
        requires
            !old(self).activated,
        ensures
            final(self).activated,
    {
        self.activated = true;
    }

    /// The menu. `input` is what the parts show, where there are any.
    pub fn view(
        input: Option<&TrayInput>,
        status: ApplicationStatus,
        availability: DiagnosticsAvailability,
    ) -> (r: TrayView)
        ensures
            match input {
                Some(input) => shows(r, *input),
                None => shows_lifecycle(r, status),
            },
            shows_diagnostics(r.diagnostics, availability),
    {
        let view = match input {
            Some(input) => project(input),
            None => lifecycle_only_view(status),
        };
        TrayView {
            primary: view.primary,
            detail: view.detail,
            warning: view.warning,
            commands_enabled: view.commands_enabled,
            automatic_checked: view.automatic_checked,
            protect_on_battery_checked: view.protect_on_battery_checked,
            keep_awake: view.keep_awake,
            detection: view.detection,
            launch_at_login: view.launch_at_login,
            updater: view.updater,
            diagnostics: diagnostics_view(availability),
        }
    }

    /// Where a command goes. The program can always be quit and asked for
    /// diagnostics; everything else needs a program that runs.
    pub fn execute(&self, command: TrayCommand, status: ApplicationStatus) -> (r: TrayRoute)
        ensures
            r == route_of(command, status, self.activated),
    {
        match command {
            TrayCommand::Quit => TrayRoute::Finished(TrayCommandOutcome::QuitRequested),
            TrayCommand::CopyDiagnostics => TrayRoute::CopyDiagnostics,
            TrayCommand::OpenLogs => TrayRoute::OpenLogs,
            _ => if is_running(status) && self.activated {
                TrayRoute::Product(command)
            } else {
                TrayRoute::Finished(TrayCommandOutcome::Ignored)
            },
        }
    }

    /// What came of copying the diagnostics. Where they were not to be had the
    /// menu was out of date, and that is no failure.
    pub fn copied(result: Result<(), DiagnosticActionFailure>) -> (r: TrayCommandOutcome)
        ensures
            r == copy_outcome(result),
    {
        match result {
            Ok(()) => TrayCommandOutcome::RefreshRequested,
            Err(DiagnosticActionFailure::Unavailable) => TrayCommandOutcome::Ignored,
            Err(_) => TrayCommandOutcome::CopyDiagnosticsFailed,
        }
    }
}

/// The outcome of the command to copy diagnostics.
pub open spec fn copy_outcome(result: Result<(), DiagnosticActionFailure>) -> TrayCommandOutcome {
    match result {
        Ok(_) => TrayCommandOutcome::RefreshRequested,
        Err(DiagnosticActionFailure::Unavailable) => TrayCommandOutcome::Ignored,
        Err(_) => TrayCommandOutcome::CopyDiagnosticsFailed,
    }
}

/// Where a command goes.
pub open spec fn route_of(
    command: TrayCommand,
    status: ApplicationStatus,
    activated: bool,
) -> TrayRoute {
    if command == TrayCommand::Quit {
        TrayRoute::Finished(TrayCommandOutcome::QuitRequested)
    } else if command == TrayCommand::CopyDiagnostics {
        TrayRoute::CopyDiagnostics
    } else if command == TrayCommand::OpenLogs {
        TrayRoute::OpenLogs
    } else if runs(status) && activated {
        TrayRoute::Product(command)
    } else {
        TrayRoute::Finished(TrayCommandOutcome::Ignored)
    }
}

/// Before the program runs, after it has failed and while it ends, no command
/// reaches its parts; quitting always works.
pub proof fn commands_need_a_running_program(
    command: TrayCommand,
    status: ApplicationStatus,
    activated: bool,
)
    ensures
        !runs(status) || !activated ==> !(route_of(command, status, activated) is Product),
        route_of(TrayCommand::Quit, status, activated) == TrayRoute::Finished(
            TrayCommandOutcome::QuitRequested,
        ),
        route_of(command, status, activated) is Product ==> route_of(command, status, activated)
            == TrayRoute::Product(command),
{
}

/// The menu says that the computer is kept awake only where there is a reason
/// for it and the native protection is in force.
pub proof fn protection_is_claimed_only_where_it_is(input: TrayInput)
    ensures
        input.primary_words() == "Keeping awake"@ ==> runs(input.application_status)
            && input.has_any() && input.protection == ProtectionState::Active,
{
    reveal_strlit("Keeping awake");
    reveal_strlit("Starting…");
    reveal_strlit("Startup failed");
    reveal_strlit("Shutting down…");
    reveal_strlit("Protection failed");
    reveal_strlit("Sleep protection could not stop");
    reveal_strlit("Network activity detected, not keeping awake");
    reveal_strlit("Can’t detect network activity");
    reveal_strlit("Keep awake during downloads: Off");
    reveal_strlit("Ready to keep awake");
    let claim = "Keeping awake"@;
    assert(claim.len() == 13 && claim[0] == 'K');
    assert("Starting…"@.len() == 9);
    assert("Startup failed"@.len() == 14);
    assert("Shutting down…"@.len() == 14);
    assert("Protection failed"@.len() == 17);
    assert("Sleep protection could not stop"@.len() == 31);
    assert("Network activity detected, not keeping awake"@.len() == 44);
    assert("Can’t detect network activity"@.len() == 29);
    assert("Keep awake during downloads: Off"@.len() == 32);
    assert("Ready to keep awake"@.len() == 19);
}

/// Whatever does not fit together in a running program is warned of before
/// anything else.
pub proof fn trouble_with_protection_is_warned_of_first(input: TrayInput)
    ensures
        input.inconsistent() || input.manual_failure || input.automatic_failure
            ==> input.warning_words() == Some("Sleep protection needs attention"@),
{
}

/// At most one of the offered choices is in force, and where none is, what is
/// in force is shown in words.
pub proof fn a_choice_is_offered_or_shown(input: TrayInput)
    ensures
        custom_words(
            grace_checks(input.tuning@.grace),
            duration_words(input.tuning@.grace),
        ) is None <==> grace_checks(input.tuning@.grace).contains(true),
        forall|i: int, j: int|
            0 <= i < j < 5 ==> !(#[trigger] grace_checks(input.tuning@.grace)[i]
                && #[trigger] grace_checks(input.tuning@.grace)[j]),
        forall|i: int, j: int|
            0 <= i < j < 3 ==> !(#[trigger] threshold_checks(input.tuning@.rate)[i]
                && #[trigger] threshold_checks(input.tuning@.rate)[j]),
{
}

} // verus!
