//! What the menu is for: what it says in every state of the program.

use super::byte_rate::rate_words;
use super::command::{GracePreset, ThresholdPreset, TrayCommand};
use super::{
    alert_of, copy_outcome, duration_words, remaining_words, route_of, shows, shows_diagnostics,
    shows_lifecycle, SettingsAlert, TrayCommandOutcome, TrayInput, TrayRoute, TrayView,
};
use crate::application::ApplicationStatus;
use crate::automatic_download::AutomaticDownloadState;
use crate::automatic_protection::{AutomaticProtectionSuppression, PowerSource};
use crate::diagnostics::{DiagnosticActionFailure, DiagnosticsAvailability};
use crate::launch_at_login::{LaunchAtLoginFailureStage, Registration};
use crate::manual_session::{text_view, ManualSessionState};
use crate::network_activity::NetworkActivitySourceStatus;
use crate::power_source::PowerSourceObserverHealth;
use crate::settings::{LoadCondition, PersistenceCondition};
use crate::settings::service::HealthModel;
use crate::text::decimal;
use crate::updater::{UpdateAvailability, UpdateStatus, UpdateTrigger};
use crate::wake_coordinator::{ProtectionState, WakeReason};
use vstd::prelude::*;
use vstd::string::*;

verus! {

/// Whether the program takes commands.
pub open spec fn is_up(status: ApplicationStatus) -> bool {
    match status {
        ApplicationStatus::Starting => false,
        ApplicationStatus::Ready => true,
        ApplicationStatus::Degraded => true,
        ApplicationStatus::Failed => false,
        ApplicationStatus::ShuttingDown => false,
        ApplicationStatus::Stopped => false,
    }
}

/// The menu marks the rate that is in force: the first choice exactly where it
/// is 256 KiB per second, the second where it is 1 MiB and the third where it
/// is 5 MiB. A rate that is none of them is shown beside them.
pub proof fn the_rate_in_force_is_marked(view: TrayView, input: TrayInput)
    requires
        shows(view, input),
    ensures
        view.detection.threshold.checked[0] <==> input.tuning@.rate == 262_144,
        view.detection.threshold.checked[1] <==> input.tuning@.rate == 1_048_576,
        view.detection.threshold.checked[2] <==> input.tuning@.rate == 5_242_880,
        view.detection.threshold.custom is None <==> input.tuning@.rate == 262_144
            || input.tuning@.rate == 1_048_576 || input.tuning@.rate == 5_242_880,
        view.detection.threshold.custom is Some ==> view.detection.threshold.custom->0@
            == "Custom — "@ + rate_words(input.tuning@.rate),
{
    let rate = input.tuning@.rate;
    let checks = view.detection.threshold.checked@;
    assert(checks == super::threshold_checks(rate));
    assert(checks.len() == 3);
    assert(checks[0] == view.detection.threshold.checked[0]);
    assert(checks[1] == view.detection.threshold.checked[1]);
    assert(checks[2] == view.detection.threshold.checked[2]);
    if checks.contains(true) {
        let i = choose|i: int| 0 <= i < checks.len() && checks[i] == true;
        assert(i == 0 || i == 1 || i == 2);
    } else {
        assert(!checks[0] && !checks[1] && !checks[2]);
    }
}

/// The menu marks the grace that is in force: the choices are 30 seconds and
/// 2, 5, 15 and 30 minutes, in this order. A grace that is none of them is
/// shown beside them.
pub proof fn the_grace_in_force_is_marked(view: TrayView, input: TrayInput)
    requires
        shows(view, input),
    ensures
        view.detection.grace.checked[0] <==> input.tuning@.grace == 30_000_000_000,
        view.detection.grace.checked[1] <==> input.tuning@.grace == 120_000_000_000,
        view.detection.grace.checked[2] <==> input.tuning@.grace == 300_000_000_000,
        view.detection.grace.checked[3] <==> input.tuning@.grace == 900_000_000_000,
        view.detection.grace.checked[4] <==> input.tuning@.grace == 1_800_000_000_000,
        view.detection.grace.custom is None <==> input.tuning@.grace == 30_000_000_000
            || input.tuning@.grace == 120_000_000_000 || input.tuning@.grace == 300_000_000_000
            || input.tuning@.grace == 900_000_000_000 || input.tuning@.grace == 1_800_000_000_000,
        view.detection.grace.custom is Some ==> view.detection.grace.custom->0@ == "Custom — "@
            + duration_words(input.tuning@.grace),
{
    let checks = view.detection.grace.checked@;
    assert(checks == super::grace_checks(input.tuning@.grace));
    assert(checks.len() == 5);
    assert(checks[0] == view.detection.grace.checked[0]);
    assert(checks[1] == view.detection.grace.checked[1]);
    assert(checks[2] == view.detection.grace.checked[2]);
    assert(checks[3] == view.detection.grace.checked[3]);
    assert(checks[4] == view.detection.grace.checked[4]);
    if checks.contains(true) {
        let i = choose|i: int| 0 <= i < checks.len() && checks[i] == true;
        assert(i == 0 || i == 1 || i == 2 || i == 3 || i == 4);
    } else {
        assert(!checks[0] && !checks[1] && !checks[2] && !checks[3] && !checks[4]);
    }
}

/// The first line says what the program does: each of its sentences stands for
/// one situation, and in every situation it is one of them.
pub proof fn the_first_line_says_what_the_program_does(view: TrayView, input: TrayInput)
    requires
        shows(view, input),
    ensures
        ({
            let running = is_up(input.application_status);
            let reasons = input.wake_reasons@.len() > 0;
            let active = input.protection == ProtectionState::Active;
            let quiet = running && !reasons && !active;
            let held_back = input.detector_intent && input.suppression is Some;
            let watching = input.network_status == NetworkActivitySourceStatus::Available;
            let allowed = input.automatic_settings.automatic_download_protection_enabled;
            &&& view.primary@ == "Starting…"@ <==> input.application_status
                == ApplicationStatus::Starting
            &&& view.primary@ == "Startup failed"@ <==> input.application_status
                == ApplicationStatus::Failed
            &&& view.primary@ == "Shutting down…"@ <==> input.application_status
                == ApplicationStatus::ShuttingDown || input.application_status
                == ApplicationStatus::Stopped
            &&& view.primary@ == "Protection failed"@ <==> running && reasons && !active
            &&& view.primary@ == "Sleep protection could not stop"@ <==> running && !reasons && active
            &&& view.primary@ == "Keeping awake"@ <==> running && reasons && active
            &&& view.primary@ == "Network activity detected, not keeping awake"@ <==> quiet && held_back
            &&& view.primary@ == "Can’t detect network activity"@ <==> quiet && !held_back && !watching
            &&& view.primary@ == "Keep awake during downloads: Off"@ <==> quiet && !held_back
                && watching && !allowed
            &&& view.primary@ == "Ready to keep awake"@ <==> quiet && !held_back && watching && allowed
        }),
        view.commands_enabled <==> is_up(input.application_status),
{
    reveal_strlit("Starting…");
    reveal_strlit("Startup failed");
    reveal_strlit("Shutting down…");
    reveal_strlit("Protection failed");
    reveal_strlit("Sleep protection could not stop");
    reveal_strlit("Keeping awake");
    reveal_strlit("Network activity detected, not keeping awake");
    reveal_strlit("Can’t detect network activity");
    reveal_strlit("Keep awake during downloads: Off");
    reveal_strlit("Ready to keep awake");
    assert("Starting…"@.len() == 9);
    assert("Startup failed"@.len() == 14);
    assert("Shutting down…"@.len() == 14);
    assert("Protection failed"@.len() == 17);
    assert("Sleep protection could not stop"@.len() == 31);
    assert("Keeping awake"@.len() == 13);
    assert("Network activity detected, not keeping awake"@.len() == 44);
    assert("Can’t detect network activity"@.len() == 29);
    assert("Keep awake during downloads: Off"@.len() == 32);
    assert("Ready to keep awake"@.len() == 19);
    assert("Startup failed"@[1] != "Shutting down…"@[1]);
}

/// The reasons to stay awake are named exactly where there are any, each in
/// its own words, and an idle program that cannot let go says so.
pub proof fn reasons_are_named(view: TrayView, input: TrayInput)
    requires
        shows(view, input),
    ensures
        ({
            let automatic = input.wake_reasons@.contains(WakeReason::AutomaticDownload);
            let manual = input.wake_reasons@.contains(WakeReason::ManualKeepAwake);
            let download = match input.detector_state {
                AutomaticDownloadState::Hold { remaining_grace } => "Recent network activity — "@
                    + remaining_words(remaining_grace@),
                AutomaticDownloadState::Active => if input.receive_rate is Some {
                    "Network activity — "@ + rate_words(input.receive_rate->0 as nat)
                } else {
                    "Network activity"@
                },
                AutomaticDownloadState::Idle => "Network activity"@,
            };
            let session = match input.manual_state {
                ManualSessionState::Finite { remaining } => "Manual — "@ + remaining_words(
                    remaining@,
                ),
                ManualSessionState::UntilDisabled => "Manual — until disabled"@,
                ManualSessionState::Inactive => "Manual"@,
            };
            let active = input.protection == ProtectionState::Active;
            &&& automatic && manual ==> text_view(view.detail) == Some(
                "Reasons: "@ + download + "; "@ + session,
            )
            &&& automatic && !manual ==> text_view(view.detail) == Some("Reason: "@ + download)
            &&& !automatic && manual ==> text_view(view.detail) == Some("Reason: "@ + session)
            &&& input.wake_reasons@.len() == 0 && active ==> text_view(view.detail) == Some(
                "No wake reason remains"@,
            )
            &&& input.wake_reasons@.len() == 0 && !active && !input.detector_intent
                ==> view.detail is None
            &&& input.wake_reasons@.len() == 0 && !active && input.suppression is None
                ==> view.detail is None
            &&& input.wake_reasons@.len() == 0 && !active && input.detector_intent
                && input.suppression == Some(AutomaticProtectionSuppression::AutomaticDisabled)
                ==> text_view(view.detail) == Some("Keep awake during downloads: Off"@)
            &&& input.wake_reasons@.len() == 0 && !active && input.detector_intent
                && input.suppression == Some(AutomaticProtectionSuppression::LimitedPower)
                ==> text_view(view.detail) == Some("Paused on battery or limited power"@)
            &&& input.wake_reasons@.len() == 0 && !active && input.detector_intent
                && input.suppression == Some(AutomaticProtectionSuppression::UnknownPower)
                ==> text_view(view.detail) == Some("Power source unknown"@)
        }),
{
    if input.wake_reasons@.contains(WakeReason::AutomaticDownload)
        || input.wake_reasons@.contains(WakeReason::ManualKeepAwake) {
        assert(input.wake_reasons@.len() > 0);
    }
}

/// Whether something is wrong with protection itself.
pub open spec fn protection_trouble(input: TrayInput) -> bool {
    let manual = input.wake_reasons@.contains(WakeReason::ManualKeepAwake);
    let automatic = input.wake_reasons@.contains(WakeReason::AutomaticDownload);
    ||| input.manual_failure
    ||| input.automatic_failure
    ||| manual <==> input.manual_state == ManualSessionState::Inactive
    ||| automatic != input.desired_automatic_reason
    ||| input.detector_intent <==> input.detector_state == AutomaticDownloadState::Idle
    ||| (input.wake_reasons@.len() > 0) != (input.protection == ProtectionState::Active)
}

/// Whether something is wrong with starting at login.
pub open spec fn launch_trouble(input: TrayInput) -> bool {
    ||| !input.launch_at_login_available
    ||| input.launch_at_login_failure is Some
    ||| input.launch_at_login_desired && input.launch_at_login_observed != Registration::Enabled
    ||| !input.launch_at_login_desired && input.launch_at_login_observed != Registration::Disabled
}

/// Whether an update failed that was searched for in this way.
pub open spec fn update_trouble(input: TrayInput, trigger: UpdateTrigger) -> bool {
    input.updater.status is Failed && input.updater.status->trigger == trigger
}

/// Whether something is wrong with watching the network.
pub open spec fn network_trouble(input: TrayInput) -> bool {
    input.network_failure || input.network_status != NetworkActivitySourceStatus::Available
}

/// Whether something is wrong with watching the power source.
pub open spec fn power_trouble(input: TrayInput) -> bool {
    input.power_failure || input.power_health != PowerSourceObserverHealth::Observing
}

/// The menu warns exactly where something is wrong, and of the gravest thing:
/// of protection before everything else, then of settings that cannot be
/// saved, of starting at login, of an update that the user asked for, of the
/// network, of the power source, of an update that nobody asked for, and last
/// of settings that were recovered.
pub proof fn the_gravest_trouble_is_warned_of(view: TrayView, input: TrayInput)
    requires
        shows(view, input),
        is_up(input.application_status),
    ensures
        ({
            let warning = text_view(view.warning);
            let first = protection_trouble(input);
            let second = first || input.settings_alert == SettingsAlert::SaveFailed;
            let third = second || input.settings_alert == SettingsAlert::Unavailable;
            let fourth = third || launch_trouble(input);
            let fifth = fourth || update_trouble(input, UpdateTrigger::Manual);
            let sixth = fifth || network_trouble(input);
            let seventh = sixth || power_trouble(input);
            let eighth = seventh || update_trouble(input, UpdateTrigger::Automatic);
            let ninth = eighth || input.settings_alert == SettingsAlert::Recovered;
            &&& warning is Some <==> ninth
            &&& first ==> warning == Some("Sleep protection needs attention"@)
            &&& !first && second ==> warning == Some("Settings could not be saved"@)
            &&& !second && third ==> warning == Some("Settings changes are unavailable"@)
            &&& !third && fourth ==> warning == input.launch_warning()
            &&& !fourth && fifth ==> warning == Some(
                super::update_failure_words(input.updater.status->stage),
            )
            &&& !fifth && sixth ==> warning == Some("Keep awake during downloads is unavailable"@)
            &&& !sixth && seventh ==> warning == Some("Power source monitoring is unavailable"@)
            &&& !seventh && eighth ==> warning == Some(
                super::update_failure_words(input.updater.status->stage),
            )
            &&& !eighth && ninth ==> warning == Some(
                "Settings were recovered using safe defaults"@,
            )
        }),
{
    launch_warnings_say_what_is_wrong(input);
}

/// A program that does not run warns of nothing.
pub proof fn only_a_running_program_warns(view: TrayView, input: TrayInput)
    requires
        shows(view, input),
        !is_up(input.application_status),
    ensures
        view.warning is None,
        !view.commands_enabled,
        !view.launch_at_login.enabled,
        !view.updater.automatic_enabled,
        !view.updater.check_enabled,
{
}

/// Starting at login is warned of exactly where something is wrong with it,
/// and the warning says what could not be done.
pub proof fn launch_warnings_say_what_is_wrong(input: TrayInput)
    ensures
        ({
            let warning = input.launch_warning();
            let failure = input.launch_at_login_failure;
            let there = input.launch_at_login_available;
            let verify = failure == Some(LaunchAtLoginFailureStage::Verify);
            let unseen = input.launch_at_login_observed == Registration::Unknown;
            &&& warning is Some <==> launch_trouble(input)
            &&& warning == Some("Launch at login is unavailable"@) <==> !there || failure == Some(
                LaunchAtLoginFailureStage::Initialize,
            )
            &&& warning == Some("Launch at login could not be enabled"@) <==> there && (failure
                == Some(LaunchAtLoginFailureStage::Enable) || verify && !unseen
                && input.launch_at_login_desired)
            &&& warning == Some("Launch at login could not be disabled"@) <==> there && (failure
                == Some(LaunchAtLoginFailureStage::Disable) || verify && !unseen
                && !input.launch_at_login_desired)
            &&& warning == Some("Launch-at-login status could not be verified"@) <==> there && (
            verify && unseen || failure is None && launch_trouble(input))
        }),
{
    reveal_strlit("Launch at login is unavailable");
    reveal_strlit("Launch at login could not be enabled");
    reveal_strlit("Launch at login could not be disabled");
    reveal_strlit("Launch-at-login status could not be verified");
    assert("Launch at login is unavailable"@.len() == 30);
    assert("Launch at login could not be enabled"@.len() == 36);
    assert("Launch at login could not be disabled"@.len() == 37);
    assert("Launch-at-login status could not be verified"@.len() == 44);
}

/// The menu shows the switches as they are in force, and the session, the
/// detector and the power source as they are.
pub proof fn the_menu_shows_what_is_in_force(view: TrayView, input: TrayInput)
    requires
        shows(view, input),
    ensures
        view.automatic_checked == input.automatic_settings.automatic_download_protection_enabled,
        view.protect_on_battery_checked == input.automatic_settings.protect_on_battery,
        view.launch_at_login.checked == input.launch_at_login_desired,
        view.launch_at_login.enabled <==> is_up(input.application_status)
            && input.launch_at_login_available,
        input.launch_at_login_available ==> view.launch_at_login.label@ == "Launch at login"@,
        !input.launch_at_login_available ==> view.launch_at_login.label@
            == "Launch at login — unavailable"@,
        view.keep_awake is Inactive <==> input.manual_state == ManualSessionState::Inactive,
        view.keep_awake is UntilDisabled <==> input.manual_state
            == ManualSessionState::UntilDisabled,
        input.manual_state is Finite ==> view.keep_awake is Finite
            && view.keep_awake->remaining@ == remaining_words(input.manual_state->remaining@),
        input.detector_state == AutomaticDownloadState::Idle ==> view.detection.state@
            == "Waiting"@,
        input.detector_state == AutomaticDownloadState::Active ==> view.detection.state@
            == "Active"@,
        input.detector_state is Hold ==> view.detection.state@ == "Grace — "@ + remaining_words(
            input.detector_state->remaining_grace@,
        ),
        input.power_source == PowerSource::External ==> view.detection.power_source@
            == "External power"@,
        input.power_source == PowerSource::Limited ==> view.detection.power_source@
            == "Battery or limited power"@,
        input.power_source == PowerSource::Unknown ==> view.detection.power_source@ == "Unknown"@,
        view.detection.receive_rate is Some <==> input.receive_rate is Some,
        input.receive_rate is Some ==> view.detection.receive_rate->0@ == rate_words(
            input.receive_rate->0 as nat,
        ),
{
}

/// Updates can be searched for while the program runs, an updater is there and
/// nothing is under way, and installed where one was found.
pub proof fn updates_are_offered_where_they_can_be_had(view: TrayView, input: TrayInput)
    requires
        shows(view, input),
    ensures
        ({
            let there = input.updater.availability == UpdateAvailability::Available;
            let up = is_up(input.application_status);
            let status = input.updater.status;
            let busy = status is Checking || status is AwaitingConfirmation || status is Downloading
                || status is Installing;
            &&& view.updater.automatic_checked == input.updater.automatic_checks_enabled
            &&& view.updater.automatic_enabled <==> there && up
            &&& view.updater.check_enabled <==> there && up && !busy
            &&& !there ==> view.updater.result is None && view.updater.install is None
            &&& view.updater.install is Some <==> there && (status is UpdateAvailable
                || status is Failed && status->pending is Some)
            &&& view.updater.install is Some ==> (view.updater.install->0).1 == up
            &&& there ==> (view.updater.result is None <==> status == UpdateStatus::Idle
                || status is Checking)
            &&& there && status == UpdateStatus::UpToDate ==> view.updater.result->0@
                == "Up to date"@
            &&& there && status is AwaitingConfirmation ==> view.updater.result->0@
                == "Waiting for update confirmation…"@
            &&& there && status is Installing ==> view.updater.result->0@ == "Installing update…"@
            &&& there && status is Downloading && status->percent is None
                ==> view.updater.result->0@ == "Downloading update…"@
            &&& there && status is Downloading && status->percent is Some
                ==> view.updater.result->0@ == "Downloading update… "@ + decimal(
                status->percent->0 as nat,
            ) + "%"@
            &&& there && status is UpdateAvailable && status->UpdateAvailable_version is Some ==> {
                &&& view.updater.result->0@ == "Update available — Chiù "@
                    + status->UpdateAvailable_version->0@
                &&& (view.updater.install->0).0@ == "Install Chiù "@
                    + status->UpdateAvailable_version->0@ + "…"@
            }
            &&& there && status is UpdateAvailable && status->UpdateAvailable_version is None ==> {
                &&& view.updater.result->0@ == "Update available"@
                &&& (view.updater.install->0).0@ == "Install Chiù update…"@
            }
            &&& there && status is Checking ==> view.updater.check_label@
                == "Checking for updates…"@
            &&& there && !(status is Checking) ==> view.updater.check_label@
                == "Check for updates…"@
        }),
{
}

/// A remaining time is given in minutes that are rounded up, with whole hours
/// named as such: of so many hours and minutes exactly where it is longer than
/// one minute less and no longer than that.
pub proof fn remaining_times_are_rounded_up(nanos: nat, hours: nat, minutes: nat)
    requires
        minutes < 60,
    ensures
        nanos < 60_000_000_000 ==> remaining_words(nanos) == "<1 min remaining"@,
        nanos >= 60_000_000_000 && (60 * hours + minutes - 1) * 60_000_000_000 < nanos <= (60
            * hours + minutes) * 60_000_000_000 ==> remaining_words(nanos) == if hours == 0 {
            decimal(minutes) + " min remaining"@
        } else if minutes == 0 {
            decimal(hours) + " h remaining"@
        } else {
            decimal(hours) + " h "@ + decimal(minutes) + " min remaining"@
        },
{
    if nanos >= 60_000_000_000 && (60 * hours + minutes - 1) * 60_000_000_000 < nanos <= (60 * hours
        + minutes) * 60_000_000_000 {
        let counted = (nanos + 60_000_000_000 - 1) as nat / 60_000_000_000;
        assert(counted == 60 * hours + minutes);
        assert(counted / 60 == hours && counted % 60 == minutes);
    }
}

/// A time is given in its greatest whole unit: minutes, seconds or
/// milliseconds.
pub proof fn times_are_given_in_their_greatest_unit(count: nat, nanos: nat)
    ensures
        count != 1 ==> duration_words(count * 60_000_000_000) == decimal(count) + " "@ + "minute"@
            + "s"@,
        duration_words(60_000_000_000) == decimal(1) + " "@ + "minute"@,
        count % 60 != 0 && count != 1 ==> duration_words(count * 1_000_000_000) == decimal(count)
            + " "@ + "second"@ + "s"@,
        duration_words(1_000_000_000) == decimal(1) + " "@ + "second"@,
        count % 1_000 != 0 ==> duration_words(count * 1_000_000) == decimal(count) + " ms"@,
        duration_words(nanos) == duration_words((nanos - nanos % 1_000_000) as nat),
{
    assert(count * 60_000_000_000 / 1_000_000 == count * 60_000);
    assert((count * 60_000) % 60_000 == 0);
    assert((count * 60_000) / 60_000 == count);
    assert(count * 1_000_000_000 / 1_000_000 == count * 1_000);
    assert((count * 1_000) % 1_000 == 0);
    assert((count * 1_000) / 1_000 == count);
    assert((count * 1_000) % 60_000 == 1_000 * (count % 60));
    assert(count * 1_000_000 / 1_000_000 == count);
    assert(count % 1_000 != 0 ==> count % 60_000 != 0);
}

/// A failed save is the gravest thing about settings, then that they cannot be
/// saved at all, and then that something was recovered or left behind.
pub proof fn alerts_name_the_gravest_thing(health: HealthModel)
    ensures
        ({
            let blocked = health.persistence != PersistenceCondition::Writable || health.condition
                == LoadCondition::PersistenceUnavailable
                || health.condition is UnsupportedFutureSchema;
            let whole = (health.condition == LoadCondition::FirstRun || health.condition
                == LoadCondition::CurrentVersion) && health.recoveries.len() == 0
                && health.warnings.len() == 0;
            let failed = health.save_failure is Some;
            &&& alert_of(health) == SettingsAlert::SaveFailed <==> failed
            &&& alert_of(health) == SettingsAlert::Unavailable <==> !failed && blocked
            &&& alert_of(health) == SettingsAlert::Recovered <==> !failed && !blocked && !whole
            &&& alert_of(health) == SettingsAlert::Clear <==> !failed && !blocked && whole
        }),
{
}

/// Diagnostics are offered exactly where they are to be had, and labelled so.
pub proof fn diagnostics_are_labelled(view: TrayView, availability: DiagnosticsAvailability)
    requires
        shows_diagnostics(view.diagnostics, availability),
    ensures
        view.diagnostics.copy_enabled <==> availability.copy,
        view.diagnostics.open_logs_enabled <==> availability.open_logs,
        view.diagnostics.copy_label@ == if availability.copy {
            "Copy diagnostics"@
        } else {
            "Copy diagnostics — unavailable"@
        },
        view.diagnostics.open_logs_label@ == if availability.open_logs {
            "Open logs"@
        } else {
            "Open logs — unavailable"@
        },
{
}

/// A menu without parts to show offers nothing and claims nothing.
pub proof fn a_menu_without_parts_offers_nothing(view: TrayView, status: ApplicationStatus)
    requires
        shows_lifecycle(view, status),
    ensures
        view.primary@ == if status == ApplicationStatus::Failed {
            "Startup failed"@
        } else if status == ApplicationStatus::ShuttingDown || status
            == ApplicationStatus::Stopped {
            "Shutting down…"@
        } else {
            "Starting…"@
        },
        view.detail is None && view.warning is None,
        !view.commands_enabled && !view.automatic_checked && !view.protect_on_battery_checked,
        view.keep_awake is Inactive,
        forall|i: int| 0 <= i < 3 ==> !#[trigger] view.detection.threshold.checked@[i],
        forall|i: int| 0 <= i < 5 ==> !#[trigger] view.detection.grace.checked@[i],
        view.detection.threshold.custom is None && view.detection.grace.custom is None,
        view.detection.receive_rate is None,
        !view.launch_at_login.enabled && !view.launch_at_login.checked,
        !view.updater.automatic_enabled && !view.updater.check_enabled
            && !view.updater.automatic_checked,
        view.updater.result is None && view.updater.install is None,
{
}

/// Every command of the menu but the way out and the diagnostics goes to the
/// parts of the program while it runs, and nowhere else while it does not.
pub proof fn commands_go_where_they_belong(
    command: TrayCommand,
    status: ApplicationStatus,
    activated: bool,
)
    ensures
        ({
            let route = route_of(command, status, activated);
            let own = command == TrayCommand::Quit || command == TrayCommand::CopyDiagnostics
                || command == TrayCommand::OpenLogs;
            &&& route == TrayRoute::Product(command) <==> !own && activated && is_up(status)
            &&& route == TrayRoute::Finished(TrayCommandOutcome::Ignored) <==> !own && !(activated
                && is_up(status))
            &&& route == TrayRoute::Finished(TrayCommandOutcome::QuitRequested) <==> command
                == TrayCommand::Quit
            &&& route == TrayRoute::CopyDiagnostics <==> command == TrayCommand::CopyDiagnostics
            &&& route == TrayRoute::OpenLogs <==> command == TrayCommand::OpenLogs
        }),
{
}

/// The presets are what they are called.
pub proof fn presets_are_what_they_are_called(threshold: ThresholdPreset, grace: GracePreset)
    ensures
        threshold.rate() == 262_144 <==> threshold == ThresholdPreset::Kibibytes256,
        threshold.rate() == 1_048_576 <==> threshold == ThresholdPreset::Mebibyte1,
        threshold.rate() == 5_242_880 <==> threshold == ThresholdPreset::Mebibytes5,
        grace.seconds() == 30 <==> grace == GracePreset::Seconds30,
        grace.seconds() == 2 * 60 <==> grace == GracePreset::Minutes2,
        grace.seconds() == 5 * 60 <==> grace == GracePreset::Minutes5,
        grace.seconds() == 15 * 60 <==> grace == GracePreset::Minutes15,
        grace.seconds() == 30 * 60 <==> grace == GracePreset::Minutes30,
{
}

/// A failure to copy diagnostics is told, unless they cannot be had any more,
/// and copying never ends the program.
pub proof fn failures_to_copy_are_told(result: Result<(), DiagnosticActionFailure>)
    ensures
        copy_outcome(result) == TrayCommandOutcome::RefreshRequested <==> result is Ok,
        copy_outcome(result) == TrayCommandOutcome::Ignored <==> result is Err && result->Err_0
            == DiagnosticActionFailure::Unavailable,
        copy_outcome(result) == TrayCommandOutcome::CopyDiagnosticsFailed <==> result is Err
            && result->Err_0 != DiagnosticActionFailure::Unavailable,
{
}

} // verus!
