//! The menu of the tray, and its commands.

use chiu::application::{
    ApplicationLifecycle, ApplicationStatus, LifecyclePlan, LifecycleStep,
};
use chiu::automatic_download::{AutomaticDownloadSettings, AutomaticDownloadState};
use chiu::automatic_protection::{
    AutomaticProtectionSettings, AutomaticProtectionSuppression, PowerSource,
};
use chiu::diagnostics::{DiagnosticActionFailure, DiagnosticsAvailability, DiagnosticsService};
use chiu::duration::Duration;
use chiu::launch_at_login::{LaunchAtLoginFailureStage, Registration};
use chiu::local_log::LocalLog;
use chiu::manual_session::{ManualSessionCommand, ManualSessionStartPreset, ManualSessionState};
use chiu::network_activity::NetworkActivitySourceStatus;
use chiu::power_source::PowerSourceObserverHealth;
use chiu::tray::byte_rate::format_byte_rate;
use chiu::tray::command::{all_commands, GracePreset, ThresholdPreset, TrayCommand};
use chiu::tray::{
    format_duration_value, format_remaining, install_label, project, update_available_label,
    update_failure_label, KeepAwakeView, SettingsAlert, TrayApplication, TrayCommandOutcome,
    TrayInput, TrayRoute,
};
use chiu::updater::{
    PendingUpdateView, UpdateAvailability, UpdateFailureStage, UpdateStatus, UpdateTrigger,
    UpdaterSnapshot,
};
use chiu::wake_coordinator::{ProtectionState, WakeReason};
use std::collections::HashSet;

fn normal_input() -> TrayInput {
    TrayInput {
        application_status: ApplicationStatus::Ready,
        manual_state: ManualSessionState::Inactive,
        manual_failure: false,
        detector_state: AutomaticDownloadState::Idle,
        receive_rate: None,
        tuning: AutomaticDownloadSettings::default(),
        automatic_settings: AutomaticProtectionSettings::new(true, false),
        detector_intent: false,
        desired_automatic_reason: false,
        suppression: None,
        automatic_failure: false,
        network_status: NetworkActivitySourceStatus::Available,
        network_failure: false,
        power_source: PowerSource::External,
        power_health: PowerSourceObserverHealth::Observing,
        power_failure: false,
        settings_alert: SettingsAlert::Clear,
        launch_at_login_available: true,
        launch_at_login_desired: true,
        launch_at_login_observed: Registration::Enabled,
        launch_at_login_failure: None,
        updater: UpdaterSnapshot {
            availability: UpdateAvailability::Unconfigured,
            automatic_checks_enabled: true,
            status: UpdateStatus::Idle,
        },
        wake_reasons: Vec::new(),
        protection: ProtectionState::Inactive,
    }
}

#[test]
fn launch_at_login_view_uses_saved_preference_and_explicit_availability() {
    let mut input = normal_input();

    let available = project(&input).launch_at_login;
    assert_eq!(available.label, "Launch at login");
    assert!(available.enabled);
    assert!(available.checked);

    input.launch_at_login_available = false;
    input.launch_at_login_observed = Registration::Unknown;
    input.launch_at_login_failure = Some(LaunchAtLoginFailureStage::Initialize);
    let unavailable_view = project(&input);
    let unavailable = unavailable_view.launch_at_login;
    assert_eq!(unavailable.label, "Launch at login — unavailable");
    assert!(!unavailable.enabled);
    assert!(unavailable.checked);
    assert_eq!(
        unavailable_view.warning.as_deref(),
        Some("Launch at login is unavailable")
    );
}

#[test]
fn updater_projection_preserves_preference_manual_access_and_pending_install() {
    let mut input = normal_input();
    input.updater = UpdaterSnapshot {
        availability: UpdateAvailability::Available,
        automatic_checks_enabled: false,
        status: UpdateStatus::UpdateAvailable {
            version: Some("1.2.3".to_owned()),
        },
    };

    let updater = project(&input).updater;

    assert_eq!(updater.automatic_label, "Automatically check for updates");
    assert!(updater.automatic_enabled);
    assert!(!updater.automatic_checked);
    assert!(updater.check_enabled);
    assert_eq!(
        updater.result.as_deref(),
        Some("Update available — Chiù 1.2.3")
    );
    assert_eq!(
        updater.install,
        Some(("Install Chiù 1.2.3…".to_owned(), true))
    );
}

#[test]
fn updater_operation_and_failure_project_truthfully_without_hiding_core_warning() {
    let mut input = normal_input();
    input.updater = UpdaterSnapshot {
        availability: UpdateAvailability::Available,
        automatic_checks_enabled: true,
        status: UpdateStatus::Downloading {
            version: Some("1.2.3".to_owned()),
            percent: Some(42),
        },
    };
    let downloading = project(&input);
    assert!(!downloading.updater.check_enabled);
    assert_eq!(
        downloading.updater.result.as_deref(),
        Some("Downloading update… 42%")
    );

    input.updater.status = UpdateStatus::Failed {
        stage: UpdateFailureStage::Verification,
        trigger: UpdateTrigger::Manual,
        pending: Some(PendingUpdateView::Version("1.2.3".to_owned())),
    };
    assert_eq!(
        project(&input).warning.as_deref(),
        Some("Update verification failed")
    );

    input.manual_failure = true;
    assert_eq!(
        project(&input).warning.as_deref(),
        Some("Sleep protection needs attention")
    );
}

fn failed_lifecycle() -> ApplicationLifecycle {
    let mut lifecycle = LifecyclePlan::new().build();
    assert_eq!(lifecycle.start(), LifecycleStep::RestoreSettings);
    let failed = lifecycle.restored(Err("settings unavailable".to_owned()));
    assert!(
        matches!(failed, LifecycleStep::StartFailed(_)),
        "startup should fail"
    );
    lifecycle
}

#[test]
fn unattached_tray_projects_startup_failure_and_accepts_only_quit() {
    let application = TrayApplication::new();
    let unavailable = DiagnosticsAvailability {
        copy: false,
        open_logs: false,
    };

    let starting = TrayApplication::view(
        None,
        LifecyclePlan::new().build().state().status(),
        unavailable,
    );
    assert_eq!(starting.primary, "Starting…");
    assert!(!starting.commands_enabled);

    let status = failed_lifecycle().state().status();

    let failed = TrayApplication::view(None, status, unavailable);
    assert_eq!(failed.primary, "Startup failed");
    assert!(!failed.commands_enabled);
    for command in [
        TrayCommand::ToggleAutomaticProtection,
        TrayCommand::ToggleProtectOnBattery,
        TrayCommand::Manual(ManualSessionCommand::Start(
            ManualSessionStartPreset::FifteenMinutes,
        )),
        TrayCommand::SetThreshold(ThresholdPreset::Kibibytes256),
        TrayCommand::SetGrace(GracePreset::Seconds30),
        TrayCommand::ToggleLaunchAtLogin,
    ] {
        assert_eq!(
            application.execute(command, status),
            TrayRoute::Finished(TrayCommandOutcome::Ignored),
            "{}",
            command.id()
        );
    }
    assert_eq!(
        application.execute(TrayCommand::Quit, status),
        TrayRoute::Finished(TrayCommandOutcome::QuitRequested)
    );
}

#[test]
fn startup_failure_keeps_diagnostics_available_on_the_recovery_surface() {
    let log = LocalLog::with_writer("/test/chiu/logs".to_owned());
    let mut diagnostics = DiagnosticsService::new(true);
    let application = TrayApplication::new();
    let status = failed_lifecycle().state().status();

    let view = TrayApplication::view(None, status, diagnostics.availability(&log));
    assert!(!view.commands_enabled);
    assert!(view.diagnostics.copy_enabled);
    assert!(view.diagnostics.open_logs_enabled);
    assert_eq!(
        application.execute(TrayCommand::CopyDiagnostics, status),
        TrayRoute::CopyDiagnostics
    );
    let mut events = Vec::new();
    let copied = diagnostics.copy(&log, &mut events);
    assert_eq!(
        TrayApplication::copied(copied),
        TrayCommandOutcome::RefreshRequested
    );
    assert_eq!(
        application.execute(TrayCommand::OpenLogs, status),
        TrayRoute::OpenLogs
    );
    assert_eq!(
        diagnostics.open_logs(&log, &mut events).as_deref(),
        Ok("/test/chiu/logs")
    );

    diagnostics.begin_shutdown();
    let shutdown_view = TrayApplication::view(None, status, diagnostics.availability(&log));
    assert!(!shutdown_view.diagnostics.copy_enabled);
    assert!(!shutdown_view.diagnostics.open_logs_enabled);
}

#[test]
fn lifecycle_status_has_precedence_and_gates_product_commands() {
    for (status, primary, enabled) in [
        (ApplicationStatus::Starting, "Starting…", false),
        (ApplicationStatus::Failed, "Startup failed", false),
        (ApplicationStatus::ShuttingDown, "Shutting down…", false),
        (ApplicationStatus::Stopped, "Shutting down…", false),
        (ApplicationStatus::Ready, "Ready to keep awake", true),
        (ApplicationStatus::Degraded, "Ready to keep awake", true),
    ] {
        let mut input = normal_input();
        input.application_status = status;

        let view = project(&input);

        assert_eq!(view.primary, primary);
        assert_eq!(view.commands_enabled, enabled);
    }
}

#[test]
fn coordinator_truth_drives_protection_status_and_reason_text() {
    let mut input = normal_input();
    input.manual_state = ManualSessionState::Finite {
        remaining: Duration::from_secs(65 * 60),
    };
    input.detector_state = AutomaticDownloadState::Hold {
        remaining_grace: Duration::from_secs(61),
    };
    input.detector_intent = true;
    input.desired_automatic_reason = true;
    input.wake_reasons = vec![WakeReason::AutomaticDownload, WakeReason::ManualKeepAwake];
    input.protection = ProtectionState::Active;

    let protected = project(&input);

    assert_eq!(protected.primary, "Keeping awake");
    assert_eq!(
        protected.detail.as_deref(),
        Some("Reasons: Recent network activity — 2 min remaining; Manual — 1 h 5 min remaining")
    );

    input.protection = ProtectionState::Inactive;
    assert_eq!(project(&input).primary, "Protection failed");

    input.wake_reasons.clear();
    input.manual_state = ManualSessionState::Inactive;
    input.detector_state = AutomaticDownloadState::Idle;
    input.detector_intent = false;
    input.desired_automatic_reason = false;
    input.protection = ProtectionState::Active;
    let release_failed = project(&input);
    assert_eq!(release_failed.primary, "Sleep protection could not stop");
    assert_eq!(
        release_failed.detail.as_deref(),
        Some("No wake reason remains")
    );
}

#[test]
fn manual_reason_wording_is_exact() {
    let mut input = normal_input();
    input.manual_state = ManualSessionState::Finite {
        remaining: Duration::from_secs(60),
    };
    input.wake_reasons = vec![WakeReason::ManualKeepAwake];
    input.protection = ProtectionState::Active;
    assert_eq!(
        project(&input).detail.as_deref(),
        Some("Reason: Manual — 1 min remaining")
    );
}

#[test]
fn automatic_reason_distinguishes_current_rate_from_recent_activity() {
    for (state, receive_rate, manual_state, wake_reasons, expected) in [
        (
            AutomaticDownloadState::Active,
            Some(3 * 1024 * 1024),
            ManualSessionState::Inactive,
            vec![WakeReason::AutomaticDownload],
            "Reason: Network activity — 3 MB/s",
        ),
        (
            AutomaticDownloadState::Active,
            None,
            ManualSessionState::Inactive,
            vec![WakeReason::AutomaticDownload],
            "Reason: Network activity",
        ),
        (
            AutomaticDownloadState::Hold {
                remaining_grace: Duration::from_secs(61),
            },
            Some(3 * 1024 * 1024),
            ManualSessionState::Inactive,
            vec![WakeReason::AutomaticDownload],
            "Reason: Recent network activity — 2 min remaining",
        ),
        (
            AutomaticDownloadState::Idle,
            Some(3 * 1024 * 1024),
            ManualSessionState::Inactive,
            vec![WakeReason::AutomaticDownload],
            "Reason: Network activity",
        ),
        (
            AutomaticDownloadState::Active,
            Some(3 * 1024 * 1024),
            ManualSessionState::Finite {
                remaining: Duration::from_secs(60),
            },
            vec![WakeReason::AutomaticDownload, WakeReason::ManualKeepAwake],
            "Reasons: Network activity — 3 MB/s; Manual — 1 min remaining",
        ),
    ] {
        let mut input = normal_input();
        input.detector_state = state;
        input.receive_rate = receive_rate;
        input.manual_state = manual_state;
        input.detector_intent = true;
        input.desired_automatic_reason = true;
        input.wake_reasons = wake_reasons;
        input.protection = ProtectionState::Active;

        assert_eq!(project(&input).detail.as_deref(), Some(expected));
    }
}

#[test]
fn checked_controls_are_projected_only_from_effective_policy_settings() {
    let mut input = normal_input();
    input.automatic_settings = AutomaticProtectionSettings::new(false, true);

    let view = project(&input);

    assert!(!view.automatic_checked);
    assert!(view.protect_on_battery_checked);
}

#[test]
fn idle_product_statuses_follow_the_settled_precedence() {
    let mut input = normal_input();
    input.detector_state = AutomaticDownloadState::Active;
    input.detector_intent = true;
    input.suppression = Some(AutomaticProtectionSuppression::LimitedPower);
    assert_eq!(
        project(&input).primary,
        "Network activity detected, not keeping awake"
    );
    assert_eq!(
        project(&input).detail.as_deref(),
        Some("Paused on battery or limited power")
    );

    input.detector_state = AutomaticDownloadState::Idle;
    input.detector_intent = false;
    input.suppression = None;
    input.network_status = NetworkActivitySourceStatus::Unavailable;
    let unavailable = project(&input);
    assert_eq!(unavailable.primary, "Can’t detect network activity");
    assert_eq!(
        unavailable.warning.as_deref(),
        Some("Keep awake during downloads is unavailable")
    );

    input.network_status = NetworkActivitySourceStatus::Available;
    input.automatic_settings = AutomaticProtectionSettings::new(false, false);
    assert_eq!(project(&input).primary, "Keep awake during downloads: Off");

    input.detector_state = AutomaticDownloadState::Active;
    input.detector_intent = true;
    input.desired_automatic_reason = false;
    input.suppression = Some(AutomaticProtectionSuppression::AutomaticDisabled);
    input.wake_reasons.clear();
    input.protection = ProtectionState::Inactive;
    let disabled_during_activity = project(&input);
    assert_eq!(
        disabled_during_activity.primary,
        "Network activity detected, not keeping awake"
    );
    assert_eq!(
        disabled_during_activity.detail.as_deref(),
        Some("Keep awake during downloads: Off")
    );
}

#[test]
fn warnings_are_safe_and_follow_one_authoritative_priority() {
    let mut input = normal_input();
    input.settings_alert = SettingsAlert::Recovered;
    input.power_failure = true;
    input.network_failure = true;
    input.settings_alert = SettingsAlert::SaveFailed;
    input.automatic_failure = true;

    assert_eq!(
        project(&input).warning.as_deref(),
        Some("Sleep protection needs attention")
    );

    input.automatic_failure = false;
    input.launch_at_login_failure = Some(LaunchAtLoginFailureStage::Enable);
    assert_eq!(
        project(&input).warning.as_deref(),
        Some("Settings could not be saved")
    );
    input.settings_alert = SettingsAlert::Clear;
    assert_eq!(
        project(&input).warning.as_deref(),
        Some("Launch at login could not be enabled")
    );
    input.launch_at_login_failure = None;
    assert_eq!(
        project(&input).warning.as_deref(),
        Some("Keep awake during downloads is unavailable")
    );
    input.network_failure = false;
    assert_eq!(
        project(&input).warning.as_deref(),
        Some("Power source monitoring is unavailable")
    );
}

#[test]
fn launch_warning_wording_distinguishes_apply_and_verification_failures() {
    let mut input = normal_input();
    input.launch_at_login_failure = Some(LaunchAtLoginFailureStage::Disable);
    assert_eq!(
        project(&input).warning.as_deref(),
        Some("Launch at login could not be disabled")
    );

    input.launch_at_login_failure = Some(LaunchAtLoginFailureStage::Verify);
    input.launch_at_login_observed = Registration::Unknown;
    assert_eq!(
        project(&input).warning.as_deref(),
        Some("Launch-at-login status could not be verified")
    );

    input.launch_at_login_desired = false;
    input.launch_at_login_observed = Registration::Enabled;
    assert_eq!(
        project(&input).warning.as_deref(),
        Some("Launch at login could not be disabled")
    );

    input.launch_at_login_failure = None;
    input.launch_at_login_observed = Registration::Disabled;
    assert!(project(&input).warning.is_none());
}

#[test]
fn inconsistent_intent_never_becomes_a_normal_protection_claim() {
    let mut input = normal_input();
    input.manual_state = ManualSessionState::UntilDisabled;

    let view = project(&input);

    assert_ne!(view.primary, "Keeping awake");
    assert_eq!(
        view.warning.as_deref(),
        Some("Sleep protection needs attention")
    );
}

#[test]
fn manual_menu_shapes_and_remaining_boundaries_are_presentation_only() {
    let mut input = normal_input();
    input.manual_state = ManualSessionState::Finite {
        remaining: Duration::from_secs(59),
    };
    input.wake_reasons = vec![WakeReason::ManualKeepAwake];
    input.protection = ProtectionState::Active;
    assert_eq!(
        project(&input).keep_awake,
        KeepAwakeView::Finite {
            remaining: "<1 min remaining".to_owned()
        }
    );

    input.manual_state = ManualSessionState::Finite {
        remaining: Duration::from_secs(60 * 60),
    };
    assert_eq!(
        project(&input).keep_awake,
        KeepAwakeView::Finite {
            remaining: "1 h remaining".to_owned()
        }
    );

    input.manual_state = ManualSessionState::Finite {
        remaining: Duration::from_secs(60 * 60 + 1),
    };
    assert_eq!(
        project(&input).keep_awake,
        KeepAwakeView::Finite {
            remaining: "1 h 1 min remaining".to_owned()
        }
    );

    input.manual_state = ManualSessionState::Finite {
        remaining: Duration::from_nanos(60_000_000_001),
    };
    assert_eq!(
        project(&input).keep_awake,
        KeepAwakeView::Finite {
            remaining: "2 min remaining".to_owned()
        }
    );

    input.manual_state = ManualSessionState::UntilDisabled;
    assert_eq!(project(&input).keep_awake, KeepAwakeView::UntilDisabled);
}

#[test]
fn detector_context_and_exact_preset_selection_are_truthful() {
    let mut input = normal_input();
    input.detector_state = AutomaticDownloadState::Hold {
        remaining_grace: Duration::from_secs(119),
    };
    input.detector_intent = true;
    input.desired_automatic_reason = true;
    input.receive_rate = Some(3 * 1024 * 1024);
    input.power_source = PowerSource::Limited;

    let view = project(&input).detection;

    assert_eq!(view.state, "Grace — 2 min remaining");
    assert_eq!(view.receive_rate.as_deref(), Some("3 MB/s"));
    assert_eq!(view.power_source, "Battery or limited power");
    assert_eq!(view.threshold.checked, [false, true, false]);
    assert_eq!(view.threshold.custom, None);
    assert_eq!(view.grace.checked, [false, true, false, false, false]);
    assert_eq!(view.grace.custom, None);
}

#[test]
fn valid_custom_tuning_is_shown_without_checking_a_nearest_preset() {
    let mut input = normal_input();
    input.tuning = AutomaticDownloadSettings::try_new(
        3 * 1024 * 1024,
        Duration::from_secs(5),
        Duration::from_secs(90),
    )
    .unwrap();

    let view = project(&input).detection;

    assert_eq!(view.threshold.checked, [false; 3]);
    assert_eq!(view.threshold.custom.as_deref(), Some("Custom — 3 MB/s"));
    assert_eq!(view.grace.checked, [false; 5]);
    assert_eq!(view.grace.custom.as_deref(), Some("Custom — 90 seconds"));
}

#[test]
fn fifteen_minute_grace_preset_is_projected_as_selected() {
    let mut input = normal_input();
    input.tuning = AutomaticDownloadSettings::try_new(
        1_048_576,
        Duration::from_secs(5),
        Duration::from_secs(15 * 60),
    )
    .unwrap();

    let view = project(&input).detection;

    assert_eq!(view.grace.checked, [false, false, false, true, false]);
    assert_eq!(view.grace.custom, None);
}

#[test]
fn thirty_minute_grace_preset_is_projected_as_selected() {
    let mut input = normal_input();
    input.tuning = AutomaticDownloadSettings::try_new(
        1_048_576,
        Duration::from_secs(5),
        Duration::from_secs(30 * 60),
    )
    .unwrap();

    let view = project(&input).detection;

    assert_eq!(view.grace.checked, [false, false, false, false, true]);
    assert_eq!(view.grace.custom, None);
}

/// A rate as the menu shows it, worked out with floating point.
fn byte_rate(rate: u128) -> String {
    const KIB: u128 = 1024;
    const MIB: u128 = 1024 * KIB;
    if rate >= MIB && rate % MIB == 0 {
        format!("{} MB/s", rate / MIB)
    } else if rate >= MIB {
        format!("{:.1} MB/s", rate as f64 / MIB as f64)
    } else if rate >= KIB && rate % KIB == 0 {
        format!("{} KB/s", rate / KIB)
    } else if rate >= KIB {
        format!("{:.1} KB/s", rate as f64 / KIB as f64)
    } else {
        format!("{rate} B/s")
    }
}

#[test]
fn rates_are_shown_with_one_decimal() {
    for (rate, shown) in [
        (0, "0 B/s"),
        (1_023, "1023 B/s"),
        (1_024, "1 KB/s"),
        (1_536, "1.5 KB/s"),
        (262_144, "256 KB/s"),
        (1_048_575, "1024.0 KB/s"),
        (1_048_576, "1 MB/s"),
        (1_572_864, "1.5 MB/s"),
    ] {
        assert_eq!(format_byte_rate(rate), shown);
        assert_eq!(byte_rate(rate), shown);
    }
    for rate in 1_024..5_000 {
        assert_eq!(format_byte_rate(rate), byte_rate(rate));
    }
    for step in 0..2_000 {
        let rate = 1_048_576 + step * 26_215;
        assert_eq!(format_byte_rate(rate), byte_rate(rate), "{rate}");
    }
    for power in 20..120 {
        for offset in [0, 1, 52_428, 52_429, 157_286, 157_287] {
            let rate = (1u128 << power) + offset;
            assert_eq!(format_byte_rate(rate), byte_rate(rate), "{rate}");
        }
    }
    let greatest = u128::from(u64::MAX) * 1_000_000_000;
    assert_eq!(format_byte_rate(greatest), byte_rate(greatest));
    assert_eq!(format_byte_rate(u128::MAX), byte_rate(u128::MAX));
}

#[test]
fn ties_go_to_the_even_tenth() {
    for twentieth in 0..40u128 {
        let rate = 1_024 * (1_024 + 10 * twentieth) + 256;
        assert_eq!(format_byte_rate(rate), byte_rate(rate), "{rate}");
    }
    assert_eq!(format_byte_rate(1_024 + 256), "1.2 KB/s");
    assert_eq!(format_byte_rate(1_024 + 768), "1.8 KB/s");
}

#[test]
fn remaining_times_are_rounded_up_to_minutes() {
    for (seconds, shown) in [
        (0, "<1 min remaining"),
        (59, "<1 min remaining"),
        (60, "1 min remaining"),
        (61, "2 min remaining"),
        (3_599, "1 h remaining"),
        (3_600, "1 h remaining"),
        (3_660, "1 h 1 min remaining"),
        (8 * 3_600, "8 h remaining"),
    ] {
        assert_eq!(format_remaining(Duration::from_secs(seconds)), shown);
    }
}

#[test]
fn times_are_shown_in_their_greatest_unit() {
    for (milliseconds, shown) in [
        (60_000, "1 minute"),
        (120_000, "2 minutes"),
        (1_000, "1 second"),
        (90_000, "90 seconds"),
        (1, "1 ms"),
        (1_500, "1500 ms"),
        (0, "0 minutes"),
    ] {
        assert_eq!(
            format_duration_value(Duration::from_millis(milliseconds)),
            shown
        );
    }
}

#[test]
fn updates_without_a_version_are_offered_without_one() {
    assert_eq!(
        update_available_label(Some("1.2.3")),
        "Update available — Chiù 1.2.3"
    );
    assert_eq!(update_available_label(None), "Update available");
    assert_eq!(install_label(Some("1.2.3")), "Install Chiù 1.2.3…");
    assert_eq!(install_label(None), "Install Chiù update…");
    assert_eq!(
        update_failure_label(UpdateFailureStage::Verification),
        "Update verification failed"
    );
}

#[test]
fn presets_are_what_their_identifiers_say() {
    for preset in [
        ThresholdPreset::Kibibytes256,
        ThresholdPreset::Mebibyte1,
        ThresholdPreset::Mebibytes5,
    ] {
        assert_eq!(
            TrayCommand::SetThreshold(preset).id(),
            format!("detection.threshold.{}", preset.bytes_per_second())
        );
    }
    for preset in [
        GracePreset::Seconds30,
        GracePreset::Minutes2,
        GracePreset::Minutes5,
        GracePreset::Minutes15,
        GracePreset::Minutes30,
    ] {
        assert_eq!(
            TrayCommand::SetGrace(preset).id(),
            format!("detection.grace.{}", preset.duration().as_secs())
        );
    }
}

#[test]
fn failures_to_copy_are_told_apart() {
    assert_eq!(
        TrayApplication::copied(Err(DiagnosticActionFailure::Clipboard)),
        TrayCommandOutcome::CopyDiagnosticsFailed
    );
    assert_eq!(
        TrayApplication::copied(Err(DiagnosticActionFailure::Snapshot)),
        TrayCommandOutcome::CopyDiagnosticsFailed
    );
    assert_eq!(
        TrayApplication::copied(Err(DiagnosticActionFailure::Unavailable)),
        TrayCommandOutcome::Ignored
    );
}

#[test]
fn command_vocabulary_preserves_unique_stable_ids_and_round_trips() {
    let expected = [
        "automatic.toggle",
        "battery.toggle",
        "future.launch-at-login",
        "future.automatic-updates",
        "future.check-updates",
        "updater.install",
        "future.copy-diagnostics",
        "future.open-logs",
        "manual.start.15m",
        "manual.start.30m",
        "manual.start.1h",
        "manual.start.2h",
        "manual.start.4h",
        "manual.start.8h",
        "manual.start.until-disabled",
        "manual.add.15m",
        "manual.add.30m",
        "manual.add.1h",
        "manual.add.2h",
        "manual.add.4h",
        "manual.convert.until-disabled",
        "manual.stop",
        "detection.threshold.262144",
        "detection.threshold.1048576",
        "detection.threshold.5242880",
        "detection.grace.30",
        "detection.grace.120",
        "detection.grace.300",
        "detection.grace.900",
        "detection.grace.1800",
        "quit",
    ];
    let actual = all_commands()
        .into_iter()
        .map(TrayCommand::id)
        .collect::<Vec<_>>();

    assert_eq!(actual, expected);
    assert_eq!(
        actual.iter().collect::<HashSet<_>>().len(),
        actual.len()
    );
    for command in all_commands() {
        assert_eq!(TrayCommand::from_id(command.id()), Some(command));
    }
}

#[test]
fn non_actionable_and_inexact_ids_do_not_decode() {
    for id in [
        "status.primary",
        "manual",
        "manual.remaining",
        "detection",
        "detection.threshold",
        "detection.threshold.custom",
        "detection.grace.custom",
        "updater.result",
        "settings",
        "automatic",
        "automatic.toggle.extra",
        "Automatic.toggle",
        " automatic.toggle",
        "automatic.toggle ",
        "",
    ] {
        assert_eq!(TrayCommand::from_id(id), None, "{id:?}");
    }
}
