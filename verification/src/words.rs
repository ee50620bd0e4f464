//! The words of the log, of reports, of the menu and of errors tell apart what
//! they stand for: each word stands for one value.

use crate::application::ApplicationStatus;
use crate::automatic_protection::{AutomaticProtectionSuppression, PowerSource};
use crate::launch_at_login::{LaunchAtLoginFailureStage, Registration};
use crate::local_log::{
    DetectorStateEvent, EventOutcome, LoggingFailureStage, LoggingHealth, ManualCommandEvent,
    ProtectionAction,
};
use crate::network_activity::{
    NetworkActivityAvailability, NetworkActivityFailure, NetworkActivitySourceStatus,
    NetworkInterfaceContinuity,
};
use crate::power_source::{PowerSourceObserverHealth, PowerSourceOperation};
use crate::settings::{
    ArtifactWarning, LoadCondition, PersistenceCondition, RecoveryReason, SettingPath,
    SettingsPersistenceFailure, SettingsUpdate,
};
use crate::sleep_inhibitor::NativeOperation;
use crate::updater::{UpdateAvailability, UpdateFailureStage, UpdateTrigger};
use crate::wake_coordinator::{ProtectionState, WakeReason};
use vstd::prelude::*;
use vstd::string::*;

verus! {

/// The statuses of the program are told apart in a report, each by its own word.
pub proof fn report_words_for_application_status(value: ApplicationStatus)
    ensures
        crate::diagnostics::report::application_status_word(value) == "starting"@
            <==> value == ApplicationStatus::Starting,
        crate::diagnostics::report::application_status_word(value) == "ready"@
            <==> value == ApplicationStatus::Ready,
        crate::diagnostics::report::application_status_word(value) == "degraded"@
            <==> value == ApplicationStatus::Degraded,
        crate::diagnostics::report::application_status_word(value) == "failed"@
            <==> value == ApplicationStatus::Failed,
        crate::diagnostics::report::application_status_word(value) == "shutting-down"@
            <==> value == ApplicationStatus::ShuttingDown,
        crate::diagnostics::report::application_status_word(value) == "stopped"@
            <==> value == ApplicationStatus::Stopped,
{
    reveal_strlit("starting");
    reveal_strlit("ready");
    reveal_strlit("degraded");
    reveal_strlit("failed");
    reveal_strlit("shutting-down");
    reveal_strlit("stopped");
    assert("starting"@.len() == 8);
    assert("ready"@.len() == 5);
    assert("degraded"@.len() == 8);
    assert("failed"@.len() == 6);
    assert("shutting-down"@.len() == 13);
    assert("stopped"@.len() == 7);
    assert("starting"@[0] != "degraded"@[0]);
}

/// The power sources are told apart in a report, each by its own word.
pub proof fn report_words_for_power_source(value: PowerSource)
    ensures
        crate::diagnostics::report::power_source_word(value) == "external"@
            <==> value == PowerSource::External,
        crate::diagnostics::report::power_source_word(value) == "limited"@
            <==> value == PowerSource::Limited,
        crate::diagnostics::report::power_source_word(value) == "unknown"@
            <==> value == PowerSource::Unknown,
{
    reveal_strlit("external");
    reveal_strlit("limited");
    reveal_strlit("unknown");
    assert("external"@.len() == 8);
    assert("limited"@.len() == 7);
    assert("unknown"@.len() == 7);
    assert("limited"@[0] != "unknown"@[0]);
}

/// The reasons why a download does not count are told apart in a report, each by its own word.
pub proof fn report_words_for_suppression(value: AutomaticProtectionSuppression)
    ensures
        crate::diagnostics::report::suppression_word(value) == "automatic-disabled"@
            <==> value == AutomaticProtectionSuppression::AutomaticDisabled,
        crate::diagnostics::report::suppression_word(value) == "limited-power"@
            <==> value == AutomaticProtectionSuppression::LimitedPower,
        crate::diagnostics::report::suppression_word(value) == "unknown-power"@
            <==> value == AutomaticProtectionSuppression::UnknownPower,
{
    reveal_strlit("automatic-disabled");
    reveal_strlit("limited-power");
    reveal_strlit("unknown-power");
    assert("automatic-disabled"@.len() == 18);
    assert("limited-power"@.len() == 13);
    assert("unknown-power"@.len() == 13);
    assert("limited-power"@[0] != "unknown-power"@[0]);
}

/// The states of the power observer are told apart in a report, each by its own word.
pub proof fn report_words_for_power_health(value: PowerSourceObserverHealth)
    ensures
        crate::diagnostics::report::power_health_word(value) == "starting"@
            <==> value == PowerSourceObserverHealth::Starting,
        crate::diagnostics::report::power_health_word(value) == "observing"@
            <==> value == PowerSourceObserverHealth::Observing,
        crate::diagnostics::report::power_health_word(value) == "degraded"@
            <==> value == PowerSourceObserverHealth::Degraded,
        crate::diagnostics::report::power_health_word(value) == "stopped"@
            <==> value == PowerSourceObserverHealth::Stopped,
{
    reveal_strlit("starting");
    reveal_strlit("observing");
    reveal_strlit("degraded");
    reveal_strlit("stopped");
    assert("starting"@.len() == 8);
    assert("observing"@.len() == 9);
    assert("degraded"@.len() == 8);
    assert("stopped"@.len() == 7);
    assert("starting"@[0] != "degraded"@[0]);
}

/// The operations on the power source are told apart in a report, each by its own word.
pub proof fn report_words_for_power_operation(value: PowerSourceOperation)
    ensures
        crate::diagnostics::report::power_operation_word(value) == "registration"@
            <==> value == PowerSourceOperation::Registration,
        crate::diagnostics::report::power_operation_word(value) == "sample"@
            <==> value == PowerSourceOperation::Sample,
        crate::diagnostics::report::power_operation_word(value) == "unregistration"@
            <==> value == PowerSourceOperation::Unregistration,
{
    reveal_strlit("registration");
    reveal_strlit("sample");
    reveal_strlit("unregistration");
    assert("registration"@.len() == 12);
    assert("sample"@.len() == 6);
    assert("unregistration"@.len() == 14);
}

/// The statuses of the network source are told apart in a report, each by its own word.
pub proof fn report_words_for_network_status(value: NetworkActivitySourceStatus)
    ensures
        crate::diagnostics::report::network_status_word(value) == "not-started"@
            <==> value == NetworkActivitySourceStatus::NotStarted,
        crate::diagnostics::report::network_status_word(value) == "starting"@
            <==> value == NetworkActivitySourceStatus::Starting,
        crate::diagnostics::report::network_status_word(value) == "available"@
            <==> value == NetworkActivitySourceStatus::Available,
        crate::diagnostics::report::network_status_word(value) == "unavailable"@
            <==> value == NetworkActivitySourceStatus::Unavailable,
        crate::diagnostics::report::network_status_word(value) == "stopped"@
            <==> value == NetworkActivitySourceStatus::Stopped,
{
    reveal_strlit("not-started");
    reveal_strlit("starting");
    reveal_strlit("available");
    reveal_strlit("unavailable");
    reveal_strlit("stopped");
    assert("not-started"@.len() == 11);
    assert("starting"@.len() == 8);
    assert("available"@.len() == 9);
    assert("unavailable"@.len() == 11);
    assert("stopped"@.len() == 7);
    assert("not-started"@[0] != "unavailable"@[0]);
}

/// The failures of the network source are told apart in a report, each by its own word.
pub proof fn report_words_for_network_failure(value: NetworkActivityFailure)
    ensures
        crate::diagnostics::report::network_failure_word(value) == "provider-read"@
            <==> value == NetworkActivityFailure::ProviderRead,
{
    reveal_strlit("provider-read");
    assert("provider-read"@.len() == 13);
}

/// The continuities of an interface are told apart in a report, each by its own word.
pub proof fn report_words_for_continuity(value: NetworkInterfaceContinuity)
    ensures
        crate::diagnostics::report::continuity_word(value) == "new"@
            <==> value == NetworkInterfaceContinuity::New,
        crate::diagnostics::report::continuity_word(value) == "continuous"@
            <==> value == NetworkInterfaceContinuity::Continuous,
        crate::diagnostics::report::continuity_word(value) == "counter-reset"@
            <==> value == NetworkInterfaceContinuity::CounterReset,
        crate::diagnostics::report::continuity_word(value) == "removed"@
            <==> value == NetworkInterfaceContinuity::Removed,
{
    reveal_strlit("new");
    reveal_strlit("continuous");
    reveal_strlit("counter-reset");
    reveal_strlit("removed");
    assert("new"@.len() == 3);
    assert("continuous"@.len() == 10);
    assert("counter-reset"@.len() == 13);
    assert("removed"@.len() == 7);
}

/// The registrations at login are told apart in a report, each by its own word.
pub proof fn report_words_for_registration(value: Registration)
    ensures
        crate::diagnostics::report::registration_word(value) == "enabled"@
            <==> value == Registration::Enabled,
        crate::diagnostics::report::registration_word(value) == "disabled"@
            <==> value == Registration::Disabled,
        crate::diagnostics::report::registration_word(value) == "unknown"@
            <==> value == Registration::Unknown,
{
    reveal_strlit("enabled");
    reveal_strlit("disabled");
    reveal_strlit("unknown");
    assert("enabled"@.len() == 7);
    assert("disabled"@.len() == 8);
    assert("unknown"@.len() == 7);
    assert("enabled"@[0] != "unknown"@[0]);
}

/// The steps of registering at login are told apart in a report, each by its own word.
pub proof fn report_words_for_launch_stage(value: LaunchAtLoginFailureStage)
    ensures
        crate::diagnostics::report::launch_stage_word(value) == "initialize"@
            <==> value == LaunchAtLoginFailureStage::Initialize,
        crate::diagnostics::report::launch_stage_word(value) == "enable"@
            <==> value == LaunchAtLoginFailureStage::Enable,
        crate::diagnostics::report::launch_stage_word(value) == "disable"@
            <==> value == LaunchAtLoginFailureStage::Disable,
        crate::diagnostics::report::launch_stage_word(value) == "verify"@
            <==> value == LaunchAtLoginFailureStage::Verify,
{
    reveal_strlit("initialize");
    reveal_strlit("enable");
    reveal_strlit("disable");
    reveal_strlit("verify");
    assert("initialize"@.len() == 10);
    assert("enable"@.len() == 6);
    assert("disable"@.len() == 7);
    assert("verify"@.len() == 6);
    assert("enable"@[0] != "verify"@[0]);
}

/// The availabilities of updates are told apart in a report, each by its own word.
pub proof fn report_words_for_update_availability(value: UpdateAvailability)
    ensures
        crate::diagnostics::report::update_availability_word(value) == "available"@
            <==> value == UpdateAvailability::Available,
        crate::diagnostics::report::update_availability_word(value) == "unconfigured"@
            <==> value == UpdateAvailability::Unconfigured,
        crate::diagnostics::report::update_availability_word(value) == "initialization-failed"@
            <==> value == UpdateAvailability::InitializationFailed,
{
    reveal_strlit("available");
    reveal_strlit("unconfigured");
    reveal_strlit("initialization-failed");
    assert("available"@.len() == 9);
    assert("unconfigured"@.len() == 12);
    assert("initialization-failed"@.len() == 21);
}

/// The triggers of an update check are told apart in a report, each by its own word.
pub proof fn report_words_for_update_trigger(value: UpdateTrigger)
    ensures
        crate::diagnostics::report::update_trigger_word(value) == "automatic"@
            <==> value == UpdateTrigger::Automatic,
        crate::diagnostics::report::update_trigger_word(value) == "manual"@
            <==> value == UpdateTrigger::Manual,
{
    reveal_strlit("automatic");
    reveal_strlit("manual");
    assert("automatic"@.len() == 9);
    assert("manual"@.len() == 6);
}

/// The stages of an update are told apart in a report, each by its own word.
pub proof fn report_words_for_update_stage(value: UpdateFailureStage)
    ensures
        crate::diagnostics::report::update_stage_word(value) == "scheduling"@
            <==> value == UpdateFailureStage::Scheduling,
        crate::diagnostics::report::update_stage_word(value) == "check"@
            <==> value == UpdateFailureStage::Check,
        crate::diagnostics::report::update_stage_word(value) == "download"@
            <==> value == UpdateFailureStage::Download,
        crate::diagnostics::report::update_stage_word(value) == "verification"@
            <==> value == UpdateFailureStage::Verification,
        crate::diagnostics::report::update_stage_word(value) == "install"@
            <==> value == UpdateFailureStage::Install,
        crate::diagnostics::report::update_stage_word(value) == "restart"@
            <==> value == UpdateFailureStage::Restart,
{
    reveal_strlit("scheduling");
    reveal_strlit("check");
    reveal_strlit("download");
    reveal_strlit("verification");
    reveal_strlit("install");
    reveal_strlit("restart");
    assert("scheduling"@.len() == 10);
    assert("check"@.len() == 5);
    assert("download"@.len() == 8);
    assert("verification"@.len() == 12);
    assert("install"@.len() == 7);
    assert("restart"@.len() == 7);
    assert("install"@[0] != "restart"@[0]);
}

/// The states of protection are told apart in a report, each by its own word.
pub proof fn report_words_for_protection(value: ProtectionState)
    ensures
        crate::diagnostics::report::protection_word(value) == "inactive"@
            <==> value == ProtectionState::Inactive,
        crate::diagnostics::report::protection_word(value) == "active"@
            <==> value == ProtectionState::Active,
{
    reveal_strlit("inactive");
    reveal_strlit("active");
    assert("inactive"@.len() == 8);
    assert("active"@.len() == 6);
}

/// The reasons to stay awake are told apart in a report, each by its own word.
pub proof fn report_words_for_wake_reason(value: WakeReason)
    ensures
        crate::diagnostics::report::wake_reason_word(value) == "automatic-download"@
            <==> value == WakeReason::AutomaticDownload,
        crate::diagnostics::report::wake_reason_word(value) == "manual-keep-awake"@
            <==> value == WakeReason::ManualKeepAwake,
{
    reveal_strlit("automatic-download");
    reveal_strlit("manual-keep-awake");
    assert("automatic-download"@.len() == 18);
    assert("manual-keep-awake"@.len() == 17);
}

/// The conditions of saving are told apart in a report, each by its own word.
pub proof fn report_words_for_persistence(value: PersistenceCondition)
    ensures
        crate::diagnostics::report::persistence_word(value) == "writable"@
            <==> value == PersistenceCondition::Writable,
        crate::diagnostics::report::persistence_word(value) == "unavailable"@
            <==> value == PersistenceCondition::Unavailable,
        crate::diagnostics::report::persistence_word(value) == "blocked-by-future-schema"@
            <==> value == PersistenceCondition::BlockedByFutureSchema,
{
    reveal_strlit("writable");
    reveal_strlit("unavailable");
    reveal_strlit("blocked-by-future-schema");
    assert("writable"@.len() == 8);
    assert("unavailable"@.len() == 11);
    assert("blocked-by-future-schema"@.len() == 24);
}

/// The warnings about files are told apart in a report, each by its own word.
pub proof fn report_words_for_artifact_warning(value: ArtifactWarning)
    ensures
        crate::diagnostics::report::artifact_warning_word(value) == "stale-temporary"@
            <==> value == ArtifactWarning::StaleTemporary,
        crate::diagnostics::report::artifact_warning_word(value) == "quarantine"@
            <==> value == ArtifactWarning::Quarantine,
        crate::diagnostics::report::artifact_warning_word(value) == "quarantine-cleanup"@
            <==> value == ArtifactWarning::QuarantineCleanup,
{
    reveal_strlit("stale-temporary");
    reveal_strlit("quarantine");
    reveal_strlit("quarantine-cleanup");
    assert("stale-temporary"@.len() == 15);
    assert("quarantine"@.len() == 10);
    assert("quarantine-cleanup"@.len() == 18);
}

/// The settings are told apart in a report, each by its own word.
pub proof fn report_words_for_setting_path(value: SettingPath)
    ensures
        crate::diagnostics::report::setting_path_word(value) == "automatic-download-protection"@
            <==> value == SettingPath::AutomaticDownloadProtectionEnabled,
        crate::diagnostics::report::setting_path_word(value) == "protect-on-battery"@
            <==> value == SettingPath::ProtectOnBattery,
        crate::diagnostics::report::setting_path_word(value) == "launch-at-login"@
            <==> value == SettingPath::LaunchAtLogin,
        crate::diagnostics::report::setting_path_word(value) == "automatic-update-checks"@
            <==> value == SettingPath::AutomaticUpdateChecksEnabled,
        crate::diagnostics::report::setting_path_word(value) == "last-automatic-update-check"@
            <==> value == SettingPath::LastAutomaticUpdateCheckUnixSeconds,
        crate::diagnostics::report::setting_path_word(value) == "meaningful-receive-rate"@
            <==> value == SettingPath::MeaningfulReceiveRateBytesPerSecond,
        crate::diagnostics::report::setting_path_word(value) == "activation-qualification"@
            <==> value == SettingPath::ActivationQualificationMilliseconds,
        crate::diagnostics::report::setting_path_word(value) == "grace"@
            <==> value == SettingPath::GraceMilliseconds,
{
    reveal_strlit("automatic-download-protection");
    reveal_strlit("protect-on-battery");
    reveal_strlit("launch-at-login");
    reveal_strlit("automatic-update-checks");
    reveal_strlit("last-automatic-update-check");
    reveal_strlit("meaningful-receive-rate");
    reveal_strlit("activation-qualification");
    reveal_strlit("grace");
    assert("automatic-download-protection"@.len() == 29);
    assert("protect-on-battery"@.len() == 18);
    assert("launch-at-login"@.len() == 15);
    assert("automatic-update-checks"@.len() == 23);
    assert("last-automatic-update-check"@.len() == 27);
    assert("meaningful-receive-rate"@.len() == 23);
    assert("activation-qualification"@.len() == 24);
    assert("grace"@.len() == 5);
    assert("automatic-update-checks"@[0] != "meaningful-receive-rate"@[0]);
}

/// The reasons of a recovery are told apart in a report, each by its own word.
pub proof fn report_words_for_recovery_reason(value: RecoveryReason)
    ensures
        crate::diagnostics::report::recovery_reason_word(value) == "missing"@
            <==> value == RecoveryReason::Missing,
        crate::diagnostics::report::recovery_reason_word(value) == "wrong-type"@
            <==> value == RecoveryReason::WrongType,
        crate::diagnostics::report::recovery_reason_word(value) == "invalid-value"@
            <==> value == RecoveryReason::InvalidValue,
{
    reveal_strlit("missing");
    reveal_strlit("wrong-type");
    reveal_strlit("invalid-value");
    assert("missing"@.len() == 7);
    assert("wrong-type"@.len() == 10);
    assert("invalid-value"@.len() == 13);
}

/// The failures of saving are told apart in a report, each by its own word.
pub proof fn report_words_for_settings_failure(value: SettingsPersistenceFailure)
    ensures
        crate::diagnostics::report::settings_failure_word(value) == "unavailable"@
            <==> value == SettingsPersistenceFailure::Unavailable,
        crate::diagnostics::report::settings_failure_word(value) == "create-directory"@
            <==> value == SettingsPersistenceFailure::CreateDirectory,
        crate::diagnostics::report::settings_failure_word(value) == "preserve-source"@
            <==> value == SettingsPersistenceFailure::PreserveSource,
        crate::diagnostics::report::settings_failure_word(value) == "serialize"@
            <==> value == SettingsPersistenceFailure::Serialize,
        crate::diagnostics::report::settings_failure_word(value) == "write-backup"@
            <==> value == SettingsPersistenceFailure::WriteBackup,
        crate::diagnostics::report::settings_failure_word(value) == "write-primary"@
            <==> value == SettingsPersistenceFailure::WritePrimary,
        crate::diagnostics::report::settings_failure_word(value) == "replace-backup"@
            <==> value == SettingsPersistenceFailure::ReplaceBackup,
        crate::diagnostics::report::settings_failure_word(value) == "replace-primary"@
            <==> value == SettingsPersistenceFailure::ReplacePrimary,
{
    reveal_strlit("unavailable");
    reveal_strlit("create-directory");
    reveal_strlit("preserve-source");
    reveal_strlit("serialize");
    reveal_strlit("write-backup");
    reveal_strlit("write-primary");
    reveal_strlit("replace-backup");
    reveal_strlit("replace-primary");
    assert("unavailable"@.len() == 11);
    assert("create-directory"@.len() == 16);
    assert("preserve-source"@.len() == 15);
    assert("serialize"@.len() == 9);
    assert("write-backup"@.len() == 12);
    assert("write-primary"@.len() == 13);
    assert("replace-backup"@.len() == 14);
    assert("replace-primary"@.len() == 15);
    assert("preserve-source"@[0] != "replace-primary"@[0]);
}

/// The states of the log are told apart in a report, each by its own word.
pub proof fn report_words_for_logging_health(value: LoggingHealth)
    ensures
        crate::diagnostics::report::logging_health_word(value) == "available"@
            <==> value == LoggingHealth::Available,
        crate::diagnostics::report::logging_health_word(value) == "unavailable:directory-resolution"@
            <==> value == LoggingHealth::Unavailable(LoggingFailureStage::ResolveDirectory),
        crate::diagnostics::report::logging_health_word(value) == "unavailable:directory-creation"@
            <==> value == LoggingHealth::Unavailable(LoggingFailureStage::CreateDirectory),
        crate::diagnostics::report::logging_health_word(value) == "unavailable:open"@
            <==> value == LoggingHealth::Unavailable(LoggingFailureStage::Open),
        crate::diagnostics::report::logging_health_word(value) == "unavailable:prune"@
            <==> value == LoggingHealth::Unavailable(LoggingFailureStage::Prune),
        crate::diagnostics::report::logging_health_word(value) == "unavailable:rotation"@
            <==> value == LoggingHealth::Unavailable(LoggingFailureStage::Rotate),
        crate::diagnostics::report::logging_health_word(value) == "unavailable:write"@
            <==> value == LoggingHealth::Unavailable(LoggingFailureStage::Write),
        crate::diagnostics::report::logging_health_word(value) == "unavailable:flush"@
            <==> value == LoggingHealth::Unavailable(LoggingFailureStage::Flush),
{
    reveal_strlit("available");
    reveal_strlit("unavailable:directory-resolution");
    reveal_strlit("unavailable:directory-creation");
    reveal_strlit("unavailable:open");
    reveal_strlit("unavailable:prune");
    reveal_strlit("unavailable:rotation");
    reveal_strlit("unavailable:write");
    reveal_strlit("unavailable:flush");
    assert("available"@.len() == 9);
    assert("unavailable:directory-resolution"@.len() == 32);
    assert("unavailable:directory-creation"@.len() == 30);
    assert("unavailable:open"@.len() == 16);
    assert("unavailable:prune"@.len() == 17);
    assert("unavailable:rotation"@.len() == 20);
    assert("unavailable:write"@.len() == 17);
    assert("unavailable:flush"@.len() == 17);
    assert("unavailable:prune"@[12] != "unavailable:write"@[12]);
    assert("unavailable:prune"@[12] != "unavailable:flush"@[12]);
    assert("unavailable:write"@[12] != "unavailable:flush"@[12]);
}

/// The outcomes are told apart in the log, each by its own word.
pub proof fn log_words_for_outcome(value: EventOutcome)
    ensures
        crate::local_log::outcome_word(value) == "succeeded"@ <==> value == EventOutcome::Succeeded,
        crate::local_log::outcome_word(value) == "failed"@ <==> value == EventOutcome::Failed,
        crate::local_log::outcome_word(value) == "rejected"@ <==> value == EventOutcome::Rejected,
{
    reveal_strlit("succeeded");
    reveal_strlit("failed");
    reveal_strlit("rejected");
    assert("succeeded"@.len() == 9);
    assert("failed"@.len() == 6);
    assert("rejected"@.len() == 8);
}

/// The actions of protection are told apart in the log, each by its own word.
pub proof fn log_words_for_protection_action(value: ProtectionAction)
    ensures
        crate::local_log::protection_action_word(value) == "acquire"@
            <==> value == ProtectionAction::Acquire,
        crate::local_log::protection_action_word(value) == "release"@
            <==> value == ProtectionAction::Release,
{
    reveal_strlit("acquire");
    reveal_strlit("release");
    assert("acquire"@.len() == 7);
    assert("release"@.len() == 7);
    assert("acquire"@[0] != "release"@[0]);
}

/// The states of the detector are told apart in the log, each by its own word.
pub proof fn log_words_for_detector_state(value: DetectorStateEvent)
    ensures
        crate::local_log::detector_state_word(value) == "idle"@
            <==> value == DetectorStateEvent::Idle,
        crate::local_log::detector_state_word(value) == "active"@
            <==> value == DetectorStateEvent::Active,
        crate::local_log::detector_state_word(value) == "hold"@
            <==> value == DetectorStateEvent::Hold,
{
    reveal_strlit("idle");
    reveal_strlit("active");
    reveal_strlit("hold");
    assert("idle"@.len() == 4);
    assert("active"@.len() == 6);
    assert("hold"@.len() == 4);
    assert("idle"@[0] != "hold"@[0]);
}

/// The commands of the manual session are told apart in the log, each by its own word.
pub proof fn log_words_for_manual_command(value: ManualCommandEvent)
    ensures
        crate::local_log::manual_command_word(value) == "start"@
            <==> value == ManualCommandEvent::Start,
        crate::local_log::manual_command_word(value) == "add"@
            <==> value == ManualCommandEvent::Add,
        crate::local_log::manual_command_word(value) == "convert"@
            <==> value == ManualCommandEvent::Convert,
        crate::local_log::manual_command_word(value) == "stop"@
            <==> value == ManualCommandEvent::Stop,
{
    reveal_strlit("start");
    reveal_strlit("add");
    reveal_strlit("convert");
    reveal_strlit("stop");
    assert("start"@.len() == 5);
    assert("add"@.len() == 3);
    assert("convert"@.len() == 7);
    assert("stop"@.len() == 4);
}

/// The stages are told apart in the log, each by its own word.
pub proof fn log_words_for_stage(value: LoggingFailureStage)
    ensures
        crate::local_log::stage_word(value) == "directory-resolution"@
            <==> value == LoggingFailureStage::ResolveDirectory,
        crate::local_log::stage_word(value) == "directory-creation"@
            <==> value == LoggingFailureStage::CreateDirectory,
        crate::local_log::stage_word(value) == "open"@ <==> value == LoggingFailureStage::Open,
        crate::local_log::stage_word(value) == "prune"@ <==> value == LoggingFailureStage::Prune,
        crate::local_log::stage_word(value) == "rotation"@
            <==> value == LoggingFailureStage::Rotate,
        crate::local_log::stage_word(value) == "write"@ <==> value == LoggingFailureStage::Write,
        crate::local_log::stage_word(value) == "flush"@ <==> value == LoggingFailureStage::Flush,
{
    reveal_strlit("directory-resolution");
    reveal_strlit("directory-creation");
    reveal_strlit("open");
    reveal_strlit("prune");
    reveal_strlit("rotation");
    reveal_strlit("write");
    reveal_strlit("flush");
    assert("directory-resolution"@.len() == 20);
    assert("directory-creation"@.len() == 18);
    assert("open"@.len() == 4);
    assert("prune"@.len() == 5);
    assert("rotation"@.len() == 8);
    assert("write"@.len() == 5);
    assert("flush"@.len() == 5);
    assert("prune"@[0] != "write"@[0]);
    assert("prune"@[0] != "flush"@[0]);
    assert("write"@[0] != "flush"@[0]);
}

/// The statuses are told apart in an error, each by its own word.
pub proof fn application_words_for_status(value: ApplicationStatus)
    ensures
        crate::application::status_word(value) == "Starting"@
            <==> value == ApplicationStatus::Starting,
        crate::application::status_word(value) == "Ready"@ <==> value == ApplicationStatus::Ready,
        crate::application::status_word(value) == "Degraded"@
            <==> value == ApplicationStatus::Degraded,
        crate::application::status_word(value) == "Failed"@ <==> value == ApplicationStatus::Failed,
        crate::application::status_word(value) == "ShuttingDown"@
            <==> value == ApplicationStatus::ShuttingDown,
        crate::application::status_word(value) == "Stopped"@
            <==> value == ApplicationStatus::Stopped,
{
    reveal_strlit("Starting");
    reveal_strlit("Ready");
    reveal_strlit("Degraded");
    reveal_strlit("Failed");
    reveal_strlit("ShuttingDown");
    reveal_strlit("Stopped");
    assert("Starting"@.len() == 8);
    assert("Ready"@.len() == 5);
    assert("Degraded"@.len() == 8);
    assert("Failed"@.len() == 6);
    assert("ShuttingDown"@.len() == 12);
    assert("Stopped"@.len() == 7);
    assert("Starting"@[0] != "Degraded"@[0]);
}

/// The reasons why a download does not count are told apart in the log, each by its own word.
pub proof fn log_protection_words_for_suppression(value: Option<AutomaticProtectionSuppression>)
    ensures
        crate::automatic_protection::suppression_word(value)@ == "none"@ <==> value is None,
        crate::automatic_protection::suppression_word(value)@ == "automatic-disabled"@
            <==> value == Some(AutomaticProtectionSuppression::AutomaticDisabled),
        crate::automatic_protection::suppression_word(value)@ == "limited-power"@
            <==> value == Some(AutomaticProtectionSuppression::LimitedPower),
        crate::automatic_protection::suppression_word(value)@ == "unknown-power"@
            <==> value == Some(AutomaticProtectionSuppression::UnknownPower),
{
    reveal_strlit("none");
    reveal_strlit("automatic-disabled");
    reveal_strlit("limited-power");
    reveal_strlit("unknown-power");
    assert("none"@.len() == 4);
    assert("automatic-disabled"@.len() == 18);
    assert("limited-power"@.len() == 13);
    assert("unknown-power"@.len() == 13);
    assert("limited-power"@[0] != "unknown-power"@[0]);
}

/// The steps are told apart in the log or an error, each by its own word.
pub proof fn launch_words_for_stage_name(value: LaunchAtLoginFailureStage)
    ensures
        crate::launch_at_login::stage_name_word(value) == "Initialize"@
            <==> value == LaunchAtLoginFailureStage::Initialize,
        crate::launch_at_login::stage_name_word(value) == "Enable"@
            <==> value == LaunchAtLoginFailureStage::Enable,
        crate::launch_at_login::stage_name_word(value) == "Disable"@
            <==> value == LaunchAtLoginFailureStage::Disable,
        crate::launch_at_login::stage_name_word(value) == "Verify"@
            <==> value == LaunchAtLoginFailureStage::Verify,
{
    reveal_strlit("Initialize");
    reveal_strlit("Enable");
    reveal_strlit("Disable");
    reveal_strlit("Verify");
    assert("Initialize"@.len() == 10);
    assert("Enable"@.len() == 6);
    assert("Disable"@.len() == 7);
    assert("Verify"@.len() == 6);
    assert("Enable"@[0] != "Verify"@[0]);
}

/// The stages are told apart in the log or an error, each by its own word.
pub proof fn launch_words_for_stage(value: LaunchAtLoginFailureStage)
    ensures
        crate::launch_at_login::stage_word(value)@ == "initialize"@
            <==> value == LaunchAtLoginFailureStage::Initialize,
        crate::launch_at_login::stage_word(value)@ == "enable"@
            <==> value == LaunchAtLoginFailureStage::Enable,
        crate::launch_at_login::stage_word(value)@ == "disable"@
            <==> value == LaunchAtLoginFailureStage::Disable,
        crate::launch_at_login::stage_word(value)@ == "verify"@
            <==> value == LaunchAtLoginFailureStage::Verify,
{
    reveal_strlit("initialize");
    reveal_strlit("enable");
    reveal_strlit("disable");
    reveal_strlit("verify");
    assert("initialize"@.len() == 10);
    assert("enable"@.len() == 6);
    assert("disable"@.len() == 7);
    assert("verify"@.len() == 6);
    assert("enable"@[0] != "verify"@[0]);
}

/// The statuses are told apart in the log, each by its own word.
pub proof fn network_words_for_status(value: NetworkActivitySourceStatus)
    ensures
        crate::network_activity::status_word(value)@ == "not-started"@
            <==> value == NetworkActivitySourceStatus::NotStarted,
        crate::network_activity::status_word(value)@ == "starting"@
            <==> value == NetworkActivitySourceStatus::Starting,
        crate::network_activity::status_word(value)@ == "available"@
            <==> value == NetworkActivitySourceStatus::Available,
        crate::network_activity::status_word(value)@ == "unavailable"@
            <==> value == NetworkActivitySourceStatus::Unavailable,
        crate::network_activity::status_word(value)@ == "stopped"@
            <==> value == NetworkActivitySourceStatus::Stopped,
{
    reveal_strlit("not-started");
    reveal_strlit("starting");
    reveal_strlit("available");
    reveal_strlit("unavailable");
    reveal_strlit("stopped");
    assert("not-started"@.len() == 11);
    assert("starting"@.len() == 8);
    assert("available"@.len() == 9);
    assert("unavailable"@.len() == 11);
    assert("stopped"@.len() == 7);
    assert("not-started"@[0] != "unavailable"@[0]);
}

/// The availabilities are told apart in the log, each by its own word.
pub proof fn network_words_for_availability(value: NetworkActivityAvailability)
    ensures
        crate::network_activity::availability_word(value)@ == "available"@
            <==> value == NetworkActivityAvailability::Available,
        crate::network_activity::availability_word(value)@ == "unavailable"@
            <==> value == NetworkActivityAvailability::Unavailable,
{
    reveal_strlit("available");
    reveal_strlit("unavailable");
    assert("available"@.len() == 9);
    assert("unavailable"@.len() == 11);
}

/// The operations are told apart in the log or an error, each by its own word.
pub proof fn power_words_for_operation(value: PowerSourceOperation)
    ensures
        crate::power_source::operation_word(value) == "Registration"@
            <==> value == PowerSourceOperation::Registration,
        crate::power_source::operation_word(value) == "Sample"@
            <==> value == PowerSourceOperation::Sample,
        crate::power_source::operation_word(value) == "Unregistration"@
            <==> value == PowerSourceOperation::Unregistration,
{
    reveal_strlit("Registration");
    reveal_strlit("Sample");
    reveal_strlit("Unregistration");
    assert("Registration"@.len() == 12);
    assert("Sample"@.len() == 6);
    assert("Unregistration"@.len() == 14);
}

/// The power sources are told apart in the log or an error, each by its own word.
pub proof fn power_words_for_source(value: PowerSource)
    ensures
        crate::power_source::source_word(value)@ == "external"@ <==> value == PowerSource::External,
        crate::power_source::source_word(value)@ == "limited"@ <==> value == PowerSource::Limited,
        crate::power_source::source_word(value)@ == "unknown"@ <==> value == PowerSource::Unknown,
{
    reveal_strlit("external");
    reveal_strlit("limited");
    reveal_strlit("unknown");
    assert("external"@.len() == 8);
    assert("limited"@.len() == 7);
    assert("unknown"@.len() == 7);
    assert("limited"@[0] != "unknown"@[0]);
}

/// The states of the observer are told apart in the log or an error, each by its own word.
pub proof fn power_words_for_health(value: PowerSourceObserverHealth)
    ensures
        crate::power_source::health_word(value)@ == "starting"@
            <==> value == PowerSourceObserverHealth::Starting,
        crate::power_source::health_word(value)@ == "observing"@
            <==> value == PowerSourceObserverHealth::Observing,
        crate::power_source::health_word(value)@ == "degraded"@
            <==> value == PowerSourceObserverHealth::Degraded,
        crate::power_source::health_word(value)@ == "stopped"@
            <==> value == PowerSourceObserverHealth::Stopped,
{
    reveal_strlit("starting");
    reveal_strlit("observing");
    reveal_strlit("degraded");
    reveal_strlit("stopped");
    assert("starting"@.len() == 8);
    assert("observing"@.len() == 9);
    assert("degraded"@.len() == 8);
    assert("stopped"@.len() == 7);
    assert("starting"@[0] != "degraded"@[0]);
}

/// The changes are told apart in the log or an error, each by its own word.
pub proof fn settings_words_for_update(value: SettingsUpdate)
    ensures
        crate::settings::update_word(value)@ == "automatic-protection"@
            <==> value is AutomaticDownloadProtectionEnabled,
        crate::settings::update_word(value)@ == "protect-on-battery"@
            <==> value is ProtectOnBattery,
        crate::settings::update_word(value)@ == "launch-at-login"@ <==> value is LaunchAtLogin,
        crate::settings::update_word(value)@ == "automatic-update-checks"@
            <==> value is AutomaticUpdateChecksEnabled,
        crate::settings::update_word(value)@ == "last-update-check"@
            <==> value is LastAutomaticUpdateCheckUnixSeconds,
        crate::settings::update_word(value)@ == "automatic-download-tuning"@
            <==> value is AutomaticDownloadTuning,
{
    reveal_strlit("automatic-protection");
    reveal_strlit("protect-on-battery");
    reveal_strlit("launch-at-login");
    reveal_strlit("automatic-update-checks");
    reveal_strlit("last-update-check");
    reveal_strlit("automatic-download-tuning");
    assert("automatic-protection"@.len() == 20);
    assert("protect-on-battery"@.len() == 18);
    assert("launch-at-login"@.len() == 15);
    assert("automatic-update-checks"@.len() == 23);
    assert("last-update-check"@.len() == 17);
    assert("automatic-download-tuning"@.len() == 25);
}

/// The failures are told apart in the log or an error, each by its own word.
pub proof fn settings_words_for_failure(value: SettingsPersistenceFailure)
    ensures
        crate::settings::failure_word(value) == "Unavailable"@
            <==> value == SettingsPersistenceFailure::Unavailable,
        crate::settings::failure_word(value) == "CreateDirectory"@
            <==> value == SettingsPersistenceFailure::CreateDirectory,
        crate::settings::failure_word(value) == "PreserveSource"@
            <==> value == SettingsPersistenceFailure::PreserveSource,
        crate::settings::failure_word(value) == "Serialize"@
            <==> value == SettingsPersistenceFailure::Serialize,
        crate::settings::failure_word(value) == "WriteBackup"@
            <==> value == SettingsPersistenceFailure::WriteBackup,
        crate::settings::failure_word(value) == "WritePrimary"@
            <==> value == SettingsPersistenceFailure::WritePrimary,
        crate::settings::failure_word(value) == "ReplaceBackup"@
            <==> value == SettingsPersistenceFailure::ReplaceBackup,
        crate::settings::failure_word(value) == "ReplacePrimary"@
            <==> value == SettingsPersistenceFailure::ReplacePrimary,
{
    reveal_strlit("Unavailable");
    reveal_strlit("CreateDirectory");
    reveal_strlit("PreserveSource");
    reveal_strlit("Serialize");
    reveal_strlit("WriteBackup");
    reveal_strlit("WritePrimary");
    reveal_strlit("ReplaceBackup");
    reveal_strlit("ReplacePrimary");
    assert("Unavailable"@.len() == 11);
    assert("CreateDirectory"@.len() == 15);
    assert("PreserveSource"@.len() == 14);
    assert("Serialize"@.len() == 9);
    assert("WriteBackup"@.len() == 11);
    assert("WritePrimary"@.len() == 12);
    assert("ReplaceBackup"@.len() == 13);
    assert("ReplacePrimary"@.len() == 14);
    assert("Unavailable"@[0] != "WriteBackup"@[0]);
    assert("PreserveSource"@[0] != "ReplacePrimary"@[0]);
}

/// The conditions of loading are told apart in the log or an error, each by its own word.
pub proof fn settings_words_for_load(value: LoadCondition)
    ensures
        crate::settings::load_word(value)@ == "first-run"@ <==> value == LoadCondition::FirstRun,
        crate::settings::load_word(value)@ == "current-version"@
            <==> value == LoadCondition::CurrentVersion,
        crate::settings::load_word(value)@ == "partial-recovery"@
            <==> value == LoadCondition::PartialRecovery,
        crate::settings::load_word(value)@ == "recovered-from-backup"@
            <==> value == LoadCondition::RecoveredFromBackup,
        crate::settings::load_word(value)@ == "malformed-defaulted"@
            <==> value == LoadCondition::MalformedDefaulted,
        crate::settings::load_word(value)@ == "persistence-unavailable"@
            <==> value == LoadCondition::PersistenceUnavailable,
        crate::settings::load_word(value)@ == "schema-metadata-recovered"@
            <==> value == LoadCondition::SchemaMetadataRecovered,
        crate::settings::load_word(value)@ == "unsupported-future-schema"@
            <==> value is UnsupportedFutureSchema,
{
    reveal_strlit("first-run");
    reveal_strlit("current-version");
    reveal_strlit("partial-recovery");
    reveal_strlit("recovered-from-backup");
    reveal_strlit("malformed-defaulted");
    reveal_strlit("persistence-unavailable");
    reveal_strlit("schema-metadata-recovered");
    reveal_strlit("unsupported-future-schema");
    assert("first-run"@.len() == 9);
    assert("current-version"@.len() == 15);
    assert("partial-recovery"@.len() == 16);
    assert("recovered-from-backup"@.len() == 21);
    assert("malformed-defaulted"@.len() == 19);
    assert("persistence-unavailable"@.len() == 23);
    assert("schema-metadata-recovered"@.len() == 25);
    assert("unsupported-future-schema"@.len() == 25);
    assert("schema-metadata-recovered"@[0] != "unsupported-future-schema"@[0]);
}

/// The conditions of saving are told apart in the log or an error, each by its own word.
pub proof fn settings_words_for_persistence(value: PersistenceCondition)
    ensures
        crate::settings::persistence_word(value)@ == "writable"@
            <==> value == PersistenceCondition::Writable,
        crate::settings::persistence_word(value)@ == "unavailable"@
            <==> value == PersistenceCondition::Unavailable,
        crate::settings::persistence_word(value)@ == "blocked-future-schema"@
            <==> value == PersistenceCondition::BlockedByFutureSchema,
{
    reveal_strlit("writable");
    reveal_strlit("unavailable");
    reveal_strlit("blocked-future-schema");
    assert("writable"@.len() == 8);
    assert("unavailable"@.len() == 11);
    assert("blocked-future-schema"@.len() == 21);
}

/// The operations are told apart in an error, each by its own word.
pub proof fn inhibitor_words_for_operation(value: NativeOperation)
    ensures
        crate::sleep_inhibitor::operation_word(value) == "Acquire"@
            <==> value == NativeOperation::Acquire,
        crate::sleep_inhibitor::operation_word(value) == "Release"@
            <==> value == NativeOperation::Release,
        crate::sleep_inhibitor::operation_word(value) == "Cleanup"@
            <==> value == NativeOperation::Cleanup,
{
    reveal_strlit("Acquire");
    reveal_strlit("Release");
    reveal_strlit("Cleanup");
    assert("Acquire"@.len() == 7);
    assert("Release"@.len() == 7);
    assert("Cleanup"@.len() == 7);
    assert("Acquire"@[0] != "Release"@[0]);
    assert("Acquire"@[0] != "Cleanup"@[0]);
    assert("Release"@[0] != "Cleanup"@[0]);
}

/// The failures of an update are told apart in the menu, each by its own word.
pub proof fn menu_words_for_update_failure(value: UpdateFailureStage)
    ensures
        crate::tray::update_failure_words(value) == "Automatic update scheduling failed"@
            <==> value == UpdateFailureStage::Scheduling,
        crate::tray::update_failure_words(value) == "Update check failed"@
            <==> value == UpdateFailureStage::Check,
        crate::tray::update_failure_words(value) == "Update download failed"@
            <==> value == UpdateFailureStage::Download,
        crate::tray::update_failure_words(value) == "Update verification failed"@
            <==> value == UpdateFailureStage::Verification,
        crate::tray::update_failure_words(value) == "Update installation failed"@
            <==> value == UpdateFailureStage::Install,
        crate::tray::update_failure_words(value) == "Update restart failed"@
            <==> value == UpdateFailureStage::Restart,
{
    reveal_strlit("Automatic update scheduling failed");
    reveal_strlit("Update check failed");
    reveal_strlit("Update download failed");
    reveal_strlit("Update verification failed");
    reveal_strlit("Update installation failed");
    reveal_strlit("Update restart failed");
    assert("Automatic update scheduling failed"@.len() == 34);
    assert("Update check failed"@.len() == 19);
    assert("Update download failed"@.len() == 22);
    assert("Update verification failed"@.len() == 26);
    assert("Update installation failed"@.len() == 26);
    assert("Update restart failed"@.len() == 21);
    assert("Update verification failed"@[7] != "Update installation failed"@[7]);
}

/// The power sources are told apart in the menu, each by its own word.
pub proof fn menu_words_for_power(value: PowerSource)
    ensures
        crate::tray::power_words(value) == "External power"@ <==> value == PowerSource::External,
        crate::tray::power_words(value) == "Battery or limited power"@
            <==> value == PowerSource::Limited,
        crate::tray::power_words(value) == "Unknown"@ <==> value == PowerSource::Unknown,
{
    reveal_strlit("External power");
    reveal_strlit("Battery or limited power");
    reveal_strlit("Unknown");
    assert("External power"@.len() == 14);
    assert("Battery or limited power"@.len() == 24);
    assert("Unknown"@.len() == 7);
}

} // verus!
