//! Diagnostics: the report, and the actions around it.

use chiu::application::{ApplicationStatus, CapabilityId, LifecyclePlan, StartupFailurePoint};
use chiu::automatic_download::AutomaticDownloadState;
use chiu::automatic_protection::PowerSource;
use chiu::diagnostics::report::{
    load_condition, looks_like_ipv4, manual_state, pending_version, render, safe_external,
    safe_timestamp, startup_failure, update_status, BoundedText, MAX_DIAGNOSTIC_BYTES,
};
use chiu::diagnostics::{
    ApplicationFacts, AutomaticFacts, DetectorFacts, DiagnosticActionFailure, DiagnosticInput,
    DiagnosticsService, InterfaceFacts, LaunchAtLoginFacts, ManualFacts, NetworkFacts,
    PlatformInfo, PowerFacts, PowerFailureFacts, SettingsFacts, UpdaterFacts, WakeFacts,
};
use chiu::duration::Duration;
use chiu::launch_at_login::{LaunchAtLoginFailureStage, Registration};
use chiu::local_log::{version, LocalLog, LoggingFailureStage, LoggingHealth, SafeEvent};
use chiu::manual_session::{ManualSession, ManualSessionState};
use chiu::network_activity::{
    NetworkActivityFailure, NetworkActivitySource, NetworkActivitySourceStatus,
    NetworkInterfaceContinuity,
};
use chiu::power_source::{PowerSourceObserverHealth, PowerSourceOperation};
use chiu::settings::{
    ArtifactWarning, FieldRecovery, LoadCondition, PersistenceCondition, RecoveryReason,
    SettingPath, SettingsPersistenceFailure,
};
use chiu::tray::command::TrayCommand;
use chiu::tray::{TrayApplication, TrayCommandOutcome, TrayRoute};
use chiu::updater::{
    PendingUpdateView, UpdateAvailability, UpdateFailureStage, UpdateStatus, UpdateTrigger,
};
use chiu::wake_coordinator::{ProtectionState, WakeCoordinator, WakeReason};

fn macos() -> PlatformInfo {
    PlatformInfo {
        family: "macos".to_owned(),
        version: "15.6.1".to_owned(),
        architecture: "aarch64".to_owned(),
    }
}

/// The diagnostics with a clipboard and a file manager that keep what they
/// are given.
struct World {
    service: DiagnosticsService,
    input: Option<DiagnosticInput>,
    log: LocalLog,
    events: Vec<SafeEvent>,
    clipboard: Vec<String>,
    clipboard_fails: bool,
    opened: Vec<String>,
}

fn service(input: Option<DiagnosticInput>, log: LocalLog) -> World {
    World {
        service: DiagnosticsService::new(true),
        input,
        log,
        events: Vec::new(),
        clipboard: Vec::new(),
        clipboard_fails: false,
        opened: Vec::new(),
    }
}

impl World {
    fn report(&self) -> Result<String, DiagnosticActionFailure> {
        DiagnosticsService::report(
            self.input.as_ref(),
            "2026-08-10T12:00:00Z",
            &macos(),
            self.log.health(),
        )
    }

    fn copy(&mut self) -> Result<String, DiagnosticActionFailure> {
        self.service.copy(&self.log, &mut self.events)?;
        let report = self.report();
        let written = match &report {
            Ok(text) if !self.clipboard_fails => {
                self.clipboard.push(text.clone());
                true
            }
            _ => false,
        };
        DiagnosticsService::copied(report, written, &mut self.events)
    }

    fn open_logs(&mut self) -> Result<(), DiagnosticActionFailure> {
        let directory = self.service.open_logs(&self.log, &mut self.events)?;
        self.opened.push(directory);
        DiagnosticsService::logs_opened(true, &mut self.events)
    }

    fn execute(&mut self, command: TrayCommand) -> TrayCommandOutcome {
        match TrayApplication::new().execute(command, ApplicationStatus::Starting) {
            TrayRoute::CopyDiagnostics => TrayApplication::copied(self.copy().map(|_| ())),
            other => panic!("{other:?}"),
        }
    }
}

fn representative_input() -> DiagnosticInput {
    DiagnosticInput {
        application: ApplicationFacts {
            status: ApplicationStatus::Degraded,
            unavailable_capabilities: vec![CapabilityId::new("power-source")],
            startup_failure: None,
            cleanup_failures: vec![CapabilityId::new("network-activity")],
        },
        settings: Some(SettingsFacts {
            automatic_download_protection: true,
            protect_on_battery: false,
            launch_at_login: true,
            automatic_update_checks: false,
            threshold_bytes_per_second: 1_048_576,
            qualification: Duration::from_secs(3),
            grace: Duration::from_secs(120),
            load_condition: LoadCondition::PartialRecovery,
            persistence: PersistenceCondition::Writable,
            field_recoveries: vec![FieldRecovery::new(
                SettingPath::GraceMilliseconds,
                RecoveryReason::InvalidValue,
            )],
            artifact_warnings: vec![ArtifactWarning::StaleTemporary],
            last_save_failure: Some(SettingsPersistenceFailure::WritePrimary),
        }),
        manual: ManualFacts {
            state: ManualSessionState::Finite {
                remaining: Duration::from_secs(900),
            },
            background_failure: false,
        },
        detector: Some(DetectorFacts {
            state: AutomaticDownloadState::Hold {
                remaining_grace: Duration::from_millis(1_200),
            },
            latest_receive_rate_bytes_per_second: Some(2_048),
        }),
        automatic: Some(AutomaticFacts {
            preference_enabled: true,
            protect_on_battery: false,
            detector_intent: true,
            desired_automatic_reason: true,
            suppression: None,
            coordination_failure: false,
        }),
        power: Some(PowerFacts {
            source: PowerSource::External,
            health: PowerSourceObserverHealth::Degraded,
            failure: Some(PowerFailureFacts {
                operation: PowerSourceOperation::Sample,
                code: Some(17),
            }),
        }),
        wake: WakeFacts {
            active_reasons: vec![WakeReason::AutomaticDownload, WakeReason::ManualKeepAwake],
            protection: ProtectionState::Active,
        },
        network: NetworkFacts {
            status: NetworkActivitySourceStatus::Available,
            failure: Some(NetworkActivityFailure::ProviderRead),
        },
        interfaces: vec![
            InterfaceFacts {
                id: 9,
                received_bytes: 90,
                recent_delta: None,
                included: false,
                continuity: NetworkInterfaceContinuity::CounterReset,
            },
            InterfaceFacts {
                id: 2,
                received_bytes: 20,
                recent_delta: Some(5),
                included: true,
                continuity: NetworkInterfaceContinuity::Continuous,
            },
        ],
        launch_at_login: Some(LaunchAtLoginFacts {
            available: true,
            desired: true,
            observed: Registration::Unknown,
            failure_stage: Some(LaunchAtLoginFailureStage::Verify),
        }),
        updater: Some(UpdaterFacts {
            availability: UpdateAvailability::Available,
            automatic_checks: false,
            status: UpdateStatus::UpdateAvailable {
                version: Some("0.2.0".to_owned()),
            },
        }),
    }
}

#[test]
fn representative_report_has_exact_stable_bytes() {
    let retention = LocalLog::retention_policy();
    let expected = format!(
        "Chiù diagnostics\n\
generated_at_utc=2026-08-10T12:00:00Z\n\
version={}\n\
os_family=macos\n\
os_version=15.6.1\n\
architecture=aarch64\n\
[application]\n\
status=degraded\n\
unavailable_capabilities=power-source\n\
startup_failure=none\n\
cleanup_failures=network-activity\n\
[settings]\n\
automatic_download_protection=true\n\
protect_on_battery=false\n\
launch_at_login=true\n\
automatic_update_checks=false\n\
threshold_bytes_per_second=1048576\n\
qualification_milliseconds=3000\n\
grace_milliseconds=120000\n\
load_condition=partial-recovery\n\
persistence=writable\n\
field_recovery=grace reason=invalid-value\n\
artifact_warning=stale-temporary\n\
last_save_failure=write-primary\n\
[manual_keep_awake]\n\
state=finite remaining_seconds=900\n\
background_failure=none\n\
[detector]\n\
state=hold remaining_milliseconds=1200\n\
aggregate_receive_bytes_per_second=2048\n\
[automatic_protection]\n\
preference_enabled=true\n\
protect_on_battery=false\n\
detector_intent=true\n\
desired_automatic_reason=true\n\
suppression=none\n\
coordination_failure=none\n\
[power_source]\n\
source=external\n\
health=degraded\n\
failure_operation=sample\n\
failure_code=17\n\
[wake_coordination]\n\
active_reasons=automatic-download,manual-keep-awake\n\
native_protection=active\n\
[network]\n\
status=available\n\
failure=provider-read\n\
interface_count=2\n\
interface id=2 included=true continuity=continuous received_bytes=20 recent_delta=5\n\
interface id=9 included=false continuity=counter-reset received_bytes=90 recent_delta=unavailable\n\
[launch_at_login]\n\
available=true\n\
desired=true\n\
observed=unknown\n\
failure_stage=verify\n\
[updater]\n\
availability=available\n\
automatic_checks=false\n\
status=update-available\n\
target_version=0.2.0\n\
[logging]\n\
health=available\n\
maximum_files={}\n\
maximum_file_bytes={}\n",
        version(),
        retention.maximum_files,
        retention.maximum_file_bytes,
    );

    assert_eq!(
        render(
            &representative_input(),
            "2026-08-10T12:00:00Z",
            &PlatformInfo {
                family: "macos".to_owned(),
                version: "15.6.1".to_owned(),
                architecture: "aarch64".to_owned(),
            },
            LoggingHealth::Available,
        ),
        expected
    );
}

#[test]
fn minimal_report_has_exact_stable_bytes() {
    let retention = LocalLog::retention_policy();
    let expected = format!(
        "Chiù diagnostics\n\
generated_at_utc=2026-08-10T12:00:00Z\n\
version={}\n\
os_family=macos\n\
os_version=15.6.1\n\
architecture=aarch64\n\
[application]\n\
status=failed\n\
unavailable_capabilities=none\n\
startup_failure=none\n\
cleanup_failures=none\n\
[settings]\n\
status=not-initialized\n\
[manual_keep_awake]\n\
state=inactive\n\
background_failure=none\n\
[detector]\n\
status=not-initialized\n\
[automatic_protection]\n\
status=not-initialized\n\
[power_source]\n\
status=not-initialized\n\
[wake_coordination]\n\
active_reasons=none\n\
native_protection=inactive\n\
[network]\n\
status=not-started\n\
failure=none\n\
interface_count=0\n\
[launch_at_login]\n\
status=not-initialized\n\
[updater]\n\
status=not-initialized\n\
[logging]\n\
health=unavailable:open\n\
maximum_files={}\n\
maximum_file_bytes={}\n",
        version(),
        retention.maximum_files,
        retention.maximum_file_bytes,
    );

    assert_eq!(
        render(
            &DiagnosticInput::minimal(ApplicationStatus::Failed),
            "2026-08-10T12:00:00Z",
            &PlatformInfo {
                family: "macos".to_owned(),
                version: "15.6.1".to_owned(),
                architecture: "aarch64".to_owned(),
            },
            LoggingHealth::Unavailable(LoggingFailureStage::Open),
        ),
        expected
    );
}

#[test]
fn partial_snapshot_is_deterministic_bounded_and_explicit_about_missing_capabilities() {
    let service = service(
        Some(DiagnosticInput::minimal(ApplicationStatus::Failed)),
        LocalLog::unavailable(LoggingFailureStage::Open),
    );

    let first = service.report().unwrap();
    let second = service.report().unwrap();

    assert_eq!(first, second);
    assert!(first.len() <= MAX_DIAGNOSTIC_BYTES);
    assert!(first.contains("generated_at_utc=2026-08-10T12:00:00Z"));
    assert!(first.contains("[settings]\nstatus=not-initialized"));
    assert!(first.contains("health=unavailable:open"));
    assert!(!first.contains("/Users/"));
}

#[test]
fn copy_writes_exactly_the_fresh_snapshot_and_never_needs_a_clipboard_read() {
    let mut service = service(
        Some(DiagnosticInput::minimal(ApplicationStatus::Ready)),
        LocalLog::unavailable(LoggingFailureStage::Open),
    );

    let copied = service.copy().unwrap();

    assert_eq!(service.clipboard.as_slice(), &[copied]);
    assert!(service.service.availability(&service.log).copy);
    assert!(!service.service.availability(&service.log).open_logs);
}

#[test]
fn tray_surfaces_operational_copy_failures_but_ignores_stale_shutdown_actions() {
    let mut snapshot_failure = service(None, LocalLog::unavailable(LoggingFailureStage::Open));

    assert_eq!(
        snapshot_failure.execute(TrayCommand::CopyDiagnostics),
        TrayCommandOutcome::CopyDiagnosticsFailed
    );

    let mut clipboard_failure = service(
        Some(DiagnosticInput::minimal(ApplicationStatus::Ready)),
        LocalLog::unavailable(LoggingFailureStage::Open),
    );
    clipboard_failure.clipboard_fails = true;

    assert_eq!(
        clipboard_failure.execute(TrayCommand::CopyDiagnostics),
        TrayCommandOutcome::CopyDiagnosticsFailed
    );
    clipboard_failure.service.begin_shutdown();
    assert_eq!(
        clipboard_failure.execute(TrayCommand::CopyDiagnostics),
        TrayCommandOutcome::Ignored
    );
}

#[test]
fn open_logs_delegates_the_resolved_directory_without_url_conversion() {
    let mut service = service(
        Some(DiagnosticInput::minimal(ApplicationStatus::Failed)),
        LocalLog::with_writer("/test/chiu/logs".to_owned()),
    );

    service.open_logs().unwrap();

    assert_eq!(service.opened.as_slice(), &["/test/chiu/logs"]);
    assert!(service.service.availability(&service.log).copy);
    assert!(service.service.availability(&service.log).open_logs);
}

#[test]
fn shutdown_rejects_stale_diagnostic_actions_before_the_view_refreshes() {
    let mut service = service(
        Some(DiagnosticInput::minimal(ApplicationStatus::Ready)),
        LocalLog::unavailable(LoggingFailureStage::Open),
    );

    service.service.begin_shutdown();

    assert_eq!(service.copy(), Err(DiagnosticActionFailure::Unavailable));
    assert!(!service.service.availability(&service.log).copy);
    assert!(service.clipboard.is_empty());
}

#[test]
fn render_redacts_raw_platform_and_updater_values() {
    let mut input = representative_input();
    input.updater.as_mut().unwrap().status = UpdateStatus::UpdateAvailable {
        version: Some("https://private.example/release".to_owned()),
    };

    let text = render(
        &input,
        "2026-08-10T12:00:00Z",
        &PlatformInfo {
            family: "/Users/alice/file.zip".to_owned(),
            version: "10.0.0.1".to_owned(),
            architecture: "line\nbreak".to_owned(),
        },
        LoggingHealth::Available,
    );

    assert!(text.contains("os_family=unavailable"));
    assert!(text.contains("os_version=unavailable"));
    assert!(text.contains("architecture=unavailable"));
    assert!(text.contains("target_version=unavailable"));
    assert!(!text.contains("private.example"));
    assert!(!text.contains("/Users/alice"));
}

#[test]
fn capture_assembles_typed_core_facts_without_formatting() {
    let lifecycle = LifecyclePlan::new().build();
    let wake = WakeCoordinator::new();
    let manual = ManualSession::new();
    let network = NetworkActivitySource::new();

    let input = DiagnosticInput::capture(
        &lifecycle.state(),
        &manual.snapshot(Duration::zero()),
        &network.snapshot(),
        &wake.snapshot(),
        None,
        None,
        None,
        None,
        None,
        None,
    );

    assert_eq!(input.application.status, ApplicationStatus::Starting);
    assert_eq!(input.manual.state, ManualSessionState::Inactive);
    assert_eq!(input.wake.protection, ProtectionState::Inactive);
    assert_eq!(
        input.network.status,
        NetworkActivitySourceStatus::NotStarted
    );
    assert!(input.settings.is_none());
    assert!(input.interfaces.is_empty());
}

#[test]
fn more_than_sixty_four_interfaces_are_reported_as_omitted_in_stable_id_order() {
    let mut input = DiagnosticInput::minimal(ApplicationStatus::Ready);
    input.interfaces = (1..=100)
        .rev()
        .map(|id| InterfaceFacts {
            id,
            received_bytes: id,
            recent_delta: Some(id),
            included: true,
            continuity: NetworkInterfaceContinuity::Continuous,
        })
        .collect();
    let text = render(
        &input,
        "2026-08-10T12:00:00Z",
        &PlatformInfo {
            family: "macos".to_owned(),
            version: "15.6.1".to_owned(),
            architecture: "aarch64".to_owned(),
        },
        LoggingHealth::Available,
    );

    assert!(text.find("interface id=1 ").unwrap() < text.find("interface id=2 ").unwrap());
    assert!(text.contains("interface_count=100"));
    assert!(text.contains("interfaces_omitted=36"));
    assert!(!text.contains("interface id=65 "));
    assert!(text.len() <= MAX_DIAGNOSTIC_BYTES);
}

#[test]
fn failures_of_diagnostic_actions_are_logged_without_words_from_outside() {
    let mut service = service(None, LocalLog::unavailable(LoggingFailureStage::Open));

    assert_eq!(service.copy(), Err(DiagnosticActionFailure::Snapshot));
    assert_eq!(
        service.open_logs(),
        Err(DiagnosticActionFailure::Unavailable)
    );
    assert_eq!(
        DiagnosticsService::logs_opened(false, &mut service.events),
        Err(DiagnosticActionFailure::OpenLogs)
    );
    let without_clipboard = DiagnosticsService::new(false);
    assert_eq!(
        without_clipboard.copy(&service.log, &mut service.events),
        Err(DiagnosticActionFailure::Unavailable)
    );

    let lines = service
        .events
        .iter()
        .map(SafeEvent::render)
        .collect::<Vec<_>>();
    assert_eq!(lines.len(), 4);
    assert!(lines[0].contains("action=copy outcome=failed"));
    assert!(lines[1].contains("outcome=rejected"));
    assert!(lines[2].contains("outcome=failed"));
    assert!(lines[3].contains("action=copy outcome=rejected"));
}

#[test]
fn reports_end_with_a_note_where_they_would_be_too_long() {
    let mut text = BoundedText::new();
    let line = "x".repeat(1_023);
    for _ in 0..100 {
        text.line(&line);
    }
    let text = text.finish();

    assert!(text.len() <= MAX_DIAGNOSTIC_BYTES);
    assert!(text.len() > MAX_DIAGNOSTIC_BYTES - 2_048);
    assert!(text.ends_with('\n'));
    assert!(text.lines().all(|found| found == line
        || found == text.lines().last().unwrap_or_default()));
    let mut short = BoundedText::new();
    short.line("one");
    short.lines(&vec!["two".to_owned(), "three".to_owned()]);
    assert_eq!(short.finish(), "one\ntwo\nthree\n");
}

#[test]
fn addresses_are_recognised_as_such() {
    for address in ["10.0.0.1", "0.0.0.0", "255.255.255.255", "1.2.3.4"] {
        assert!(looks_like_ipv4(address), "{address}");
    }
    for other in [
        "15.6.1",
        "1.2.3",
        "1.2.3.4.5",
        "256.1.1.1",
        "1..2.3",
        "a.b.c.d",
        "",
        "1.2.3.",
    ] {
        assert!(!looks_like_ipv4(other), "{other}");
    }
}

#[test]
fn texts_from_outside_are_plain_and_short_or_withheld() {
    assert_eq!(safe_external("macos", 64), "macos");
    assert_eq!(
        safe_external("15.6.1-beta+2_x (y)", 64),
        "15.6.1-beta+2_x (y)"
    );
    for refused in ["", "a/b", "a=b", "a\nb", "10.0.0.1", "\u{e9}"] {
        assert_eq!(safe_external(refused, 64), "unavailable", "{refused:?}");
    }
    assert_eq!(safe_external("abcd", 4), "abcd");
    assert_eq!(safe_external("abcde", 4), "unavailable");
    assert_eq!(
        safe_timestamp("2026-08-10T12:00:00Z"),
        "2026-08-10T12:00:00Z"
    );
    assert_eq!(safe_timestamp("yesterday at noon"), "unavailable");
}

#[test]
fn the_parts_of_a_report_are_worded() {
    assert_eq!(
        manual_state(&ManualSessionState::Finite {
            remaining: Duration::from_millis(1_999)
        }),
        "finite remaining_seconds=1"
    );
    assert_eq!(
        startup_failure(StartupFailurePoint::Required(CapabilityId::new("updater"))),
        "required-capability:updater"
    );
    assert_eq!(
        load_condition(LoadCondition::UnsupportedFutureSchema { found: 7 }),
        "unsupported-future-schema:7"
    );
    assert_eq!(
        pending_version(&Some(PendingUpdateView::Version("1.2.3".to_owned()))),
        "1.2.3"
    );
    assert_eq!(
        update_status(&UpdateStatus::Failed {
            stage: UpdateFailureStage::Verification,
            trigger: UpdateTrigger::Manual,
            pending: Some(PendingUpdateView::Unnamed),
        }),
        [
            "status=failed",
            "failure_stage=verification",
            "trigger=manual",
            "target_version=unavailable"
        ]
    );
}
