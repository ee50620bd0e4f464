//! The whole program on a scripted platform.

use chiu::application::{
    ApplicationStatus, CapabilityId, LifecycleStep, ShutdownReport, StartError,
    StartupFailurePoint, StartupReport,
};
use chiu::automatic_download::{
    AutomaticDownloadMonitor, AutomaticDownloadState, AutomaticDownloadTuningService,
};
use chiu::automatic_protection::{
    AutomaticProtectionService, IntentProgress, PowerSource, ProtectionProgress,
};
use chiu::diagnostics::{DiagnosticsService, PlatformInfo};
use chiu::duration::Duration;
use chiu::host::{log_stopped, FinishAnswer, ShutdownCoordinator};
use chiu::launch_at_login::{LaunchAtLoginFailure, LaunchAtLoginService, ReconcileStep};
use chiu::local_log::{LocalLog, LoggingFailureStage, LoggingHealth, ProtectionAction, SafeEvent};
use chiu::manual_session::{
    ManualSessionAddPreset, ManualSessionCommand, ManualSessionStartPreset, ManualSessionState,
    SessionProgress,
};
use chiu::network_activity::{NetworkActivityEvent, ReceiveActivitySample};
use chiu::product_composition::{
    lifecycle_plan, AutomaticSubsystem, ProductComposition, ProductRequest, ProductRuntime,
};
use chiu::settings::files::{
    backup_file, backup_temp_file, next_quarantine_name, primary_file, primary_temp_file,
    prune_quarantines,
};
use chiu::settings::service::{
    absent_or_backup, cleanup_stale_temporary_files, load_settings, malformed_or_backup,
    FileContent, LoadStep, SettingsService, UpdateStage, UpdateStep,
};
use chiu::settings::{Settings, SettingsUpdate, SettingsUpdateError};
use chiu::tray::command::{GracePreset, ThresholdPreset, TrayCommand};
use chiu::tray::{TrayCommandOutcome, TrayRoute, TrayView};
use chiu::updater::{UpdateAvailability, UpdateStatus, UpdaterSnapshot};
use chiu::wake_coordinator::{ProtectionState, WakeReason};
use std::cell::RefCell;
use std::collections::BTreeMap;
use std::rc::Rc;

/// The settings directory, in memory.
#[derive(Default)]
struct MemoryDisk {
    files: BTreeMap<String, Vec<u8>>,
    directories: Vec<String>,
    replacements: u64,
    fail_replacement_at: Option<u64>,
    copies: u64,
    log: Vec<SafeEvent>,
}

impl MemoryDisk {
    fn read(&self, name: &str) -> FileContent {
        if self.directories.iter().any(|directory| directory == name) {
            return FileContent::Unreadable;
        }
        match self.files.get(name) {
            Some(bytes) => FileContent::Bytes(bytes.clone()),
            None => FileContent::Missing,
        }
    }

    fn write(&mut self, name: &str, bytes: &[u8]) -> bool {
        if self.directories.iter().any(|directory| directory == name) {
            return false;
        }
        self.files.insert(name.to_owned(), bytes.to_vec());
        true
    }

    fn is_stuck(&mut self, name: &str) -> bool {
        self.files.remove(name);
        self.directories.iter().any(|directory| directory == name)
    }

    fn replace(&mut self, source: &str, destination: &str) -> bool {
        self.replacements += 1;
        if Some(self.replacements) == self.fail_replacement_at {
            return false;
        }
        match self.files.remove(source) {
            Some(bytes) => {
                self.files.insert(destination.to_owned(), bytes);
                true
            }
            None => false,
        }
    }

    fn next_copy(&mut self) -> String {
        let name = next_quarantine_name(1_700_000_000_000, self.copies);
        self.copies += 1;
        name
    }

    fn prune(&mut self) -> bool {
        let names = self.files.keys().cloned().collect::<Vec<_>>();
        for position in prune_quarantines(&names) {
            self.files.remove(&names[position]);
        }
        true
    }

    fn load(&mut self) -> SettingsService {
        let primary_stuck = self.is_stuck(primary_temp_file());
        let backup_stuck = self.is_stuck(backup_temp_file());
        let warnings = cleanup_stale_temporary_files(primary_stuck, backup_stuck);
        let primary = self.read(primary_file());
        let loaded = match load_settings(true, warnings, primary) {
            LoadStep::Finished(loaded) => loaded,
            LoadStep::Absent(warnings) => absent_or_backup(warnings, self.read(backup_file())),
            LoadStep::Malformed(warnings) => {
                let copy = self.next_copy();
                let moved = match self.files.remove(primary_file()) {
                    Some(bytes) => self.files.insert(copy, bytes).is_none(),
                    None => false,
                };
                let pruned = self.prune();
                malformed_or_backup(warnings, moved, pruned, self.read(backup_file()))
            }
        };
        let exists = self.files.contains_key(primary_file());
        SettingsService::load(loaded, exists, &mut self.log)
    }

    fn update(
        &mut self,
        service: &mut SettingsService,
        update: SettingsUpdate,
    ) -> Result<Settings, SettingsUpdateError> {
        let mut step = service.update(update, &mut self.log);
        loop {
            let pending = match step {
                UpdateStep::Finished(result) => return result,
                UpdateStep::Perform(pending) => pending,
            };
            let succeeded = match pending.stage {
                UpdateStage::CreateDirectory => true,
                UpdateStage::WritePrimary => self.write(primary_temp_file(), &pending.bytes),
                UpdateStage::PreserveSource => {
                    let copy = self.next_copy();
                    match self.files.get(primary_file()).cloned() {
                        Some(bytes) => self.write(&copy, &bytes),
                        None => false,
                    }
                }
                UpdateStage::PruneQuarantines => self.prune(),
                UpdateStage::TestPrimary => self.files.contains_key(primary_file()),
                UpdateStage::WriteBackup => self.write(backup_temp_file(), &pending.bytes),
                UpdateStage::ReplaceBackup => self.replace(backup_temp_file(), backup_file()),
                UpdateStage::ReplacePrimary => self.replace(primary_temp_file(), primary_file()),
            };
            step = service.advance(pending, succeeded, &mut self.log);
        }
    }
}

/// A platform that answers as scripted where starting at login is concerned.
#[derive(Clone)]
struct LaunchAdapter {
    observations: Rc<RefCell<Vec<bool>>>,
    mutations: Rc<RefCell<Vec<bool>>>,
    set_failure: Option<&'static str>,
}

impl LaunchAdapter {
    fn new(observations: Vec<bool>) -> Self {
        Self {
            observations: Rc::new(RefCell::new(observations.into_iter().rev().collect())),
            mutations: Rc::new(RefCell::new(Vec::new())),
            set_failure: None,
        }
    }

    fn observe(&self) -> Result<bool, String> {
        let scripted = self.observations.borrow_mut().pop();
        let last = self.mutations.borrow().last().copied();
        Ok(scripted.or(last).unwrap_or(true))
    }

    fn set_enabled(&self, enabled: bool) -> Result<(), String> {
        self.mutations.borrow_mut().push(enabled);
        match self.set_failure {
            Some(message) => Err(message.to_owned()),
            None => Ok(()),
        }
    }
}

/// The whole program on a scripted platform.
struct Program {
    runtime: ProductRuntime,
    disk: Option<MemoryDisk>,
    launch: Result<LaunchAdapter, &'static str>,
    updater: UpdaterSnapshot,
    updater_failure: Option<&'static str>,
    on_network: fn(&mut Program),
    protection: ProtectionState,
    now: Duration,
    log: Vec<SafeEvent>,
}

fn no_activity(_: &mut Program) {}

fn build_runtime(disk: Option<MemoryDisk>) -> Program {
    Program {
        runtime: ProductRuntime::build(true),
        disk,
        launch: Ok(LaunchAdapter::new(Vec::new())),
        updater: UpdaterSnapshot {
            availability: UpdateAvailability::Unconfigured,
            automatic_checks_enabled: true,
            status: UpdateStatus::Idle,
        },
        updater_failure: None,
        on_network: no_activity,
        protection: ProtectionState::Inactive,
        now: Duration::from_secs(100),
        log: Vec::new(),
    }
}

impl Program {
    fn parts(&mut self) -> &mut ProductComposition {
        &mut self.runtime.composition
    }

    fn settings(&self) -> Settings {
        self.runtime
            .composition
            .settings
            .as_ref()
            .expect("restored settings")
            .snapshot()
    }

    fn automatic(&self) -> &AutomaticSubsystem {
        self.runtime
            .composition
            .automatic
            .as_ref()
            .expect("the parts that deal with downloads")
    }

    fn perform(&mut self, action: ProtectionAction) -> Result<(), String> {
        self.protection = match action {
            ProtectionAction::Acquire => ProtectionState::Active,
            ProtectionAction::Release => ProtectionState::Inactive,
        };
        Ok(())
    }

    fn save(&mut self, update: SettingsUpdate) -> Result<Settings, SettingsUpdateError> {
        let settings = self
            .runtime
            .composition
            .settings
            .as_mut()
            .expect("restored settings");
        match &mut self.disk {
            Some(disk) => disk.update(settings, update),
            None => MemoryDisk::default().update(settings, update),
        }
    }

    fn start_capability(&mut self, name: &str) -> Result<(), String> {
        match name {
            "wake-coordination" => Ok(()),
            "manual-session" => self
                .parts()
                .manual
                .start_scheduler()
                .map_err(|error| error.message()),
            "automatic-download" => {
                let settings = self.settings();
                self.parts().start_automatic(&settings)
            }
            "launch-at-login" => self.start_launch_at_login(),
            "power-source" => self.parts().power_source_ready(),
            "network-activity" => {
                self.parts().network_ready()?;
                (self.on_network)(self);
                Ok(())
            }
            "updater" => {
                let failure = self.updater_failure.map(str::to_owned);
                self.parts().register_updater(failure)
            }
            other => panic!("an unknown capability: {other}"),
        }
    }

    fn start_launch_at_login(&mut self) -> Result<(), String> {
        let adapter = match self.launch.clone() {
            Ok(adapter) => adapter,
            Err(message) => {
                let failure = LaunchAtLoginFailure::initialize(message.to_owned());
                return self.parts().register_launch_at_login(Err(failure));
            }
        };
        self.parts()
            .register_launch_at_login(Ok(LaunchAtLoginService::available()))?;
        let desired = self.settings().launch_at_login();
        let parts = &mut self.runtime.composition;
        let persistence = parts
            .settings
            .as_ref()
            .expect("restored settings")
            .health()
            .persistence();
        let service = parts.launch_at_login.as_mut().expect("a service");
        if let ReconcileStep::Observe = service.reconcile(persistence, &mut self.log) {
            let observed = adapter.observe();
            if let ReconcileStep::Apply(desired) =
                service.reconcile_locked(desired, observed, &mut self.log)
            {
                let applied = adapter.set_enabled(desired);
                let _ = service.apply_and_verify(
                    desired,
                    applied,
                    adapter.observe(),
                    &mut self.log,
                );
            }
        }
        Ok(())
    }

    fn stop_capability(&mut self, name: &str) -> Result<(), String> {
        match name {
            "wake-coordination" => {
                let needed = self.runtime.composition.wake.shutdown(&mut self.log);
                if let Some(action) = needed {
                    let outcome = self.perform(action);
                    self.runtime.composition.wake.native_returned(
                        action,
                        outcome.is_ok(),
                        self.protection,
                        &mut self.log,
                    );
                }
            }
            "manual-session" => self.parts().manual.request_scheduler_shutdown(),
            "automatic-download" => {
                let parts = &mut self.runtime.composition;
                let automatic = parts.automatic.as_mut().expect("a detector");
                let progress = automatic.monitor.shutdown(
                    &mut automatic.controller,
                    &mut parts.wake,
                    &mut self.log,
                );
                if let IntentProgress::Native(pending) = progress {
                    let outcome = self.perform(pending.action);
                    let parts = &mut self.runtime.composition;
                    let automatic = parts.automatic.as_mut().expect("a detector");
                    automatic
                        .controller
                        .intent_returned(
                            pending,
                            outcome,
                            self.protection,
                            &mut parts.wake,
                            &mut self.log,
                        )
                        .map_err(|error| error.message())?;
                }
            }
            _ => {}
        }
        Ok(())
    }

    fn drive(&mut self, mut step: LifecycleStep) -> LifecycleStep {
        loop {
            step = match step {
                LifecycleStep::RestoreSettings => {
                    let settings = match &mut self.disk {
                        Some(disk) => disk.load(),
                        None => SettingsService::unavailable(&mut self.log),
                    };
                    let restored = self.parts().restore_settings(settings);
                    self.runtime.lifecycle.restored(restored)
                }
                LifecycleStep::Start(capability) => {
                    let outcome = self.start_capability(capability.as_str());
                    self.runtime.lifecycle.participant_started(outcome)
                }
                LifecycleStep::Stop(capability) => {
                    let outcome = self.stop_capability(capability.as_str());
                    self.runtime.lifecycle.participant_stopped(outcome)
                }
                end => return end,
            };
        }
    }

    fn start(&mut self) -> Result<StartupReport, StartError> {
        let step = self.runtime.lifecycle.start();
        match self.drive(step) {
            LifecycleStep::Started(report) => {
                self.runtime.activate();
                Ok(report)
            }
            LifecycleStep::StartFailed(error) => Err(error),
            other => panic!("a start ended in {other:?}"),
        }
    }

    fn shutdown(&mut self) -> ShutdownReport {
        let step = self.runtime.shutdown();
        match self.drive(step) {
            LifecycleStep::ShutDown(report) => report,
            other => panic!("a shutdown ended in {other:?}"),
        }
    }

    fn view(&self) -> TrayView {
        let log = LocalLog::unavailable(LoggingFailureStage::Open);
        self.runtime.view(self.now, self.updater.clone(), &log)
    }

    fn report(&self) -> String {
        let application = self.runtime.lifecycle.state();
        let input =
            self.runtime
                .composition
                .capture(&application, self.now, Some(self.updater.clone()));
        DiagnosticsService::report(
            Some(&input),
            "2026-08-10T12:00:00Z",
            &PlatformInfo {
                family: "macos".to_owned(),
                version: "15.6.1".to_owned(),
                architecture: "aarch64".to_owned(),
            },
            LoggingHealth::Unavailable(LoggingFailureStage::Open),
        )
        .expect("a report")
    }

    fn consume(&mut self, event: NetworkActivityEvent) {
        let parts = &mut self.runtime.composition;
        let automatic = parts.automatic.as_mut().expect("a detector");
        let pending = automatic.monitor.consume(
            event,
            &mut automatic.controller,
            &mut parts.wake,
            &mut self.log,
        );
        if let Some(pending) = pending {
            let outcome = self.perform(pending.reconciliation.action);
            let parts = &mut self.runtime.composition;
            let automatic = parts.automatic.as_mut().expect("a detector");
            AutomaticDownloadMonitor::consume_returned(
                pending,
                outcome,
                self.protection,
                &mut automatic.controller,
                &mut parts.wake,
                &mut self.log,
            );
        }
    }

    fn execute(&mut self, command: TrayCommand) -> TrayCommandOutcome {
        let status = self.runtime.lifecycle.state().status();
        let command = match self.runtime.tray.execute(command, status) {
            TrayRoute::Finished(outcome) => return outcome,
            TrayRoute::Product(command) => command,
            other => panic!("{other:?}"),
        };
        match self.runtime.composition.execute(command) {
            ProductRequest::Manual(command) => self.command(command),
            ProductRequest::Protection(update) => {
                let saved = self.save(update);
                self.follow(saved);
            }
            ProductRequest::LaunchAtLogin(update) => {
                let saved = LaunchAtLoginService::toggle_saved(self.save(update));
                if let (Ok(target), Ok(adapter)) = (saved, self.launch.clone()) {
                    let applied = adapter.set_enabled(target);
                    let service = self.runtime.composition.launch_at_login.as_mut();
                    let _ = service.expect("a service").apply_and_verify(
                        target,
                        applied,
                        adapter.observe(),
                        &mut self.log,
                    );
                }
            }
            ProductRequest::Tuning { update, tuning } => {
                let saved = self.save(update);
                let parts = &mut self.runtime.composition;
                let automatic = parts.automatic.as_mut().expect("a detector");
                let tuned = AutomaticDownloadTuningService::tuned(
                    &mut automatic.monitor,
                    tuning,
                    saved,
                    &mut automatic.controller,
                    &mut parts.wake,
                    &mut self.log,
                );
                if let Ok((_, progress)) = tuned {
                    assert!(matches!(progress, IntentProgress::Finished(Ok(()))));
                }
            }
            _ => {}
        }
        TrayCommandOutcome::RefreshRequested
    }

    fn command(&mut self, command: ManualSessionCommand) {
        let parts = &mut self.runtime.composition;
        let progress = parts
            .manual
            .command(command, self.now, &mut parts.wake, &mut self.log);
        if let SessionProgress::Native(action) = progress {
            let outcome = self.perform(action);
            let parts = &mut self.runtime.composition;
            let _ = parts.manual.command_returned(
                command,
                self.now,
                action,
                outcome,
                self.protection,
                &mut parts.wake,
                &mut self.log,
            );
        }
    }

    fn follow(&mut self, saved: Result<Settings, SettingsUpdateError>) {
        let parts = &mut self.runtime.composition;
        let controller = &mut parts.automatic.as_mut().expect("a controller").controller;
        let progress =
            AutomaticProtectionService::update(controller, saved, &mut parts.wake, &mut self.log);
        assert!(matches!(
            progress,
            Ok(ProtectionProgress::Finished(_)) | Err(_)
        ));
    }

    fn power(&mut self, source: PowerSource) {
        let parts = &mut self.runtime.composition;
        let automatic = parts.automatic.as_mut().expect("an observer");
        let pending = automatic.power_source.publish(
            Ok(source),
            &mut automatic.controller,
            &mut parts.wake,
            &mut self.log,
        );
        assert!(pending.is_none());
    }
}

fn saved(updates: &[SettingsUpdate]) -> Option<MemoryDisk> {
    let mut disk = MemoryDisk::default();
    let mut settings = disk.load();
    for update in updates {
        disk.update(&mut settings, *update).unwrap();
    }
    Some(disk)
}

fn activity() -> NetworkActivityEvent {
    NetworkActivityEvent::Sample(
        ReceiveActivitySample::try_new(100, Duration::from_secs(1)).expect("a trusted interval"),
    )
}

const EASY_TUNING: SettingsUpdate = SettingsUpdate::AutomaticDownloadTuning {
    meaningful_receive_rate_bytes_per_second: 100,
    activation_qualification_milliseconds: 1_000,
    grace_milliseconds: 0,
};

#[test]
fn launch_at_login_reconciles_restored_settings_without_shutdown_mutation() {
    let mut runtime = build_runtime(saved(&[SettingsUpdate::LaunchAtLogin(false)]));
    let adapter = LaunchAdapter::new(vec![true, false]);
    runtime.launch = Ok(adapter.clone());

    runtime.start().unwrap();

    assert!(!runtime.settings().launch_at_login());
    assert!(adapter.observations.borrow().is_empty());
    assert_eq!(*adapter.mutations.borrow(), vec![false]);
    runtime.shutdown();
    assert_eq!(*adapter.mutations.borrow(), vec![false]);
}

#[test]
fn planned_unconfigured_updater_does_not_degrade_startup() {
    let mut runtime = build_runtime(saved(&[]));

    let startup = runtime.start().unwrap();

    assert!(startup
        .optional_failures()
        .iter()
        .all(|failure| failure.capability() != CapabilityId::new("updater")));
    runtime.shutdown();
}

#[test]
fn successful_start_activates_the_exact_tray_owned_by_the_runtime() {
    let mut runtime = build_runtime(saved(&[]));

    runtime.start().unwrap();

    assert!(runtime.view().commands_enabled);
    assert!(runtime.view().automatic_checked);
    assert_eq!(
        runtime.execute(TrayCommand::ToggleAutomaticProtection),
        TrayCommandOutcome::RefreshRequested
    );
    assert!(!runtime.view().automatic_checked);
    runtime.shutdown();
}

#[test]
fn exit_request_and_event_loop_completion_share_one_product_owner() {
    let mut runtime = build_runtime(None);
    runtime.start().unwrap();

    runtime.runtime.begin_shutdown();
    assert_eq!(runtime.view().primary, "Shutting down…");

    let report = runtime.shutdown();
    assert!(report.failures().is_empty());
    assert_eq!(runtime.view().primary, "Shutting down…");
}

#[test]
fn centralized_shutdown_is_idempotent_for_updater_and_normal_exit_paths() {
    let mut runtime = build_runtime(None);
    runtime.start().unwrap();
    let mut events = Vec::new();
    let mut coordinator = ShutdownCoordinator::new();
    runtime.log.clear();

    for _ in 0..2 {
        coordinator.begin(&mut runtime.log);
        if coordinator.finish() == FinishAnswer::Claimed {
            events.push("presentation");
            let report = runtime.shutdown();
            log_stopped(&report, &mut runtime.log);
            coordinator.finished();
        }
    }

    assert_eq!(events, ["presentation"]);
    let persisted = runtime
        .log
        .iter()
        .map(SafeEvent::render)
        .collect::<Vec<_>>()
        .join("");
    assert_eq!(
        persisted.matches("application.shutdown-requested").count(),
        1
    );
    assert_eq!(persisted.matches("process.stopped").count(), 1);
}

#[test]
fn diagnostics_remain_bounded_and_truthful_across_partial_required_startup() {
    let mut runtime = build_runtime(None);
    runtime
        .parts()
        .manual
        .start_scheduler()
        .expect("prestarted scheduler should force the required startup failure");

    let starting = runtime.report();
    assert!(starting.len() <= 64 * 1024);
    assert!(starting.contains("[application]\nstatus=starting"));
    assert!(starting.contains("[settings]\nstatus=not-initialized"));
    assert!(starting.contains("[updater]\nstatus=not-initialized"));

    let error = runtime.start().unwrap_err();
    assert_eq!(
        error.failure_point(),
        Some(StartupFailurePoint::Required(CapabilityId::new(
            "manual-session"
        )))
    );
    let failed = runtime.report();
    assert!(failed.len() <= 64 * 1024);
    assert!(failed.contains("[application]\nstatus=failed"));
    assert!(failed.contains("startup_failure=required-capability:manual-session"));
    assert!(failed.contains("[settings]\nautomatic_download_protection="));
    assert!(failed.contains("[detector]\nstatus=not-initialized"));
    assert!(failed.contains("[updater]\nstatus=not-initialized"));
}

#[test]
fn optional_failure_keeps_diagnostics_and_the_exact_tray_operational() {
    let mut runtime = build_runtime(None);
    runtime.launch = Err("launch unavailable");

    let startup = runtime.start().unwrap();

    assert_eq!(
        runtime.runtime.lifecycle.state().status(),
        ApplicationStatus::Degraded
    );
    assert!(startup
        .optional_failures()
        .iter()
        .any(|failure| failure.capability() == CapabilityId::new("launch-at-login")));
    assert!(runtime.view().commands_enabled);
    let report = runtime.report();
    assert!(report.contains("[launch_at_login]\navailable=false"));
    assert!(report.contains("[updater]\navailability=unconfigured"));
    runtime.shutdown();
}

#[test]
fn launch_reconciliation_failure_keeps_exact_diagnostic_stage() {
    let mut runtime = build_runtime(saved(&[]));
    let mut adapter = LaunchAdapter::new(vec![false, false]);
    adapter.set_failure = Some("scripted failure");
    runtime.launch = Ok(adapter);

    let startup = runtime.start().unwrap();

    assert!(startup
        .optional_failures()
        .iter()
        .all(|failure| failure.capability() != CapabilityId::new("launch-at-login")));
    assert!(runtime.report().contains(
        "[launch_at_login]\navailable=true\ndesired=true\nobserved=disabled\nfailure_stage=enable"
    ));
    runtime.shutdown();
}

#[test]
fn configured_updater_initialization_failure_keeps_exact_diagnostic_availability() {
    let mut runtime = build_runtime(saved(&[]));
    runtime.updater.availability = UpdateAvailability::InitializationFailed;
    runtime.updater_failure = Some("updater initialization failed");

    let startup = runtime.start().unwrap();

    assert!(startup
        .optional_failures()
        .iter()
        .any(|failure| failure.capability() == CapabilityId::new("updater")));
    assert!(runtime
        .report()
        .contains("[updater]\navailability=initialization-failed"));
    runtime.shutdown();
}

#[test]
fn restored_policy_is_applied_before_network_activity_can_qualify() {
    let mut runtime = build_runtime(saved(&[
        SettingsUpdate::AutomaticDownloadProtectionEnabled(false),
        SettingsUpdate::ProtectOnBattery(true),
        EASY_TUNING,
    ]));
    runtime.on_network = |program| {
        program.consume(activity());
        assert!(program
            .runtime
            .composition
            .wake
            .snapshot()
            .active_reasons()
            .is_empty());
    };

    runtime.start().unwrap();

    let report = runtime.report();
    assert!(report.contains(
        "[automatic_protection]\npreference_enabled=false\nprotect_on_battery=true\ndetector_intent=true\ndesired_automatic_reason=false\nsuppression=automatic-disabled"
    ));
    runtime.shutdown();
}

#[test]
fn runtime_shutdown_clears_qualified_automatic_intent() {
    let mut runtime = build_runtime(saved(&[SettingsUpdate::ProtectOnBattery(true), EASY_TUNING]));
    runtime.on_network = |program| {
        program.consume(activity());
        assert_eq!(
            program.automatic().monitor.snapshot().state,
            AutomaticDownloadState::Active
        );
    };
    runtime.start().unwrap();
    assert_eq!(
        runtime.runtime.composition.wake.snapshot().active_reasons(),
        &[WakeReason::AutomaticDownload]
    );

    let report = runtime.shutdown();

    assert!(report.failures().is_empty());
    assert!(runtime
        .runtime
        .composition
        .wake
        .snapshot()
        .active_reasons()
        .is_empty());
    assert_eq!(runtime.protection, ProtectionState::Inactive);
}

#[test]
fn restored_detector_tuning_is_active_before_network_start() {
    let mut runtime = build_runtime(saved(&[EASY_TUNING]));
    runtime.on_network = |program| {
        program.consume(activity());
        assert_eq!(
            program.automatic().monitor.snapshot().state,
            AutomaticDownloadState::Active
        );
    };

    runtime.start().unwrap();

    assert_eq!(
        runtime.automatic().monitor.snapshot().state,
        AutomaticDownloadState::Active
    );
    runtime.shutdown();
}

#[test]
fn command_facade_routes_real_services_and_rejects_shutdown_or_placeholder_work() {
    let mut application = build_runtime(saved(&[]));
    application.launch = Ok(LaunchAdapter::new(vec![true]));
    application.start().unwrap();
    application.power(PowerSource::External);

    assert_eq!(
        application.execute(TrayCommand::Manual(ManualSessionCommand::Start(
            ManualSessionStartPreset::FifteenMinutes,
        ))),
        TrayCommandOutcome::RefreshRequested
    );
    let manual = |program: &Program| program.runtime.composition.manual.snapshot(program.now);
    assert!(matches!(
        manual(&application).state,
        ManualSessionState::Finite { .. }
    ));
    application.execute(TrayCommand::Manual(ManualSessionCommand::Add(
        ManualSessionAddPreset::FifteenMinutes,
    )));
    let ManualSessionState::Finite { remaining } = manual(&application).state else {
        panic!("manual add must preserve a finite session");
    };
    assert!(remaining.as_nanos() > Duration::from_secs(29 * 60).as_nanos());
    application.execute(TrayCommand::Manual(
        ManualSessionCommand::ConvertToUntilDisabled,
    ));
    assert_eq!(
        manual(&application).state,
        ManualSessionState::UntilDisabled
    );
    application.execute(TrayCommand::Manual(ManualSessionCommand::Stop));
    assert_eq!(manual(&application).state, ManualSessionState::Inactive);

    application.execute(TrayCommand::ToggleAutomaticProtection);
    assert!(!application
        .automatic()
        .controller
        .snapshot()
        .settings()
        .automatic_download_protection_enabled());
    application.execute(TrayCommand::ToggleProtectOnBattery);
    assert!(application
        .automatic()
        .controller
        .snapshot()
        .settings()
        .protect_on_battery());
    application.execute(TrayCommand::SetThreshold(ThresholdPreset::Kibibytes256));
    application.execute(TrayCommand::SetGrace(GracePreset::Seconds30));
    let tuning = application.automatic().monitor.snapshot().settings;
    assert_eq!(tuning.meaningful_receive_rate_bytes_per_second(), 262_144);
    assert_eq!(tuning.grace(), Duration::from_secs(30));

    for (preset, expected) in [
        (GracePreset::Minutes15, Duration::from_secs(15 * 60)),
        (GracePreset::Minutes30, Duration::from_secs(30 * 60)),
    ] {
        assert_eq!(
            application.execute(TrayCommand::SetGrace(preset)),
            TrayCommandOutcome::RefreshRequested
        );
        let tuning = application.automatic().monitor.snapshot().settings;
        assert_eq!(tuning.grace(), expected);
        assert_eq!(
            application.settings().automatic_download().grace(),
            expected
        );

        let restored = application.disk.as_mut().unwrap().load();
        assert_eq!(restored.snapshot().automatic_download().grace(), expected);
    }

    let before_launch_manual = manual(&application);
    let before_launch_automatic = application.automatic().controller.snapshot();
    let before_launch_wake = application.runtime.composition.wake.snapshot();
    assert_eq!(
        application.execute(TrayCommand::ToggleLaunchAtLogin),
        TrayCommandOutcome::RefreshRequested
    );
    assert!(!application.settings().launch_at_login());
    assert_eq!(manual(&application), before_launch_manual);
    assert_eq!(
        application.automatic().controller.snapshot(),
        before_launch_automatic
    );
    assert_eq!(
        application.runtime.composition.wake.snapshot(),
        before_launch_wake
    );

    application.runtime.lifecycle.request_shutdown();
    let before_shutdown = application.automatic().controller.snapshot().settings();
    assert_eq!(
        application.execute(TrayCommand::ToggleAutomaticProtection),
        TrayCommandOutcome::Ignored
    );
    assert_eq!(
        application.automatic().controller.snapshot().settings(),
        before_shutdown
    );
    let launch_preference_before_shutdown = application.settings().launch_at_login();
    assert_eq!(
        application.execute(TrayCommand::ToggleLaunchAtLogin),
        TrayCommandOutcome::Ignored
    );
    assert_eq!(
        application.settings().launch_at_login(),
        launch_preference_before_shutdown
    );
    assert_eq!(
        application.execute(TrayCommand::Quit),
        TrayCommandOutcome::QuitRequested
    );
    application.shutdown();
}

#[test]
fn commands_come_to_the_requests_that_they_name() {
    let mut program = build_runtime(saved(&[]));
    program.start().unwrap();
    let parts = &program.runtime.composition;

    assert_eq!(
        parts.execute(TrayCommand::CheckUpdates),
        ProductRequest::CheckUpdates
    );
    assert_eq!(
        parts.execute(TrayCommand::InstallUpdate),
        ProductRequest::InstallUpdate
    );
    assert_eq!(
        parts.execute(TrayCommand::ToggleAutomaticUpdates),
        ProductRequest::ToggleAutomaticUpdates
    );
    assert_eq!(
        parts.execute(TrayCommand::SetThreshold(ThresholdPreset::Mebibyte1)),
        ProductRequest::Nothing
    );
    assert_eq!(
        parts.execute(TrayCommand::ToggleProtectOnBattery),
        ProductRequest::Protection(SettingsUpdate::ProtectOnBattery(true))
    );
    assert_eq!(
        parts.execute(TrayCommand::ToggleLaunchAtLogin),
        ProductRequest::LaunchAtLogin(SettingsUpdate::LaunchAtLogin(false))
    );
}

#[test]
fn parts_are_set_up_once_and_in_order() {
    let mut parts = ProductComposition::new();
    assert!(!parts.operational());
    assert_eq!(
        parts.power_source_ready(),
        Err("automatic policy was not initialized before power observation".to_owned())
    );
    assert_eq!(
        parts.network_ready(),
        Err("automatic detection was not initialized before network startup".to_owned())
    );

    let mut log = Vec::new();
    parts
        .restore_settings(SettingsService::unavailable(&mut log))
        .unwrap();
    assert_eq!(
        parts.restore_settings(SettingsService::unavailable(&mut log)),
        Err("settings initialized more than once".to_owned())
    );
    parts.start_automatic(&Settings::default()).unwrap();
    assert_eq!(
        parts.start_automatic(&Settings::default()),
        Err("automatic subsystem initialized more than once".to_owned())
    );
    assert!(parts.power_source_ready().is_ok());
    assert!(parts.network_ready().is_ok());
    parts
        .register_launch_at_login(Ok(LaunchAtLoginService::available()))
        .unwrap();
    assert_eq!(
        parts.register_launch_at_login(Ok(LaunchAtLoginService::available())),
        Err("launch-at-login facade initialized more than once".to_owned())
    );
    parts.register_updater(None).unwrap();
    assert_eq!(
        parts.register_updater(None),
        Err("updater facade initialized more than once".to_owned())
    );
    assert!(parts.operational());
}

#[test]
fn the_program_is_stopped_in_reverse() {
    let mut lifecycle = lifecycle_plan().build();
    let mut step = lifecycle.start();
    let mut started = Vec::new();
    loop {
        step = match step {
            LifecycleStep::RestoreSettings => lifecycle.restored(Ok(())),
            LifecycleStep::Start(capability) => {
                started.push(capability.as_str());
                lifecycle.participant_started(Ok(()))
            }
            _ => break,
        };
    }
    assert_eq!(
        started,
        [
            "wake-coordination",
            "manual-session",
            "automatic-download",
            "launch-at-login",
            "power-source",
            "network-activity",
            "updater"
        ]
    );
    let mut step = lifecycle.shutdown();
    while let LifecycleStep::Stop(capability) = step {
        assert_eq!(started.pop(), Some(capability.as_str()));
        step = lifecycle.participant_stopped(Ok(()));
    }
    assert!(started.is_empty());
}
