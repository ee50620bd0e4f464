//! The detector of downloads, with the controller, the coordinator and a
//! scripted platform behind it.

use chiu::automatic_download::{
    duration_milliseconds, AutomaticDownloadMonitor, AutomaticDownloadSettings,
    AutomaticDownloadSettingsError, AutomaticDownloadSnapshot, AutomaticDownloadState,
    AutomaticDownloadTuningService, TuningStep,
};
use chiu::automatic_protection::{
    AutomaticIntentError, AutomaticProtectionController, AutomaticProtectionSettings,
    AutomaticProtectionSnapshot, IntentProgress, PowerSource, ProtectionProgress,
};
use chiu::duration::Duration;
use chiu::local_log::{ProtectionAction, SafeEvent};
use chiu::network_activity::{
    ContinuityLossReason, NetworkActivityAvailability, NetworkActivityEvent, ReceiveActivitySample,
};
use chiu::settings::files::{
    backup_file, backup_temp_file, next_quarantine_name, primary_file, primary_temp_file,
    prune_quarantines,
};
use chiu::settings::service::{
    absent_or_backup, cleanup_stale_temporary_files, load_settings, malformed_or_backup,
    FileContent, LoadStep, SettingsService, UpdateStage, UpdateStep,
};
use chiu::settings::{
    Settings, SettingsPersistenceFailure, SettingsUpdate, SettingsUpdateError,
};
use chiu::wake_coordinator::{ProtectionState, WakeCoordinator, WakeReason, WakeSnapshot};
use std::cell::RefCell;
use std::collections::BTreeMap;
use std::rc::Rc;

/// A platform that does what it is told, and fails where it is told to.
struct RecordingInhibitor {
    fail_acquire: bool,
    fail_release_state: Option<ProtectionState>,
    state: ProtectionState,
    calls: Calls,
}

type Calls = Rc<RefCell<Vec<&'static str>>>;

impl RecordingInhibitor {
    fn new() -> (Self, Calls) {
        let calls = Rc::new(RefCell::new(Vec::new()));
        (
            Self {
                fail_acquire: false,
                fail_release_state: None,
                state: ProtectionState::Inactive,
                calls: calls.clone(),
            },
            calls,
        )
    }

    fn failing_next_acquire() -> (Self, Calls) {
        let (mut inhibitor, calls) = Self::new();
        inhibitor.fail_acquire = true;
        (inhibitor, calls)
    }

    fn failing_next_release_active() -> (Self, Calls) {
        let (mut inhibitor, calls) = Self::new();
        inhibitor.fail_release_state = Some(ProtectionState::Active);
        (inhibitor, calls)
    }

    fn perform(&mut self, action: ProtectionAction) -> Result<(), String> {
        match action {
            ProtectionAction::Acquire => {
                self.calls.borrow_mut().push("acquire");
                if std::mem::take(&mut self.fail_acquire) {
                    return Err("scripted acquire failure".to_owned());
                }
                self.state = ProtectionState::Active;
            }
            ProtectionAction::Release => {
                self.calls.borrow_mut().push("release");
                if let Some(state) = self.fail_release_state.take() {
                    self.state = state;
                    return Err("scripted release failure".to_owned());
                }
                self.state = ProtectionState::Inactive;
            }
        }
        Ok(())
    }
}

struct Shared {
    wake: WakeCoordinator,
    inhibitor: RecordingInhibitor,
    log: Vec<SafeEvent>,
}

/// The wake coordinator together with the platform and the log.
#[derive(Clone)]
struct Coordinator(Rc<RefCell<Shared>>);

impl Coordinator {
    fn with_inhibitor(inhibitor: RecordingInhibitor) -> Self {
        Self(Rc::new(RefCell::new(Shared {
            wake: WakeCoordinator::new(),
            inhibitor,
            log: Vec::new(),
        })))
    }

    fn snapshot(&self) -> WakeSnapshot {
        self.0.borrow().wake.snapshot()
    }

    fn set_reason_active(&self, reason: WakeReason, active: bool) -> Result<(), String> {
        let shared = &mut *self.0.borrow_mut();
        match shared
            .wake
            .set_reason_active(reason, active, &mut shared.log)
        {
            None => Ok(()),
            Some(action) => {
                let outcome = shared.inhibitor.perform(action);
                shared.wake.native_returned(
                    action,
                    outcome.is_ok(),
                    shared.inhibitor.state,
                    &mut shared.log,
                );
                outcome
            }
        }
    }

    /// What was logged.
    fn lines(&self) -> String {
        self.0
            .borrow()
            .log
            .iter()
            .map(SafeEvent::render)
            .collect::<Vec<_>>()
            .join("")
    }
}

fn wake_coordinator() -> Coordinator {
    Coordinator::with_inhibitor(RecordingInhibitor::new().0)
}

/// The controller of automatic protection.
#[derive(Clone)]
struct Controller {
    coordinator: Coordinator,
    state: Rc<RefCell<AutomaticProtectionController>>,
}

impl Controller {
    fn new(settings: AutomaticProtectionSettings, coordinator: Coordinator) -> Self {
        Self {
            coordinator,
            state: Rc::new(RefCell::new(AutomaticProtectionController::new(settings))),
        }
    }

    fn snapshot(&self) -> AutomaticProtectionSnapshot {
        self.state.borrow().snapshot()
    }

    fn change(
        &self,
        change: impl FnOnce(
            &mut AutomaticProtectionController,
            &mut WakeCoordinator,
            &mut Vec<SafeEvent>,
        ) -> ProtectionProgress,
    ) -> AutomaticProtectionSnapshot {
        let shared = &mut *self.coordinator.0.borrow_mut();
        let controller = &mut *self.state.borrow_mut();
        match change(controller, &mut shared.wake, &mut shared.log) {
            ProtectionProgress::Finished(snapshot) => snapshot,
            ProtectionProgress::Native(pending) => {
                let outcome = shared.inhibitor.perform(pending.action);
                controller.returned(
                    pending,
                    outcome,
                    shared.inhibitor.state,
                    &mut shared.wake,
                    &mut shared.log,
                )
            }
        }
    }

    fn set_power_source(&self, power: PowerSource) -> AutomaticProtectionSnapshot {
        self.change(|controller, wake, log| controller.set_power_source(power, wake, log))
    }
}

/// The settings directory, in memory.
#[derive(Default)]
struct MemoryDisk {
    files: BTreeMap<String, Vec<u8>>,
    directories: Vec<String>,
    replacements: u64,
    fail_replacement_at: Option<u64>,
    copies: u64,
    log: Vec<SafeEvent>,
}

impl MemoryDisk {
    fn read(&self, name: &str) -> FileContent {
        if self.directories.iter().any(|directory| directory == name) {
            return FileContent::Unreadable;
        }
        match self.files.get(name) {
            Some(bytes) => FileContent::Bytes(bytes.clone()),
            None => FileContent::Missing,
        }
    }

    fn write(&mut self, name: &str, bytes: &[u8]) -> bool {
        if self.directories.iter().any(|directory| directory == name) {
            return false;
        }
        self.files.insert(name.to_owned(), bytes.to_vec());
        true
    }

    fn is_stuck(&mut self, name: &str) -> bool {
        self.files.remove(name);
        self.directories.iter().any(|directory| directory == name)
    }

    fn replace(&mut self, source: &str, destination: &str) -> bool {
        self.replacements += 1;
        if Some(self.replacements) == self.fail_replacement_at {
            return false;
        }
        match self.files.remove(source) {
            Some(bytes) => {
                self.files.insert(destination.to_owned(), bytes);
                true
            }
            None => false,
        }
    }

    fn next_copy(&mut self) -> String {
        let name = next_quarantine_name(1_700_000_000_000, self.copies);
        self.copies += 1;
        name
    }

    fn prune(&mut self) -> bool {
        let names = self.files.keys().cloned().collect::<Vec<_>>();
        for position in prune_quarantines(&names) {
            self.files.remove(&names[position]);
        }
        true
    }

    fn load(&mut self) -> SettingsService {
        let primary_stuck = self.is_stuck(primary_temp_file());
        let backup_stuck = self.is_stuck(backup_temp_file());
        let warnings = cleanup_stale_temporary_files(primary_stuck, backup_stuck);
        let primary = self.read(primary_file());
        let loaded = match load_settings(true, warnings, primary) {
            LoadStep::Finished(loaded) => loaded,
            LoadStep::Absent(warnings) => absent_or_backup(warnings, self.read(backup_file())),
            LoadStep::Malformed(warnings) => {
                let copy = self.next_copy();
                let moved = match self.files.remove(primary_file()) {
                    Some(bytes) => self.files.insert(copy, bytes).is_none(),
                    None => false,
                };
                let pruned = self.prune();
                malformed_or_backup(warnings, moved, pruned, self.read(backup_file()))
            }
        };
        let exists = self.files.contains_key(primary_file());
        SettingsService::load(loaded, exists, &mut self.log)
    }

    fn update(
        &mut self,
        service: &mut SettingsService,
        update: SettingsUpdate,
    ) -> Result<Settings, SettingsUpdateError> {
        let mut step = service.update(update, &mut self.log);
        loop {
            let pending = match step {
                UpdateStep::Finished(result) => return result,
                UpdateStep::Perform(pending) => pending,
            };
            let succeeded = match pending.stage {
                UpdateStage::CreateDirectory => true,
                UpdateStage::WritePrimary => self.write(primary_temp_file(), &pending.bytes),
                UpdateStage::PreserveSource => {
                    let copy = self.next_copy();
                    match self.files.get(primary_file()).cloned() {
                        Some(bytes) => self.write(&copy, &bytes),
                        None => false,
                    }
                }
                UpdateStage::PruneQuarantines => self.prune(),
                UpdateStage::TestPrimary => self.files.contains_key(primary_file()),
                UpdateStage::WriteBackup => self.write(backup_temp_file(), &pending.bytes),
                UpdateStage::ReplaceBackup => self.replace(backup_temp_file(), backup_file()),
                UpdateStage::ReplacePrimary => self.replace(primary_temp_file(), primary_file()),
            };
            step = service.advance(pending, succeeded, &mut self.log);
        }
    }
}

impl Controller {
    fn settle(&self, progress: IntentProgress) -> Result<(), AutomaticIntentError> {
        match progress {
            IntentProgress::Finished(result) => result,
            IntentProgress::Native(pending) => {
                let shared = &mut *self.coordinator.0.borrow_mut();
                let outcome = shared.inhibitor.perform(pending.action);
                self.state.borrow_mut().intent_returned(
                    pending,
                    outcome,
                    shared.inhibitor.state,
                    &mut shared.wake,
                    &mut shared.log,
                )
            }
        }
    }
}

/// The detector together with its controller.
#[derive(Clone)]
struct Monitor {
    controller: Controller,
    state: Rc<RefCell<AutomaticDownloadMonitor>>,
}

impl Monitor {
    fn snapshot(&self) -> AutomaticDownloadSnapshot {
        self.state.borrow().snapshot()
    }

    fn consume(&mut self, event: NetworkActivityEvent) {
        let shared = &mut *self.controller.coordinator.0.borrow_mut();
        let controller = &mut *self.controller.state.borrow_mut();
        let pending = self.state.borrow_mut().consume(
            event,
            controller,
            &mut shared.wake,
            &mut shared.log,
        );
        if let Some(pending) = pending {
            let outcome = shared.inhibitor.perform(pending.reconciliation.action);
            AutomaticDownloadMonitor::consume_returned(
                pending,
                outcome,
                shared.inhibitor.state,
                controller,
                &mut shared.wake,
                &mut shared.log,
            );
        }
    }

    fn apply_settings(&mut self, settings: AutomaticDownloadSettings) -> AutomaticDownloadSnapshot {
        let (snapshot, progress) = {
            let shared = &mut *self.controller.coordinator.0.borrow_mut();
            self.state.borrow_mut().apply_settings(
                settings,
                &mut self.controller.state.borrow_mut(),
                &mut shared.wake,
                &mut shared.log,
            )
        };
        let _ = self.controller.settle(progress);
        snapshot
    }

    fn shutdown(&mut self) -> Result<(), AutomaticIntentError> {
        let progress = {
            let shared = &mut *self.controller.coordinator.0.borrow_mut();
            self.state.borrow_mut().shutdown(
                &mut self.controller.state.borrow_mut(),
                &mut shared.wake,
                &mut shared.log,
            )
        };
        self.controller.settle(progress)
    }

    fn tune(
        &mut self,
        step: Result<TuningStep, SettingsUpdateError>,
        disk: &mut MemoryDisk,
        settings: &mut SettingsService,
    ) -> Result<AutomaticDownloadSnapshot, SettingsUpdateError> {
        match step? {
            TuningStep::Unchanged(snapshot) => Ok(snapshot),
            TuningStep::Persist { update, tuning } => {
                let saved = disk.update(settings, update);
                let (snapshot, progress) = {
                    let shared = &mut *self.controller.coordinator.0.borrow_mut();
                    AutomaticDownloadTuningService::tuned(
                        &mut self.state.borrow_mut(),
                        tuning,
                        saved,
                        &mut self.controller.state.borrow_mut(),
                        &mut shared.wake,
                        &mut shared.log,
                    )?
                };
                let _ = self.controller.settle(progress);
                Ok(snapshot)
            }
        }
    }
}

fn sample(received_bytes: u64, observed_over: Duration) -> NetworkActivityEvent {
    NetworkActivityEvent::Sample(
        ReceiveActivitySample::try_new(received_bytes, observed_over)
            .expect("test samples must use a trusted interval"),
    )
}

fn test_monitor(settings: AutomaticDownloadSettings, coordinator: Coordinator) -> Monitor {
    test_monitor_with_controller(settings, coordinator).0
}

fn test_monitor_with_controller(
    settings: AutomaticDownloadSettings,
    coordinator: Coordinator,
) -> (Monitor, Controller) {
    let controller = Controller::new(AutomaticProtectionSettings::new(true, false), coordinator);
    controller.set_power_source(PowerSource::External);
    (
        Monitor {
            controller: controller.clone(),
            state: Rc::new(RefCell::new(AutomaticDownloadMonitor::new(settings))),
        },
        controller,
    )
}

#[test]
fn applying_new_tuning_resets_only_automatic_intent() {
    let coordinator = wake_coordinator();
    coordinator
        .set_reason_active(WakeReason::ManualKeepAwake, true)
        .expect("manual protection should start");
    let settings =
        AutomaticDownloadSettings::try_new(100, Duration::from_secs(1), Duration::from_secs(10))
            .expect("settings should be valid");
    let mut monitor = test_monitor(settings, coordinator.clone());
    monitor.consume(sample(100, Duration::from_secs(1)));
    let updated =
        AutomaticDownloadSettings::try_new(200, Duration::from_secs(1), Duration::from_secs(10))
            .expect("updated settings should be valid");

    let snapshot = monitor.apply_settings(updated);

    assert_eq!(snapshot.state, AutomaticDownloadState::Idle);
    assert_eq!(snapshot.settings, updated);
    assert_eq!(snapshot.latest_receive_rate_bytes_per_second, None);
    assert_eq!(
        coordinator.snapshot().active_reasons(),
        &[WakeReason::ManualKeepAwake]
    );
    assert_eq!(
        coordinator.snapshot().protection_state(),
        ProtectionState::Active
    );
}

#[test]
fn detector_logs_transitions_and_continuity_resets_but_not_steady_samples() {
    let settings =
        AutomaticDownloadSettings::try_new(100, Duration::from_secs(1), Duration::from_secs(10))
            .unwrap();
    let coordinator = wake_coordinator();
    let mut monitor = test_monitor(settings, coordinator.clone());

    monitor.consume(sample(100, Duration::from_secs(1)));
    for _ in 0..10 {
        monitor.consume(sample(150, Duration::from_secs(1)));
    }
    monitor.consume(NetworkActivityEvent::ContinuityLost(
        ContinuityLossReason::ExplicitReset,
    ));

    let persisted = coordinator.lines();
    assert_eq!(persisted.matches("detector.transition").count(), 2);
    assert_eq!(persisted.matches("detector.continuity-reset").count(), 1);
    assert!(!persisted.contains("receive-rate"));
}

#[test]
fn steady_download_samples_do_not_repeat_successful_automatic_reconciliation_logs() {
    let settings =
        AutomaticDownloadSettings::try_new(100, Duration::from_secs(1), Duration::from_secs(10))
            .unwrap();
    let coordinator = wake_coordinator();
    let mut monitor = test_monitor(settings, coordinator.clone());

    monitor.consume(sample(100, Duration::from_secs(1)));
    for _ in 0..10 {
        monitor.consume(sample(150, Duration::from_secs(1)));
    }
    monitor.consume(NetworkActivityEvent::ContinuityLost(
        ContinuityLossReason::ExplicitReset,
    ));
    monitor.consume(sample(100, Duration::from_secs(1)));

    let persisted = coordinator.lines();
    assert_eq!(
        persisted
            .matches("automatic.reconciliation active=true outcome=succeeded")
            .count(),
        2
    );
    assert_eq!(
        persisted
            .matches("automatic.reconciliation active=false outcome=succeeded")
            .count(),
        1
    );
    assert_eq!(persisted.matches("wake.reasons-changed").count(), 3);
    assert_eq!(persisted.matches("wake.native-protection").count(), 3);
}

#[test]
fn automatic_reconciliation_logs_one_failure_and_recovery_then_stays_quiet() {
    let settings =
        AutomaticDownloadSettings::try_new(100, Duration::from_secs(1), Duration::from_secs(10))
            .unwrap();
    let (inhibitor, _) = RecordingInhibitor::failing_next_acquire();
    let coordinator = Coordinator::with_inhibitor(inhibitor);
    let mut monitor = test_monitor(settings, coordinator.clone());

    monitor.consume(sample(100, Duration::from_secs(1)));
    monitor.consume(sample(150, Duration::from_secs(1)));
    for _ in 0..10 {
        monitor.consume(sample(150, Duration::from_secs(1)));
    }

    let persisted = coordinator.lines();
    assert_eq!(
        persisted
            .matches("automatic.reconciliation active=true outcome=failed")
            .count(),
        1
    );
    assert_eq!(
        persisted
            .matches("automatic.reconciliation active=true outcome=succeeded")
            .count(),
        1
    );
    assert_eq!(persisted.matches("wake.reasons-changed").count(), 1);
    assert_eq!(persisted.matches("wake.native-protection").count(), 2);
}

#[test]
fn failed_tuning_persistence_leaves_live_tuning_and_history_unchanged() {
    let coordinator = wake_coordinator();
    let settings = AutomaticDownloadSettings::default();
    let mut monitor = test_monitor(settings, coordinator);
    monitor.consume(sample(
        settings.meaningful_receive_rate_bytes_per_second(),
        Duration::from_secs(1),
    ));
    let before = monitor.snapshot();
    let mut disk = MemoryDisk::default();
    let mut persisted = SettingsService::unavailable(&mut disk.log);
    let step = AutomaticDownloadTuningService::set_threshold(&monitor.state.borrow(), 262_144);

    assert!(monitor.tune(step, &mut disk, &mut persisted).is_err());

    assert_eq!(monitor.snapshot(), before);
}

#[test]
fn persisted_grace_change_preserves_threshold_and_qualification_then_resets() {
    let mut disk = MemoryDisk::default();
    let mut persisted = disk.load();
    let initial =
        AutomaticDownloadSettings::try_new(256, Duration::from_secs(3), Duration::from_secs(30))
            .unwrap();
    disk.update(
        &mut persisted,
        SettingsUpdate::AutomaticDownloadTuning {
            meaningful_receive_rate_bytes_per_second: 256,
            activation_qualification_milliseconds: 3_000,
            grace_milliseconds: 30_000,
        },
    )
    .unwrap();
    let coordinator = wake_coordinator();
    let mut monitor = test_monitor(initial, coordinator.clone());
    monitor.consume(sample(768, Duration::from_secs(3)));
    let step = AutomaticDownloadTuningService::set_grace(
        &monitor.state.borrow(),
        Duration::from_secs(300),
    );

    let snapshot = monitor.tune(step, &mut disk, &mut persisted).unwrap();

    assert_eq!(snapshot.state, AutomaticDownloadState::Idle);
    assert_eq!(
        snapshot.settings.meaningful_receive_rate_bytes_per_second(),
        256
    );
    assert_eq!(
        snapshot.settings.activation_qualification(),
        Duration::from_secs(3)
    );
    assert_eq!(snapshot.settings.grace(), Duration::from_secs(300));
    assert_eq!(persisted.snapshot().automatic_download(), snapshot.settings);
    assert!(coordinator.snapshot().active_reasons().is_empty());
}

#[test]
fn post_persistence_release_failure_keeps_tuning_and_truthful_coordination_failure() {
    let mut disk = MemoryDisk::default();
    let mut persisted = disk.load();
    let (inhibitor, _) = RecordingInhibitor::failing_next_release_active();
    let coordinator = Coordinator::with_inhibitor(inhibitor);
    let settings =
        AutomaticDownloadSettings::try_new(100, Duration::from_secs(1), Duration::from_secs(30))
            .unwrap();
    let (mut monitor, controller) = test_monitor_with_controller(settings, coordinator.clone());
    monitor.consume(sample(100, Duration::from_secs(1)));
    let step = AutomaticDownloadTuningService::set_threshold(&monitor.state.borrow(), 200);

    let snapshot = monitor.tune(step, &mut disk, &mut persisted).unwrap();

    assert_eq!(
        snapshot.settings.meaningful_receive_rate_bytes_per_second(),
        200
    );
    assert_eq!(persisted.snapshot().automatic_download(), snapshot.settings);
    assert!(
        controller
            .snapshot()
            .latest_coordination_failure()
            .is_some()
    );
    assert!(coordinator.snapshot().active_reasons().is_empty());
    assert_eq!(
        coordinator.snapshot().protection_state(),
        ProtectionState::Active
    );
}

#[test]
fn a_new_monitor_is_idle_without_automatic_wake_intent() {
    let coordinator = wake_coordinator();
    let monitor = test_monitor(AutomaticDownloadSettings::default(), coordinator.clone());

    assert_eq!(
        monitor.snapshot(),
        AutomaticDownloadSnapshot {
            state: AutomaticDownloadState::Idle,
            latest_receive_rate_bytes_per_second: None,
            settings: AutomaticDownloadSettings::default(),
        }
    );
    assert!(coordinator.snapshot().active_reasons().is_empty());
}

#[test]
fn settings_reject_a_zero_meaningful_receive_rate_threshold() {
    let error =
        AutomaticDownloadSettings::try_new(0, Duration::from_secs(5), Duration::from_secs(120))
            .expect_err("zero threshold must be rejected");

    assert_eq!(
        error,
        AutomaticDownloadSettingsError::ZeroMeaningfulReceiveRate
    );
}

#[test]
fn settings_reject_a_zero_activation_qualification() {
    let error = AutomaticDownloadSettings::try_new(1024, Duration::zero(), Duration::from_secs(120))
        .expect_err("zero activation qualification must be rejected");

    assert_eq!(
        error,
        AutomaticDownloadSettingsError::ZeroActivationQualification
    );
}

#[test]
fn threshold_equality_projects_the_actual_rate_without_activating_a_short_burst() {
    let coordinator = wake_coordinator();
    let settings =
        AutomaticDownloadSettings::try_new(100, Duration::from_secs(3), Duration::from_secs(10))
            .expect("settings should be valid");
    let mut monitor = test_monitor(settings, coordinator.clone());

    monitor.consume(sample(200, Duration::from_secs(2)));

    assert_eq!(
        monitor.snapshot(),
        AutomaticDownloadSnapshot {
            state: AutomaticDownloadState::Idle,
            latest_receive_rate_bytes_per_second: Some(100),
            settings,
        }
    );
    assert!(coordinator.snapshot().active_reasons().is_empty());
}

#[test]
fn unequal_meaningful_intervals_activate_at_the_exact_qualification_duration() {
    let (inhibitor, calls) = RecordingInhibitor::new();
    let coordinator = Coordinator::with_inhibitor(inhibitor);
    let settings =
        AutomaticDownloadSettings::try_new(100, Duration::from_secs(3), Duration::from_secs(10))
            .expect("settings should be valid");
    let mut monitor = test_monitor(settings, coordinator.clone());

    monitor.consume(sample(150, Duration::from_secs(1)));
    monitor.consume(sample(200, Duration::from_secs(2)));

    assert_eq!(monitor.snapshot().state, AutomaticDownloadState::Active);
    assert_eq!(
        monitor.snapshot().latest_receive_rate_bytes_per_second,
        Some(100)
    );
    assert_eq!(
        coordinator.snapshot().active_reasons(),
        &[WakeReason::AutomaticDownload]
    );
    assert_eq!(*calls.borrow(), ["acquire"]);
}

#[test]
fn first_quiet_interval_enters_hold_without_toggling_automatic_intent() {
    let (inhibitor, calls) = RecordingInhibitor::new();
    let coordinator = Coordinator::with_inhibitor(inhibitor);
    let settings =
        AutomaticDownloadSettings::try_new(100, Duration::from_secs(2), Duration::from_secs(10))
            .expect("settings should be valid");
    let mut monitor = test_monitor(settings, coordinator.clone());
    monitor.consume(sample(200, Duration::from_secs(2)));

    monitor.consume(sample(99, Duration::from_secs(1)));

    assert_eq!(
        monitor.snapshot().state,
        AutomaticDownloadState::Hold {
            remaining_grace: Duration::from_secs(9),
        }
    );
    assert_eq!(
        coordinator.snapshot().active_reasons(),
        &[WakeReason::AutomaticDownload]
    );
    assert_eq!(*calls.borrow(), ["acquire"]);
}

#[test]
fn meaningful_activity_recovers_hold_directly_to_active() {
    let (inhibitor, calls) = RecordingInhibitor::new();
    let coordinator = Coordinator::with_inhibitor(inhibitor);
    let settings =
        AutomaticDownloadSettings::try_new(100, Duration::from_secs(3), Duration::from_secs(10))
            .expect("settings should be valid");
    let mut monitor = test_monitor(settings, coordinator);
    monitor.consume(sample(300, Duration::from_secs(3)));
    monitor.consume(sample(50, Duration::from_secs(1)));

    monitor.consume(sample(100, Duration::from_secs(1)));

    assert_eq!(monitor.snapshot().state, AutomaticDownloadState::Active);
    assert_eq!(*calls.borrow(), ["acquire"]);
}

#[test]
fn repeated_quiet_intervals_consume_actual_grace_and_release_at_expiry() {
    let (inhibitor, calls) = RecordingInhibitor::new();
    let coordinator = Coordinator::with_inhibitor(inhibitor);
    let settings =
        AutomaticDownloadSettings::try_new(100, Duration::from_secs(2), Duration::from_secs(10))
            .expect("settings should be valid");
    let mut monitor = test_monitor(settings, coordinator.clone());
    monitor.consume(sample(200, Duration::from_secs(2)));
    monitor.consume(sample(200, Duration::from_secs(4)));

    monitor.consume(sample(400, Duration::from_secs(5)));
    monitor.consume(sample(0, Duration::from_secs(1)));

    assert_eq!(monitor.snapshot().state, AutomaticDownloadState::Idle);
    assert!(coordinator.snapshot().active_reasons().is_empty());
    assert_eq!(*calls.borrow(), ["acquire", "release"]);
}

#[test]
fn a_quiet_idle_sample_clears_partial_activation_history() {
    let (inhibitor, _) = RecordingInhibitor::new();
    let coordinator = Coordinator::with_inhibitor(inhibitor);
    let settings =
        AutomaticDownloadSettings::try_new(100, Duration::from_secs(3), Duration::from_secs(10))
            .expect("settings should be valid");
    let mut monitor = test_monitor(settings, coordinator);
    monitor.consume(sample(200, Duration::from_secs(2)));
    monitor.consume(sample(99, Duration::from_secs(1)));

    monitor.consume(sample(200, Duration::from_secs(2)));

    assert_eq!(monitor.snapshot().state, AutomaticDownloadState::Idle);
}

#[test]
fn one_quiet_interval_can_exhaust_grace_directly_from_active() {
    let (inhibitor, calls) = RecordingInhibitor::new();
    let coordinator = Coordinator::with_inhibitor(inhibitor);
    let settings =
        AutomaticDownloadSettings::try_new(100, Duration::from_secs(2), Duration::from_secs(3))
            .expect("settings should be valid");
    let mut monitor = test_monitor(settings, coordinator);
    monitor.consume(sample(200, Duration::from_secs(2)));

    monitor.consume(sample(399, Duration::from_secs(4)));

    assert_eq!(monitor.snapshot().state, AutomaticDownloadState::Idle);
    assert_eq!(*calls.borrow(), ["acquire", "release"]);
}

#[test]
fn zero_grace_disables_hold() {
    let (inhibitor, calls) = RecordingInhibitor::new();
    let coordinator = Coordinator::with_inhibitor(inhibitor);
    let settings = AutomaticDownloadSettings::try_new(100, Duration::from_secs(1), Duration::zero())
        .expect("zero grace should be supported");
    let mut monitor = test_monitor(settings, coordinator);
    monitor.consume(sample(100, Duration::from_secs(1)));

    monitor.consume(sample(0, Duration::from_secs(1)));

    assert_eq!(monitor.snapshot().state, AutomaticDownloadState::Idle);
    assert_eq!(*calls.borrow(), ["acquire", "release"]);
}

#[test]
fn continuity_loss_clears_activity_rate_intent_and_requires_fresh_qualification() {
    let (inhibitor, calls) = RecordingInhibitor::new();
    let coordinator = Coordinator::with_inhibitor(inhibitor);
    let settings =
        AutomaticDownloadSettings::try_new(100, Duration::from_secs(2), Duration::from_secs(10))
            .expect("settings should be valid");
    let mut monitor = test_monitor(settings, coordinator.clone());
    monitor.consume(sample(200, Duration::from_secs(2)));

    monitor.consume(NetworkActivityEvent::ContinuityLost(
        ContinuityLossReason::ExplicitReset,
    ));

    assert_eq!(
        monitor.snapshot(),
        AutomaticDownloadSnapshot {
            state: AutomaticDownloadState::Idle,
            latest_receive_rate_bytes_per_second: None,
            settings,
        }
    );
    assert!(coordinator.snapshot().active_reasons().is_empty());
    monitor.consume(sample(100, Duration::from_secs(1)));
    assert_eq!(monitor.snapshot().state, AutomaticDownloadState::Idle);
    assert_eq!(*calls.borrow(), ["acquire", "release"]);
}

#[test]
fn availability_events_neither_count_as_activity_nor_clear_partial_history() {
    let (inhibitor, _) = RecordingInhibitor::new();
    let coordinator = Coordinator::with_inhibitor(inhibitor);
    let settings =
        AutomaticDownloadSettings::try_new(100, Duration::from_secs(2), Duration::from_secs(10))
            .expect("settings should be valid");
    let mut monitor = test_monitor(settings, coordinator);
    monitor.consume(sample(100, Duration::from_secs(1)));

    monitor.consume(NetworkActivityEvent::AvailabilityChanged(
        NetworkActivityAvailability::Unavailable,
    ));
    monitor.consume(NetworkActivityEvent::AvailabilityChanged(
        NetworkActivityAvailability::Available,
    ));

    assert_eq!(monitor.snapshot().state, AutomaticDownloadState::Idle);
    monitor.consume(sample(100, Duration::from_secs(1)));
    assert_eq!(monitor.snapshot().state, AutomaticDownloadState::Active);
}

#[test]
fn idle_events_do_not_retry_or_report_manual_only_acquisition_failure() {
    let (inhibitor, calls) = RecordingInhibitor::failing_next_acquire();
    let coordinator = Coordinator::with_inhibitor(inhibitor);
    coordinator
        .set_reason_active(WakeReason::ManualKeepAwake, true)
        .expect_err("manual acquisition should fail");
    let (mut monitor, controller) =
        test_monitor_with_controller(AutomaticDownloadSettings::default(), coordinator.clone());

    monitor.consume(NetworkActivityEvent::AvailabilityChanged(
        NetworkActivityAvailability::Available,
    ));
    monitor.consume(sample(0, Duration::from_secs(1)));

    assert_eq!(controller.snapshot().latest_coordination_failure(), None);
    assert_eq!(
        coordinator.snapshot().active_reasons(),
        &[WakeReason::ManualKeepAwake]
    );
    assert_eq!(
        coordinator.snapshot().protection_state(),
        ProtectionState::Inactive
    );
    assert_eq!(*calls.borrow(), ["acquire"]);
}

#[test]
fn idle_events_and_shutdown_do_not_retry_or_report_manual_only_release_failure() {
    let (inhibitor, calls) = RecordingInhibitor::failing_next_release_active();
    let coordinator = Coordinator::with_inhibitor(inhibitor);
    coordinator
        .set_reason_active(WakeReason::ManualKeepAwake, true)
        .expect("manual acquisition should succeed");
    coordinator
        .set_reason_active(WakeReason::ManualKeepAwake, false)
        .expect_err("manual release should fail");
    let (mut monitor, controller) =
        test_monitor_with_controller(AutomaticDownloadSettings::default(), coordinator.clone());

    monitor.consume(NetworkActivityEvent::AvailabilityChanged(
        NetworkActivityAvailability::Unavailable,
    ));
    monitor
        .shutdown()
        .expect("idle automatic shutdown should have no work");

    assert_eq!(controller.snapshot().latest_coordination_failure(), None);
    assert!(coordinator.snapshot().active_reasons().is_empty());
    assert_eq!(
        coordinator.snapshot().protection_state(),
        ProtectionState::Active
    );
    assert_eq!(*calls.borrow(), ["acquire", "release"]);
}

#[test]
fn extreme_byte_rate_uses_u128_without_overflow_or_early_activation() {
    let (inhibitor, calls) = RecordingInhibitor::new();
    let coordinator = Coordinator::with_inhibitor(inhibitor);
    let settings =
        AutomaticDownloadSettings::try_new(u64::MAX, Duration::from_nanos(2), Duration::zero())
            .expect("settings should be valid");
    let mut monitor = test_monitor(settings, coordinator);

    monitor.consume(sample(u64::MAX, Duration::from_nanos(1)));

    assert_eq!(monitor.snapshot().state, AutomaticDownloadState::Idle);
    assert_eq!(
        monitor.snapshot().latest_receive_rate_bytes_per_second,
        Some(u128::from(u64::MAX) * 1_000_000_000)
    );
    assert!(calls.borrow().is_empty());
}

#[test]
fn failed_automatic_acquisition_preserves_intent_and_retries_on_the_next_event() {
    let (inhibitor, calls) = RecordingInhibitor::failing_next_acquire();
    let coordinator = Coordinator::with_inhibitor(inhibitor);
    let settings =
        AutomaticDownloadSettings::try_new(100, Duration::from_secs(1), Duration::from_secs(10))
            .expect("settings should be valid");
    let (mut monitor, controller) = test_monitor_with_controller(settings, coordinator.clone());

    monitor.consume(sample(100, Duration::from_secs(1)));

    assert_eq!(monitor.snapshot().state, AutomaticDownloadState::Active);
    assert_eq!(
        controller.snapshot().latest_coordination_failure(),
        Some("scripted acquire failure")
    );
    assert_eq!(
        coordinator.snapshot().active_reasons(),
        &[WakeReason::AutomaticDownload]
    );
    assert_eq!(
        coordinator.snapshot().protection_state(),
        ProtectionState::Inactive
    );

    monitor.consume(NetworkActivityEvent::AvailabilityChanged(
        NetworkActivityAvailability::Available,
    ));

    assert_eq!(controller.snapshot().latest_coordination_failure(), None);
    assert_eq!(
        coordinator.snapshot().protection_state(),
        ProtectionState::Active
    );
    assert_eq!(*calls.borrow(), ["acquire", "acquire"]);
}

#[test]
fn failed_automatic_release_keeps_idle_intent_and_retries_on_the_next_event() {
    let (inhibitor, calls) = RecordingInhibitor::failing_next_release_active();
    let coordinator = Coordinator::with_inhibitor(inhibitor);
    let settings = AutomaticDownloadSettings::try_new(100, Duration::from_secs(1), Duration::zero())
        .expect("settings should be valid");
    let (mut monitor, controller) = test_monitor_with_controller(settings, coordinator.clone());
    monitor.consume(sample(100, Duration::from_secs(1)));

    monitor.consume(sample(0, Duration::from_secs(1)));

    assert_eq!(monitor.snapshot().state, AutomaticDownloadState::Idle);
    assert_eq!(
        controller.snapshot().latest_coordination_failure(),
        Some("scripted release failure")
    );
    assert!(coordinator.snapshot().active_reasons().is_empty());
    assert_eq!(
        coordinator.snapshot().protection_state(),
        ProtectionState::Active
    );

    monitor.consume(NetworkActivityEvent::AvailabilityChanged(
        NetworkActivityAvailability::Unavailable,
    ));

    assert_eq!(controller.snapshot().latest_coordination_failure(), None);
    assert_eq!(
        coordinator.snapshot().protection_state(),
        ProtectionState::Inactive
    );
    assert_eq!(*calls.borrow(), ["acquire", "release", "release"]);
}

#[test]
fn automatic_expiry_does_not_release_native_protection_while_manual_intent_remains() {
    let (inhibitor, calls) = RecordingInhibitor::new();
    let coordinator = Coordinator::with_inhibitor(inhibitor);
    coordinator
        .set_reason_active(WakeReason::ManualKeepAwake, true)
        .expect("manual activation should succeed");
    let settings = AutomaticDownloadSettings::try_new(100, Duration::from_secs(1), Duration::zero())
        .expect("settings should be valid");
    let mut monitor = test_monitor(settings, coordinator.clone());
    monitor.consume(sample(100, Duration::from_secs(1)));

    monitor.consume(sample(0, Duration::from_secs(1)));

    assert_eq!(monitor.snapshot().state, AutomaticDownloadState::Idle);
    assert_eq!(
        coordinator.snapshot().active_reasons(),
        &[WakeReason::ManualKeepAwake]
    );
    assert_eq!(
        coordinator.snapshot().protection_state(),
        ProtectionState::Active
    );
    assert_eq!(*calls.borrow(), ["acquire"]);
}

#[test]
fn shutdown_is_idempotent_and_clears_detector_history_before_releasing_intent() {
    let (inhibitor, calls) = RecordingInhibitor::new();
    let coordinator = Coordinator::with_inhibitor(inhibitor);
    let settings =
        AutomaticDownloadSettings::try_new(100, Duration::from_secs(1), Duration::from_secs(10))
            .expect("settings should be valid");
    let mut monitor = test_monitor(settings, coordinator.clone());
    monitor.consume(sample(100, Duration::from_secs(1)));

    monitor.shutdown().expect("first shutdown should succeed");
    monitor
        .shutdown()
        .expect("duplicate shutdown should remain safe");

    assert_eq!(
        monitor.snapshot(),
        AutomaticDownloadSnapshot {
            state: AutomaticDownloadState::Idle,
            latest_receive_rate_bytes_per_second: None,
            settings,
        }
    );
    assert!(coordinator.snapshot().active_reasons().is_empty());
    assert_eq!(*calls.borrow(), ["acquire", "release"]);
}

#[test]
fn provisional_defaults_are_centralized_in_the_typed_settings_contract() {
    let settings = AutomaticDownloadSettings::default();

    assert_eq!(
        settings.meaningful_receive_rate_bytes_per_second(),
        1024 * 1024
    );
    assert_eq!(settings.activation_qualification(), Duration::from_secs(5));
    assert_eq!(settings.grace(), Duration::from_secs(120));
}

#[test]
fn continued_meaningful_activity_does_not_duplicate_native_acquisition() {
    let (inhibitor, calls) = RecordingInhibitor::new();
    let coordinator = Coordinator::with_inhibitor(inhibitor);
    let settings =
        AutomaticDownloadSettings::try_new(100, Duration::from_secs(1), Duration::from_secs(10))
            .expect("settings should be valid");
    let mut monitor = test_monitor(settings, coordinator);

    monitor.consume(sample(100, Duration::from_secs(1)));
    monitor.consume(sample(500, Duration::from_secs(2)));

    assert_eq!(monitor.snapshot().state, AutomaticDownloadState::Active);
    assert_eq!(*calls.borrow(), ["acquire"]);
}

#[test]
fn continuity_loss_while_idle_clears_partial_qualification() {
    let (inhibitor, _) = RecordingInhibitor::new();
    let coordinator = Coordinator::with_inhibitor(inhibitor);
    let settings =
        AutomaticDownloadSettings::try_new(100, Duration::from_secs(2), Duration::from_secs(10))
            .expect("settings should be valid");
    let mut monitor = test_monitor(settings, coordinator);
    monitor.consume(sample(100, Duration::from_secs(1)));
    monitor.consume(NetworkActivityEvent::ContinuityLost(
        ContinuityLossReason::UntrustedInterval,
    ));

    monitor.consume(sample(100, Duration::from_secs(1)));

    assert_eq!(monitor.snapshot().state, AutomaticDownloadState::Idle);
}

#[test]
fn continuity_loss_while_hold_clears_grace_and_automatic_intent() {
    let (inhibitor, calls) = RecordingInhibitor::new();
    let coordinator = Coordinator::with_inhibitor(inhibitor);
    let settings =
        AutomaticDownloadSettings::try_new(100, Duration::from_secs(1), Duration::from_secs(10))
            .expect("settings should be valid");
    let mut monitor = test_monitor(settings, coordinator.clone());
    monitor.consume(sample(100, Duration::from_secs(1)));
    monitor.consume(sample(0, Duration::from_secs(1)));

    monitor.consume(NetworkActivityEvent::ContinuityLost(
        ContinuityLossReason::ProviderUnavailable,
    ));

    assert_eq!(monitor.snapshot().state, AutomaticDownloadState::Idle);
    assert!(coordinator.snapshot().active_reasons().is_empty());
    assert_eq!(*calls.borrow(), ["acquire", "release"]);
}

#[test]
fn failed_shutdown_stays_idle_and_a_later_shutdown_retries_release() {
    let (inhibitor, calls) = RecordingInhibitor::failing_next_release_active();
    let coordinator = Coordinator::with_inhibitor(inhibitor);
    let settings =
        AutomaticDownloadSettings::try_new(100, Duration::from_secs(1), Duration::from_secs(10))
            .expect("settings should be valid");
    let (mut monitor, controller) = test_monitor_with_controller(settings, coordinator.clone());
    monitor.consume(sample(100, Duration::from_secs(1)));

    monitor
        .shutdown()
        .expect_err("first shutdown should surface release failure");

    assert_eq!(monitor.snapshot().state, AutomaticDownloadState::Idle);
    assert_eq!(
        controller.snapshot().latest_coordination_failure(),
        Some("scripted release failure")
    );
    assert!(coordinator.snapshot().active_reasons().is_empty());
    assert_eq!(
        coordinator.snapshot().protection_state(),
        ProtectionState::Active
    );

    monitor
        .shutdown()
        .expect("later shutdown should retry release");

    assert_eq!(controller.snapshot().latest_coordination_failure(), None);
    assert_eq!(*calls.borrow(), ["acquire", "release", "release"]);
}

#[test]
fn an_unchanged_tuning_is_not_saved() {
    let coordinator = wake_coordinator();
    let settings = AutomaticDownloadSettings::default();
    let mut monitor = test_monitor(settings, coordinator);
    monitor.consume(sample(1024 * 1024 * 5, Duration::from_secs(5)));
    let before = monitor.snapshot();
    let state = *monitor.state.borrow();

    assert_eq!(
        AutomaticDownloadTuningService::set_threshold(&state, 1024 * 1024),
        Ok(TuningStep::Unchanged(before))
    );
    assert_eq!(
        AutomaticDownloadTuningService::set_grace(&state, Duration::from_secs(120)),
        Ok(TuningStep::Unchanged(before))
    );
}

#[test]
fn a_tuning_without_a_rate_is_refused() {
    let monitor = AutomaticDownloadMonitor::new(AutomaticDownloadSettings::default());

    assert_eq!(
        AutomaticDownloadTuningService::set_threshold(&monitor, 0),
        Err(SettingsUpdateError::InvalidAutomaticDownload(
            AutomaticDownloadSettingsError::ZeroMeaningfulReceiveRate
        ))
    );
}

#[test]
fn a_saved_tuning_is_in_milliseconds() {
    let monitor = AutomaticDownloadMonitor::new(AutomaticDownloadSettings::default());

    let step = AutomaticDownloadTuningService::set_grace(&monitor, Duration::from_nanos(1_999_999));

    assert_eq!(
        step,
        Ok(TuningStep::Persist {
            update: SettingsUpdate::AutomaticDownloadTuning {
                meaningful_receive_rate_bytes_per_second: 1_048_576,
                activation_qualification_milliseconds: 5_000,
                grace_milliseconds: 1,
            },
            tuning: AutomaticDownloadSettings::try_new(
                1_048_576,
                Duration::from_secs(5),
                Duration::from_nanos(1_999_999)
            )
            .unwrap(),
        })
    );
    assert_eq!(duration_milliseconds(Duration::from_nanos(2_999_999)), 2);
}

#[test]
fn rates_are_rounded_down() {
    let mut monitor = AutomaticDownloadMonitor::new(AutomaticDownloadSettings::default());
    monitor.apply_sample(
        ReceiveActivitySample::try_new(100, Duration::from_secs(3)).expect("a trusted interval"),
    );

    assert_eq!(
        monitor.snapshot().latest_receive_rate_bytes_per_second,
        Some(33)
    );
}

#[test]
fn a_tuning_that_was_not_saved_is_not_taken_over() {
    let coordinator = wake_coordinator();
    let settings = AutomaticDownloadSettings::default();
    let (mut monitor, controller) = test_monitor_with_controller(settings, coordinator.clone());
    monitor.consume(sample(1024 * 1024 * 5, Duration::from_secs(5)));
    let before = monitor.snapshot();
    let lines = coordinator.lines();
    let other =
        AutomaticDownloadSettings::try_new(7, Duration::from_secs(1), Duration::zero()).unwrap();
    let failure = SettingsUpdateError::Persistence(SettingsPersistenceFailure::WritePrimary);

    let refused = {
        let shared = &mut *coordinator.0.borrow_mut();
        AutomaticDownloadTuningService::tuned(
            &mut monitor.state.borrow_mut(),
            other,
            Err(failure),
            &mut controller.state.borrow_mut(),
            &mut shared.wake,
            &mut shared.log,
        )
    };

    assert_eq!(refused.err(), Some(failure));
    assert_eq!(monitor.snapshot(), before);
    assert_eq!(coordinator.lines(), lines);
    assert_eq!(
        coordinator.snapshot().active_reasons(),
        &[WakeReason::AutomaticDownload]
    );

    let applied = {
        let shared = &mut *coordinator.0.borrow_mut();
        AutomaticDownloadTuningService::tuned(
            &mut monitor.state.borrow_mut(),
            other,
            Ok(Settings::default()),
            &mut controller.state.borrow_mut(),
            &mut shared.wake,
            &mut shared.log,
        )
    };

    let (snapshot, progress) = applied.unwrap();
    controller.settle(progress).unwrap();
    assert_eq!(snapshot, monitor.snapshot());
    assert_eq!(
        snapshot,
        AutomaticDownloadSnapshot {
            state: AutomaticDownloadState::Idle,
            latest_receive_rate_bytes_per_second: None,
            settings: other,
        }
    );
    assert!(coordinator.snapshot().active_reasons().is_empty());
}

#[test]
fn what_is_shown_of_the_detector_fits_together() {
    let settings =
        AutomaticDownloadSettings::try_new(100, Duration::from_secs(2), Duration::from_secs(3))
            .unwrap();
    let mut monitor = AutomaticDownloadMonitor::new(settings);
    let bytes = [0, 500, 99, 100, 250, 0, 1_000, 99, 0, 0, 0, 400, 400, 50];
    let mut states = Vec::new();

    for received in bytes {
        monitor.apply_sample(
            ReceiveActivitySample::try_new(received, Duration::from_secs(1)).unwrap(),
        );
        let shown = monitor.snapshot();
        let rate = shown.latest_receive_rate_bytes_per_second;
        match shown.state {
            AutomaticDownloadState::Idle => states.push('i'),
            AutomaticDownloadState::Active => {
                states.push('a');
                assert!(rate >= Some(100));
            }
            AutomaticDownloadState::Hold { remaining_grace } => {
                states.push('h');
                assert!(rate.is_some() && rate < Some(100));
                assert!(!remaining_grace.is_zero());
                assert!(remaining_grace.as_nanos() < settings.grace().as_nanos());
            }
        }
    }

    assert_eq!(states.iter().collect::<String>(), "iiiiahahhiiiah");
}
