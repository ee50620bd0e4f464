//! Launch at login, with a scripted platform.

use chiu::launch_at_login::{
    launch_failure_stage, registration, LaunchAtLoginCommandError, LaunchAtLoginFailure,
    LaunchAtLoginFailureStage, LaunchAtLoginService, LaunchAtLoginSnapshot, ReconcileStep,
    Registration,
};
use chiu::local_log::SafeEvent;
use chiu::settings::files::{
    backup_file, backup_temp_file, next_quarantine_name, primary_file, primary_temp_file,
    prune_quarantines,
};
use chiu::settings::service::{
    absent_or_backup, cleanup_stale_temporary_files, load_settings, malformed_or_backup,
    FileContent, LoadStep, SettingsService, UpdateStage, UpdateStep,
};
use chiu::settings::{Settings, SettingsUpdate, SettingsUpdateError};
use std::cell::RefCell;
use std::collections::BTreeMap;
use std::rc::Rc;

/// The settings directory, in memory.
#[derive(Default)]
struct MemoryDisk {
    files: BTreeMap<String, Vec<u8>>,
    directories: Vec<String>,
    replacements: u64,
    fail_replacement_at: Option<u64>,
    copies: u64,
    log: Vec<SafeEvent>,
}

impl MemoryDisk {
    fn read(&self, name: &str) -> FileContent {
        if self.directories.iter().any(|directory| directory == name) {
            return FileContent::Unreadable;
        }
        match self.files.get(name) {
            Some(bytes) => FileContent::Bytes(bytes.clone()),
            None => FileContent::Missing,
        }
    }

    fn write(&mut self, name: &str, bytes: &[u8]) -> bool {
        if self.directories.iter().any(|directory| directory == name) {
            return false;
        }
        self.files.insert(name.to_owned(), bytes.to_vec());
        true
    }

    fn is_stuck(&mut self, name: &str) -> bool {
        self.files.remove(name);
        self.directories.iter().any(|directory| directory == name)
    }

    fn replace(&mut self, source: &str, destination: &str) -> bool {
        self.replacements += 1;
        if Some(self.replacements) == self.fail_replacement_at {
            return false;
        }
        match self.files.remove(source) {
            Some(bytes) => {
                self.files.insert(destination.to_owned(), bytes);
                true
            }
            None => false,
        }
    }

    fn next_copy(&mut self) -> String {
        let name = next_quarantine_name(1_700_000_000_000, self.copies);
        self.copies += 1;
        name
    }

    fn prune(&mut self) -> bool {
        let names = self.files.keys().cloned().collect::<Vec<_>>();
        for position in prune_quarantines(&names) {
            self.files.remove(&names[position]);
        }
        true
    }

    fn load(&mut self) -> SettingsService {
        let primary_stuck = self.is_stuck(primary_temp_file());
        let backup_stuck = self.is_stuck(backup_temp_file());
        let warnings = cleanup_stale_temporary_files(primary_stuck, backup_stuck);
        let primary = self.read(primary_file());
        let loaded = match load_settings(true, warnings, primary) {
            LoadStep::Finished(loaded) => loaded,
            LoadStep::Absent(warnings) => absent_or_backup(warnings, self.read(backup_file())),
            LoadStep::Malformed(warnings) => {
                let copy = self.next_copy();
                let moved = match self.files.remove(primary_file()) {
                    Some(bytes) => self.files.insert(copy, bytes).is_none(),
                    None => false,
                };
                let pruned = self.prune();
                malformed_or_backup(warnings, moved, pruned, self.read(backup_file()))
            }
        };
        let exists = self.files.contains_key(primary_file());
        SettingsService::load(loaded, exists, &mut self.log)
    }

    fn update(
        &mut self,
        service: &mut SettingsService,
        update: SettingsUpdate,
    ) -> Result<Settings, SettingsUpdateError> {
        let mut step = service.update(update, &mut self.log);
        loop {
            let pending = match step {
                UpdateStep::Finished(result) => return result,
                UpdateStep::Perform(pending) => pending,
            };
            let succeeded = match pending.stage {
                UpdateStage::CreateDirectory => true,
                UpdateStage::WritePrimary => self.write(primary_temp_file(), &pending.bytes),
                UpdateStage::PreserveSource => {
                    let copy = self.next_copy();
                    match self.files.get(primary_file()).cloned() {
                        Some(bytes) => self.write(&copy, &bytes),
                        None => false,
                    }
                }
                UpdateStage::PruneQuarantines => self.prune(),
                UpdateStage::TestPrimary => self.files.contains_key(primary_file()),
                UpdateStage::WriteBackup => self.write(backup_temp_file(), &pending.bytes),
                UpdateStage::ReplaceBackup => self.replace(backup_temp_file(), backup_file()),
                UpdateStage::ReplacePrimary => self.replace(primary_temp_file(), primary_file()),
            };
            step = service.advance(pending, succeeded, &mut self.log);
        }
    }
}

/// The settings together with the directory that they are saved in.
#[derive(Clone)]
struct SavedSettings(Rc<RefCell<(MemoryDisk, SettingsService)>>);

impl SavedSettings {
    fn load() -> Self {
        let mut disk = MemoryDisk::default();
        let settings = disk.load();
        Self(Rc::new(RefCell::new((disk, settings))))
    }

    fn unavailable() -> Self {
        let mut disk = MemoryDisk::default();
        let settings = SettingsService::unavailable(&mut disk.log);
        Self(Rc::new(RefCell::new((disk, settings))))
    }

    fn snapshot(&self) -> Settings {
        self.0.borrow().1.snapshot()
    }

    fn update(&self, update: SettingsUpdate) -> Result<Settings, SettingsUpdateError> {
        let (disk, settings) = &mut *self.0.borrow_mut();
        disk.update(settings, update)
    }

    /// What was logged.
    fn lines(&self) -> String {
        self.0
            .borrow()
            .0
            .log
            .iter()
            .map(SafeEvent::render)
            .collect::<Vec<_>>()
            .join("")
    }
}

#[derive(Clone, Debug, Eq, PartialEq)]
enum AdapterCall {
    Observe,
    SetEnabled(bool),
}

/// A platform that answers as scripted.
#[derive(Clone)]
struct FakeAdapter {
    observed: Rc<RefCell<Vec<Result<bool, String>>>>,
    set_results: Rc<RefCell<Vec<Result<(), String>>>>,
    calls: Rc<RefCell<Vec<AdapterCall>>>,
}

impl FakeAdapter {
    fn new(observed: Vec<Result<bool, String>>) -> Self {
        Self {
            observed: Rc::new(RefCell::new(observed.into_iter().rev().collect())),
            set_results: Rc::new(RefCell::new(Vec::new())),
            calls: Rc::new(RefCell::new(Vec::new())),
        }
    }

    fn with_set_results(mut self, results: Vec<Result<(), String>>) -> Self {
        self.set_results = Rc::new(RefCell::new(results.into_iter().rev().collect()));
        self
    }

    fn calls(&self) -> Vec<AdapterCall> {
        self.calls.borrow().clone()
    }

    fn observe(&self) -> Result<bool, String> {
        self.calls.borrow_mut().push(AdapterCall::Observe);
        self.observed
            .borrow_mut()
            .pop()
            .expect("fake observation exhausted")
    }

    fn set_enabled(&self, enabled: bool) -> Result<(), String> {
        self.calls
            .borrow_mut()
            .push(AdapterCall::SetEnabled(enabled));
        self.set_results.borrow_mut().pop().unwrap_or(Ok(()))
    }
}

/// The service together with the settings and the platform.
struct Launch {
    settings: SavedSettings,
    adapter: FakeAdapter,
    service: RefCell<LaunchAtLoginService>,
}

impl Launch {
    fn available(settings: SavedSettings, adapter: FakeAdapter) -> Self {
        Self {
            settings,
            adapter,
            service: RefCell::new(LaunchAtLoginService::available()),
        }
    }

    fn unavailable(settings: SavedSettings, failure: LaunchAtLoginFailure) -> Self {
        Self {
            settings,
            adapter: FakeAdapter::new(Vec::new()),
            service: RefCell::new(LaunchAtLoginService::unavailable(failure)),
        }
    }

    fn snapshot(&self) -> LaunchAtLoginSnapshot {
        let desired = self.settings.snapshot().launch_at_login();
        self.service.borrow().snapshot(desired)
    }

    fn apply(&self, desired: bool) -> Result<LaunchAtLoginSnapshot, LaunchAtLoginFailure> {
        let applied = self.adapter.set_enabled(desired);
        let verification = self.adapter.observe();
        self.service.borrow_mut().apply_and_verify(
            desired,
            applied,
            verification,
            &mut self.settings.0.borrow_mut().0.log,
        )
    }

    fn reconcile(&self) -> Result<LaunchAtLoginSnapshot, LaunchAtLoginFailure> {
        let desired = self.settings.snapshot().launch_at_login();
        let mut step = {
            let (disk, settings) = &mut *self.settings.0.borrow_mut();
            self.service
                .borrow_mut()
                .reconcile(settings.health().persistence(), &mut disk.log)
        };
        loop {
            match step {
                ReconcileStep::Finished(result) => return result,
                ReconcileStep::Apply(desired) => return self.apply(desired),
                ReconcileStep::Observe => {
                    let observed = self.adapter.observe();
                    step = self.service.borrow_mut().reconcile_locked(
                        desired,
                        observed,
                        &mut self.settings.0.borrow_mut().0.log,
                    );
                }
            }
        }
    }

    fn toggle(&self) -> Result<LaunchAtLoginSnapshot, LaunchAtLoginCommandError> {
        let wished = self
            .service
            .borrow()
            .toggle(self.settings.snapshot().launch_at_login())?;
        let target = LaunchAtLoginService::toggle_saved(self.settings.update(wished))?;
        self.apply(target)
            .map_err(LaunchAtLoginCommandError::Native)
    }
}

fn known_match(snapshot: &LaunchAtLoginSnapshot) -> bool {
    matches!(
        (snapshot.desired(), snapshot.observed()),
        (true, Registration::Enabled) | (false, Registration::Disabled)
    )
}

#[test]
fn default_preference_enables_disabled_registration_and_verifies() {
    let settings = SavedSettings::load();
    let adapter = FakeAdapter::new(vec![Ok(false), Ok(true)]);
    let launch_at_login = Launch::available(settings, adapter.clone());

    let snapshot = launch_at_login.reconcile().unwrap();

    assert!(snapshot.desired());
    assert_eq!(snapshot.observed(), Registration::Enabled);
    assert!(snapshot.available());
    assert!(known_match(&snapshot));
    assert!(snapshot.latest_failure().is_none());
    assert_eq!(
        adapter.calls(),
        vec![
            AdapterCall::Observe,
            AdapterCall::SetEnabled(true),
            AdapterCall::Observe,
        ]
    );
}

#[test]
fn reconciliation_outcome_is_logged_without_native_error_text() {
    let settings = SavedSettings::load();
    let adapter = FakeAdapter::new(vec![Ok(false), Err("/Users/alice/private".to_owned())]);
    let launch_at_login = Launch::available(settings.clone(), adapter);

    assert!(launch_at_login.reconcile().is_err());

    let persisted = settings.lines();
    assert!(persisted.contains("launch-at-login action=reconcile outcome=failed stage=verify"));
    assert!(!persisted.contains("/Users/alice/private"));
}

#[test]
fn persisted_false_disables_enabled_registration_and_verifies() {
    let settings = SavedSettings::load();
    settings
        .update(SettingsUpdate::LaunchAtLogin(false))
        .unwrap();
    let adapter = FakeAdapter::new(vec![Ok(true), Ok(false)]);
    let launch_at_login = Launch::available(settings, adapter.clone());

    let snapshot = launch_at_login.reconcile().unwrap();

    assert!(!snapshot.desired());
    assert_eq!(snapshot.observed(), Registration::Disabled);
    assert!(known_match(&snapshot));
    assert_eq!(
        adapter.calls(),
        vec![
            AdapterCall::Observe,
            AdapterCall::SetEnabled(false),
            AdapterCall::Observe,
        ]
    );
}

#[test]
fn matching_registration_does_not_mutate_the_platform() {
    let settings = SavedSettings::load();
    let adapter = FakeAdapter::new(vec![Ok(true)]);
    let launch_at_login = Launch::available(settings, adapter.clone());

    let snapshot = launch_at_login.reconcile().unwrap();

    assert!(known_match(&snapshot));
    assert_eq!(adapter.calls(), vec![AdapterCall::Observe]);
}

#[test]
fn failed_initial_inspection_applies_once_and_verifies_once() {
    let settings = SavedSettings::load();
    let adapter = FakeAdapter::new(vec![Err("inspection failed".to_owned()), Ok(true)]);
    let launch_at_login = Launch::available(settings, adapter.clone());

    let snapshot = launch_at_login.reconcile().unwrap();

    assert!(known_match(&snapshot));
    assert!(snapshot.latest_failure().is_none());
    assert_eq!(
        adapter.calls(),
        vec![
            AdapterCall::Observe,
            AdapterCall::SetEnabled(true),
            AdapterCall::Observe,
        ]
    );
}

#[test]
fn failed_enable_still_verifies_and_keeps_truthful_observation() {
    let settings = SavedSettings::load();
    let adapter = FakeAdapter::new(vec![Ok(false), Ok(false)])
        .with_set_results(vec![Err("enable failed".to_owned())]);
    let launch_at_login = Launch::available(settings, adapter.clone());

    let failure = launch_at_login.reconcile().unwrap_err();
    let snapshot = launch_at_login.snapshot();

    assert_eq!(failure.stage(), LaunchAtLoginFailureStage::Enable);
    assert_eq!(
        failure.message(),
        "launch-at-login Enable failed: enable failed"
    );
    assert_eq!(snapshot.observed(), Registration::Disabled);
    assert!(!known_match(&snapshot));
    assert_eq!(
        adapter.calls(),
        vec![
            AdapterCall::Observe,
            AdapterCall::SetEnabled(true),
            AdapterCall::Observe,
        ]
    );
}

#[test]
fn apply_failure_remains_primary_when_verification_also_fails() {
    let settings = SavedSettings::load();
    let adapter = FakeAdapter::new(vec![Ok(false), Err("verification failed".to_owned())])
        .with_set_results(vec![Err("enable failed".to_owned())]);
    let launch_at_login = Launch::available(settings, adapter.clone());

    let failure = launch_at_login.reconcile().unwrap_err();
    let snapshot = launch_at_login.snapshot();

    assert_eq!(failure.stage(), LaunchAtLoginFailureStage::Enable);
    assert_eq!(snapshot.observed(), Registration::Unknown);
    assert_eq!(
        snapshot.latest_failure().unwrap().stage(),
        LaunchAtLoginFailureStage::Enable
    );
    assert_eq!(
        adapter.calls(),
        vec![
            AdapterCall::Observe,
            AdapterCall::SetEnabled(true),
            AdapterCall::Observe,
        ]
    );
}

#[test]
fn verification_mismatch_is_reported_and_later_success_clears_it() {
    let settings = SavedSettings::load();
    let adapter = FakeAdapter::new(vec![Ok(false), Ok(false), Ok(true)]);
    let launch_at_login = Launch::available(settings, adapter.clone());

    let failure = launch_at_login.reconcile().unwrap_err();
    assert_eq!(failure.stage(), LaunchAtLoginFailureStage::Verify);
    let failed = launch_at_login.snapshot();
    assert_eq!(failed.observed(), Registration::Disabled);
    assert!(!known_match(&failed));

    let recovered = launch_at_login.reconcile().unwrap();
    assert!(known_match(&recovered));
    assert!(recovered.latest_failure().is_none());
    assert_eq!(
        adapter.calls(),
        vec![
            AdapterCall::Observe,
            AdapterCall::SetEnabled(true),
            AdapterCall::Observe,
            AdapterCall::Observe,
        ]
    );
}

#[test]
fn failed_verification_records_unknown_registration() {
    let settings = SavedSettings::load();
    let adapter = FakeAdapter::new(vec![Ok(false), Err("verification failed".to_owned())]);
    let launch_at_login = Launch::available(settings, adapter);

    let failure = launch_at_login.reconcile().unwrap_err();
    let snapshot = launch_at_login.snapshot();

    assert_eq!(failure.stage(), LaunchAtLoginFailureStage::Verify);
    assert_eq!(snapshot.observed(), Registration::Unknown);
    assert!(!known_match(&snapshot));
}

#[test]
fn failed_preference_persistence_makes_no_native_call_and_keeps_intent() {
    let settings = SavedSettings::unavailable();
    let adapter = FakeAdapter::new(Vec::new());
    let launch_at_login = Launch::available(settings.clone(), adapter.clone());

    let result = launch_at_login.toggle();

    assert!(matches!(
        result,
        Err(LaunchAtLoginCommandError::Settings(_))
    ));
    assert!(settings.snapshot().launch_at_login());
    assert!(launch_at_login.snapshot().desired());
    assert!(adapter.calls().is_empty());
}

#[test]
fn startup_does_not_apply_an_unpersistable_default_preference() {
    let settings = SavedSettings::unavailable();
    let adapter = FakeAdapter::new(Vec::new());
    let launch_at_login = Launch::available(settings, adapter.clone());

    let failure = launch_at_login.reconcile().unwrap_err();
    let snapshot = launch_at_login.snapshot();

    assert_eq!(failure.stage(), LaunchAtLoginFailureStage::Verify);
    assert!(snapshot.desired());
    assert_eq!(snapshot.observed(), Registration::Unknown);
    assert!(snapshot.available());
    assert!(adapter.calls().is_empty());
}

#[test]
fn toggle_persists_before_applying_and_verifying_the_target() {
    let settings = SavedSettings::load();
    let adapter = FakeAdapter::new(vec![Ok(false)]);
    let launch_at_login = Launch::available(settings.clone(), adapter.clone());

    let snapshot = launch_at_login.toggle().unwrap();

    assert!(!settings.snapshot().launch_at_login());
    assert!(!snapshot.desired());
    assert_eq!(snapshot.observed(), Registration::Disabled);
    assert!(known_match(&snapshot));
    assert_eq!(
        adapter.calls(),
        vec![AdapterCall::SetEnabled(false), AdapterCall::Observe]
    );
}

#[test]
fn snapshot_reads_persisted_intent_while_native_toggle_is_in_flight() {
    let settings = SavedSettings::load();
    let launch_at_login =
        Launch::available(settings.clone(), FakeAdapter::new(vec![Ok(false)]));
    let wished = launch_at_login
        .service
        .borrow()
        .toggle(settings.snapshot().launch_at_login())
        .unwrap();
    let target = LaunchAtLoginService::toggle_saved(settings.update(wished)).unwrap();

    assert!(!target);
    assert!(!settings.snapshot().launch_at_login());
    assert!(!launch_at_login.snapshot().desired());

    assert!(known_match(&launch_at_login.apply(target).unwrap()));
}

#[test]
fn native_toggle_failure_keeps_persisted_intent_and_truthful_observation() {
    let settings = SavedSettings::load();
    let adapter =
        FakeAdapter::new(vec![Ok(true)]).with_set_results(vec![Err("disable failed".to_owned())]);
    let launch_at_login = Launch::available(settings.clone(), adapter);

    let result = launch_at_login.toggle();
    let snapshot = launch_at_login.snapshot();

    assert!(matches!(
        result,
        Err(LaunchAtLoginCommandError::Native(ref failure))
            if failure.stage() == LaunchAtLoginFailureStage::Disable
    ));
    assert!(!settings.snapshot().launch_at_login());
    assert!(!snapshot.desired());
    assert_eq!(snapshot.observed(), Registration::Enabled);
    assert!(!known_match(&snapshot));
}

#[test]
fn unavailable_integration_keeps_a_truthful_non_mutating_facade() {
    let settings = SavedSettings::load();
    let launch_at_login = Launch::unavailable(
        settings.clone(),
        LaunchAtLoginFailure::initialize("plugin registration failed".to_owned()),
    );

    let snapshot = launch_at_login.snapshot();

    assert!(snapshot.desired());
    assert_eq!(snapshot.observed(), Registration::Unknown);
    assert!(!snapshot.available());
    assert_eq!(
        snapshot.latest_failure().unwrap().stage(),
        LaunchAtLoginFailureStage::Initialize
    );
    assert_eq!(
        snapshot.latest_failure().unwrap().message(),
        "launch-at-login Initialize failed: plugin registration failed"
    );
    assert!(matches!(
        launch_at_login.toggle(),
        Err(LaunchAtLoginCommandError::Unavailable)
    ));
    assert!(settings.snapshot().launch_at_login());
}

#[test]
fn concurrent_toggles_serialize_complete_transactions_and_converge() {
    let settings = SavedSettings::load();
    let adapter = FakeAdapter::new(vec![Ok(false), Ok(true), Ok(false), Ok(true)]);
    let launch_at_login = Launch::available(settings.clone(), adapter.clone());

    for _ in 0..4 {
        launch_at_login.toggle().unwrap();
    }

    assert!(settings.snapshot().launch_at_login());
    assert!(known_match(&launch_at_login.snapshot()));
    assert_eq!(
        adapter.calls(),
        vec![
            AdapterCall::SetEnabled(false),
            AdapterCall::Observe,
            AdapterCall::SetEnabled(true),
            AdapterCall::Observe,
            AdapterCall::SetEnabled(false),
            AdapterCall::Observe,
            AdapterCall::SetEnabled(true),
            AdapterCall::Observe,
        ]
    );
}

#[test]
fn every_failure_of_the_service_is_worded_by_its_stage() {
    for (stage, words, name) in [
        (
            LaunchAtLoginFailureStage::Initialize,
            "launch-at-login Initialize failed: why",
            "initialize",
        ),
        (
            LaunchAtLoginFailureStage::Enable,
            "launch-at-login Enable failed: why",
            "enable",
        ),
        (
            LaunchAtLoginFailureStage::Disable,
            "launch-at-login Disable failed: why",
            "disable",
        ),
        (
            LaunchAtLoginFailureStage::Verify,
            "launch-at-login Verify failed: why",
            "verify",
        ),
    ] {
        assert_eq!(
            LaunchAtLoginFailure::new(stage, "why".to_owned()).message(),
            words
        );
        assert_eq!(launch_failure_stage(stage), name);
    }
    assert_eq!(registration(true), Registration::Enabled);
    assert_eq!(registration(false), Registration::Disabled);
}

#[test]
fn an_unavailable_integration_is_not_asked() {
    let launch_at_login = Launch::unavailable(
        SavedSettings::load(),
        LaunchAtLoginFailure::initialize("no plugin".to_owned()),
    );

    let failure = launch_at_login.reconcile().unwrap_err();

    assert_eq!(failure.stage(), LaunchAtLoginFailureStage::Initialize);
    assert!(launch_at_login.adapter.calls().is_empty());
    assert_eq!(
        LaunchAtLoginCommandError::Native(failure).message(),
        "launch-at-login Initialize failed: no plugin"
    );
}
