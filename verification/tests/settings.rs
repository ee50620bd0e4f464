//! The settings, with a directory that is kept in memory.

use chiu::automatic_download::{AutomaticDownloadSettings, AutomaticDownloadSettingsError};
use chiu::duration::Duration;
use chiu::local_log::SafeEvent;
use chiu::settings::document::{
    load_backup, load_document, read_document, to_persisted, write_document, BackupLoad,
    DocumentLoad, JsonField, SettingsDocument,
};
use chiu::settings::files::{
    backup_file, backup_temp_file, comes_before, next_quarantine_name, primary_file, primary_temp_file,
    prune_quarantines,
};
use chiu::settings::service::{
    absent_or_backup, cleanup_stale_temporary_files, load_settings, malformed_or_backup,
    FileContent, LoadStep, SettingsService, UpdateStage, UpdateStep,
};
use chiu::settings::{
    ArtifactWarning, FieldRecovery, LoadCondition, PersistenceCondition, RecoveryReason,
    SettingPath, Settings, SettingsPersistenceFailure, SettingsUpdate, SettingsUpdateError,
};
use std::collections::BTreeMap;

/// The settings directory, in memory.
#[derive(Default)]
struct MemoryDisk {
    files: BTreeMap<String, Vec<u8>>,
    directories: Vec<String>,
    replacements: u64,
    fail_replacement_at: Option<u64>,
    copies: u64,
    log: Vec<SafeEvent>,
}

impl MemoryDisk {
    fn read(&self, name: &str) -> FileContent {
        if self.directories.iter().any(|directory| directory == name) {
            return FileContent::Unreadable;
        }
        match self.files.get(name) {
            Some(bytes) => FileContent::Bytes(bytes.clone()),
            None => FileContent::Missing,
        }
    }

    fn write(&mut self, name: &str, bytes: &[u8]) -> bool {
        if self.directories.iter().any(|directory| directory == name) {
            return false;
        }
        self.files.insert(name.to_owned(), bytes.to_vec());
        true
    }

    fn is_stuck(&mut self, name: &str) -> bool {
        self.files.remove(name);
        self.directories.iter().any(|directory| directory == name)
    }

    fn replace(&mut self, source: &str, destination: &str) -> bool {
        self.replacements += 1;
        if Some(self.replacements) == self.fail_replacement_at {
            return false;
        }
        match self.files.remove(source) {
            Some(bytes) => {
                self.files.insert(destination.to_owned(), bytes);
                true
            }
            None => false,
        }
    }

    fn next_copy(&mut self) -> String {
        let name = next_quarantine_name(1_700_000_000_000, self.copies);
        self.copies += 1;
        name
    }

    fn prune(&mut self) -> bool {
        let names = self.files.keys().cloned().collect::<Vec<_>>();
        for position in prune_quarantines(&names) {
            self.files.remove(&names[position]);
        }
        true
    }

    fn load(&mut self) -> SettingsService {
        let primary_stuck = self.is_stuck(primary_temp_file());
        let backup_stuck = self.is_stuck(backup_temp_file());
        let warnings = cleanup_stale_temporary_files(primary_stuck, backup_stuck);
        let primary = self.read(primary_file());
        let loaded = match load_settings(true, warnings, primary) {
            LoadStep::Finished(loaded) => loaded,
            LoadStep::Absent(warnings) => absent_or_backup(warnings, self.read(backup_file())),
            LoadStep::Malformed(warnings) => {
                let copy = self.next_copy();
                let moved = match self.files.remove(primary_file()) {
                    Some(bytes) => self.files.insert(copy, bytes).is_none(),
                    None => false,
                };
                let pruned = self.prune();
                malformed_or_backup(warnings, moved, pruned, self.read(backup_file()))
            }
        };
        let exists = self.files.contains_key(primary_file());
        SettingsService::load(loaded, exists, &mut self.log)
    }

    fn update(
        &mut self,
        service: &mut SettingsService,
        update: SettingsUpdate,
    ) -> Result<Settings, SettingsUpdateError> {
        let mut step = service.update(update, &mut self.log);
        loop {
            let pending = match step {
                UpdateStep::Finished(result) => return result,
                UpdateStep::Perform(pending) => pending,
            };
            let succeeded = match pending.stage {
                UpdateStage::CreateDirectory => true,
                UpdateStage::WritePrimary => self.write(primary_temp_file(), &pending.bytes),
                UpdateStage::PreserveSource => {
                    let copy = self.next_copy();
                    match self.files.get(primary_file()).cloned() {
                        Some(bytes) => self.write(&copy, &bytes),
                        None => false,
                    }
                }
                UpdateStage::PruneQuarantines => self.prune(),
                UpdateStage::TestPrimary => self.files.contains_key(primary_file()),
                UpdateStage::WriteBackup => self.write(backup_temp_file(), &pending.bytes),
                UpdateStage::ReplaceBackup => self.replace(backup_temp_file(), backup_file()),
                UpdateStage::ReplacePrimary => self.replace(primary_temp_file(), primary_file()),
            };
            step = service.advance(pending, succeeded, &mut self.log);
        }
    }
}

fn lines(log: &[SafeEvent]) -> String {
    log.iter()
        .map(SafeEvent::render)
        .collect::<Vec<_>>()
        .join("")
}

impl MemoryDisk {
    fn quarantines(&self) -> Vec<String> {
        self.files
            .keys()
            .filter(|name| name.starts_with("settings.corrupt."))
            .cloned()
            .collect()
    }
}

#[test]
fn first_run_uses_exact_defaults_without_creating_a_file() {
    let mut disk = MemoryDisk::default();

    let service = disk.load();

    assert_eq!(service.snapshot(), Settings::default());
    assert_eq!(service.health().load_condition(), LoadCondition::FirstRun);
    assert!(!disk.files.contains_key("settings.json"));
    assert!(lines(&disk.log)
        .contains("settings.loaded condition=first-run persistence=writable recoveries=0"));
}

#[test]
fn unavailable_construction_records_its_load_outcome() {
    let mut log = Vec::new();

    SettingsService::unavailable(&mut log);

    assert!(lines(&log).contains(
        "settings.loaded condition=persistence-unavailable persistence=unavailable recoveries=0"
    ));
}

#[test]
fn explicit_setting_changes_and_write_failures_use_safe_field_categories() {
    let mut disk = MemoryDisk::default();
    let mut service = disk.load();
    disk.update(&mut service, SettingsUpdate::ProtectOnBattery(true))
        .unwrap();

    let mut failed = MemoryDisk::default();
    let mut unavailable = SettingsService::unavailable(&mut failed.log);
    assert!(failed
        .update(&mut unavailable, SettingsUpdate::LaunchAtLogin(false))
        .is_err());

    assert!(lines(&disk.log).contains("settings.changed field=protect-on-battery"));
    assert!(lines(&failed.log).contains("settings.write-failed field=launch-at-login"));
}

#[test]
fn every_v1_setting_survives_save_and_fresh_restore() {
    let mut disk = MemoryDisk::default();
    let mut service = disk.load();

    for update in [
        SettingsUpdate::AutomaticDownloadProtectionEnabled(false),
        SettingsUpdate::ProtectOnBattery(true),
        SettingsUpdate::LaunchAtLogin(false),
        SettingsUpdate::AutomaticUpdateChecksEnabled(false),
        SettingsUpdate::LastAutomaticUpdateCheckUnixSeconds(Some(123)),
    ] {
        disk.update(&mut service, update).unwrap();
    }
    let expected = disk
        .update(
            &mut service,
            SettingsUpdate::AutomaticDownloadTuning {
                meaningful_receive_rate_bytes_per_second: 42,
                activation_qualification_milliseconds: 2_000,
                grace_milliseconds: 0,
            },
        )
        .unwrap();

    let restored = disk.load();

    assert_eq!(restored.snapshot(), expected);
    assert_eq!(
        restored.health().load_condition(),
        LoadCondition::CurrentVersion
    );
    let document = String::from_utf8(disk.files["settings.json"].clone()).unwrap();
    assert!(document.contains("\"schema_version\": 1"));
    assert!(!document.contains("manual"));
}

#[test]
fn invalid_fields_default_independently_without_discarding_valid_siblings() {
    let mut disk = MemoryDisk::default();
    disk.write(
        "settings.json",
        br#"{
          "schema_version": 1,
          "automatic_download_protection_enabled": false,
          "protect_on_battery": "sometimes",
          "automatic_update_checks_enabled": true,
          "last_automatic_update_check_unix_seconds": null,
          "automatic_download": {
            "meaningful_receive_rate_bytes_per_second": 0,
            "activation_qualification_milliseconds": 2000,
            "grace_milliseconds": 0,
            "future_detector_field": true
          },
          "future_top_level_field": true
        }"#,
    );

    let service = disk.load();
    let snapshot = service.snapshot();

    assert!(!snapshot.automatic_download_protection_enabled());
    assert!(!snapshot.protect_on_battery());
    assert!(snapshot.launch_at_login());
    assert_eq!(
        snapshot
            .automatic_download()
            .meaningful_receive_rate_bytes_per_second(),
        AutomaticDownloadSettings::default().meaningful_receive_rate_bytes_per_second()
    );
    assert_eq!(
        snapshot.automatic_download().activation_qualification(),
        Duration::from_secs(2)
    );
    assert_eq!(snapshot.automatic_download().grace(), Duration::zero());
    assert_eq!(
        service.health().load_condition(),
        LoadCondition::PartialRecovery
    );
    assert_eq!(
        service.health().field_recoveries().as_slice(),
        &[
            FieldRecovery::new(SettingPath::ProtectOnBattery, RecoveryReason::WrongType),
            FieldRecovery::new(SettingPath::LaunchAtLogin, RecoveryReason::Missing),
            FieldRecovery::new(
                SettingPath::MeaningfulReceiveRateBytesPerSecond,
                RecoveryReason::InvalidValue,
            ),
        ]
    );
}

#[test]
fn malformed_primary_recovers_valid_backup_and_quarantines_source() {
    let mut disk = MemoryDisk::default();
    let mut service = disk.load();
    let expected = disk
        .update(&mut service, SettingsUpdate::ProtectOnBattery(true))
        .unwrap();
    let saved = disk.files["settings.json"].clone();
    disk.write("settings.json.bak", &saved);
    disk.write("settings.json", b"{not-json");

    let restored = disk.load();

    assert_eq!(restored.snapshot(), expected);
    assert_eq!(
        restored.health().load_condition(),
        LoadCondition::RecoveredFromBackup
    );
    assert_eq!(disk.quarantines().len(), 1);
}

#[test]
fn unsupported_future_schema_uses_defaults_and_blocks_all_writes() {
    let mut disk = MemoryDisk::default();
    let future = br#"{
      "schema_version": 2,
      "protect_on_battery": true,
      "future_only": {"value": 42}
    }"#;
    disk.write("settings.json", future);

    let mut service = disk.load();
    let error = disk
        .update(&mut service, SettingsUpdate::ProtectOnBattery(true))
        .expect_err("future schema must block writes");

    assert_eq!(service.snapshot(), Settings::default());
    assert_eq!(
        service.health().load_condition(),
        LoadCondition::UnsupportedFutureSchema { found: 2 }
    );
    assert_eq!(
        service.health().persistence(),
        PersistenceCondition::BlockedByFutureSchema
    );
    assert!(matches!(
        error,
        SettingsUpdateError::UnsupportedFutureSchema(2)
    ));
    assert_eq!(disk.files["settings.json"], future);
    assert!(disk.quarantines().is_empty());
}

#[test]
fn unsupported_future_backup_is_not_overwritten_when_primary_is_absent() {
    let mut disk = MemoryDisk::default();
    let future = br#"{
      "schema_version": 2,
      "future_only": {"value": 42}
    }"#;
    disk.write("settings.json.bak", future);

    let mut service = disk.load();
    let error = disk
        .update(&mut service, SettingsUpdate::ProtectOnBattery(true))
        .expect_err("future backup must block writes");

    assert_eq!(service.snapshot(), Settings::default());
    assert_eq!(
        service.health().load_condition(),
        LoadCondition::UnsupportedFutureSchema { found: 2 }
    );
    assert!(matches!(
        error,
        SettingsUpdateError::UnsupportedFutureSchema(2)
    ));
    assert_eq!(disk.files["settings.json.bak"], future);
    assert!(!disk.files.contains_key("settings.json"));
}

const UNVERSIONED: &[u8] = br#"{
      "automatic_download_protection_enabled": false,
      "protect_on_battery": true,
      "launch_at_login": true,
      "automatic_update_checks_enabled": true,
      "last_automatic_update_check_unix_seconds": null,
      "automatic_download": {
        "meaningful_receive_rate_bytes_per_second": 64,
        "activation_qualification_milliseconds": 1000,
        "grace_milliseconds": 0
      }
    }"#;

#[test]
fn missing_schema_salvages_fields_and_preserves_source_before_normalizing() {
    let mut disk = MemoryDisk::default();
    disk.write("settings.json", UNVERSIONED);

    let mut service = disk.load();
    assert!(!service.snapshot().automatic_download_protection_enabled());
    assert!(service.snapshot().protect_on_battery());
    assert_eq!(
        service.health().load_condition(),
        LoadCondition::SchemaMetadataRecovered
    );

    disk.update(&mut service, SettingsUpdate::LaunchAtLogin(false))
        .unwrap();

    assert_eq!(disk.quarantines().len(), 1);
    assert_eq!(disk.files[&disk.quarantines()[0]], UNVERSIONED);
    let normalized: serde_json::Value =
        serde_json::from_slice(&disk.files["settings.json"]).unwrap();
    assert_eq!(normalized["schema_version"], 1);
}

#[test]
fn failed_normalization_keeps_salvaged_primary_restart_recoverable() {
    let mut disk = MemoryDisk::default();
    disk.write("settings.json", UNVERSIONED);
    let mut service = disk.load();
    let recovered = service.snapshot();
    disk.directories.push("settings.json.tmp".to_owned());

    let error = disk
        .update(&mut service, SettingsUpdate::LaunchAtLogin(false))
        .expect_err("normalization write should fail");

    assert!(matches!(
        error,
        SettingsUpdateError::Persistence(SettingsPersistenceFailure::WritePrimary)
    ));
    assert_eq!(service.snapshot(), recovered);
    assert_eq!(disk.load().snapshot(), recovered);
    assert_eq!(disk.files["settings.json"], UNVERSIONED);
}

#[test]
fn failed_primary_replacement_keeps_memory_and_last_known_good_files() {
    let mut disk = MemoryDisk {
        fail_replacement_at: Some(3),
        ..MemoryDisk::default()
    };
    let mut service = disk.load();
    let persisted = disk
        .update(&mut service, SettingsUpdate::ProtectOnBattery(true))
        .unwrap();

    let error = disk
        .update(&mut service, SettingsUpdate::LaunchAtLogin(false))
        .expect_err("primary replacement should fail");

    assert!(matches!(
        error,
        SettingsUpdateError::Persistence(SettingsPersistenceFailure::ReplacePrimary)
    ));
    assert_eq!(service.snapshot(), persisted);
    assert_eq!(
        service.health().last_save_failure(),
        Some(SettingsPersistenceFailure::ReplacePrimary)
    );
    assert_eq!(disk.load().snapshot(), persisted);
    assert!(disk.files.contains_key("settings.json.bak"));

    let retried = disk
        .update(&mut service, SettingsUpdate::LaunchAtLogin(false))
        .expect("retry should succeed after the scripted failure");
    assert_eq!(disk.load().snapshot(), retried);
    assert_eq!(service.health().last_save_failure(), None);
}

#[test]
fn failed_backup_replacement_keeps_primary_and_allows_restart_and_retry() {
    let mut disk = MemoryDisk {
        fail_replacement_at: Some(2),
        ..MemoryDisk::default()
    };
    let mut service = disk.load();
    let persisted = disk
        .update(&mut service, SettingsUpdate::ProtectOnBattery(true))
        .unwrap();

    let error = disk
        .update(&mut service, SettingsUpdate::LaunchAtLogin(false))
        .expect_err("backup replacement should fail");

    assert!(matches!(
        error,
        SettingsUpdateError::Persistence(SettingsPersistenceFailure::ReplaceBackup)
    ));
    assert_eq!(service.snapshot(), persisted);
    assert_eq!(disk.load().snapshot(), persisted);

    let retried = disk
        .update(&mut service, SettingsUpdate::LaunchAtLogin(false))
        .expect("retry should succeed after the scripted failure");
    assert_eq!(disk.load().snapshot(), retried);
}

#[test]
fn malformed_primary_without_backup_defaults_and_preserves_source() {
    let mut disk = MemoryDisk::default();
    let source = b"not valid json";
    disk.write("settings.json", source);

    let service = disk.load();

    assert_eq!(service.snapshot(), Settings::default());
    assert_eq!(
        service.health().load_condition(),
        LoadCondition::MalformedDefaulted
    );
    assert_eq!(disk.files[&disk.quarantines()[0]], source);
}

#[test]
fn absent_primary_recovers_last_known_good_backup() {
    let mut disk = MemoryDisk::default();
    let mut service = disk.load();
    let expected = disk
        .update(&mut service, SettingsUpdate::LaunchAtLogin(false))
        .unwrap();
    let saved = disk.files.remove("settings.json").unwrap();
    disk.write("settings.json.bak", &saved);

    let restored = disk.load();

    assert_eq!(restored.snapshot(), expected);
    assert_eq!(
        restored.health().load_condition(),
        LoadCondition::RecoveredFromBackup
    );
}

#[test]
fn unreadable_primary_defaults_and_makes_later_writes_observably_unavailable() {
    let mut disk = MemoryDisk::default();
    disk.directories.push("settings.json".to_owned());

    let mut service = disk.load();
    let error = disk
        .update(&mut service, SettingsUpdate::ProtectOnBattery(true))
        .expect_err("unavailable persistence must reject writes");

    assert_eq!(service.snapshot(), Settings::default());
    assert_eq!(
        service.health().load_condition(),
        LoadCondition::PersistenceUnavailable
    );
    assert_eq!(
        service.health().persistence(),
        PersistenceCondition::Unavailable
    );
    assert!(matches!(
        error,
        SettingsUpdateError::Persistence(SettingsPersistenceFailure::Unavailable)
    ));
}

#[test]
fn stale_temporary_files_are_removed_without_affecting_first_run() {
    let mut disk = MemoryDisk::default();
    disk.write("settings.json.tmp", b"stale");
    disk.write("settings.json.bak.tmp", b"stale");

    let service = disk.load();

    assert_eq!(service.snapshot(), Settings::default());
    assert_eq!(service.health().load_condition(), LoadCondition::FirstRun);
    assert!(service.health().is_clean());
    assert!(disk.files.is_empty());
}

#[test]
fn corrupt_quarantine_retention_is_bounded_to_two_files() {
    let mut disk = MemoryDisk::default();
    for sequence in 0..3 {
        disk.write("settings.json", format!("malformed-{sequence}").as_bytes());
        let service = disk.load();
        assert_eq!(
            service.health().load_condition(),
            LoadCondition::MalformedDefaulted
        );
    }

    let kept = disk.quarantines();
    assert_eq!(kept.len(), 2);
    assert_eq!(disk.files[&kept[0]], b"malformed-1");
    assert_eq!(disk.files[&kept[1]], b"malformed-2");
}

#[test]
fn invalid_detector_update_neither_writes_nor_changes_memory() {
    let mut disk = MemoryDisk::default();
    let mut service = disk.load();

    let error = disk
        .update(
            &mut service,
            SettingsUpdate::AutomaticDownloadTuning {
                meaningful_receive_rate_bytes_per_second: 0,
                activation_qualification_milliseconds: 1,
                grace_milliseconds: 0,
            },
        )
        .expect_err("zero threshold should remain invalid");

    assert!(matches!(
        error,
        SettingsUpdateError::InvalidAutomaticDownload(
            AutomaticDownloadSettingsError::ZeroMeaningfulReceiveRate
        )
    ));
    assert_eq!(service.snapshot(), Settings::default());
    assert!(!disk.files.contains_key("settings.json"));
}

#[test]
fn relative_settings_location_is_rejected_without_touching_the_working_directory() {
    let mut disk = MemoryDisk::default();
    let loaded = match load_settings(false, Vec::new(), FileContent::Missing) {
        LoadStep::Finished(loaded) => loaded,
        other => panic!("a relative location needs no file: {other:?}"),
    };

    let mut service = SettingsService::load(loaded, false, &mut disk.log);
    let error = disk
        .update(&mut service, SettingsUpdate::ProtectOnBattery(true))
        .expect_err("relative persistence must be unavailable");

    assert_eq!(
        service.health().persistence(),
        PersistenceCondition::Unavailable
    );
    assert!(matches!(
        error,
        SettingsUpdateError::Persistence(SettingsPersistenceFailure::Unavailable)
    ));
    assert!(disk.files.is_empty());
}

#[test]
fn zero_activation_defaults_only_activation_while_zero_grace_remains_valid() {
    let mut disk = MemoryDisk::default();
    disk.write(
        "settings.json",
        br#"{
          "schema_version": 1,
          "automatic_download_protection_enabled": true,
          "protect_on_battery": false,
          "launch_at_login": true,
          "automatic_update_checks_enabled": true,
          "last_automatic_update_check_unix_seconds": null,
          "automatic_download": {
            "meaningful_receive_rate_bytes_per_second": 99,
            "activation_qualification_milliseconds": 0,
            "grace_milliseconds": 0
          }
        }"#,
    );

    let service = disk.load();

    let tuning = service.snapshot().automatic_download();
    assert_eq!(tuning.meaningful_receive_rate_bytes_per_second(), 99);
    assert_eq!(
        tuning.activation_qualification(),
        AutomaticDownloadSettings::default().activation_qualification()
    );
    assert_eq!(tuning.grace(), Duration::zero());
    assert_eq!(
        service.health().field_recoveries().as_slice(),
        &[FieldRecovery::new(
            SettingPath::ActivationQualificationMilliseconds,
            RecoveryReason::InvalidValue,
        )]
    );
}

#[test]
fn invalid_schema_metadata_and_timestamp_are_salvaged_with_typed_warnings() {
    let mut disk = MemoryDisk::default();
    disk.write(
        "settings.json",
        br#"{
          "schema_version": "one",
          "automatic_download_protection_enabled": false,
          "protect_on_battery": false,
          "launch_at_login": true,
          "automatic_update_checks_enabled": true,
          "last_automatic_update_check_unix_seconds": -1,
          "automatic_download": {
            "meaningful_receive_rate_bytes_per_second": 1,
            "activation_qualification_milliseconds": 1,
            "grace_milliseconds": 1
          }
        }"#,
    );

    let service = disk.load();

    assert!(!service.snapshot().automatic_download_protection_enabled());
    assert_eq!(
        service.health().load_condition(),
        LoadCondition::SchemaMetadataRecovered
    );
    assert_eq!(
        service.health().field_recoveries().as_slice(),
        &[FieldRecovery::new(
            SettingPath::LastAutomaticUpdateCheckUnixSeconds,
            RecoveryReason::InvalidValue,
        )]
    );
}

#[test]
fn temporary_write_failure_preserves_memory_and_is_reported_in_health() {
    let mut disk = MemoryDisk::default();
    disk.directories.push("settings.json.tmp".to_owned());
    let mut service = disk.load();
    assert_eq!(
        service.health().artifact_warnings().as_slice(),
        &[ArtifactWarning::StaleTemporary]
    );
    assert!(!service.health().is_clean());

    let error = disk
        .update(&mut service, SettingsUpdate::ProtectOnBattery(true))
        .expect_err("temporary file should be unwritable");

    assert!(matches!(
        error,
        SettingsUpdateError::Persistence(SettingsPersistenceFailure::WritePrimary)
    ));
    assert_eq!(service.snapshot(), Settings::default());
    assert_eq!(
        service.health().last_save_failure(),
        Some(SettingsPersistenceFailure::WritePrimary)
    );
}

#[test]
fn wrong_typed_detector_object_reports_each_affected_leaf() {
    let mut disk = MemoryDisk::default();
    disk.write(
        "settings.json",
        br#"{
          "schema_version": 1,
          "automatic_download_protection_enabled": true,
          "protect_on_battery": false,
          "launch_at_login": true,
          "automatic_update_checks_enabled": true,
          "last_automatic_update_check_unix_seconds": null,
          "automatic_download": "fast"
        }"#,
    );

    let service = disk.load();

    assert_eq!(service.snapshot(), Settings::default());
    assert_eq!(
        service.health().field_recoveries().as_slice(),
        &[
            FieldRecovery::new(
                SettingPath::MeaningfulReceiveRateBytesPerSecond,
                RecoveryReason::WrongType,
            ),
            FieldRecovery::new(
                SettingPath::ActivationQualificationMilliseconds,
                RecoveryReason::WrongType,
            ),
            FieldRecovery::new(SettingPath::GraceMilliseconds, RecoveryReason::WrongType),
        ]
    );
}

#[test]
fn saved_documents_have_their_members_in_a_fixed_order() {
    let mut disk = MemoryDisk::default();
    let mut service = disk.load();
    disk.update(
        &mut service,
        SettingsUpdate::LastAutomaticUpdateCheckUnixSeconds(Some(u64::MAX)),
    )
    .unwrap();

    assert_eq!(
        String::from_utf8(disk.files["settings.json"].clone()).unwrap(),
        "{\n  \"schema_version\": 1,\n  \"automatic_download_protection_enabled\": true,\n  \
         \"protect_on_battery\": false,\n  \"launch_at_login\": true,\n  \
         \"automatic_update_checks_enabled\": true,\n  \
         \"last_automatic_update_check_unix_seconds\": 18446744073709551615,\n  \
         \"automatic_download\": {\n    \
         \"meaningful_receive_rate_bytes_per_second\": 1048576,\n    \
         \"activation_qualification_milliseconds\": 5000,\n    \
         \"grace_milliseconds\": 120000\n  }\n}"
    );
}

#[test]
fn documents_are_read_member_by_member() {
    let document = read_document(
        br#"{
          "schema_version": 1.5,
          "automatic_download_protection_enabled": [],
          "protect_on_battery": {},
          "launch_at_login": null,
          "automatic_update_checks_enabled": "yes",
          "last_automatic_update_check_unix_seconds": 7,
          "automatic_download": {"grace_milliseconds": false},
          "last_automatic_update_check_unix_seconds": 8
        }"#,
    )
    .unwrap();

    assert_eq!(
        document,
        SettingsDocument {
            schema_version: JsonField::OtherNumber,
            automatic_download_protection_enabled: JsonField::List,
            protect_on_battery: JsonField::Object,
            launch_at_login: JsonField::Null,
            automatic_update_checks_enabled: JsonField::Text,
            last_automatic_update_check_unix_seconds: JsonField::Unsigned(8),
            automatic_download: JsonField::Object,
            meaningful_receive_rate_bytes_per_second: JsonField::Missing,
            activation_qualification_milliseconds: JsonField::Missing,
            grace_milliseconds: JsonField::Bool(false),
        }
    );
    for text in ["", "{", "[]", "1", "null", "\"settings\"", "{} {}"] {
        assert_eq!(read_document(text.as_bytes()), None, "{text:?}");
    }
}

#[test]
fn what_is_saved_is_read_back() {
    let mut settings = Settings::default();
    for update in [
        SettingsUpdate::AutomaticDownloadProtectionEnabled(false),
        SettingsUpdate::ProtectOnBattery(true),
        SettingsUpdate::LastAutomaticUpdateCheckUnixSeconds(Some(0)),
        SettingsUpdate::AutomaticDownloadTuning {
            meaningful_receive_rate_bytes_per_second: u64::MAX,
            activation_qualification_milliseconds: 1,
            grace_milliseconds: u64::MAX,
        },
    ] {
        settings.apply(update).unwrap();
    }

    let text = write_document(&to_persisted(&settings)).unwrap();

    assert_eq!(
        load_document(read_document(&text)),
        DocumentLoad::Loaded {
            settings,
            recoveries: Vec::new(),
            condition: LoadCondition::CurrentVersion,
        }
    );
    assert_eq!(
        load_backup(read_document(&text)),
        BackupLoad::Clean(settings)
    );
}

#[test]
fn a_backup_counts_only_whole() {
    assert_eq!(
        load_backup(read_document(b"{\"schema_version\": 1}")),
        BackupLoad::Unusable
    );
    assert_eq!(load_backup(read_document(UNVERSIONED)), BackupLoad::Unusable);
    assert_eq!(
        load_backup(read_document(b"{\"schema_version\": 3}")),
        BackupLoad::UnsupportedFutureSchema(3)
    );
    assert_eq!(load_backup(None), BackupLoad::Unusable);
}

#[test]
fn changes_that_are_not_valid_name_the_rate_first() {
    let mut settings = Settings::default();
    let tuning = |rate, qualification| SettingsUpdate::AutomaticDownloadTuning {
        meaningful_receive_rate_bytes_per_second: rate,
        activation_qualification_milliseconds: qualification,
        grace_milliseconds: 1,
    };

    assert_eq!(
        settings.apply(tuning(0, 0)),
        Err(SettingsUpdateError::InvalidAutomaticDownload(
            AutomaticDownloadSettingsError::ZeroMeaningfulReceiveRate
        ))
    );
    assert_eq!(
        settings.apply(tuning(1, 0)),
        Err(SettingsUpdateError::InvalidAutomaticDownload(
            AutomaticDownloadSettingsError::ZeroActivationQualification
        ))
    );
    assert_eq!(settings, Settings::default());
}

#[test]
fn settings_errors_are_worded() {
    assert_eq!(
        SettingsUpdateError::Persistence(SettingsPersistenceFailure::PreserveSource).message(),
        "settings persistence failed: PreserveSource"
    );
    assert_eq!(
        SettingsUpdateError::UnsupportedFutureSchema(12).message(),
        "settings schema version 12 is not supported"
    );
    assert_eq!(
        SettingsUpdateError::InvalidAutomaticDownload(
            AutomaticDownloadSettingsError::ZeroActivationQualification
        )
        .message(),
        "activation qualification duration must be non-zero"
    );
    assert_eq!(
        SettingsUpdateError::InvalidAutomaticDownload(
            AutomaticDownloadSettingsError::ZeroMeaningfulReceiveRate
        )
        .message(),
        "meaningful receive-rate threshold must be non-zero"
    );
}

#[test]
fn every_failing_step_ends_a_change_as_itself() {
    for (stage, failure) in [
        (
            UpdateStage::CreateDirectory,
            Some(SettingsPersistenceFailure::CreateDirectory),
        ),
        (
            UpdateStage::WritePrimary,
            Some(SettingsPersistenceFailure::WritePrimary),
        ),
        (
            UpdateStage::PreserveSource,
            Some(SettingsPersistenceFailure::PreserveSource),
        ),
        (UpdateStage::PruneQuarantines, None),
        (
            UpdateStage::WriteBackup,
            Some(SettingsPersistenceFailure::WriteBackup),
        ),
        (
            UpdateStage::ReplaceBackup,
            Some(SettingsPersistenceFailure::ReplaceBackup),
        ),
        (
            UpdateStage::ReplacePrimary,
            Some(SettingsPersistenceFailure::ReplacePrimary),
        ),
    ] {
        let mut disk = MemoryDisk::default();
        disk.write("settings.json", UNVERSIONED);
        let mut service = disk.load();
        let before = service.snapshot();
        let mut step = service.update(SettingsUpdate::LaunchAtLogin(false), &mut disk.log);
        let result = loop {
            step = match step {
                UpdateStep::Finished(result) => break result,
                UpdateStep::Perform(pending) => {
                    let succeeded = pending.stage != stage;
                    service.advance(pending, succeeded, &mut disk.log)
                }
            };
        };
        match failure {
            Some(failure) => {
                assert_eq!(result, Err(SettingsUpdateError::Persistence(failure)));
                assert_eq!(service.snapshot(), before);
                assert_eq!(service.health().last_save_failure(), Some(failure));
            }
            None => {
                assert!(!result.unwrap().launch_at_login());
                assert_eq!(
                    service.health().artifact_warnings().as_slice(),
                    &[ArtifactWarning::QuarantineCleanup]
                );
            }
        }
    }
}

#[test]
fn a_document_that_cannot_be_written_ends_a_change() {
    let mut log = Vec::new();
    let loaded = absent_or_backup(Vec::new(), FileContent::Missing);
    let mut service = SettingsService::load(loaded, false, &mut log);
    let update = SettingsUpdate::LaunchAtLogin(false);
    let proposed = service.propose(update).unwrap();
    assert!(!proposed.launch_at_login());

    let failed = service.update_serialized(update, proposed, None, &mut log);

    assert_eq!(
        failed,
        UpdateStep::Finished(Err(SettingsUpdateError::Persistence(
            SettingsPersistenceFailure::Serialize
        )))
    );
    assert_eq!(service.snapshot(), Settings::default());
    let begun = service.update_serialized(update, proposed, Some(vec![1]), &mut log);
    let pending = match begun {
        UpdateStep::Perform(pending) => pending,
        other => panic!("{other:?}"),
    };
    assert_eq!(pending.stage, UpdateStage::CreateDirectory);
    assert_eq!(
        service.backup_serialized(pending, None, &mut log),
        UpdateStep::Finished(Err(SettingsUpdateError::Persistence(
            SettingsPersistenceFailure::Serialize
        )))
    );
}

#[test]
fn unusable_files_that_stay_are_warned_of() {
    let loaded = malformed_or_backup(
        vec![ArtifactWarning::StaleTemporary],
        false,
        false,
        FileContent::Unreadable,
    );

    assert_eq!(loaded.settings, Settings::default());
    assert_eq!(
        loaded.health.artifact_warnings().as_slice(),
        &[
            ArtifactWarning::StaleTemporary,
            ArtifactWarning::Quarantine,
            ArtifactWarning::QuarantineCleanup
        ]
    );
    assert_eq!(
        loaded.health.load_condition(),
        LoadCondition::MalformedDefaulted
    );
}

#[test]
fn copies_of_unusable_files_are_named_by_time_and_number() {
    assert_eq!(
        next_quarantine_name(1_700_000_000_123, 7),
        format!("settings.corrupt.{:020}.{:020}.json", 1_700_000_000_123u64, 7)
    );
    assert_eq!(
        next_quarantine_name(0, u64::MAX),
        "settings.corrupt.00000000000000000000.18446744073709551615.json"
    );
    assert!(next_quarantine_name(9, 99) < next_quarantine_name(10, 0));
    assert!(next_quarantine_name(10, 9) < next_quarantine_name(10, 10));
}

#[test]
fn the_newest_copies_are_kept_wherever_they_are_listed() {
    let names = [
        next_quarantine_name(30, 0),
        "settings.json".to_owned(),
        next_quarantine_name(10, 0),
        "settings.corrupt".to_owned(),
        next_quarantine_name(20, 1),
        next_quarantine_name(20, 0),
    ];

    assert_eq!(prune_quarantines(&names.to_vec()), [2, 5]);
    assert!(prune_quarantines(&names[..3].to_vec()).is_empty());
    assert!(prune_quarantines(&Vec::new()).is_empty());
    assert!(comes_before("a", "b") && comes_before("a", "aa") && !comes_before("b", "b"));
}
