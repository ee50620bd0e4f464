//! Loading the settings, and saving a change of them step by step.
//!
//! The steps on files are the caller's: an operation answers which step comes
//! next, and is told whether it succeeded.

use super::document::{
    document_in, load_backup, load_document, persisted, read_document, saved_document,
    saved_settings_are_read_back, saved_text, to_persisted, write_document, BackupLoad, DocumentLoad,
    JsonField, PersistedSettingsV1, SettingsDocument, SCHEMA_VERSION,
};
use super::{
    load_condition_name, load_word, persistence_condition_name, persistence_word,
    settings_update_field, update_word, whole_milliseconds, ArtifactWarning, FieldRecovery, LoadCondition,
    PersistenceCondition, Settings, SettingsModel, SettingsPersistenceFailure, SettingsUpdate,
    SettingsUpdateError,
};
use crate::local_log::SafeEvent;
use vstd::prelude::*;

verus! {

/// How the settings were loaded and whether they can be saved.
#[derive(Clone, Debug, PartialEq, Eq)]
pub struct SettingsHealth {
    pub load_condition: LoadCondition,
    pub field_recoveries: Vec<FieldRecovery>,
    pub persistence: PersistenceCondition,
    pub artifact_warnings: Vec<ArtifactWarning>,
    pub last_save_failure: Option<SettingsPersistenceFailure>,
}

/// The health as a mathematical value.
pub ghost struct HealthModel {
    pub condition: LoadCondition,
    pub recoveries: Seq<FieldRecovery>,
    pub persistence: PersistenceCondition,
    pub warnings: Seq<ArtifactWarning>,
    pub save_failure: Option<SettingsPersistenceFailure>,
}

impl View for SettingsHealth {
    type V = HealthModel;

    open spec fn view(&self) -> HealthModel {
        HealthModel {
            condition: self.load_condition,
            recoveries: self.field_recoveries@,
            persistence: self.persistence,
            warnings: self.artifact_warnings@,
            save_failure: self.last_save_failure,
        }
    }
}

fn copy_recoveries(list: &Vec<FieldRecovery>) -> (r: Vec<FieldRecovery>)
    ensures
        r@ == list@,
{
    let mut r: Vec<FieldRecovery> = Vec::new();
    let mut i: usize = 0;
    while i < list.len()
        invariant
            i <= list.len(),
            r@ == list@.take(i as int),
        decreases list.len() - i,
    {
        r.push(list[i]);
        i = i + 1;
        assert(r@ =~= list@.take(i as int));
    }
    assert(list@.take(i as int) =~= list@);
    r
}

fn copy_warnings(list: &Vec<ArtifactWarning>) -> (r: Vec<ArtifactWarning>)
    ensures
        r@ == list@,
{
    let mut r: Vec<ArtifactWarning> = Vec::new();
    let mut i: usize = 0;
    while i < list.len()
        invariant
            i <= list.len(),
            r@ == list@.take(i as int),
        decreases list.len() - i,
    {
        r.push(list[i]);
        i = i + 1;
        assert(r@ =~= list@.take(i as int));
    }
    assert(list@.take(i as int) =~= list@);
    r
}

impl SettingsHealth {
    /// How the settings came to be what they are.
    pub fn load_condition(&self) -> (r: LoadCondition)
        ensures
            r == self@.condition,
    {
        self.load_condition
    }

    /// The settings that fell back to their defaults.
    pub fn field_recoveries(&self) -> (r: &Vec<FieldRecovery>)
        ensures
            r@ == self@.recoveries,
    {
        &self.field_recoveries
    }

    /// Whether changes can be saved.
    pub fn persistence(&self) -> (r: PersistenceCondition)
        ensures
            r == self@.persistence,
    {
        self.persistence
    }

    /// The files that could not be put in order.
    pub fn artifact_warnings(&self) -> (r: &Vec<ArtifactWarning>)
        ensures
            r@ == self@.warnings,
    {
        &self.artifact_warnings
    }

    /// The step at which the last change could not be saved.
    pub fn last_save_failure(&self) -> (r: Option<SettingsPersistenceFailure>)
        ensures
            r == self@.save_failure,
    {
        self.last_save_failure
    }

    /// Whether there is nothing to tell the user.
    pub fn is_clean(&self) -> (r: bool)
        ensures
            r == self@.clean(),
    {
        let expected = match self.load_condition {
            LoadCondition::FirstRun => true,
            LoadCondition::CurrentVersion => true,
            _ => false,
        };
        expected && self.artifact_warnings.len() == 0 && self.last_save_failure.is_none()
    }

    fn copy(&self) -> (r: SettingsHealth)
        ensures
            r@ == self@,
    {
        SettingsHealth {
            load_condition: self.load_condition,
            field_recoveries: copy_recoveries(&self.field_recoveries),
            persistence: self.persistence,
            artifact_warnings: copy_warnings(&self.artifact_warnings),
            last_save_failure: self.last_save_failure,
        }
    }
}

impl HealthModel {
    /// Whether there is nothing to tell the user.
    pub open spec fn clean(self) -> bool {
        &&& self.condition == LoadCondition::FirstRun || self.condition
            == LoadCondition::CurrentVersion
        &&& self.warnings.len() == 0
        &&& self.save_failure is None
    }

    /// The health right after loading, where changes can be saved.
    pub open spec fn loaded(
        condition: LoadCondition,
        recoveries: Seq<FieldRecovery>,
        warnings: Seq<ArtifactWarning>,
    ) -> HealthModel {
        HealthModel {
            condition,
            recoveries,
            persistence: PersistenceCondition::Writable,
            warnings,
            save_failure: None,
        }
    }

    /// The health where the file is of a later version.
    pub open spec fn future(found: u64, warnings: Seq<ArtifactWarning>) -> HealthModel {
        HealthModel {
            condition: LoadCondition::UnsupportedFutureSchema { found },
            recoveries: Seq::empty(),
            persistence: PersistenceCondition::BlockedByFutureSchema,
            warnings,
            save_failure: None,
        }
    }

    /// The health where there is no file to be had.
    pub open spec fn unavailable() -> HealthModel {
        HealthModel {
            condition: LoadCondition::PersistenceUnavailable,
            recoveries: Seq::empty(),
            persistence: PersistenceCondition::Unavailable,
            warnings: Seq::empty(),
            save_failure: None,
        }
    }
}

/// Loaded settings.
#[derive(Clone, Debug, PartialEq, Eq)]
pub struct LoadedSettings {
    pub settings: Settings,
    pub health: SettingsHealth,
}

fn loaded(
    settings: Settings,
    load_condition: LoadCondition,
    field_recoveries: Vec<FieldRecovery>,
    artifact_warnings: Vec<ArtifactWarning>,
) -> (r: LoadedSettings)
    ensures
        r.settings == settings,
        r.health@ == HealthModel::loaded(load_condition, field_recoveries@, artifact_warnings@),
{
    LoadedSettings {
        settings,
        health: SettingsHealth {
            load_condition,
            field_recoveries,
            persistence: PersistenceCondition::Writable,
            artifact_warnings,
            last_save_failure: None,
        },
    }
}

/// The defaults, with saving blocked, because a file is of a later version.
pub fn unsupported_future_load(found: u64, artifact_warnings: Vec<ArtifactWarning>) -> (r:
    LoadedSettings)
    ensures
        r.settings@ == SettingsModel::defaults(),
        r.health@ == HealthModel::future(found, artifact_warnings@),
{
    let field_recoveries: Vec<FieldRecovery> = Vec::new();
    assert(field_recoveries@ =~= Seq::empty());
    LoadedSettings {
        settings: Settings::default(),
        health: SettingsHealth {
            load_condition: LoadCondition::UnsupportedFutureSchema { found },
            field_recoveries,
            persistence: PersistenceCondition::BlockedByFutureSchema,
            artifact_warnings,
            last_save_failure: None,
        },
    }
}

/// The defaults, without a file to save them in.
pub fn unavailable_load() -> (r: LoadedSettings)
    ensures
        r.settings@ == SettingsModel::defaults(),
        r.health@ == HealthModel::unavailable(),
{
    let field_recoveries: Vec<FieldRecovery> = Vec::new();
    let artifact_warnings: Vec<ArtifactWarning> = Vec::new();
    assert(field_recoveries@ =~= Seq::empty());
    assert(artifact_warnings@ =~= Seq::empty());
    LoadedSettings {
        settings: Settings::default(),
        health: SettingsHealth {
            load_condition: LoadCondition::PersistenceUnavailable,
            field_recoveries,
            persistence: PersistenceCondition::Unavailable,
            artifact_warnings,
            last_save_failure: None,
        },
    }
}

/// The warnings after the removal of the two temporary files that a crash may
/// have left: one for each that is there and cannot be removed.
pub fn cleanup_stale_temporary_files(primary_failed: bool, backup_failed: bool) -> (r: Vec<
    ArtifactWarning,
>)
    ensures
        r@ == stale_warnings(primary_failed, backup_failed),
{
    let mut warnings: Vec<ArtifactWarning> = Vec::new();
    if primary_failed {
        warnings.push(ArtifactWarning::StaleTemporary);
    }
    if backup_failed {
        warnings.push(ArtifactWarning::StaleTemporary);
    }
    assert(warnings@ =~= stale_warnings(primary_failed, backup_failed));
    warnings
}

/// The warnings about temporary files that cannot be removed.
pub open spec fn stale_warnings(primary_failed: bool, backup_failed: bool) -> Seq<
    ArtifactWarning,
> {
    let first = if primary_failed {
        seq![ArtifactWarning::StaleTemporary]
    } else {
        Seq::empty()
    };
    if backup_failed {
        first.push(ArtifactWarning::StaleTemporary)
    } else {
        first
    }
}

/// What reading a file gave.
#[derive(Clone, Debug, PartialEq, Eq)]
pub enum FileContent {
    /// There is no such file.
    Missing,
    /// There is, but it cannot be read.
    Unreadable,
    /// What is in it.
    Bytes(Vec<u8>),
}

/// How far loading has come.
#[derive(Clone, Debug, PartialEq, Eq)]
pub enum LoadStep {
    /// It is over.
    Finished(LoadedSettings),
    /// The settings file is unusable: it is to be moved away, the copies that
    /// are no longer kept removed, and the backup read.
    Malformed(Vec<ArtifactWarning>),
    /// There is no settings file: the backup is to be read.
    Absent(Vec<ArtifactWarning>),
}

/// Whether a step is what follows what the settings file says.
pub open spec fn primary_settles(
    step: LoadStep,
    document: Option<SettingsDocument>,
    warnings: Seq<ArtifactWarning>,
) -> bool {
    match document {
        None => step is Malformed && step->Malformed_0@ == warnings,
        Some(document) => {
            &&& step is Finished
            &&& match document.schema_version {
                JsonField::Unsigned(version) if version > SCHEMA_VERSION => {
                    &&& step->Finished_0.settings@ == SettingsModel::defaults()
                    &&& step->Finished_0.health@ == HealthModel::future(version, warnings)
                },
                _ => {
                    &&& step->Finished_0.settings@ == document.settings()
                    &&& step->Finished_0.health@ == HealthModel::loaded(
                        document.condition(),
                        document.recoveries(),
                        warnings,
                    )
                },
            }
        },
    }
}

/// What follows what the settings file says.
pub fn settle_primary(document: Option<SettingsDocument>, warnings: Vec<ArtifactWarning>) -> (r:
    LoadStep)
    ensures
        primary_settles(r, document, warnings@),
{
    match load_document(document) {
        DocumentLoad::Future(found) => LoadStep::Finished(unsupported_future_load(found, warnings)),
        DocumentLoad::Loaded { settings, recoveries, condition } => LoadStep::Finished(
            loaded(settings, condition, recoveries, warnings),
        ),
        DocumentLoad::Malformed => LoadStep::Malformed(warnings),
    }
}

/// Begins loading, from what reading the settings file gave. The settings are
/// kept nowhere but in a directory with an absolute path.
pub fn load_settings(
    absolute: bool,
    warnings: Vec<ArtifactWarning>,
    primary: FileContent,
) -> (r: LoadStep)
    ensures
        !absolute || primary is Unreadable ==> {
            &&& r is Finished
            &&& r->Finished_0.settings@ == SettingsModel::defaults()
            &&& r->Finished_0.health@ == HealthModel::unavailable()
        },
        absolute && primary is Missing ==> r is Absent && r->Absent_0@ == warnings@,
        absolute && primary is Bytes ==> primary_settles(
            r,
            document_in(primary->Bytes_0@),
            warnings@,
        ),
{
    if !absolute {
        return LoadStep::Finished(unavailable_load());
    }
    match primary {
        FileContent::Missing => LoadStep::Absent(warnings),
        FileContent::Unreadable => LoadStep::Finished(unavailable_load()),
        FileContent::Bytes(bytes) => settle_primary(read_document(bytes.as_slice()), warnings),
    }
}

/// Whether settings are what follows what the backup says, where without a
/// usable backup the condition is `otherwise`.
pub open spec fn backup_settles(
    result: LoadedSettings,
    document: Option<SettingsDocument>,
    warnings: Seq<ArtifactWarning>,
    otherwise: LoadCondition,
) -> bool {
    let future = document is Some && document->0.schema_version is Unsigned
        && document->0.schema_version->Unsigned_0 > SCHEMA_VERSION;
    if future {
        &&& result.settings@ == SettingsModel::defaults()
        &&& result.health@ == HealthModel::future(
            document->0.schema_version->Unsigned_0,
            warnings,
        )
    } else if document is Some && document->0.condition() == LoadCondition::CurrentVersion {
        &&& result.settings@ == document->0.settings()
        &&& result.health@ == HealthModel::loaded(
            LoadCondition::RecoveredFromBackup,
            Seq::empty(),
            warnings,
        )
    } else {
        &&& result.settings@ == SettingsModel::defaults()
        &&& result.health@ == HealthModel::loaded(otherwise, Seq::empty(), warnings)
    }
}

/// What follows what the backup says.
pub fn settle_backup(
    document: Option<SettingsDocument>,
    warnings: Vec<ArtifactWarning>,
    otherwise: LoadCondition,
) -> (r: LoadedSettings)
    ensures
        backup_settles(r, document, warnings@, otherwise),
{
    let recoveries: Vec<FieldRecovery> = Vec::new();
    assert(recoveries@ =~= Seq::empty());
    match load_backup(document) {
        BackupLoad::Clean(settings) => loaded(
            settings,
            LoadCondition::RecoveredFromBackup,
            recoveries,
            warnings,
        ),
        BackupLoad::UnsupportedFutureSchema(found) => unsupported_future_load(found, warnings),
        BackupLoad::Unusable => loaded(Settings::default(), otherwise, recoveries, warnings),
    }
}

/// The document that reading a file gave.
pub open spec fn content_document(content: FileContent) -> Option<SettingsDocument> {
    match content {
        FileContent::Bytes(bytes) => document_in(bytes@),
        _ => None,
    }
}

fn content_read(content: FileContent) -> (r: Option<SettingsDocument>)
    ensures
        r == content_document(content),
{
    match content {
        FileContent::Bytes(bytes) => read_document(bytes.as_slice()),
        _ => None,
    }
}

/// Ends loading where the settings file is unusable, from whether it could be
/// moved away, whether the copies that are no longer kept could be removed,
/// and what reading the backup gave.
pub fn malformed_or_backup(
    warnings: Vec<ArtifactWarning>,
    quarantined: bool,
    pruned: bool,
    backup: FileContent,
) -> (r: LoadedSettings)
    ensures
        backup_settles(
            r,
            content_document(backup),
            warnings@ + quarantine_warnings(quarantined, pruned),
            LoadCondition::MalformedDefaulted,
        ),
{
    let ghost before = warnings@;
    let mut warnings = warnings;
    if !quarantined {
        warnings.push(ArtifactWarning::Quarantine);
    }
    if !pruned {
        warnings.push(ArtifactWarning::QuarantineCleanup);
    }
    assert(warnings@ =~= before + quarantine_warnings(quarantined, pruned));
    settle_backup(content_read(backup), warnings, LoadCondition::MalformedDefaulted)
}

/// The warnings about copies of unusable files.
pub open spec fn quarantine_warnings(quarantined: bool, pruned: bool) -> Seq<ArtifactWarning> {
    let first = if quarantined {
        Seq::empty()
    } else {
        seq![ArtifactWarning::Quarantine]
    };
    if pruned {
        first
    } else {
        first.push(ArtifactWarning::QuarantineCleanup)
    }
}

/// Ends loading where there is no settings file, from what reading the backup
/// gave.
pub fn absent_or_backup(warnings: Vec<ArtifactWarning>, backup: FileContent) -> (r: LoadedSettings)
    ensures
        backup_settles(r, content_document(backup), warnings@, LoadCondition::FirstRun),
{
    settle_backup(content_read(backup), warnings, LoadCondition::FirstRun)
}

/// A step of saving a change, in the order of the steps.
#[derive(Clone, Copy, Debug, PartialEq, Eq, Structural)]
pub enum UpdateStage {
    /// Make sure that the directory exists.
    CreateDirectory,
    /// Write the new settings to the temporary file.
    WritePrimary,
    /// Copy the unusable settings file away.
    PreserveSource,
    /// Remove the copies that are no longer kept.
    PruneQuarantines,
    /// Find out whether there is a settings file.
    TestPrimary,
    /// Write the old settings to the temporary file of the backup.
    WriteBackup,
    /// Put the backup in place.
    ReplaceBackup,
    /// Put the new settings file in place.
    ReplacePrimary,
}

/// A change that is being saved: the step that comes next, the text that it
/// writes, and what the settings will be.
#[derive(Clone, Debug, PartialEq, Eq)]
pub struct PendingUpdate {
    pub stage: UpdateStage,
    pub bytes: Vec<u8>,
    pub proposed: Settings,
    pub update: SettingsUpdate,
}

/// How far saving a change has come.
#[derive(Debug, PartialEq, Eq)]
pub enum UpdateStep {
    /// It is over.
    Finished(Result<Settings, SettingsUpdateError>),
    /// A step is to be taken, and its outcome reported.
    Perform(PendingUpdate),
}

/// The failure of the update that the failure of a step means, where it means
/// one.
pub open spec fn stage_failure(stage: UpdateStage) -> Option<SettingsPersistenceFailure> {
    match stage {
        UpdateStage::CreateDirectory => Some(SettingsPersistenceFailure::CreateDirectory),
        UpdateStage::WritePrimary => Some(SettingsPersistenceFailure::WritePrimary),
        UpdateStage::PreserveSource => Some(SettingsPersistenceFailure::PreserveSource),
        UpdateStage::PruneQuarantines => None,
        UpdateStage::TestPrimary => None,
        UpdateStage::WriteBackup => Some(SettingsPersistenceFailure::WriteBackup),
        UpdateStage::ReplaceBackup => Some(SettingsPersistenceFailure::ReplaceBackup),
        UpdateStage::ReplacePrimary => Some(SettingsPersistenceFailure::ReplacePrimary),
    }
}

/// The step after one that did not end the update. There is no backup of a
/// settings file that does not exist.
pub open spec fn next_stage(stage: UpdateStage, succeeded: bool, preserve: bool) -> Option<
    UpdateStage,
> {
    match stage {
        UpdateStage::CreateDirectory => Some(UpdateStage::WritePrimary),
        UpdateStage::WritePrimary => if preserve {
            Some(UpdateStage::PreserveSource)
        } else {
            Some(UpdateStage::TestPrimary)
        },
        UpdateStage::PreserveSource => Some(UpdateStage::PruneQuarantines),
        UpdateStage::PruneQuarantines => Some(UpdateStage::TestPrimary),
        UpdateStage::TestPrimary => if succeeded {
            Some(UpdateStage::WriteBackup)
        } else {
            Some(UpdateStage::ReplacePrimary)
        },
        UpdateStage::WriteBackup => Some(UpdateStage::ReplaceBackup),
        UpdateStage::ReplaceBackup => Some(UpdateStage::ReplacePrimary),
        UpdateStage::ReplacePrimary => None,
    }
}

/// The settings and how they are kept, as a mathematical value.
pub ghost struct ServiceModel {
    pub settings: SettingsModel,
    pub health: HealthModel,
    pub preserve: bool,
}

impl ServiceModel {
    /// The service after a failure to save.
    pub open spec fn failed(self, failure: SettingsPersistenceFailure) -> ServiceModel {
        ServiceModel {
            health: HealthModel { save_failure: Some(failure), ..self.health },
            ..self
        }
    }

    /// The service after settings were saved.
    pub open spec fn saved(self, settings: SettingsModel) -> ServiceModel {
        ServiceModel {
            settings,
            health: HealthModel { save_failure: None, ..self.health },
            ..self
        }
    }

    /// The service after a step that did not end the update. An unusable file
    /// is copied away once. That old copies stay is worth a warning and no
    /// more.
    pub open spec fn stepped(self, stage: UpdateStage, succeeded: bool) -> ServiceModel {
        match stage {
            UpdateStage::PreserveSource => ServiceModel { preserve: false, ..self },
            UpdateStage::PruneQuarantines => if succeeded {
                self
            } else {
                ServiceModel {
                    health: HealthModel {
                        warnings: self.health.warnings.push(ArtifactWarning::QuarantineCleanup),
                        ..self.health
                    },
                    ..self
                }
            },
            _ => self,
        }
    }

    /// Why a change is refused before anything is tried, if it is.
    pub open spec fn refusal(self, update: SettingsUpdate) -> Option<SettingsUpdateError> {
        match self.health.condition {
            LoadCondition::UnsupportedFutureSchema { found } => Some(
                SettingsUpdateError::UnsupportedFutureSchema(found),
            ),
            _ => if self.health.persistence == PersistenceCondition::Unavailable {
                Some(SettingsUpdateError::Persistence(SettingsPersistenceFailure::Unavailable))
            } else {
                match self.settings.with(update) {
                    Ok(_) => None,
                    Err(error) => Some(SettingsUpdateError::InvalidAutomaticDownload(error)),
                }
            },
        }
    }
}

/// The settings, and how they are kept.
#[derive(Debug)]
pub struct SettingsService {
    snapshot: Settings,
    health: SettingsHealth,
    preservation_required: bool,
}

impl View for SettingsService {
    type V = ServiceModel;

    closed spec fn view(&self) -> ServiceModel {
        ServiceModel {
            settings: self.snapshot@,
            health: self.health@,
            preserve: self.preservation_required,
        }
    }
}

/// What is logged of a change that was made.
pub open spec fn changed(update: SettingsUpdate) -> SafeEvent {
    SafeEvent::SettingsChanged { field: update_word(update) }
}

/// What is logged of a change that was not made.
pub open spec fn write_failed(update: SettingsUpdate) -> SafeEvent {
    SafeEvent::SettingsWriteFailed { field: update_word(update) }
}

/// Whether a file that was unusable is still there, and has to be copied away
/// before it is replaced.
pub open spec fn must_preserve(condition: LoadCondition, primary_exists: bool) -> bool {
    primary_exists && (condition == LoadCondition::SchemaMetadataRecovered || condition
        == LoadCondition::MalformedDefaulted || condition == LoadCondition::RecoveredFromBackup)
}

/// What is logged of loading.
pub open spec fn load_log(health: HealthModel) -> SafeEvent {
    SafeEvent::SettingsLoaded {
        condition: load_word(health.condition),
        persistence: persistence_word(health.persistence),
        recoveries: health.recoveries.len() as usize,
    }
}

impl SettingsService {
    /// The service on loaded settings. `primary_exists` says whether there is
    /// a settings file after loading.
    pub fn load(loaded: LoadedSettings, primary_exists: bool, log: &mut Vec<SafeEvent>) -> (r:
        SettingsService)
        ensures
            r@ == (ServiceModel {
                settings: loaded.settings@,
                health: loaded.health@,
                preserve: must_preserve(loaded.health@.condition, primary_exists),
            }),
            final(log)@ == old(log)@.push(load_log(loaded.health@)),
    {
        let salvaged = match loaded.health.load_condition {
            LoadCondition::SchemaMetadataRecovered => true,
            LoadCondition::MalformedDefaulted => true,
            LoadCondition::RecoveredFromBackup => true,
            _ => false,
        };
        let service = SettingsService {
            snapshot: loaded.settings,
            health: loaded.health,
            preservation_required: primary_exists && salvaged,
        };
        service.record_loaded(log);
        service
    }

    /// The service without a file.
    pub fn unavailable(log: &mut Vec<SafeEvent>) -> (r: SettingsService)
        ensures
            r@ == (ServiceModel {
                settings: SettingsModel::defaults(),
                health: HealthModel::unavailable(),
                preserve: false,
            }),
            final(log)@ == old(log)@.push(load_log(HealthModel::unavailable())),
    {
        Self::load(unavailable_load(), false, log)
    }

    /// The settings.
    pub fn snapshot(&self) -> (r: Settings)
        ensures
            r@ == self@.settings,
    {
        self.snapshot
    }

    /// How the settings were loaded and whether they can be saved.
    pub fn health(&self) -> (r: SettingsHealth)
        ensures
            r@ == self@.health,
    {
        self.health.copy()
    }

    fn record_loaded(&self, log: &mut Vec<SafeEvent>)
        ensures
            final(log)@ == old(log)@.push(load_log(self@.health)),
    {
        log.push(
            SafeEvent::SettingsLoaded {
                condition: load_condition_name(self.health.load_condition),
                persistence: persistence_condition_name(self.health.persistence),
                recoveries: self.health.field_recoveries.len(),
            },
        );
    }

    /// What a change would make of the settings, or why it is refused before
    /// anything is tried: a file of a later version is never written over,
    /// and without a file nothing is changed.
    pub fn propose(&self, update: SettingsUpdate) -> (r: Result<Settings, SettingsUpdateError>)
        ensures
            match self@.refusal(update) {
                Some(error) => r == Err::<Settings, SettingsUpdateError>(error),
                None => r is Ok && self@.settings.with(update) == Ok::<
                    SettingsModel,
                    crate::automatic_download::AutomaticDownloadSettingsError,
                >(r->Ok_0@),
            },
    {
        match self.health.load_condition {
            LoadCondition::UnsupportedFutureSchema { found } => {
                return Err(SettingsUpdateError::UnsupportedFutureSchema(found));
            },
            _ => {},
        }
        if self.health.persistence == PersistenceCondition::Unavailable {
            return Err(
                SettingsUpdateError::Persistence(SettingsPersistenceFailure::Unavailable),
            );
        }
        let mut proposed = self.snapshot;
        match proposed.apply(update) {
            Ok(()) => Ok(proposed),
            Err(error) => Err(error),
        }
    }

    fn record_persistence_failure(
        &mut self,
        failure: SettingsPersistenceFailure,
        update: SettingsUpdate,
        log: &mut Vec<SafeEvent>,
    ) -> (r: UpdateStep)
        ensures
            final(self)@ == old(self)@.failed(failure),
            final(log)@ == old(log)@.push(write_failed(update)),
            r == UpdateStep::Finished(Err(SettingsUpdateError::Persistence(failure))),
    {
        self.health.last_save_failure = Some(failure);
        log.push(SafeEvent::SettingsWriteFailed { field: settings_update_field(&update) });
        UpdateStep::Finished(Err(SettingsUpdateError::Persistence(failure)))
    }

    /// Begins to save a change whose text is `serialized`, or ends it where
    /// there is no text.
    pub fn update_serialized(
        &mut self,
        update: SettingsUpdate,
        proposed: Settings,
        serialized: Option<Vec<u8>>,
        log: &mut Vec<SafeEvent>,
    ) -> (r: UpdateStep)
        ensures
            match serialized {
                None => {
                    &&& final(self)@ == old(self)@.failed(SettingsPersistenceFailure::Serialize)
                    &&& final(log)@ == old(log)@.push(write_failed(update))
                    &&& r == UpdateStep::Finished(
                        Err(SettingsUpdateError::Persistence(SettingsPersistenceFailure::Serialize)),
                    )
                },
                Some(bytes) => {
                    &&& final(self)@ == old(self)@
                    &&& final(log)@ == old(log)@
                    &&& r == UpdateStep::Perform(
                        PendingUpdate {
                            stage: UpdateStage::CreateDirectory,
                            bytes,
                            proposed,
                            update,
                        },
                    )
                },
            },
    {
        match serialized {
            None => self.record_persistence_failure(
                SettingsPersistenceFailure::Serialize,
                update,
                log,
            ),
            Some(bytes) => UpdateStep::Perform(
                PendingUpdate { stage: UpdateStage::CreateDirectory, bytes, proposed, update },
            ),
        }
    }

    /// Begins to make a change. One that is refused changes nothing; for one
    /// that is not, the text of the new settings is made, and saving begins.
    /// The settings themselves stay as they are until they are saved.
    pub fn update(&mut self, update: SettingsUpdate, log: &mut Vec<SafeEvent>) -> (r: UpdateStep)
        ensures
            match old(self)@.refusal(update) {
                Some(error) => {
                    &&& final(self)@ == old(self)@
                    &&& final(log)@ == old(log)@.push(write_failed(update))
                    &&& r == UpdateStep::Finished(Err(error))
                },
                None => begins(*old(self), *final(self), old(log)@, final(log)@, update, r),
            },
    {
        match self.propose(update) {
            Err(error) => {
                log.push(SafeEvent::SettingsWriteFailed { field: settings_update_field(&update) });
                UpdateStep::Finished(Err(error))
            },
            Ok(proposed) => {
                let serialized = match write_document(&to_persisted(&proposed)) {
                    Ok(bytes) => Some(bytes),
                    Err(_) => None,
                };
                self.update_serialized(update, proposed, serialized, log)
            },
        }
    }

    /// Goes on after there was found to be a settings file: the text of the
    /// backup is `serialized`, or saving ends where there is no text.
    pub fn backup_serialized(
        &mut self,
        pending: PendingUpdate,
        serialized: Option<Vec<u8>>,
        log: &mut Vec<SafeEvent>,
    ) -> (r: UpdateStep)
        ensures
            match serialized {
                None => {
                    &&& final(self)@ == old(self)@.failed(SettingsPersistenceFailure::Serialize)
                    &&& final(log)@ == old(log)@.push(write_failed(pending.update))
                    &&& r == UpdateStep::Finished(
                        Err(SettingsUpdateError::Persistence(SettingsPersistenceFailure::Serialize)),
                    )
                },
                Some(bytes) => {
                    &&& final(self)@ == old(self)@
                    &&& final(log)@ == old(log)@
                    &&& r == UpdateStep::Perform(
                        PendingUpdate { stage: UpdateStage::WriteBackup, bytes, ..pending },
                    )
                },
            },
    {
        match serialized {
            None => self.record_persistence_failure(
                SettingsPersistenceFailure::Serialize,
                pending.update,
                log,
            ),
            Some(bytes) => UpdateStep::Perform(
                PendingUpdate {
                    stage: UpdateStage::WriteBackup,
                    bytes,
                    proposed: pending.proposed,
                    update: pending.update,
                },
            ),
        }
    }

    /// Goes on after a step. For `TestPrimary`, `succeeded` says whether there
    /// is a settings file. A step that fails ends the change, except that old
    /// copies which cannot be removed are only worth a warning; the settings
    /// are changed after the last step and not before.
    pub fn advance(
        &mut self,
        pending: PendingUpdate,
        succeeded: bool,
        log: &mut Vec<SafeEvent>,
    ) -> (r: UpdateStep)
        ensures
            advances(*old(self), *final(self), old(log)@, final(log)@, pending, succeeded, r),
    {
        if !succeeded {
            match pending.stage {
                UpdateStage::CreateDirectory => {
                    return self.record_persistence_failure(
                        SettingsPersistenceFailure::CreateDirectory,
                        pending.update,
                        log,
                    );
                },
                UpdateStage::WritePrimary => {
                    return self.record_persistence_failure(
                        SettingsPersistenceFailure::WritePrimary,
                        pending.update,
                        log,
                    );
                },
                UpdateStage::PreserveSource => {
                    return self.record_persistence_failure(
                        SettingsPersistenceFailure::PreserveSource,
                        pending.update,
                        log,
                    );
                },
                UpdateStage::WriteBackup => {
                    return self.record_persistence_failure(
                        SettingsPersistenceFailure::WriteBackup,
                        pending.update,
                        log,
                    );
                },
                UpdateStage::ReplaceBackup => {
                    return self.record_persistence_failure(
                        SettingsPersistenceFailure::ReplaceBackup,
                        pending.update,
                        log,
                    );
                },
                UpdateStage::ReplacePrimary => {
                    return self.record_persistence_failure(
                        SettingsPersistenceFailure::ReplacePrimary,
                        pending.update,
                        log,
                    );
                },
                UpdateStage::PruneQuarantines => {},
                UpdateStage::TestPrimary => {},
            }
        }
        let stage = match pending.stage {
            UpdateStage::CreateDirectory => UpdateStage::WritePrimary,
            UpdateStage::WritePrimary => if self.preservation_required {
                UpdateStage::PreserveSource
            } else {
                UpdateStage::TestPrimary
            },
            UpdateStage::PreserveSource => {
                self.preservation_required = false;
                UpdateStage::PruneQuarantines
            },
            UpdateStage::PruneQuarantines => {
                if !succeeded {
                    self.health.artifact_warnings.push(ArtifactWarning::QuarantineCleanup);
                }
                UpdateStage::TestPrimary
            },
            UpdateStage::TestPrimary => {
                if succeeded {
                    let serialized = match write_document(&to_persisted(&self.snapshot)) {
                        Ok(bytes) => Some(bytes),
                        Err(_) => None,
                    };
                    return self.backup_serialized(pending, serialized, log);
                }
                UpdateStage::ReplacePrimary
            },
            UpdateStage::WriteBackup => UpdateStage::ReplaceBackup,
            UpdateStage::ReplaceBackup => UpdateStage::ReplacePrimary,
            UpdateStage::ReplacePrimary => {
                self.snapshot = pending.proposed;
                self.health.last_save_failure = None;
                log.push(
                    SafeEvent::SettingsChanged { field: settings_update_field(&pending.update) },
                );
                return UpdateStep::Finished(Ok(pending.proposed));
            },
        };
        UpdateStep::Perform(
            PendingUpdate {
                stage,
                bytes: pending.bytes,
                proposed: pending.proposed,
                update: pending.update,
            },
        )
    }
}

/// Whether a text is that of the file for settings, and is read back as them.
pub open spec fn stands_for(bytes: Seq<u8>, settings: SettingsModel) -> bool {
    &&& bytes == saved_text(persisted(settings))
    &&& document_in(bytes) == Some(saved_document(persisted(settings)))
}

/// Whether saving a change that is not refused begins as it should: with a
/// text that stands for the new settings.
pub open spec fn begins(
    before: SettingsService,
    after: SettingsService,
    log: Seq<SafeEvent>,
    log_after: Seq<SafeEvent>,
    update: SettingsUpdate,
    step: UpdateStep,
) -> bool {
    let pending = step->Perform_0;
    &&& step is Perform
    &&& after@ == before@
    &&& log_after == log
    &&& pending.stage == UpdateStage::CreateDirectory
    &&& pending.update == update
    &&& before@.settings.with(update) == Ok::<
        SettingsModel,
        crate::automatic_download::AutomaticDownloadSettingsError,
    >(pending.proposed@)
    &&& stands_for(pending.bytes@, pending.proposed@)
}

/// Whether saving a change goes on as it should after a step.
pub open spec fn advances(
    before: SettingsService,
    after: SettingsService,
    log: Seq<SafeEvent>,
    log_after: Seq<SafeEvent>,
    pending: PendingUpdate,
    succeeded: bool,
    step: UpdateStep,
) -> bool {
    let failure = stage_failure(pending.stage);
    if !succeeded && failure is Some {
        &&& step == UpdateStep::Finished(Err(SettingsUpdateError::Persistence(failure->0)))
        &&& after@ == before@.failed(failure->0)
        &&& log_after == log.push(write_failed(pending.update))
    } else if pending.stage == UpdateStage::ReplacePrimary {
        &&& step == UpdateStep::Finished(Ok(pending.proposed))
        &&& after@ == before@.saved(pending.proposed@)
        &&& log_after == log.push(changed(pending.update))
    } else if pending.stage == UpdateStage::TestPrimary && succeeded {
        let next = step->Perform_0;
        &&& step is Perform
        &&& next == (PendingUpdate {
            stage: UpdateStage::WriteBackup,
            bytes: next.bytes,
            ..pending
        })
        &&& stands_for(next.bytes@, before@.settings)
        &&& after@ == before@
        &&& log_after == log
    } else {
        &&& step == UpdateStep::Perform(
            PendingUpdate {
                stage: next_stage(pending.stage, succeeded, before@.preserve)->0,
                ..pending
            },
        )
        &&& after@ == before@.stepped(pending.stage, succeeded)
        &&& log_after == log
    }
}

/// Until a change is saved the settings are what they were: no step but the
/// last changes them, and a failure at any step leaves them alone and is
/// reported.
pub proof fn an_unsaved_change_changes_nothing(
    before: SettingsService,
    after: SettingsService,
    log: Seq<SafeEvent>,
    log_after: Seq<SafeEvent>,
    pending: PendingUpdate,
    succeeded: bool,
    step: UpdateStep,
)
    requires
        advances(before, after, log, log_after, pending, succeeded, step),
    ensures
        step is Perform ==> after@.settings == before@.settings,
        step is Finished && step->Finished_0 is Err ==> after@.settings == before@.settings
            && after@.health.save_failure is Some,
        step is Finished && step->Finished_0 is Ok ==> after@.settings == pending.proposed@
            && after@.health.save_failure is None,
{
}

/// The two files that hold settings, as documents.
pub ghost struct Disk {
    pub primary: Option<PersistedSettingsV1>,
    pub backup: Option<PersistedSettingsV1>,
}

/// The files after a step that succeeded: only putting a file in place changes
/// it.
pub open spec fn disk_after(
    disk: Disk,
    stage: UpdateStage,
    settings: SettingsModel,
    proposed: SettingsModel,
) -> Disk {
    match stage {
        UpdateStage::ReplaceBackup => Disk { backup: Some(persisted(settings)), ..disk },
        UpdateStage::ReplacePrimary => Disk { primary: Some(persisted(proposed)), ..disk },
        _ => disk,
    }
}

/// Whether the files are as they should be when a step is about to be taken:
/// the settings file is replaced only once the backup holds the old settings,
/// where there is a settings file.
pub open spec fn disk_ready(disk: Disk, stage: UpdateStage, settings: SettingsModel) -> bool {
    stage == UpdateStage::ReplacePrimary && disk.primary is Some ==> disk.backup == Some(
        persisted(settings),
    )
}

/// A crash or a failure between any two steps loses nothing: until the last
/// step the settings file is what it was, and by then the backup holds the
/// settings that the last step replaces.
pub proof fn an_update_loses_no_settings(
    disk: Disk,
    stage: UpdateStage,
    preserve: bool,
    settings: SettingsModel,
    proposed: SettingsModel,
)
    requires
        disk_ready(disk, stage, settings),
    ensures
        ({
            let after = disk_after(disk, stage, settings, proposed);
            let exists = disk.primary is Some;
            &&& stage != UpdateStage::ReplacePrimary ==> after.primary == disk.primary
            &&& stage == UpdateStage::ReplacePrimary ==> after.primary == Some(persisted(proposed))
                && after.backup == disk.backup
            &&& stage != UpdateStage::ReplacePrimary ==> disk_ready(
                after,
                next_stage(stage, exists, preserve)->0,
                settings,
            )
        }),
{
}

/// What was saved is restored: a text that was made for settings is loaded as
/// those settings, without any recovery, and where the settings file is gone
/// it is restored from a backup with such a text.
pub proof fn saved_settings_are_restored(
    text: Seq<u8>,
    settings: SettingsModel,
    warnings: Seq<ArtifactWarning>,
    otherwise: LoadCondition,
    step: LoadStep,
    restored: LoadedSettings,
)
    requires
        whole_milliseconds(settings.tuning),
        stands_for(text, settings),
        primary_settles(step, document_in(text), warnings),
        backup_settles(restored, document_in(text), warnings, otherwise),
    ensures
        step is Finished,
        step->Finished_0.settings@ == settings,
        step->Finished_0.health@ == HealthModel::loaded(
            LoadCondition::CurrentVersion,
            Seq::empty(),
            warnings,
        ),
        restored.settings@ == settings,
        restored.health@ == HealthModel::loaded(
            LoadCondition::RecoveredFromBackup,
            Seq::empty(),
            warnings,
        ),
{
    saved_settings_are_read_back(settings);
}

/// Settings of a later version block every change, and so does the want of a
/// file.
pub proof fn blocked_settings_never_change(service: ServiceModel, update: SettingsUpdate)
    ensures
        service.health.condition is UnsupportedFutureSchema ==> service.refusal(update) == Some(
            SettingsUpdateError::UnsupportedFutureSchema(service.health.condition->found),
        ),
        service.health == HealthModel::unavailable() ==> service.refusal(update) == Some(
            SettingsUpdateError::Persistence(SettingsPersistenceFailure::Unavailable),
        ),
{
}

} // verus!
