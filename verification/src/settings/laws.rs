//! What the settings are for: what a change changes, what a file means, and in
//! which order a change is saved.

use super::document::{
    backs_up, document_of, loads, noted, persisted, saved_document, BackupLoad, DocumentLoad, JsonField,
    SettingsDocument,
};
use super::files::{are_pruned, is_quarantine, quarantine_name, quarantines, text_before};
use super::json::JsonTree;
use super::service::{
    backup_settles, changed, load_log, must_preserve, next_stage, primary_settles,
    quarantine_warnings, stage_failure, stale_warnings, write_failed, HealthModel, LoadStep,
    LoadedSettings, ServiceModel, UpdateStage,
};
use super::{
    load_word, persistence_word, update_word, ArtifactWarning, FieldRecovery, LoadCondition,
    PersistenceCondition, RecoveryReason, SettingPath, SettingsModel,
    SettingsPersistenceFailure, SettingsUpdate, SettingsUpdateError,
};
use crate::automatic_download::{AutomaticDownloadSettingsError, TuningModel};
use crate::local_log::SafeEvent;
use vstd::prelude::*;
use vstd::string::*;

verus! {

/// A change sets what it names to the value that it carries, and leaves all
/// else as it is. A tuning is in bytes per second and in milliseconds.
pub proof fn a_change_sets_what_it_names(
    settings: SettingsModel,
    value: bool,
    time: Option<u64>,
    rate: u64,
    qualification: u64,
    grace: u64,
)
    ensures
        settings.with(SettingsUpdate::AutomaticDownloadProtectionEnabled(value)) == Ok::<
            SettingsModel,
            AutomaticDownloadSettingsError,
        >(SettingsModel { protection: value, ..settings }),
        settings.with(SettingsUpdate::ProtectOnBattery(value)) == Ok::<
            SettingsModel,
            AutomaticDownloadSettingsError,
        >(SettingsModel { on_battery: value, ..settings }),
        settings.with(SettingsUpdate::LaunchAtLogin(value)) == Ok::<
            SettingsModel,
            AutomaticDownloadSettingsError,
        >(SettingsModel { launch: value, ..settings }),
        settings.with(SettingsUpdate::AutomaticUpdateChecksEnabled(value)) == Ok::<
            SettingsModel,
            AutomaticDownloadSettingsError,
        >(SettingsModel { update_checks: value, ..settings }),
        settings.with(SettingsUpdate::LastAutomaticUpdateCheckUnixSeconds(time)) == Ok::<
            SettingsModel,
            AutomaticDownloadSettingsError,
        >(SettingsModel { last_check: time, ..settings }),
        ({
            let changed = settings.with(
                SettingsUpdate::AutomaticDownloadTuning {
                    meaningful_receive_rate_bytes_per_second: rate,
                    activation_qualification_milliseconds: qualification,
                    grace_milliseconds: grace,
                },
            );
            &&& changed is Ok <==> rate != 0 && qualification != 0
            &&& rate == 0 ==> changed->Err_0
                == AutomaticDownloadSettingsError::ZeroMeaningfulReceiveRate
            &&& rate != 0 && qualification == 0 ==> changed->Err_0
                == AutomaticDownloadSettingsError::ZeroActivationQualification
            &&& changed is Ok ==> changed->Ok_0 == (SettingsModel {
                tuning: TuningModel {
                    rate: rate as nat,
                    qualification: qualification as nat * 1_000_000,
                    grace: grace as nat * 1_000_000,
                },
                ..settings
            })
        }),
{
}

/// The settings of a user who has not touched them: everything is switched on
/// but protection on battery, a download is 1 MiB per second over 5 seconds,
/// and the grace is 2 minutes.
pub proof fn untouched_settings()
    ensures
        SettingsModel::defaults().protection,
        !SettingsModel::defaults().on_battery,
        SettingsModel::defaults().launch,
        SettingsModel::defaults().update_checks,
        SettingsModel::defaults().last_check is None,
        SettingsModel::defaults().tuning.rate == 1_048_576,
        SettingsModel::defaults().tuning.qualification == 5_000_000_000,
        SettingsModel::defaults().tuning.grace == 120_000_000_000,
{
}

/// A switch in a file means what it says, and anything else in its place means
/// what an untouched switch does.
pub proof fn switches_mean_what_they_say(document: SettingsDocument)
    ensures
        ({
            let settings = document.settings();
            &&& settings.protection == (document.automatic_download_protection_enabled
                != JsonField::Bool(false))
            &&& settings.on_battery == (document.protect_on_battery == JsonField::Bool(true))
            &&& settings.launch == (document.launch_at_login != JsonField::Bool(false))
            &&& settings.update_checks == (document.automatic_update_checks_enabled
                != JsonField::Bool(false))
            &&& document.last_automatic_update_check_unix_seconds is Unsigned
                ==> settings.last_check == Some(
                document.last_automatic_update_check_unix_seconds->Unsigned_0,
            )
            &&& !(document.last_automatic_update_check_unix_seconds is Unsigned)
                ==> settings.last_check is None
        }),
{
}

/// A tuning in a file means the numbers that it holds, with times in
/// milliseconds, and each number that cannot be used what an untouched one
/// does. A rate and a qualification of nothing cannot be used, a grace of
/// nothing can.
pub proof fn tunings_mean_what_they_say(document: SettingsDocument)
    ensures
        ({
            let tuning = document.settings().tuning;
            let there = document.automatic_download == JsonField::Object;
            let rate = document.meaningful_receive_rate_bytes_per_second;
            let qualification = document.activation_qualification_milliseconds;
            let grace = document.grace_milliseconds;
            &&& there && rate is Unsigned && rate->Unsigned_0 > 0 ==> tuning.rate
                == rate->Unsigned_0
            &&& !there || !(rate is Unsigned) || rate == JsonField::Unsigned(0) ==> tuning.rate
                == 1_048_576
            &&& there && qualification is Unsigned && qualification->Unsigned_0 > 0
                ==> tuning.qualification == qualification->Unsigned_0 * 1_000_000
            &&& !there || !(qualification is Unsigned) || qualification == JsonField::Unsigned(0)
                ==> tuning.qualification == 5_000 * 1_000_000
            &&& there && grace is Unsigned ==> tuning.grace == grace->Unsigned_0 * 1_000_000
            &&& !there || !(grace is Unsigned) ==> tuning.grace == 120_000 * 1_000_000
        }),
{
}

/// Nothing is recovered exactly where every member of a file can be used as it
/// is.
pub proof fn whole_files_need_no_recovery(document: SettingsDocument)
    ensures
        document.recoveries().len() == 0 <==> {
            &&& document.automatic_download_protection_enabled is Bool
            &&& document.protect_on_battery is Bool
            &&& document.launch_at_login is Bool
            &&& document.automatic_update_checks_enabled is Bool
            &&& document.last_automatic_update_check_unix_seconds is Null
                || document.last_automatic_update_check_unix_seconds is Unsigned
            &&& document.automatic_download == JsonField::Object
            &&& document.meaningful_receive_rate_bytes_per_second is Unsigned
                && document.meaningful_receive_rate_bytes_per_second->Unsigned_0 > 0
            &&& document.activation_qualification_milliseconds is Unsigned
                && document.activation_qualification_milliseconds->Unsigned_0 > 0
            &&& document.grace_milliseconds is Unsigned
        },
        document.recoveries().len() <= 8,
{
}

/// Whether a switch in a file needs to be recovered for a reason: it is
/// missing, or it is no switch.
pub open spec fn no_switch(field: JsonField, reason: RecoveryReason) -> bool {
    match reason {
        RecoveryReason::Missing => field == JsonField::Missing,
        RecoveryReason::WrongType => field != JsonField::Missing && !(field is Bool),
        RecoveryReason::InvalidValue => false,
    }
}

/// Whether a number of the detector in a file needs to be recovered for a
/// reason: it or the detector is missing, is something else, or is of no use.
pub open spec fn no_number(
    detector: JsonField,
    field: JsonField,
    least: u64,
    reason: RecoveryReason,
) -> bool {
    let there = detector == JsonField::Object;
    match reason {
        RecoveryReason::Missing => detector == JsonField::Missing || (there && field
            == JsonField::Missing),
        RecoveryReason::WrongType => (detector != JsonField::Missing && !there) || (there && field
            != JsonField::Missing && !(field is Unsigned)),
        RecoveryReason::InvalidValue => there && field is Unsigned && field->Unsigned_0 < least,
    }
}

/// A setting is recovered exactly where it cannot be used, and with the
/// reason why.
pub proof fn recoveries_name_their_reason(
    document: SettingsDocument,
    path: SettingPath,
    reason: RecoveryReason,
)
    ensures
        document.recoveries().contains(FieldRecovery { path, reason }) <==> match path {
            SettingPath::AutomaticDownloadProtectionEnabled => no_switch(
                document.automatic_download_protection_enabled,
                reason,
            ),
            SettingPath::ProtectOnBattery => no_switch(document.protect_on_battery, reason),
            SettingPath::LaunchAtLogin => no_switch(document.launch_at_login, reason),
            SettingPath::AutomaticUpdateChecksEnabled => no_switch(
                document.automatic_update_checks_enabled,
                reason,
            ),
            SettingPath::LastAutomaticUpdateCheckUnixSeconds => {
                let field = document.last_automatic_update_check_unix_seconds;
                match reason {
                    RecoveryReason::Missing => field == JsonField::Missing,
                    RecoveryReason::WrongType => field is Bool || field is Text || field is List
                        || field is Object,
                    RecoveryReason::InvalidValue => field is OtherNumber,
                }
            },
            SettingPath::MeaningfulReceiveRateBytesPerSecond => no_number(
                document.automatic_download,
                document.meaningful_receive_rate_bytes_per_second,
                1,
                reason,
            ),
            SettingPath::ActivationQualificationMilliseconds => no_number(
                document.automatic_download,
                document.activation_qualification_milliseconds,
                1,
                reason,
            ),
            SettingPath::GraceMilliseconds => no_number(
                document.automatic_download,
                document.grace_milliseconds,
                0,
                reason,
            ),
        },
{
    broadcast use vstd::seq_lib::group_seq_properties;

    let wanted = FieldRecovery { path, reason };
    assert forall|at: SettingPath, why: Option<RecoveryReason>|
        #[trigger] noted(at, why).contains(wanted) <==> at == path && why == Some(reason) by {
        if why is Some {
            assert(noted(at, why)[0] == FieldRecovery { path: at, reason: why->0 });
        }
    }
}

/// A file of the current version is whole or partly recovered, one without a
/// version that is known is salvaged, and a later version is not read at all.
pub proof fn versions_decide_how_a_file_is_loaded(load: DocumentLoad, document: SettingsDocument)
    requires
        loads(load, Some(document)),
    ensures
        document.schema_version is Unsigned && document.schema_version->Unsigned_0 > 1 ==> load
            == DocumentLoad::Future(document.schema_version->Unsigned_0),
        !(document.schema_version is Unsigned && document.schema_version->Unsigned_0 > 1)
            ==> load is Loaded && load->settings@ == document.settings(),
        document.schema_version == JsonField::Unsigned(1) ==> (load->condition
            == LoadCondition::CurrentVersion <==> document.recoveries().len() == 0) && (
        load->condition == LoadCondition::PartialRecovery <==> document.recoveries().len() > 0),
        load is Loaded && document.schema_version != JsonField::Unsigned(1) ==> load->condition
            == LoadCondition::SchemaMetadataRecovered,
        load is Loaded ==> load->recoveries@ == document.recoveries(),
{
}

/// A text that is no JSON object is malformed, as the file and as its backup.
pub proof fn other_texts_are_malformed(load: DocumentLoad, backup: BackupLoad)
    requires
        loads(load, None),
        backs_up(backup, None),
    ensures
        load is Malformed,
        backup is Unusable,
{
}

/// A backup counts only where it is whole and of the current version.
pub proof fn only_whole_backups_count(load: BackupLoad, document: SettingsDocument)
    requires
        backs_up(load, Some(document)),
    ensures
        load is Clean <==> document.schema_version == JsonField::Unsigned(1)
            && document.recoveries().len() == 0,
        load is Clean ==> load->Clean_0@ == document.settings(),
        load is UnsupportedFutureSchema <==> document.schema_version is Unsigned
            && document.schema_version->Unsigned_0 > 1,
        load is UnsupportedFutureSchema ==> load->UnsupportedFutureSchema_0
            == document.schema_version->Unsigned_0,
{
}

/// What the settings file says decides the settings and whether changes can be
/// saved: a later version blocks them, and everything else that can be read
/// does not.
pub proof fn the_file_decides(
    step: LoadStep,
    document: SettingsDocument,
    warnings: Seq<ArtifactWarning>,
)
    requires
        primary_settles(step, Some(document), warnings),
    ensures
        step is Finished,
        step->Finished_0.health@.warnings == warnings,
        step->Finished_0.health@.save_failure is None,
        ({
            let later = document.schema_version is Unsigned && document.schema_version->Unsigned_0
                > 1;
            let end = step->Finished_0;
            &&& later ==> end.settings@ == SettingsModel::defaults() && end.health@.condition == (
            LoadCondition::UnsupportedFutureSchema { found: document.schema_version->Unsigned_0 })
                && end.health@.persistence == PersistenceCondition::BlockedByFutureSchema
            &&& !later ==> end.settings@ == document.settings() && end.health@.persistence
                == PersistenceCondition::Writable && end.health@.recoveries
                == document.recoveries()
        }),
{
}

/// A backup is used where it is whole, and else the settings are untouched
/// ones.
pub proof fn the_backup_decides(
    restored: LoadedSettings,
    document: Option<SettingsDocument>,
    warnings: Seq<ArtifactWarning>,
    otherwise: LoadCondition,
)
    requires
        backup_settles(restored, document, warnings, otherwise),
    ensures
        restored.health@.warnings == warnings,
        restored.health@.recoveries.len() == 0,
        document is None ==> restored.settings@ == SettingsModel::defaults()
            && restored.health@.condition == otherwise && restored.health@.persistence
            == PersistenceCondition::Writable,
        document is Some && document->0.schema_version == JsonField::Unsigned(1)
            && document->0.recoveries().len() == 0 ==> restored.settings@
            == document->0.settings() && restored.health@.condition
            == LoadCondition::RecoveredFromBackup && restored.health@.persistence
            == PersistenceCondition::Writable,
        document is Some && document->0.schema_version == JsonField::Unsigned(1)
            && document->0.recoveries().len() > 0 ==> restored.settings@
            == SettingsModel::defaults() && restored.health@.condition == otherwise,
        document is Some && document->0.schema_version is Unsigned
            && document->0.schema_version->Unsigned_0 > 1 ==> restored.settings@
            == SettingsModel::defaults() && restored.health@.persistence
            == PersistenceCondition::BlockedByFutureSchema,
{
}

/// The members of a file are found under their names.
pub proof fn members_are_found_under_their_names(
    object: Map<Seq<char>, JsonTree>,
    detector: Map<Seq<char>, JsonTree>,
    order: Seq<Seq<char>>,
    key: Seq<char>,
    value: bool,
    number: u64,
)
    ensures
        ({
            let document = document_of(object.insert(key, JsonTree::Bool(value)));
            let field = JsonField::Bool(value);
            &&& key == "automatic_download_protection_enabled"@
                ==> document.automatic_download_protection_enabled == field
            &&& key == "protect_on_battery"@ ==> document.protect_on_battery == field
            &&& key == "launch_at_login"@ ==> document.launch_at_login == field
            &&& key == "automatic_update_checks_enabled"@
                ==> document.automatic_update_checks_enabled == field
        }),
        ({
            let document = document_of(object.insert(key, JsonTree::Unsigned(number)));
            let field = JsonField::Unsigned(number);
            &&& key == "schema_version"@ ==> document.schema_version == field
            &&& key == "last_automatic_update_check_unix_seconds"@
                ==> document.last_automatic_update_check_unix_seconds == field
        }),
        ({
            let inner = detector.insert(key, JsonTree::Unsigned(number));
            let document = document_of(
                object.insert("automatic_download"@, JsonTree::Object(inner, order)),
            );
            let field = JsonField::Unsigned(number);
            &&& document.automatic_download == JsonField::Object
            &&& key == "meaningful_receive_rate_bytes_per_second"@
                ==> document.meaningful_receive_rate_bytes_per_second == field
            &&& key == "activation_qualification_milliseconds"@
                ==> document.activation_qualification_milliseconds == field
            &&& key == "grace_milliseconds"@ ==> document.grace_milliseconds == field
        }),
{
}

/// What is saved is each setting under its own name, in version 1, with times
/// in milliseconds.
pub proof fn every_setting_is_saved_as_itself(settings: SettingsModel)
    requires
        super::whole_milliseconds(settings.tuning),
    ensures
        ({
            let document = saved_document(persisted(settings));
            &&& document.schema_version == JsonField::Unsigned(1)
            &&& document.automatic_download_protection_enabled == JsonField::Bool(
                settings.protection,
            )
            &&& document.protect_on_battery == JsonField::Bool(settings.on_battery)
            &&& document.launch_at_login == JsonField::Bool(settings.launch)
            &&& document.automatic_update_checks_enabled == JsonField::Bool(settings.update_checks)
            &&& settings.last_check is None ==> document.last_automatic_update_check_unix_seconds
                == JsonField::Null
            &&& settings.last_check is Some ==> document.last_automatic_update_check_unix_seconds
                == JsonField::Unsigned(settings.last_check->0)
            &&& document.meaningful_receive_rate_bytes_per_second is Unsigned
                && document.meaningful_receive_rate_bytes_per_second->Unsigned_0
                == settings.tuning.rate
            &&& document.activation_qualification_milliseconds is Unsigned
                && document.activation_qualification_milliseconds->Unsigned_0 * 1_000_000
                == settings.tuning.qualification
            &&& document.grace_milliseconds is Unsigned
                && document.grace_milliseconds->Unsigned_0 * 1_000_000 == settings.tuning.grace
        }),
{
}

/// A change is saved in one order: the new file is written first, what cannot
/// be used is kept before it is lost, the backup is put in place before the
/// new file is, and that comes last of all.
pub proof fn changes_are_saved_in_one_order(succeeded: bool, preserve: bool)
    ensures
        next_stage(UpdateStage::CreateDirectory, succeeded, preserve) == Some(
            UpdateStage::WritePrimary,
        ),
        next_stage(UpdateStage::WritePrimary, succeeded, true) == Some(
            UpdateStage::PreserveSource,
        ),
        next_stage(UpdateStage::WritePrimary, succeeded, false) == Some(UpdateStage::TestPrimary),
        next_stage(UpdateStage::PreserveSource, succeeded, preserve) == Some(
            UpdateStage::PruneQuarantines,
        ),
        next_stage(UpdateStage::PruneQuarantines, succeeded, preserve) == Some(
            UpdateStage::TestPrimary,
        ),
        next_stage(UpdateStage::TestPrimary, true, preserve) == Some(UpdateStage::WriteBackup),
        next_stage(UpdateStage::TestPrimary, false, preserve) == Some(UpdateStage::ReplacePrimary),
        next_stage(UpdateStage::WriteBackup, succeeded, preserve) == Some(
            UpdateStage::ReplaceBackup,
        ),
        next_stage(UpdateStage::ReplaceBackup, succeeded, preserve) == Some(
            UpdateStage::ReplacePrimary,
        ),
        next_stage(UpdateStage::ReplacePrimary, succeeded, preserve) is None,
{
}

/// Every step that fails ends a change with its own failure, but for the two
/// that cannot fail it.
pub proof fn failing_steps_are_named(stage: UpdateStage)
    ensures
        stage_failure(stage) is None <==> stage == UpdateStage::PruneQuarantines || stage
            == UpdateStage::TestPrimary,
        stage_failure(stage) == Some(SettingsPersistenceFailure::CreateDirectory) <==> stage
            == UpdateStage::CreateDirectory,
        stage_failure(stage) == Some(SettingsPersistenceFailure::WritePrimary) <==> stage
            == UpdateStage::WritePrimary,
        stage_failure(stage) == Some(SettingsPersistenceFailure::PreserveSource) <==> stage
            == UpdateStage::PreserveSource,
        stage_failure(stage) == Some(SettingsPersistenceFailure::WriteBackup) <==> stage
            == UpdateStage::WriteBackup,
        stage_failure(stage) == Some(SettingsPersistenceFailure::ReplaceBackup) <==> stage
            == UpdateStage::ReplaceBackup,
        stage_failure(stage) == Some(SettingsPersistenceFailure::ReplacePrimary) <==> stage
            == UpdateStage::ReplacePrimary,
{
}

/// A change is refused exactly where the settings are of a later version,
/// cannot be saved, or the change is not valid.
pub proof fn changes_are_refused_for_a_reason(service: ServiceModel, update: SettingsUpdate)
    ensures
        ({
            let later = service.health.condition is UnsupportedFutureSchema;
            let nowhere = service.health.persistence == PersistenceCondition::Unavailable;
            let refusal = service.refusal(update);
            &&& refusal is None <==> !later && !nowhere && service.settings.with(update) is Ok
            &&& later ==> refusal == Some(
                SettingsUpdateError::UnsupportedFutureSchema(service.health.condition->found),
            )
            &&& !later && nowhere ==> refusal == Some(
                SettingsUpdateError::Persistence(SettingsPersistenceFailure::Unavailable),
            )
            &&& !later && !nowhere && service.settings.with(update) is Err ==> refusal == Some(
                SettingsUpdateError::InvalidAutomaticDownload(
                    service.settings.with(update)->Err_0,
                ),
            )
        }),
{
}

/// Saving shows: a success clears the last failure and takes over the
/// settings, a failure is shown and takes over nothing, and what was kept is
/// kept once.
pub proof fn saving_shows(
    service: ServiceModel,
    settings: SettingsModel,
    failure: SettingsPersistenceFailure,
    stage: UpdateStage,
    succeeded: bool,
)
    ensures
        service.saved(settings).settings == settings,
        service.saved(settings).health.save_failure is None,
        service.saved(settings).health.condition == service.health.condition,
        service.failed(failure).settings == service.settings,
        service.failed(failure).health.save_failure == Some(failure),
        service.stepped(stage, succeeded).settings == service.settings,
        service.stepped(stage, succeeded).preserve <==> service.preserve && stage
            != UpdateStage::PreserveSource,
        service.stepped(stage, succeeded).health.warnings == if stage
            == UpdateStage::PruneQuarantines && !succeeded {
            service.health.warnings.push(ArtifactWarning::QuarantineCleanup)
        } else {
            service.health.warnings
        },
{
}

/// A settings file that could not be used, or only in part for want of a
/// version, is kept before it is overwritten.
pub proof fn unusable_files_are_kept(condition: LoadCondition, exists: bool)
    ensures
        must_preserve(condition, exists) <==> exists && (condition
            == LoadCondition::SchemaMetadataRecovered || condition
            == LoadCondition::MalformedDefaulted || condition
            == LoadCondition::RecoveredFromBackup),
{
}

/// Files that stay behind are warned of, each once.
pub proof fn files_left_behind_are_warned_of(first: bool, second: bool)
    ensures
        stale_warnings(first, second).len() == (if first {
            1int
        } else {
            0
        }) + if second {
            1int
        } else {
            0
        },
        forall|i: int|
            0 <= i < stale_warnings(first, second).len() ==> #[trigger] stale_warnings(
                first,
                second,
            )[i] == ArtifactWarning::StaleTemporary,
        quarantine_warnings(first, second).contains(ArtifactWarning::Quarantine) <==> !first,
        quarantine_warnings(first, second).contains(ArtifactWarning::QuarantineCleanup)
            <==> !second,
        quarantine_warnings(first, second).len() == (if first {
            0int
        } else {
            1
        }) + if second {
            0int
        } else {
            1
        },
{
    let list = quarantine_warnings(first, second);
    if !first {
        assert(list[0] == ArtifactWarning::Quarantine);
    }
    if !second {
        assert(list[list.len() - 1] == ArtifactWarning::QuarantineCleanup);
    }
}

/// Every copy of an unusable file is known by its name, whenever it was made.
pub proof fn copies_are_known_by_their_names(milliseconds: nat, sequence: nat, name: Seq<char>)
    ensures
        is_quarantine(quarantine_name(milliseconds, sequence)),
        is_quarantine(name) <==> exists|rest: Seq<char>| name == "settings.corrupt."@ + rest,
{
    reveal_strlit("settings.corrupt.");
    let made = quarantine_name(milliseconds, sequence);
    assert("settings.corrupt."@.len() == 17);
    assert(made.take(17) =~= "settings.corrupt."@);
    if is_quarantine(name) {
        assert(name =~= "settings.corrupt."@ + name.skip(17));
    }
    if exists|rest: Seq<char>| name == "settings.corrupt."@ + rest {
        let rest = choose|rest: Seq<char>| name == "settings.corrupt."@ + rest;
        assert(name.take(17) =~= "settings.corrupt."@);
    }
}

/// Of the copies two are kept, or all where there are no more, and those are the
/// ones whose names come last.
pub proof fn two_copies_are_kept(positions: Seq<usize>, names: Seq<Seq<char>>, kept: usize, i: int)
    requires
        are_pruned(positions, names),
    ensures
        quarantines(names).len() <= 2 ==> positions.len() == 0,
        quarantines(names).len() > 2 ==> positions.len() + 2 == quarantines(names).len(),
        0 <= i < positions.len() ==> is_quarantine(names[positions[i] as int]),
        0 <= i < positions.len() && kept < names.len() && is_quarantine(names[kept as int])
            && !positions.contains(kept) ==> !text_before(
            names[kept as int],
            names[positions[i] as int],
        ),
{
}

/// Names are ordered as in a dictionary: by the first character in which they
/// differ, and a name before those that continue it.
pub proof fn names_are_ordered_as_in_a_dictionary(
    common: Seq<char>,
    a: char,
    b: char,
    rest: Seq<char>,
    other: Seq<char>,
)
    ensures
        text_before(common, common + seq![b] + other),
        !text_before(common + seq![a] + rest, common),
        a != b ==> (text_before(common + seq![a] + rest, common + seq![b] + other) <==> (a as u32)
            < (b as u32)),
    decreases common.len(),
{
    let left = common + seq![a] + rest;
    let right = common + seq![b] + other;
    if common.len() > 0 {
        let tail = common.drop_first();
        names_are_ordered_as_in_a_dictionary(tail, a, b, rest, other);
        assert(left.drop_first() =~= tail + seq![a] + rest);
        assert(right.drop_first() =~= tail + seq![b] + other);
    }
}

/// Loading is logged with how it went, whether changes can be saved, and how
/// many settings were recovered.
pub proof fn loading_is_logged(health: HealthModel)
    requires
        health.recoveries.len() <= usize::MAX,
    ensures
        ({
            let event = load_log(health);
            &&& event is SettingsLoaded
            &&& event->recoveries == health.recoveries.len()
            &&& event->condition == load_word(health.condition)
            &&& event->persistence == persistence_word(health.persistence)
        }),
{
}

/// Settings are in order exactly where they are new or were read whole, nothing
/// stayed behind and the last change was saved.
pub proof fn settings_in_order(health: HealthModel)
    ensures
        health.clean() <==> {
            &&& health.condition == LoadCondition::FirstRun || health.condition
                == LoadCondition::CurrentVersion
            &&& health.warnings.len() == 0
            &&& health.save_failure is None
        },
{
}

/// A change that was made and one that was not are logged under the name of the
/// setting, and are told apart.
pub proof fn changes_are_logged_by_name(update: SettingsUpdate)
    ensures
        changed(update) == (SafeEvent::SettingsChanged { field: update_word(update) }),
        write_failed(update) == (SafeEvent::SettingsWriteFailed { field: update_word(update) }),
{
}

} // verus!
