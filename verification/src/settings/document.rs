//! From the settings file to settings, and back.
//!
//! Every setting is read by itself: one that is missing or unusable falls back
//! to its default, is reported, and does not touch the others.

use super::json::{
    empty_object, insert, key_order, member, members, no_members, ordinary, parse, parsed, pretty,
    write_object, JsonMember, JsonTree, NewMember,
};
use super::{
    whole_milliseconds, FieldRecovery, LoadCondition, RecoveryReason, SettingPath, Settings,
    SettingsModel,
};
use crate::automatic_download::TuningModel;
use crate::duration::NANOS_PER_MILLISECOND;
use vstd::prelude::*;

verus! {

/// The version of the file's layout that this program writes.
pub const SCHEMA_VERSION: u64 = 1;

/// A member of the file, as far as the settings tell values apart.
#[derive(Clone, Copy, Debug, PartialEq, Eq, Structural)]
pub enum JsonField {
    Missing,
    Null,
    Bool(bool),
    Unsigned(u64),
    OtherNumber,
    Text,
    List,
    Object,
}

/// The members of the file that the settings read. The last three are those
/// of the nested object, and are missing where there is none.
#[derive(Clone, Copy, Debug, PartialEq, Eq, Structural)]
pub struct SettingsDocument {
    pub schema_version: JsonField,
    pub automatic_download_protection_enabled: JsonField,
    pub protect_on_battery: JsonField,
    pub launch_at_login: JsonField,
    pub automatic_update_checks_enabled: JsonField,
    pub last_automatic_update_check_unix_seconds: JsonField,
    pub automatic_download: JsonField,
    pub meaningful_receive_rate_bytes_per_second: JsonField,
    pub activation_qualification_milliseconds: JsonField,
    pub grace_milliseconds: JsonField,
}

/// A tree, as far as the settings tell values apart.
pub open spec fn field_of(tree: JsonTree) -> JsonField {
    match tree {
        JsonTree::Null => JsonField::Null,
        JsonTree::Bool(value) => JsonField::Bool(value),
        JsonTree::Unsigned(value) => JsonField::Unsigned(value),
        JsonTree::OtherNumber => JsonField::OtherNumber,
        JsonTree::Text => JsonField::Text,
        JsonTree::List => JsonField::List,
        JsonTree::Object(..) => JsonField::Object,
    }
}

/// A member of an object.
pub open spec fn field_at(object: Map<Seq<char>, JsonTree>, key: Seq<char>) -> JsonField {
    if object.dom().contains(key) {
        field_of(object[key])
    } else {
        JsonField::Missing
    }
}

/// The members of a member that is an object, and none of any other.
pub open spec fn nested(object: Map<Seq<char>, JsonTree>, key: Seq<char>) -> Map<
    Seq<char>,
    JsonTree,
> {
    if object.dom().contains(key) && object[key] is Object {
        object[key]->Object_0
    } else {
        no_members()
    }
}

/// The members of an object that the settings read.
pub open spec fn document_of(object: Map<Seq<char>, JsonTree>) -> SettingsDocument {
    let detector = nested(object, "automatic_download"@);
    SettingsDocument {
        schema_version: field_at(object, "schema_version"@),
        automatic_download_protection_enabled: field_at(
            object,
            "automatic_download_protection_enabled"@,
        ),
        protect_on_battery: field_at(object, "protect_on_battery"@),
        launch_at_login: field_at(object, "launch_at_login"@),
        automatic_update_checks_enabled: field_at(object, "automatic_update_checks_enabled"@),
        last_automatic_update_check_unix_seconds: field_at(
            object,
            "last_automatic_update_check_unix_seconds"@,
        ),
        automatic_download: field_at(object, "automatic_download"@),
        meaningful_receive_rate_bytes_per_second: field_at(
            detector,
            "meaningful_receive_rate_bytes_per_second"@,
        ),
        activation_qualification_milliseconds: field_at(
            detector,
            "activation_qualification_milliseconds"@,
        ),
        grace_milliseconds: field_at(detector, "grace_milliseconds"@),
    }
}

/// The document that a text stands for: none where it is not a JSON object.
pub open spec fn document_in(text: Seq<u8>) -> Option<SettingsDocument> {
    match parsed(text) {
        Some(Some(object)) => Some(document_of(object)),
        _ => None,
    }
}

fn field(member: &JsonMember) -> (r: JsonField)
    ensures
        r == match member.tree() {
            Some(tree) => field_of(tree),
            None => JsonField::Missing,
        },
{
    match member {
        JsonMember::Missing => JsonField::Missing,
        JsonMember::Null => JsonField::Null,
        JsonMember::Bool(value) => JsonField::Bool(*value),
        JsonMember::Unsigned(value) => JsonField::Unsigned(*value),
        JsonMember::OtherNumber => JsonField::OtherNumber,
        JsonMember::Text => JsonField::Text,
        JsonMember::List => JsonField::List,
        JsonMember::Object(_) => JsonField::Object,
    }
}

fn field_in(object: &serde_json::Map<String, serde_json::Value>, key: &str) -> (r: JsonField)
    ensures
        r == field_at(members(*object), key@),
{
    field(&member(object, key))
}

/// The document that a text stands for.
pub fn read_document(text: &[u8]) -> (r: Option<SettingsDocument>)
    ensures
        r == document_in(text@),
{
    let object = match parse(text) {
        Ok(Some(object)) => object,
        Ok(None) => return None,
        Err(_) => return None,
    };
    let detector_member = member(&object, "automatic_download");
    let automatic_download = field(&detector_member);
    let detector = match detector_member {
        JsonMember::Object(detector) => detector,
        _ => empty_object(),
    };
    assert(members(detector) == nested(members(object), "automatic_download"@));
    Some(
        SettingsDocument {
            schema_version: field_in(&object, "schema_version"),
            automatic_download_protection_enabled: field_in(
                &object,
                "automatic_download_protection_enabled",
            ),
            protect_on_battery: field_in(&object, "protect_on_battery"),
            launch_at_login: field_in(&object, "launch_at_login"),
            automatic_update_checks_enabled: field_in(&object, "automatic_update_checks_enabled"),
            last_automatic_update_check_unix_seconds: field_in(
                &object,
                "last_automatic_update_check_unix_seconds",
            ),
            automatic_download,
            meaningful_receive_rate_bytes_per_second: field_in(
                &detector,
                "meaningful_receive_rate_bytes_per_second",
            ),
            activation_qualification_milliseconds: field_in(
                &detector,
                "activation_qualification_milliseconds",
            ),
            grace_milliseconds: field_in(&detector, "grace_milliseconds"),
        },
    )
}

/// The report on a setting, where there is something to report.
pub open spec fn noted(path: SettingPath, reason: Option<RecoveryReason>) -> Seq<FieldRecovery> {
    match reason {
        Some(reason) => seq![FieldRecovery { path, reason }],
        None => Seq::empty(),
    }
}

/// What a switch says, or its default.
pub open spec fn bool_value(field: JsonField, default: bool) -> bool {
    match field {
        JsonField::Bool(value) => value,
        _ => default,
    }
}

/// Why a switch falls back to its default.
pub open spec fn bool_reason(field: JsonField) -> Option<RecoveryReason> {
    match field {
        JsonField::Bool(_) => None,
        JsonField::Missing => Some(RecoveryReason::Missing),
        _ => Some(RecoveryReason::WrongType),
    }
}

/// What an optional number says. Its default is that there is none.
pub open spec fn optional_value(field: JsonField) -> Option<u64> {
    match field {
        JsonField::Unsigned(value) => Some(value),
        _ => None,
    }
}

/// Why an optional number falls back to its default.
pub open spec fn optional_reason(field: JsonField) -> Option<RecoveryReason> {
    match field {
        JsonField::Null | JsonField::Unsigned(_) => None,
        JsonField::Missing => Some(RecoveryReason::Missing),
        JsonField::OtherNumber => Some(RecoveryReason::InvalidValue),
        _ => Some(RecoveryReason::WrongType),
    }
}

/// What a number says, or its default where it says nothing or a forbidden
/// zero.
pub open spec fn number_value(field: JsonField, default: nat, non_zero: bool) -> nat {
    match field {
        JsonField::Unsigned(value) => if non_zero && value == 0 {
            default
        } else {
            value as nat
        },
        _ => default,
    }
}

/// Why a number falls back to its default. `unavailable` is why it is missing,
/// where it is.
pub open spec fn number_reason(
    field: JsonField,
    non_zero: bool,
    unavailable: RecoveryReason,
) -> Option<RecoveryReason> {
    match field {
        JsonField::Unsigned(value) => if non_zero && value == 0 {
            Some(RecoveryReason::InvalidValue)
        } else {
            None
        },
        JsonField::Missing => Some(unavailable),
        _ => Some(RecoveryReason::WrongType),
    }
}

impl SettingsDocument {
    /// A number of the nested object, which is missing where the object is.
    pub open spec fn inner(self, field: JsonField) -> JsonField {
        if self.automatic_download == JsonField::Object {
            field
        } else {
            JsonField::Missing
        }
    }

    /// Why a number of the nested object is missing: the object is there
    /// without it, the object is missing, or something else is in its place.
    pub open spec fn inner_missing(self) -> RecoveryReason {
        match self.automatic_download {
            JsonField::Object | JsonField::Missing => RecoveryReason::Missing,
            _ => RecoveryReason::WrongType,
        }
    }

    /// The settings that the document says, with defaults for what it does
    /// not.
    pub open spec fn settings(self) -> SettingsModel {
        let defaults = SettingsModel::defaults();
        SettingsModel {
            protection: bool_value(
                self.automatic_download_protection_enabled,
                defaults.protection,
            ),
            on_battery: bool_value(self.protect_on_battery, defaults.on_battery),
            launch: bool_value(self.launch_at_login, defaults.launch),
            update_checks: bool_value(self.automatic_update_checks_enabled, defaults.update_checks),
            last_check: optional_value(self.last_automatic_update_check_unix_seconds),
            tuning: TuningModel {
                rate: number_value(
                    self.inner(self.meaningful_receive_rate_bytes_per_second),
                    defaults.tuning.rate,
                    true,
                ),
                qualification: number_value(
                    self.inner(self.activation_qualification_milliseconds),
                    defaults.tuning.qualification / NANOS_PER_MILLISECOND as nat,
                    true,
                ) * NANOS_PER_MILLISECOND as nat,
                grace: number_value(
                    self.inner(self.grace_milliseconds),
                    defaults.tuning.grace / NANOS_PER_MILLISECOND as nat,
                    false,
                ) * NANOS_PER_MILLISECOND as nat,
            },
        }
    }

    /// The settings that fell back to their defaults, in a fixed order, and
    /// why.
    pub open spec fn recoveries(self) -> Seq<FieldRecovery> {
        noted(
            SettingPath::AutomaticDownloadProtectionEnabled,
            bool_reason(self.automatic_download_protection_enabled),
        ) + noted(SettingPath::ProtectOnBattery, bool_reason(self.protect_on_battery)) + noted(
            SettingPath::LaunchAtLogin,
            bool_reason(self.launch_at_login),
        ) + noted(
            SettingPath::AutomaticUpdateChecksEnabled,
            bool_reason(self.automatic_update_checks_enabled),
        ) + noted(
            SettingPath::LastAutomaticUpdateCheckUnixSeconds,
            optional_reason(self.last_automatic_update_check_unix_seconds),
        ) + noted(
            SettingPath::MeaningfulReceiveRateBytesPerSecond,
            number_reason(
                self.inner(self.meaningful_receive_rate_bytes_per_second),
                true,
                self.inner_missing(),
            ),
        ) + noted(
            SettingPath::ActivationQualificationMilliseconds,
            number_reason(
                self.inner(self.activation_qualification_milliseconds),
                true,
                self.inner_missing(),
            ),
        ) + noted(
            SettingPath::GraceMilliseconds,
            number_reason(self.inner(self.grace_milliseconds), false, self.inner_missing()),
        )
    }
}

fn read_bool(
    field: JsonField,
    path: SettingPath,
    default: bool,
    recoveries: &mut Vec<FieldRecovery>,
) -> (r: bool)
    ensures
        r == bool_value(field, default),
        final(recoveries)@ == old(recoveries)@ + noted(path, bool_reason(field)),
{
    let value = match field {
        JsonField::Bool(value) => value,
        JsonField::Missing => {
            recoveries.push(FieldRecovery::new(path, RecoveryReason::Missing));
            default
        },
        _ => {
            recoveries.push(FieldRecovery::new(path, RecoveryReason::WrongType));
            default
        },
    };
    assert(recoveries@ =~= old(recoveries)@ + noted(path, bool_reason(field)));
    value
}

fn read_optional_u64(
    field: JsonField,
    path: SettingPath,
    recoveries: &mut Vec<FieldRecovery>,
) -> (r: Option<u64>)
    ensures
        r == optional_value(field),
        final(recoveries)@ == old(recoveries)@ + noted(path, optional_reason(field)),
{
    let value: Option<u64> = match field {
        JsonField::Null => None,
        JsonField::Unsigned(value) => Some(value),
        JsonField::OtherNumber => {
            recoveries.push(FieldRecovery::new(path, RecoveryReason::InvalidValue));
            None
        },
        JsonField::Missing => {
            recoveries.push(FieldRecovery::new(path, RecoveryReason::Missing));
            None
        },
        _ => {
            recoveries.push(FieldRecovery::new(path, RecoveryReason::WrongType));
            None
        },
    };
    assert(recoveries@ =~= old(recoveries)@ + noted(path, optional_reason(field)));
    value
}

fn read_nested_u64(
    field: JsonField,
    path: SettingPath,
    default: u64,
    non_zero: bool,
    unavailable: RecoveryReason,
    recoveries: &mut Vec<FieldRecovery>,
) -> (r: u64)
    ensures
        r == number_value(field, default as nat, non_zero),
        final(recoveries)@ == old(recoveries)@ + noted(
            path,
            number_reason(field, non_zero, unavailable),
        ),
{
    let value: u64 = match field {
        JsonField::Unsigned(value) => if non_zero && value == 0 {
            recoveries.push(FieldRecovery::new(path, RecoveryReason::InvalidValue));
            default
        } else {
            value
        },
        JsonField::Missing => {
            recoveries.push(FieldRecovery::new(path, unavailable));
            default
        },
        _ => {
            recoveries.push(FieldRecovery::new(path, RecoveryReason::WrongType));
            default
        },
    };
    assert(recoveries@ =~= old(recoveries)@ + noted(
        path,
        number_reason(field, non_zero, unavailable),
    ));
    value
}

/// The settings that a document says, whatever its version, and those that
/// fell back to their defaults.
pub fn from_object(document: &SettingsDocument) -> (r: (Settings, Vec<FieldRecovery>))
    ensures
        r.0@ == document.settings(),
        r.1@ == document.recoveries(),
        whole_milliseconds(r.0@.tuning),
{
    let defaults = Settings::default();
    let mut recoveries: Vec<FieldRecovery> = Vec::new();
    let protection = read_bool(
        document.automatic_download_protection_enabled,
        SettingPath::AutomaticDownloadProtectionEnabled,
        defaults.automatic_download_protection_enabled(),
        &mut recoveries,
    );
    let on_battery = read_bool(
        document.protect_on_battery,
        SettingPath::ProtectOnBattery,
        defaults.protect_on_battery(),
        &mut recoveries,
    );
    let launch = read_bool(
        document.launch_at_login,
        SettingPath::LaunchAtLogin,
        defaults.launch_at_login(),
        &mut recoveries,
    );
    let update_checks = read_bool(
        document.automatic_update_checks_enabled,
        SettingPath::AutomaticUpdateChecksEnabled,
        defaults.automatic_update_checks_enabled(),
        &mut recoveries,
    );
    let last_check = read_optional_u64(
        document.last_automatic_update_check_unix_seconds,
        SettingPath::LastAutomaticUpdateCheckUnixSeconds,
        &mut recoveries,
    );
    let (rate, qualification, grace) = match document.automatic_download {
        JsonField::Object => (
            document.meaningful_receive_rate_bytes_per_second,
            document.activation_qualification_milliseconds,
            document.grace_milliseconds,
        ),
        _ => (JsonField::Missing, JsonField::Missing, JsonField::Missing),
    };
    let unavailable = match document.automatic_download {
        JsonField::Object => RecoveryReason::Missing,
        JsonField::Missing => RecoveryReason::Missing,
        _ => RecoveryReason::WrongType,
    };
    let tuning = defaults.automatic_download();
    let threshold: u64 = read_nested_u64(
        rate,
        SettingPath::MeaningfulReceiveRateBytesPerSecond,
        tuning.meaningful_receive_rate_bytes_per_second(),
        true,
        unavailable,
        &mut recoveries,
    );
    let activation: u64 = read_nested_u64(
        qualification,
        SettingPath::ActivationQualificationMilliseconds,
        tuning.activation_qualification().as_millis() as u64,
        true,
        unavailable,
        &mut recoveries,
    );
    let grace: u64 = read_nested_u64(
        grace,
        SettingPath::GraceMilliseconds,
        tuning.grace().as_millis() as u64,
        false,
        unavailable,
        &mut recoveries,
    );
    let settings = Settings::assemble(
        protection,
        on_battery,
        launch,
        update_checks,
        last_check,
        threshold,
        activation,
        grace,
    );
    assert(recoveries@ =~= document.recoveries());
    (settings, recoveries)
}

/// What a file says: settings of the current version or salvaged ones, a
/// layout of a later version, or nothing that can be used.
#[derive(Clone, Debug, PartialEq, Eq)]
pub enum DocumentLoad {
    Future(u64),
    Loaded { settings: Settings, recoveries: Vec<FieldRecovery>, condition: LoadCondition },
    Malformed,
}

/// Whether an outcome is what a document says. A later version is refused
/// whole; without a usable version the settings are salvaged all the same.
pub open spec fn loads(load: DocumentLoad, document: Option<SettingsDocument>) -> bool {
    match document {
        None => load is Malformed,
        Some(document) => match document.schema_version {
            JsonField::Unsigned(version) if version > SCHEMA_VERSION => load
                == DocumentLoad::Future(version),
            _ => {
                &&& load is Loaded
                &&& load->settings@ == document.settings()
                &&& load->recoveries@ == document.recoveries()
                &&& load->condition == document.condition()
            },
        },
    }
}

impl SettingsDocument {
    /// How settings count that are read from the document.
    pub open spec fn condition(self) -> LoadCondition {
        if self.schema_version != JsonField::Unsigned(SCHEMA_VERSION) {
            LoadCondition::SchemaMetadataRecovered
        } else if self.recoveries().len() == 0 {
            LoadCondition::CurrentVersion
        } else {
            LoadCondition::PartialRecovery
        }
    }
}

/// What the settings file says.
pub fn load_document(document: Option<SettingsDocument>) -> (r: DocumentLoad)
    ensures
        loads(r, document),
{
    let document = match document {
        None => return DocumentLoad::Malformed,
        Some(document) => document,
    };
    let current = match document.schema_version {
        JsonField::Unsigned(version) => {
            if version > SCHEMA_VERSION {
                return DocumentLoad::Future(version);
            }
            version == SCHEMA_VERSION
        },
        _ => false,
    };
    let (settings, recoveries) = from_object(&document);
    let condition = if !current {
        LoadCondition::SchemaMetadataRecovered
    } else if recoveries.len() == 0 {
        LoadCondition::CurrentVersion
    } else {
        LoadCondition::PartialRecovery
    };
    DocumentLoad::Loaded { settings, recoveries, condition }
}

/// What the backup of the settings file says.
#[derive(Clone, Copy, Debug, PartialEq, Eq)]
pub enum BackupLoad {
    Clean(Settings),
    UnsupportedFutureSchema(u64),
    Unusable,
}

/// Whether an outcome is what a backup says: a backup counts only whole.
pub open spec fn backs_up(load: BackupLoad, document: Option<SettingsDocument>) -> bool {
    match document {
        None => load is Unusable,
        Some(document) => match document.schema_version {
            JsonField::Unsigned(version) if version > SCHEMA_VERSION => load
                == BackupLoad::UnsupportedFutureSchema(version),
            _ => if document.condition() == LoadCondition::CurrentVersion {
                load is Clean && load->Clean_0@ == document.settings()
            } else {
                load is Unusable
            },
        },
    }
}

/// What the backup of the settings file says.
pub fn load_backup(document: Option<SettingsDocument>) -> (r: BackupLoad)
    ensures
        backs_up(r, document),
{
    match load_document(document) {
        DocumentLoad::Future(version) => BackupLoad::UnsupportedFutureSchema(version),
        DocumentLoad::Loaded { settings, recoveries, condition } => {
            if condition == LoadCondition::CurrentVersion {
                BackupLoad::Clean(settings)
            } else {
                BackupLoad::Unusable
            }
        },
        DocumentLoad::Malformed => BackupLoad::Unusable,
    }
}

/// The settings as they are saved.
#[derive(Clone, Copy, Debug, PartialEq, Eq, Structural)]
pub struct PersistedSettingsV1 {
    pub schema_version: u64,
    pub automatic_download_protection_enabled: bool,
    pub protect_on_battery: bool,
    pub launch_at_login: bool,
    pub automatic_update_checks_enabled: bool,
    pub last_automatic_update_check_unix_seconds: Option<u64>,
    pub automatic_download: PersistedAutomaticDownload,
}

/// The tuning of the detector as it is saved.
#[derive(Clone, Copy, Debug, PartialEq, Eq, Structural)]
pub struct PersistedAutomaticDownload {
    pub meaningful_receive_rate_bytes_per_second: u64,
    pub activation_qualification_milliseconds: u64,
    pub grace_milliseconds: u64,
}

/// The settings as they are saved.
pub open spec fn persisted(settings: SettingsModel) -> PersistedSettingsV1 {
    PersistedSettingsV1 {
        schema_version: SCHEMA_VERSION,
        automatic_download_protection_enabled: settings.protection,
        protect_on_battery: settings.on_battery,
        launch_at_login: settings.launch,
        automatic_update_checks_enabled: settings.update_checks,
        last_automatic_update_check_unix_seconds: settings.last_check,
        automatic_download: PersistedAutomaticDownload {
            meaningful_receive_rate_bytes_per_second: settings.tuning.rate as u64,
            activation_qualification_milliseconds: (settings.tuning.qualification
                / NANOS_PER_MILLISECOND as nat) as u64,
            grace_milliseconds: (settings.tuning.grace / NANOS_PER_MILLISECOND as nat) as u64,
        },
    }
}

/// The settings as they are saved.
pub fn to_persisted(settings: &Settings) -> (r: PersistedSettingsV1)
    ensures
        r == persisted(settings@),
{
    let tuning = settings.automatic_download();
    PersistedSettingsV1 {
        schema_version: SCHEMA_VERSION,
        automatic_download_protection_enabled: settings.automatic_download_protection_enabled(),
        protect_on_battery: settings.protect_on_battery(),
        launch_at_login: settings.launch_at_login(),
        automatic_update_checks_enabled: settings.automatic_update_checks_enabled(),
        last_automatic_update_check_unix_seconds:
            settings.last_automatic_update_check_unix_seconds(),
        automatic_download: PersistedAutomaticDownload {
            meaningful_receive_rate_bytes_per_second:
                tuning.meaningful_receive_rate_bytes_per_second(),
            activation_qualification_milliseconds:
                tuning.activation_qualification().as_millis() as u64,
            grace_milliseconds: tuning.grace().as_millis() as u64,
        },
    }
}

/// The document that saved settings make.
pub open spec fn saved_document(saved: PersistedSettingsV1) -> SettingsDocument {
    SettingsDocument {
        schema_version: JsonField::Unsigned(saved.schema_version),
        automatic_download_protection_enabled: JsonField::Bool(
            saved.automatic_download_protection_enabled,
        ),
        protect_on_battery: JsonField::Bool(saved.protect_on_battery),
        launch_at_login: JsonField::Bool(saved.launch_at_login),
        automatic_update_checks_enabled: JsonField::Bool(saved.automatic_update_checks_enabled),
        last_automatic_update_check_unix_seconds:
            match saved.last_automatic_update_check_unix_seconds {
            Some(value) => JsonField::Unsigned(value),
            None => JsonField::Null,
        },
        automatic_download: JsonField::Object,
        meaningful_receive_rate_bytes_per_second: JsonField::Unsigned(
            saved.automatic_download.meaningful_receive_rate_bytes_per_second,
        ),
        activation_qualification_milliseconds: JsonField::Unsigned(
            saved.automatic_download.activation_qualification_milliseconds,
        ),
        grace_milliseconds: JsonField::Unsigned(saved.automatic_download.grace_milliseconds),
    }
}

/// The members of the tuning in the file.
pub open spec fn saved_tuning_members(saved: PersistedSettingsV1) -> Map<Seq<char>, JsonTree> {
    no_members().insert(
        "meaningful_receive_rate_bytes_per_second"@,
        JsonTree::Unsigned(saved.automatic_download.meaningful_receive_rate_bytes_per_second),
    ).insert(
        "activation_qualification_milliseconds"@,
        JsonTree::Unsigned(saved.automatic_download.activation_qualification_milliseconds),
    ).insert(
        "grace_milliseconds"@,
        JsonTree::Unsigned(saved.automatic_download.grace_milliseconds),
    )
}

/// The keys of the tuning in the order of the file.
pub open spec fn saved_tuning_order() -> Seq<Seq<char>> {
    seq![
        "meaningful_receive_rate_bytes_per_second"@,
        "activation_qualification_milliseconds"@,
        "grace_milliseconds"@,
    ]
}

/// The members of the file.
pub open spec fn saved_members(saved: PersistedSettingsV1) -> Map<Seq<char>, JsonTree> {
    no_members().insert("schema_version"@, JsonTree::Unsigned(saved.schema_version)).insert(
        "automatic_download_protection_enabled"@,
        JsonTree::Bool(saved.automatic_download_protection_enabled),
    ).insert("protect_on_battery"@, JsonTree::Bool(saved.protect_on_battery)).insert(
        "launch_at_login"@,
        JsonTree::Bool(saved.launch_at_login),
    ).insert(
        "automatic_update_checks_enabled"@,
        JsonTree::Bool(saved.automatic_update_checks_enabled),
    ).insert(
        "last_automatic_update_check_unix_seconds"@,
        match saved.last_automatic_update_check_unix_seconds {
            Some(value) => JsonTree::Unsigned(value),
            None => JsonTree::Null,
        },
    ).insert(
        "automatic_download"@,
        JsonTree::Object(saved_tuning_members(saved), saved_tuning_order()),
    )
}

/// The keys in the order of the file.
pub open spec fn saved_order() -> Seq<Seq<char>> {
    seq![
        "schema_version"@,
        "automatic_download_protection_enabled"@,
        "protect_on_battery"@,
        "launch_at_login"@,
        "automatic_update_checks_enabled"@,
        "last_automatic_update_check_unix_seconds"@,
        "automatic_download"@,
    ]
}

/// The text of the file for saved settings.
pub open spec fn saved_text(saved: PersistedSettingsV1) -> Seq<u8> {
    pretty(saved_members(saved), saved_order())
}

/// The keys of the file differ from each other, and none begins with a dollar
/// sign.
proof fn keys_are_distinct()
    ensures
        "schema_version"@ != "automatic_download_protection_enabled"@,
        "schema_version"@ != "protect_on_battery"@,
        "schema_version"@ != "launch_at_login"@,
        "schema_version"@ != "automatic_update_checks_enabled"@,
        "schema_version"@ != "last_automatic_update_check_unix_seconds"@,
        "schema_version"@ != "automatic_download"@,
        "automatic_download_protection_enabled"@ != "protect_on_battery"@,
        "automatic_download_protection_enabled"@ != "launch_at_login"@,
        "automatic_download_protection_enabled"@ != "automatic_update_checks_enabled"@,
        "automatic_download_protection_enabled"@ != "last_automatic_update_check_unix_seconds"@,
        "automatic_download_protection_enabled"@ != "automatic_download"@,
        "protect_on_battery"@ != "launch_at_login"@,
        "protect_on_battery"@ != "automatic_update_checks_enabled"@,
        "protect_on_battery"@ != "last_automatic_update_check_unix_seconds"@,
        "protect_on_battery"@ != "automatic_download"@,
        "launch_at_login"@ != "automatic_update_checks_enabled"@,
        "launch_at_login"@ != "last_automatic_update_check_unix_seconds"@,
        "launch_at_login"@ != "automatic_download"@,
        "automatic_update_checks_enabled"@ != "last_automatic_update_check_unix_seconds"@,
        "automatic_update_checks_enabled"@ != "automatic_download"@,
        "last_automatic_update_check_unix_seconds"@ != "automatic_download"@,
        "meaningful_receive_rate_bytes_per_second"@ != "activation_qualification_milliseconds"@,
        "meaningful_receive_rate_bytes_per_second"@ != "grace_milliseconds"@,
        "activation_qualification_milliseconds"@ != "grace_milliseconds"@,
        "schema_version"@[0] != '$',
        "automatic_download_protection_enabled"@[0] != '$',
        "protect_on_battery"@[0] != '$',
        "launch_at_login"@[0] != '$',
        "automatic_update_checks_enabled"@[0] != '$',
        "last_automatic_update_check_unix_seconds"@[0] != '$',
        "automatic_download"@[0] != '$',
        "meaningful_receive_rate_bytes_per_second"@[0] != '$',
        "activation_qualification_milliseconds"@[0] != '$',
        "grace_milliseconds"@[0] != '$',
{
    reveal_strlit("schema_version");
    reveal_strlit("automatic_download_protection_enabled");
    reveal_strlit("protect_on_battery");
    reveal_strlit("launch_at_login");
    reveal_strlit("automatic_update_checks_enabled");
    reveal_strlit("last_automatic_update_check_unix_seconds");
    reveal_strlit("automatic_download");
    reveal_strlit("meaningful_receive_rate_bytes_per_second");
    reveal_strlit("activation_qualification_milliseconds");
    reveal_strlit("grace_milliseconds");
    assert("schema_version"@.len() == 14 && "schema_version"@[0] == 's');
    assert("automatic_download_protection_enabled"@.len() == 37
        && "automatic_download_protection_enabled"@[0] == 'a');
    assert("protect_on_battery"@.len() == 18 && "protect_on_battery"@[0] == 'p');
    assert("launch_at_login"@.len() == 15 && "launch_at_login"@[0] == 'l');
    assert("automatic_update_checks_enabled"@.len() == 31
        && "automatic_update_checks_enabled"@[0] == 'a');
    assert("last_automatic_update_check_unix_seconds"@.len() == 40
        && "last_automatic_update_check_unix_seconds"@[0] == 'l');
    assert("automatic_download"@.len() == 18 && "automatic_download"@[0] == 'a');
    assert("meaningful_receive_rate_bytes_per_second"@.len() == 40
        && "meaningful_receive_rate_bytes_per_second"@[0] == 'm');
    assert("activation_qualification_milliseconds"@.len() == 37
        && "activation_qualification_milliseconds"@[0] == 'a');
    assert("grace_milliseconds"@.len() == 18 && "grace_milliseconds"@[0] == 'g');
}

/// The text of the file for settings that are saved. What comes out is read
/// back as what went in. An error would be that of the JSON writer, which has
/// a text for every such file.
pub fn write_document(saved: &PersistedSettingsV1) -> (r: Result<Vec<u8>, serde_json::Error>)
    ensures
        r is Ok,
        r->Ok_0@ == saved_text(*saved),
        document_in(r->Ok_0@) == Some(saved_document(*saved)),
{
    proof {
        keys_are_distinct();
    }
    let mut detector = empty_object();
    insert(
        &mut detector,
        "meaningful_receive_rate_bytes_per_second",
        NewMember::Unsigned(saved.automatic_download.meaningful_receive_rate_bytes_per_second),
    );
    insert(
        &mut detector,
        "activation_qualification_milliseconds",
        NewMember::Unsigned(saved.automatic_download.activation_qualification_milliseconds),
    );
    insert(
        &mut detector,
        "grace_milliseconds",
        NewMember::Unsigned(saved.automatic_download.grace_milliseconds),
    );
    let ghost inner = members(detector);
    assert(key_order(detector) =~= saved_tuning_order());
    let mut object = empty_object();
    insert(&mut object, "schema_version", NewMember::Unsigned(saved.schema_version));
    insert(
        &mut object,
        "automatic_download_protection_enabled",
        NewMember::Bool(saved.automatic_download_protection_enabled),
    );
    insert(&mut object, "protect_on_battery", NewMember::Bool(saved.protect_on_battery));
    insert(&mut object, "launch_at_login", NewMember::Bool(saved.launch_at_login));
    insert(
        &mut object,
        "automatic_update_checks_enabled",
        NewMember::Bool(saved.automatic_update_checks_enabled),
    );
    let last_check = match saved.last_automatic_update_check_unix_seconds {
        Some(value) => NewMember::Unsigned(value),
        None => NewMember::Null,
    };
    insert(&mut object, "last_automatic_update_check_unix_seconds", last_check);
    insert(&mut object, "automatic_download", NewMember::Object(detector));
    proof {
        let outer = members(object);
        assert(key_order(object) =~= saved_order());
        assert(outer == saved_members(*saved));
        assert(ordinary(JsonTree::Object(inner, saved_tuning_order()), 99)) by {
            assert forall|key: Seq<char>| #[trigger] inner.dom().contains(key) implies ordinary(
                inner[key],
                98,
            ) && (key.len() > 0 ==> key[0] != '$') by {}
        }
        assert(ordinary(JsonTree::Object(outer, saved_order()), 100)) by {
            assert forall|key: Seq<char>| #[trigger] outer.dom().contains(key) implies ordinary(
                outer[key],
                99,
            ) && (key.len() > 0 ==> key[0] != '$') by {}
        }
        assert(nested(outer, "automatic_download"@) == inner);
        assert(document_of(outer) == saved_document(*saved));
    }
    write_object(&object)
}

/// What is saved is read back whole: the settings that a saved document says
/// are the settings that were saved, none of them fell back to its default,
/// and the document counts as one of the current version, as the file and as
/// its backup.
pub proof fn saved_settings_are_read_back(settings: SettingsModel)
    requires
        whole_milliseconds(settings.tuning),
    ensures
        ({
            let document = saved_document(persisted(settings));
            &&& document.settings() == settings
            &&& document.recoveries() == Seq::<FieldRecovery>::empty()
            &&& document.condition() == LoadCondition::CurrentVersion
        }),
{
    let document = saved_document(persisted(settings));
    let qualification = settings.tuning.qualification / NANOS_PER_MILLISECOND as nat;
    let grace = settings.tuning.grace / NANOS_PER_MILLISECOND as nat;
    assert(qualification * NANOS_PER_MILLISECOND as nat == settings.tuning.qualification);
    assert(grace * NANOS_PER_MILLISECOND as nat == settings.tuning.grace);
    assert(qualification > 0);
    assert(document.recoveries() =~= Seq::<FieldRecovery>::empty());
}

/// A setting that cannot be used falls back alone: changing one switch of a
/// document changes one setting.
pub proof fn settings_fall_back_alone(document: SettingsDocument, field: JsonField)
    ensures
        (SettingsDocument { protect_on_battery: field, ..document }).settings() == (SettingsModel {
            on_battery: bool_value(field, false),
            ..document.settings()
        }),
        (SettingsDocument {
            automatic_download_protection_enabled: field,
            ..document
        }).settings() == (SettingsModel {
            protection: bool_value(field, true),
            ..document.settings()
        }),
        (SettingsDocument { launch_at_login: field, ..document }).settings() == (SettingsModel {
            launch: bool_value(field, true),
            ..document.settings()
        }),
        (SettingsDocument {
            automatic_update_checks_enabled: field,
            ..document
        }).settings() == (SettingsModel {
            update_checks: bool_value(field, true),
            ..document.settings()
        }),
        (SettingsDocument {
            last_automatic_update_check_unix_seconds: field,
            ..document
        }).settings() == (SettingsModel {
            last_check: optional_value(field),
            ..document.settings()
        }),
{
}

/// Whatever a document says, the settings read from it are valid and can be
/// saved.
pub proof fn settings_read_are_valid(document: SettingsDocument)
    ensures
        whole_milliseconds(document.settings().tuning),
{
}

} // verus!
