//! The user's settings: what they are, how they are changed, and how they are
//! kept in a file that survives a crash in the middle of a change.

use crate::automatic_download::{
    AutomaticDownloadSettings, AutomaticDownloadSettingsError, TuningModel,
};
use crate::duration::{Duration, NANOS_PER_MILLISECOND};
use crate::text::{decimal, decimal_text};
use vstd::prelude::*;
use vstd::string::*;

pub mod document;
pub mod files;
pub mod json;
pub mod laws;
pub mod service;

verus! {

/// The user's settings.
#[derive(Clone, Copy, Debug, PartialEq, Eq, Structural)]
pub struct Settings {
    automatic_download_protection_enabled: bool,
    protect_on_battery: bool,
    launch_at_login: bool,
    automatic_update_checks_enabled: bool,
    last_automatic_update_check_unix_seconds: Option<u64>,
    automatic_download: AutomaticDownloadSettings,
}

/// The settings as a mathematical value.
pub ghost struct SettingsModel {
    pub protection: bool,
    pub on_battery: bool,
    pub launch: bool,
    pub update_checks: bool,
    pub last_check: Option<u64>,
    pub tuning: TuningModel,
}

impl SettingsModel {
    /// The settings of a user who has not touched them.
    pub open spec fn defaults() -> SettingsModel {
        SettingsModel {
            protection: true,
            on_battery: false,
            launch: true,
            update_checks: true,
            last_check: None,
            tuning: TuningModel::provisional(),
        }
    }

    /// The settings after a change, where the change is valid.
    pub open spec fn with(self, update: SettingsUpdate) -> Result<
        SettingsModel,
        AutomaticDownloadSettingsError,
    > {
        match update {
            SettingsUpdate::AutomaticDownloadProtectionEnabled(value) => Ok(
                SettingsModel { protection: value, ..self },
            ),
            SettingsUpdate::ProtectOnBattery(value) => Ok(
                SettingsModel { on_battery: value, ..self },
            ),
            SettingsUpdate::LaunchAtLogin(value) => Ok(SettingsModel { launch: value, ..self }),
            SettingsUpdate::AutomaticUpdateChecksEnabled(value) => Ok(
                SettingsModel { update_checks: value, ..self },
            ),
            SettingsUpdate::LastAutomaticUpdateCheckUnixSeconds(value) => Ok(
                SettingsModel { last_check: value, ..self },
            ),
            SettingsUpdate::AutomaticDownloadTuning {
                meaningful_receive_rate_bytes_per_second,
                activation_qualification_milliseconds,
                grace_milliseconds,
            } => if meaningful_receive_rate_bytes_per_second == 0 {
                Err(AutomaticDownloadSettingsError::ZeroMeaningfulReceiveRate)
            } else if activation_qualification_milliseconds == 0 {
                Err(AutomaticDownloadSettingsError::ZeroActivationQualification)
            } else {
                Ok(
                    SettingsModel {
                        tuning: TuningModel {
                            rate: meaningful_receive_rate_bytes_per_second as nat,
                            qualification: activation_qualification_milliseconds as nat
                                * NANOS_PER_MILLISECOND as nat,
                            grace: grace_milliseconds as nat * NANOS_PER_MILLISECOND as nat,
                        },
                        ..self
                    },
                )
            },
        }
    }
}

impl View for Settings {
    type V = SettingsModel;

    closed spec fn view(&self) -> SettingsModel {
        SettingsModel {
            protection: self.automatic_download_protection_enabled,
            on_battery: self.protect_on_battery,
            launch: self.launch_at_login,
            update_checks: self.automatic_update_checks_enabled,
            last_check: self.last_automatic_update_check_unix_seconds,
            tuning: self.automatic_download@,
        }
    }
}

/// Whether a tuning is valid and can be saved in milliseconds without loss.
pub open spec fn whole_milliseconds(tuning: TuningModel) -> bool {
    &&& tuning.valid()
    &&& tuning.rate <= u64::MAX
    &&& tuning.fits_milliseconds()
    &&& tuning.qualification % NANOS_PER_MILLISECOND as nat == 0
    &&& tuning.grace % NANOS_PER_MILLISECOND as nat == 0
}

/// A change of the settings.
#[derive(Clone, Copy, Debug, PartialEq, Eq, Structural)]
pub enum SettingsUpdate {
    AutomaticDownloadProtectionEnabled(bool),
    ProtectOnBattery(bool),
    LaunchAtLogin(bool),
    AutomaticUpdateChecksEnabled(bool),
    LastAutomaticUpdateCheckUnixSeconds(Option<u64>),
    AutomaticDownloadTuning {
        meaningful_receive_rate_bytes_per_second: u64,
        activation_qualification_milliseconds: u64,
        grace_milliseconds: u64,
    },
}

/// The word for a change in a log line.
pub open spec fn update_word(update: SettingsUpdate) -> &'static str {
    match update {
        SettingsUpdate::AutomaticDownloadProtectionEnabled(_) => "automatic-protection",
        SettingsUpdate::ProtectOnBattery(_) => "protect-on-battery",
        SettingsUpdate::LaunchAtLogin(_) => "launch-at-login",
        SettingsUpdate::AutomaticUpdateChecksEnabled(_) => "automatic-update-checks",
        SettingsUpdate::LastAutomaticUpdateCheckUnixSeconds(_) => "last-update-check",
        SettingsUpdate::AutomaticDownloadTuning { .. } => "automatic-download-tuning",
    }
}

/// The word for a change in a log line.
pub fn settings_update_field(update: &SettingsUpdate) -> (r: &'static str)
    ensures
        r == update_word(*update),
{
    match update {
        SettingsUpdate::AutomaticDownloadProtectionEnabled(_) => "automatic-protection",
        SettingsUpdate::ProtectOnBattery(_) => "protect-on-battery",
        SettingsUpdate::LaunchAtLogin(_) => "launch-at-login",
        SettingsUpdate::AutomaticUpdateChecksEnabled(_) => "automatic-update-checks",
        SettingsUpdate::LastAutomaticUpdateCheckUnixSeconds(_) => "last-update-check",
        SettingsUpdate::AutomaticDownloadTuning { .. } => "automatic-download-tuning",
    }
}

/// The step at which saving failed.
#[derive(Clone, Copy, Debug, PartialEq, Eq, Structural)]
pub enum SettingsPersistenceFailure {
    Unavailable,
    CreateDirectory,
    PreserveSource,
    Serialize,
    WriteBackup,
    WritePrimary,
    ReplaceBackup,
    ReplacePrimary,
}

/// Why a change was not made.
#[derive(Clone, Copy, Debug, PartialEq, Eq, Structural)]
pub enum SettingsUpdateError {
    InvalidAutomaticDownload(AutomaticDownloadSettingsError),
    Persistence(SettingsPersistenceFailure),
    UnsupportedFutureSchema(u64),
}

/// The name of a step at which saving failed.
pub open spec fn failure_word(failure: SettingsPersistenceFailure) -> Seq<char> {
    match failure {
        SettingsPersistenceFailure::Unavailable => "Unavailable"@,
        SettingsPersistenceFailure::CreateDirectory => "CreateDirectory"@,
        SettingsPersistenceFailure::PreserveSource => "PreserveSource"@,
        SettingsPersistenceFailure::Serialize => "Serialize"@,
        SettingsPersistenceFailure::WriteBackup => "WriteBackup"@,
        SettingsPersistenceFailure::WritePrimary => "WritePrimary"@,
        SettingsPersistenceFailure::ReplaceBackup => "ReplaceBackup"@,
        SettingsPersistenceFailure::ReplacePrimary => "ReplacePrimary"@,
    }
}

fn failure_name(failure: SettingsPersistenceFailure) -> (r: &'static str)
    ensures
        r@ == failure_word(failure),
{
    match failure {
        SettingsPersistenceFailure::Unavailable => "Unavailable",
        SettingsPersistenceFailure::CreateDirectory => "CreateDirectory",
        SettingsPersistenceFailure::PreserveSource => "PreserveSource",
        SettingsPersistenceFailure::Serialize => "Serialize",
        SettingsPersistenceFailure::WriteBackup => "WriteBackup",
        SettingsPersistenceFailure::WritePrimary => "WritePrimary",
        SettingsPersistenceFailure::ReplaceBackup => "ReplaceBackup",
        SettingsPersistenceFailure::ReplacePrimary => "ReplacePrimary",
    }
}

impl SettingsUpdateError {
    /// The error in words.
    pub open spec fn words(self) -> Seq<char> {
        match self {
            SettingsUpdateError::InvalidAutomaticDownload(error) => error.words(),
            SettingsUpdateError::Persistence(failure) => "settings persistence failed: "@
                + failure_word(failure),
            SettingsUpdateError::UnsupportedFutureSchema(version) => "settings schema version "@
                + decimal(version as nat) + " is not supported"@,
        }
    }

    /// The error in words.
    pub fn message(&self) -> (r: String)
        ensures
            r@ == self.words(),
    {
        match self {
            SettingsUpdateError::InvalidAutomaticDownload(error) => error.message(),
            SettingsUpdateError::Persistence(failure) => String::from_str(
                "settings persistence failed: ",
            ).concat(failure_name(*failure)),
            SettingsUpdateError::UnsupportedFutureSchema(version) => String::from_str(
                "settings schema version ",
            ).concat(decimal_text(*version as u128).as_str()).concat(" is not supported"),
        }
    }
}

/// How the settings came to be what they are.
#[derive(Clone, Copy, Debug, PartialEq, Eq, Structural)]
pub enum LoadCondition {
    FirstRun,
    CurrentVersion,
    PartialRecovery,
    RecoveredFromBackup,
    MalformedDefaulted,
    PersistenceUnavailable,
    SchemaMetadataRecovered,
    UnsupportedFutureSchema { found: u64 },
}

/// Whether changes can be saved.
#[derive(Clone, Copy, Debug, PartialEq, Eq, Structural)]
pub enum PersistenceCondition {
    Writable,
    Unavailable,
    BlockedByFutureSchema,
}

/// The word for a condition in a log line.
pub open spec fn load_word(condition: LoadCondition) -> &'static str {
    match condition {
        LoadCondition::FirstRun => "first-run",
        LoadCondition::CurrentVersion => "current-version",
        LoadCondition::PartialRecovery => "partial-recovery",
        LoadCondition::RecoveredFromBackup => "recovered-from-backup",
        LoadCondition::MalformedDefaulted => "malformed-defaulted",
        LoadCondition::PersistenceUnavailable => "persistence-unavailable",
        LoadCondition::SchemaMetadataRecovered => "schema-metadata-recovered",
        LoadCondition::UnsupportedFutureSchema { .. } => "unsupported-future-schema",
    }
}

/// The word for a condition in a log line.
pub fn load_condition_name(condition: LoadCondition) -> (r: &'static str)
    ensures
        r == load_word(condition),
{
    match condition {
        LoadCondition::FirstRun => "first-run",
        LoadCondition::CurrentVersion => "current-version",
        LoadCondition::PartialRecovery => "partial-recovery",
        LoadCondition::RecoveredFromBackup => "recovered-from-backup",
        LoadCondition::MalformedDefaulted => "malformed-defaulted",
        LoadCondition::PersistenceUnavailable => "persistence-unavailable",
        LoadCondition::SchemaMetadataRecovered => "schema-metadata-recovered",
        LoadCondition::UnsupportedFutureSchema { .. } => "unsupported-future-schema",
    }
}

/// The word for whether changes can be saved, in a log line.
pub open spec fn persistence_word(condition: PersistenceCondition) -> &'static str {
    match condition {
        PersistenceCondition::Writable => "writable",
        PersistenceCondition::Unavailable => "unavailable",
        PersistenceCondition::BlockedByFutureSchema => "blocked-future-schema",
    }
}

/// The word for whether changes can be saved, in a log line.
pub fn persistence_condition_name(condition: PersistenceCondition) -> (r: &'static str)
    ensures
        r == persistence_word(condition),
{
    match condition {
        PersistenceCondition::Writable => "writable",
        PersistenceCondition::Unavailable => "unavailable",
        PersistenceCondition::BlockedByFutureSchema => "blocked-future-schema",
    }
}

/// A file that could not be put in order.
#[derive(Clone, Copy, Debug, PartialEq, Eq, Structural)]
pub enum ArtifactWarning {
    StaleTemporary,
    Quarantine,
    QuarantineCleanup,
}

/// A setting.
#[derive(Clone, Copy, Debug, PartialEq, Eq, Structural)]
pub enum SettingPath {
    AutomaticDownloadProtectionEnabled,
    ProtectOnBattery,
    LaunchAtLogin,
    AutomaticUpdateChecksEnabled,
    LastAutomaticUpdateCheckUnixSeconds,
    MeaningfulReceiveRateBytesPerSecond,
    ActivationQualificationMilliseconds,
    GraceMilliseconds,
}

/// Why a setting fell back to its default.
#[derive(Clone, Copy, Debug, PartialEq, Eq, Structural)]
pub enum RecoveryReason {
    Missing,
    WrongType,
    InvalidValue,
}

/// A setting that fell back to its default, and why.
#[derive(Clone, Copy, Debug, PartialEq, Eq, Structural)]
pub struct FieldRecovery {
    pub path: SettingPath,
    pub reason: RecoveryReason,
}

impl FieldRecovery {
    /// A setting that fell back to its default, and why.
    pub fn new(path: SettingPath, reason: RecoveryReason) -> (r: FieldRecovery)
        ensures
            r == (FieldRecovery { path, reason }),
    {
        FieldRecovery { path, reason }
    }

    /// The setting.
    pub fn path(self) -> (r: SettingPath)
        ensures
            r == self.path,
    {
        self.path
    }

    /// Why it fell back.
    pub fn reason(self) -> (r: RecoveryReason)
        ensures
            r == self.reason,
    {
        self.reason
    }
}

impl Default for Settings {
    fn default() -> (r: Settings)
        ensures
            r@ == SettingsModel::defaults(),
    {
        Settings {
            automatic_download_protection_enabled: true,
            protect_on_battery: false,
            launch_at_login: true,
            automatic_update_checks_enabled: true,
            last_automatic_update_check_unix_seconds: None,
            automatic_download: AutomaticDownloadSettings::default(),
        }
    }
}

/// Whole milliseconds come out of whole milliseconds unchanged.
proof fn milliseconds_survive(count: nat)
    ensures
        (count * NANOS_PER_MILLISECOND as nat) / NANOS_PER_MILLISECOND as nat == count,
        (count * NANOS_PER_MILLISECOND as nat) % NANOS_PER_MILLISECOND as nat == 0,
{
}

impl Settings {
    #[verifier::type_invariant]
    spec fn can_be_saved(self) -> bool {
        whole_milliseconds(self.automatic_download@)
    }

    /// Settings of given values, of which neither the rate nor the
    /// qualification is zero.
    pub(crate) fn assemble(
        protection: bool,
        on_battery: bool,
        launch: bool,
        update_checks: bool,
        last_check: Option<u64>,
        rate: u64,
        qualification_milliseconds: u64,
        grace_milliseconds: u64,
    ) -> (r: Settings)
        requires
            rate > 0,
            qualification_milliseconds > 0,
        ensures
            r@ == (SettingsModel {
                protection,
                on_battery,
                launch,
                update_checks,
                last_check,
                tuning: TuningModel {
                    rate: rate as nat,
                    qualification: qualification_milliseconds as nat
                        * NANOS_PER_MILLISECOND as nat,
                    grace: grace_milliseconds as nat * NANOS_PER_MILLISECOND as nat,
                },
            }),
            whole_milliseconds(r@.tuning),
    {
        proof {
            milliseconds_survive(qualification_milliseconds as nat);
            milliseconds_survive(grace_milliseconds as nat);
        }
        let automatic_download = match AutomaticDownloadSettings::try_new(
            rate,
            Duration::from_millis(qualification_milliseconds),
            Duration::from_millis(grace_milliseconds),
        ) {
            Ok(tuning) => tuning,
            Err(_) => AutomaticDownloadSettings::default(),
        };
        Settings {
            automatic_download_protection_enabled: protection,
            protect_on_battery: on_battery,
            launch_at_login: launch,
            automatic_update_checks_enabled: update_checks,
            last_automatic_update_check_unix_seconds: last_check,
            automatic_download,
        }
    }

    /// Whether downloads may keep the computer awake.
    pub fn automatic_download_protection_enabled(&self) -> (r: bool)
        ensures
            r == self@.protection,
    {
        self.automatic_download_protection_enabled
    }

    /// Whether they may on any power.
    pub fn protect_on_battery(&self) -> (r: bool)
        ensures
            r == self@.on_battery,
    {
        self.protect_on_battery
    }

    /// Whether the program is started when the user logs in.
    pub fn launch_at_login(&self) -> (r: bool)
        ensures
            r == self@.launch,
    {
        self.launch_at_login
    }

    /// Whether updates are looked for without being asked.
    pub fn automatic_update_checks_enabled(&self) -> (r: bool)
        ensures
            r == self@.update_checks,
    {
        self.automatic_update_checks_enabled
    }

    /// When they were last looked for without being asked, in seconds since
    /// the Unix epoch.
    pub fn last_automatic_update_check_unix_seconds(&self) -> (r: Option<u64>)
        ensures
            r == self@.last_check,
    {
        self.last_automatic_update_check_unix_seconds
    }

    /// How the detector is tuned.
    pub fn automatic_download(&self) -> (r: AutomaticDownloadSettings)
        ensures
            r@ == self@.tuning,
            whole_milliseconds(r@),
    {
        proof {
            use_type_invariant(self);
        }
        self.automatic_download
    }

    /// Makes a change. One that is not valid changes nothing.
    pub fn apply(&mut self, update: SettingsUpdate) -> (r: Result<(), SettingsUpdateError>)
        ensures
            match old(self)@.with(update) {
                Ok(settings) => r is Ok && final(self)@ == settings,
                Err(error) => {
                    &&& r == Err::<(), SettingsUpdateError>(
                        SettingsUpdateError::InvalidAutomaticDownload(error),
                    )
                    &&& final(self)@ == old(self)@
                },
            },
    {
        proof {
            use_type_invariant(&*self);
        }
        match update {
            SettingsUpdate::AutomaticDownloadProtectionEnabled(value) => {
                self.automatic_download_protection_enabled = value;
            },
            SettingsUpdate::ProtectOnBattery(value) => {
                self.protect_on_battery = value;
            },
            SettingsUpdate::LaunchAtLogin(value) => {
                self.launch_at_login = value;
            },
            SettingsUpdate::AutomaticUpdateChecksEnabled(value) => {
                self.automatic_update_checks_enabled = value;
            },
            SettingsUpdate::LastAutomaticUpdateCheckUnixSeconds(value) => {
                self.last_automatic_update_check_unix_seconds = value;
            },
            SettingsUpdate::AutomaticDownloadTuning {
                meaningful_receive_rate_bytes_per_second,
                activation_qualification_milliseconds,
                grace_milliseconds,
            } => {
                proof {
                    milliseconds_survive(activation_qualification_milliseconds as nat);
                    milliseconds_survive(grace_milliseconds as nat);
                }
                match AutomaticDownloadSettings::try_new(
                    meaningful_receive_rate_bytes_per_second,
                    Duration::from_millis(activation_qualification_milliseconds),
                    Duration::from_millis(grace_milliseconds),
                ) {
                    Ok(tuning) => {
                        self.automatic_download = tuning;
                    },
                    Err(error) => {
                        return Err(SettingsUpdateError::InvalidAutomaticDownload(error));
                    },
                }
            },
        }
        Ok(())
    }
}

} // verus!
