//! The diagnostic report: what it says, line by line, and how long it may be.
//!
//! Texts from outside the program are in it only where every character of
//! them is harmless.

use super::{
    ApplicationFacts, AutomaticFacts, DetectorFacts, DiagnosticInput, InterfaceFacts,
    LaunchAtLoginFacts, ManualFacts, NetworkFacts, PlatformInfo, PowerFacts, SettingsFacts,
    UpdaterFacts, WakeFacts,
};
use crate::application::{ApplicationStatus, CapabilityId, StartupFailurePoint};
use crate::automatic_download::AutomaticDownloadState;
use crate::automatic_protection::{AutomaticProtectionSuppression, PowerSource};
use crate::duration::{NANOS_PER_MILLISECOND, NANOS_PER_SECOND};
use crate::launch_at_login::{LaunchAtLoginFailureStage, Registration};
use crate::local_log::{
    version, version_word, LocalLog, LoggingFailureStage, LoggingHealth, ARCHIVE_COUNT,
    MAX_FILE_SIZE,
};
use crate::manual_session::{text_view, ManualSessionState};
use crate::network_activity::{
    NetworkActivityFailure, NetworkActivitySourceStatus, NetworkInterfaceContinuity,
};
use crate::power_source::{PowerSourceObserverHealth, PowerSourceOperation};
use crate::settings::{
    ArtifactWarning, FieldRecovery, LoadCondition, PersistenceCondition, RecoveryReason,
    SettingPath, SettingsPersistenceFailure,
};
use crate::text::{
    all_chars, bool_text, bool_word, byte_length, byte_length_of_sum, decimal, decimal_text,
    digits_value, is_alphanumeric, is_alphanumeric_char, is_digit, is_digit_char, join_texts,
    joined, length_in_bytes, split,
};
use crate::updater::{
    PendingUpdateView, UpdateAvailability, UpdateFailureStage, UpdateStatus, UpdateTrigger,
};
use crate::wake_coordinator::{ProtectionState, WakeReason};
use vstd::prelude::*;
use vstd::string::*;

verus! {

/// The most bytes that a report may have.
pub const MAX_DIAGNOSTIC_BYTES: usize = 65_536;

/// The most interfaces that a report lists.
pub const MAX_INTERFACES: usize = 64;

/// The bytes of the line that says that lines were left out.
pub const OMITTED_MARKER_BYTES: usize = 20;

/// The line that says that lines were left out.
pub open spec fn omitted_marker() -> Seq<char> {
    "output_omitted=true\n"@
}

/// The word for a status of the program.
pub open spec fn application_status_word(status: ApplicationStatus) -> Seq<char> {
    match status {
        ApplicationStatus::Starting => "starting"@,
        ApplicationStatus::Ready => "ready"@,
        ApplicationStatus::Degraded => "degraded"@,
        ApplicationStatus::Failed => "failed"@,
        ApplicationStatus::ShuttingDown => "shutting-down"@,
        ApplicationStatus::Stopped => "stopped"@,
    }
}

/// The word for a status of the program.
pub fn application_status(status: ApplicationStatus) -> (r: &'static str)
    ensures
        r@ == application_status_word(status),
{
    match status {
        ApplicationStatus::Starting => "starting",
        ApplicationStatus::Ready => "ready",
        ApplicationStatus::Degraded => "degraded",
        ApplicationStatus::Failed => "failed",
        ApplicationStatus::ShuttingDown => "shutting-down",
        ApplicationStatus::Stopped => "stopped",
    }
}

/// The word for a power source.
pub open spec fn power_source_word(source: PowerSource) -> Seq<char> {
    match source {
        PowerSource::External => "external"@,
        PowerSource::Limited => "limited"@,
        PowerSource::Unknown => "unknown"@,
    }
}

/// The word for a power source.
pub fn power_source(source: PowerSource) -> (r: &'static str)
    ensures
        r@ == power_source_word(source),
{
    match source {
        PowerSource::External => "external",
        PowerSource::Limited => "limited",
        PowerSource::Unknown => "unknown",
    }
}

/// The word for a suppression.
pub open spec fn suppression_word(value: AutomaticProtectionSuppression) -> Seq<char> {
    match value {
        AutomaticProtectionSuppression::AutomaticDisabled => "automatic-disabled"@,
        AutomaticProtectionSuppression::LimitedPower => "limited-power"@,
        AutomaticProtectionSuppression::UnknownPower => "unknown-power"@,
    }
}

/// The word for a suppression.
pub fn suppression(value: AutomaticProtectionSuppression) -> (r: &'static str)
    ensures
        r@ == suppression_word(value),
{
    match value {
        AutomaticProtectionSuppression::AutomaticDisabled => "automatic-disabled",
        AutomaticProtectionSuppression::LimitedPower => "limited-power",
        AutomaticProtectionSuppression::UnknownPower => "unknown-power",
    }
}

/// The word for the health of the power source's observer.
pub open spec fn power_health_word(health: PowerSourceObserverHealth) -> Seq<char> {
    match health {
        PowerSourceObserverHealth::Starting => "starting"@,
        PowerSourceObserverHealth::Observing => "observing"@,
        PowerSourceObserverHealth::Degraded => "degraded"@,
        PowerSourceObserverHealth::Stopped => "stopped"@,
    }
}

/// The word for the health of the power source's observer.
pub fn power_health(health: PowerSourceObserverHealth) -> (r: &'static str)
    ensures
        r@ == power_health_word(health),
{
    match health {
        PowerSourceObserverHealth::Starting => "starting",
        PowerSourceObserverHealth::Observing => "observing",
        PowerSourceObserverHealth::Degraded => "degraded",
        PowerSourceObserverHealth::Stopped => "stopped",
    }
}

/// The word for what was asked of the power source.
pub open spec fn power_operation_word(operation: PowerSourceOperation) -> Seq<char> {
    match operation {
        PowerSourceOperation::Registration => "registration"@,
        PowerSourceOperation::Sample => "sample"@,
        PowerSourceOperation::Unregistration => "unregistration"@,
    }
}

/// The word for what was asked of the power source.
pub fn power_operation(operation: PowerSourceOperation) -> (r: &'static str)
    ensures
        r@ == power_operation_word(operation),
{
    match operation {
        PowerSourceOperation::Registration => "registration",
        PowerSourceOperation::Sample => "sample",
        PowerSourceOperation::Unregistration => "unregistration",
    }
}

/// The word for a status of the network activity's source.
pub open spec fn network_status_word(status: NetworkActivitySourceStatus) -> Seq<char> {
    match status {
        NetworkActivitySourceStatus::NotStarted => "not-started"@,
        NetworkActivitySourceStatus::Starting => "starting"@,
        NetworkActivitySourceStatus::Available => "available"@,
        NetworkActivitySourceStatus::Unavailable => "unavailable"@,
        NetworkActivitySourceStatus::Stopped => "stopped"@,
    }
}

/// The word for a status of the network activity's source.
pub fn network_status(status: NetworkActivitySourceStatus) -> (r: &'static str)
    ensures
        r@ == network_status_word(status),
{
    match status {
        NetworkActivitySourceStatus::NotStarted => "not-started",
        NetworkActivitySourceStatus::Starting => "starting",
        NetworkActivitySourceStatus::Available => "available",
        NetworkActivitySourceStatus::Unavailable => "unavailable",
        NetworkActivitySourceStatus::Stopped => "stopped",
    }
}

/// The word for a failure of the network activity's source.
pub open spec fn network_failure_word(failure: NetworkActivityFailure) -> Seq<char> {
    match failure {
        NetworkActivityFailure::ProviderRead => "provider-read"@,
    }
}

/// The word for a failure of the network activity's source.
pub fn network_failure(failure: NetworkActivityFailure) -> (r: &'static str)
    ensures
        r@ == network_failure_word(failure),
{
    match failure {
        NetworkActivityFailure::ProviderRead => "provider-read",
    }
}

/// The word for how a reading stands to the one before.
pub open spec fn continuity_word(value: NetworkInterfaceContinuity) -> Seq<char> {
    match value {
        NetworkInterfaceContinuity::New => "new"@,
        NetworkInterfaceContinuity::Continuous => "continuous"@,
        NetworkInterfaceContinuity::CounterReset => "counter-reset"@,
        NetworkInterfaceContinuity::Removed => "removed"@,
    }
}

/// The word for how a reading stands to the one before.
pub fn continuity(value: NetworkInterfaceContinuity) -> (r: &'static str)
    ensures
        r@ == continuity_word(value),
{
    match value {
        NetworkInterfaceContinuity::New => "new",
        NetworkInterfaceContinuity::Continuous => "continuous",
        NetworkInterfaceContinuity::CounterReset => "counter-reset",
        NetworkInterfaceContinuity::Removed => "removed",
    }
}

/// The word for a registration at login.
pub open spec fn registration_word(value: Registration) -> Seq<char> {
    match value {
        Registration::Enabled => "enabled"@,
        Registration::Disabled => "disabled"@,
        Registration::Unknown => "unknown"@,
    }
}

/// The word for a registration at login.
pub fn registration(value: Registration) -> (r: &'static str)
    ensures
        r@ == registration_word(value),
{
    match value {
        Registration::Enabled => "enabled",
        Registration::Disabled => "disabled",
        Registration::Unknown => "unknown",
    }
}

/// The word for a step of the registration at login.
pub open spec fn launch_stage_word(stage: LaunchAtLoginFailureStage) -> Seq<char> {
    match stage {
        LaunchAtLoginFailureStage::Initialize => "initialize"@,
        LaunchAtLoginFailureStage::Enable => "enable"@,
        LaunchAtLoginFailureStage::Disable => "disable"@,
        LaunchAtLoginFailureStage::Verify => "verify"@,
    }
}

/// The word for a step of the registration at login.
pub fn launch_stage(stage: LaunchAtLoginFailureStage) -> (r: &'static str)
    ensures
        r@ == launch_stage_word(stage),
{
    match stage {
        LaunchAtLoginFailureStage::Initialize => "initialize",
        LaunchAtLoginFailureStage::Enable => "enable",
        LaunchAtLoginFailureStage::Disable => "disable",
        LaunchAtLoginFailureStage::Verify => "verify",
    }
}

/// The word for whether updates can be looked for.
pub open spec fn update_availability_word(value: UpdateAvailability) -> Seq<char> {
    match value {
        UpdateAvailability::Available => "available"@,
        UpdateAvailability::Unconfigured => "unconfigured"@,
        UpdateAvailability::InitializationFailed => "initialization-failed"@,
    }
}

/// The word for whether updates can be looked for.
pub fn update_availability(value: UpdateAvailability) -> (r: &'static str)
    ensures
        r@ == update_availability_word(value),
{
    match value {
        UpdateAvailability::Available => "available",
        UpdateAvailability::Unconfigured => "unconfigured",
        UpdateAvailability::InitializationFailed => "initialization-failed",
    }
}

/// The word for who asked for an update.
pub open spec fn update_trigger_word(trigger: UpdateTrigger) -> Seq<char> {
    match trigger {
        UpdateTrigger::Automatic => "automatic"@,
        UpdateTrigger::Manual => "manual"@,
    }
}

/// The word for who asked for an update.
pub fn update_trigger(trigger: UpdateTrigger) -> (r: &'static str)
    ensures
        r@ == update_trigger_word(trigger),
{
    match trigger {
        UpdateTrigger::Automatic => "automatic",
        UpdateTrigger::Manual => "manual",
    }
}

/// The word for a step of an update.
pub open spec fn update_stage_word(stage: UpdateFailureStage) -> Seq<char> {
    match stage {
        UpdateFailureStage::Scheduling => "scheduling"@,
        UpdateFailureStage::Check => "check"@,
        UpdateFailureStage::Download => "download"@,
        UpdateFailureStage::Verification => "verification"@,
        UpdateFailureStage::Install => "install"@,
        UpdateFailureStage::Restart => "restart"@,
    }
}

/// The word for a step of an update.
pub fn update_stage(stage: UpdateFailureStage) -> (r: &'static str)
    ensures
        r@ == update_stage_word(stage),
{
    match stage {
        UpdateFailureStage::Scheduling => "scheduling",
        UpdateFailureStage::Check => "check",
        UpdateFailureStage::Download => "download",
        UpdateFailureStage::Verification => "verification",
        UpdateFailureStage::Install => "install",
        UpdateFailureStage::Restart => "restart",
    }
}

/// The word for the native protection.
pub open spec fn protection_word(value: ProtectionState) -> Seq<char> {
    match value {
        ProtectionState::Inactive => "inactive"@,
        ProtectionState::Active => "active"@,
    }
}

/// The word for the native protection.
pub fn protection(value: ProtectionState) -> (r: &'static str)
    ensures
        r@ == protection_word(value),
{
    match value {
        ProtectionState::Inactive => "inactive",
        ProtectionState::Active => "active",
    }
}

/// The word for a reason to keep the computer awake.
pub open spec fn wake_reason_word(reason: WakeReason) -> Seq<char> {
    match reason {
        WakeReason::AutomaticDownload => "automatic-download"@,
        WakeReason::ManualKeepAwake => "manual-keep-awake"@,
    }
}

/// The word for a reason to keep the computer awake.
pub fn wake_reason(reason: WakeReason) -> (r: &'static str)
    ensures
        r@ == wake_reason_word(reason),
{
    match reason {
        WakeReason::AutomaticDownload => "automatic-download",
        WakeReason::ManualKeepAwake => "manual-keep-awake",
    }
}

/// The word for whether changes can be saved.
pub open spec fn persistence_word(value: PersistenceCondition) -> Seq<char> {
    match value {
        PersistenceCondition::Writable => "writable"@,
        PersistenceCondition::Unavailable => "unavailable"@,
        PersistenceCondition::BlockedByFutureSchema => "blocked-by-future-schema"@,
    }
}

/// The word for whether changes can be saved.
pub fn persistence(value: PersistenceCondition) -> (r: &'static str)
    ensures
        r@ == persistence_word(value),
{
    match value {
        PersistenceCondition::Writable => "writable",
        PersistenceCondition::Unavailable => "unavailable",
        PersistenceCondition::BlockedByFutureSchema => "blocked-by-future-schema",
    }
}

/// The word for a file that could not be put in order.
pub open spec fn artifact_warning_word(value: ArtifactWarning) -> Seq<char> {
    match value {
        ArtifactWarning::StaleTemporary => "stale-temporary"@,
        ArtifactWarning::Quarantine => "quarantine"@,
        ArtifactWarning::QuarantineCleanup => "quarantine-cleanup"@,
    }
}

/// The word for a file that could not be put in order.
pub fn artifact_warning(value: ArtifactWarning) -> (r: &'static str)
    ensures
        r@ == artifact_warning_word(value),
{
    match value {
        ArtifactWarning::StaleTemporary => "stale-temporary",
        ArtifactWarning::Quarantine => "quarantine",
        ArtifactWarning::QuarantineCleanup => "quarantine-cleanup",
    }
}

/// The word for a setting.
pub open spec fn setting_path_word(value: SettingPath) -> Seq<char> {
    match value {
        SettingPath::AutomaticDownloadProtectionEnabled => "automatic-download-protection"@,
        SettingPath::ProtectOnBattery => "protect-on-battery"@,
        SettingPath::LaunchAtLogin => "launch-at-login"@,
        SettingPath::AutomaticUpdateChecksEnabled => "automatic-update-checks"@,
        SettingPath::LastAutomaticUpdateCheckUnixSeconds => "last-automatic-update-check"@,
        SettingPath::MeaningfulReceiveRateBytesPerSecond => "meaningful-receive-rate"@,
        SettingPath::ActivationQualificationMilliseconds => "activation-qualification"@,
        SettingPath::GraceMilliseconds => "grace"@,
    }
}

/// The word for a setting.
pub fn setting_path(value: SettingPath) -> (r: &'static str)
    ensures
        r@ == setting_path_word(value),
{
    match value {
        SettingPath::AutomaticDownloadProtectionEnabled => "automatic-download-protection",
        SettingPath::ProtectOnBattery => "protect-on-battery",
        SettingPath::LaunchAtLogin => "launch-at-login",
        SettingPath::AutomaticUpdateChecksEnabled => "automatic-update-checks",
        SettingPath::LastAutomaticUpdateCheckUnixSeconds => "last-automatic-update-check",
        SettingPath::MeaningfulReceiveRateBytesPerSecond => "meaningful-receive-rate",
        SettingPath::ActivationQualificationMilliseconds => "activation-qualification",
        SettingPath::GraceMilliseconds => "grace",
    }
}

/// The word for why a setting fell back to its default.
pub open spec fn recovery_reason_word(value: RecoveryReason) -> Seq<char> {
    match value {
        RecoveryReason::Missing => "missing"@,
        RecoveryReason::WrongType => "wrong-type"@,
        RecoveryReason::InvalidValue => "invalid-value"@,
    }
}

/// The word for why a setting fell back to its default.
pub fn recovery_reason(value: RecoveryReason) -> (r: &'static str)
    ensures
        r@ == recovery_reason_word(value),
{
    match value {
        RecoveryReason::Missing => "missing",
        RecoveryReason::WrongType => "wrong-type",
        RecoveryReason::InvalidValue => "invalid-value",
    }
}

/// The word for a step of saving the settings.
pub open spec fn settings_failure_word(value: SettingsPersistenceFailure) -> Seq<char> {
    match value {
        SettingsPersistenceFailure::Unavailable => "unavailable"@,
        SettingsPersistenceFailure::CreateDirectory => "create-directory"@,
        SettingsPersistenceFailure::PreserveSource => "preserve-source"@,
        SettingsPersistenceFailure::Serialize => "serialize"@,
        SettingsPersistenceFailure::WriteBackup => "write-backup"@,
        SettingsPersistenceFailure::WritePrimary => "write-primary"@,
        SettingsPersistenceFailure::ReplaceBackup => "replace-backup"@,
        SettingsPersistenceFailure::ReplacePrimary => "replace-primary"@,
    }
}

/// The word for a step of saving the settings.
pub fn settings_failure(value: SettingsPersistenceFailure) -> (r: &'static str)
    ensures
        r@ == settings_failure_word(value),
{
    match value {
        SettingsPersistenceFailure::Unavailable => "unavailable",
        SettingsPersistenceFailure::CreateDirectory => "create-directory",
        SettingsPersistenceFailure::PreserveSource => "preserve-source",
        SettingsPersistenceFailure::Serialize => "serialize",
        SettingsPersistenceFailure::WriteBackup => "write-backup",
        SettingsPersistenceFailure::WritePrimary => "write-primary",
        SettingsPersistenceFailure::ReplaceBackup => "replace-backup",
        SettingsPersistenceFailure::ReplacePrimary => "replace-primary",
    }
}

/// The word for the health of the local log.
pub open spec fn logging_health_word(value: LoggingHealth) -> Seq<char> {
    match value {
        LoggingHealth::Available => "available"@,
        LoggingHealth::Unavailable(LoggingFailureStage::ResolveDirectory) =>
            "unavailable:directory-resolution"@,
        LoggingHealth::Unavailable(LoggingFailureStage::CreateDirectory) =>
            "unavailable:directory-creation"@,
        LoggingHealth::Unavailable(LoggingFailureStage::Open) => "unavailable:open"@,
        LoggingHealth::Unavailable(LoggingFailureStage::Prune) => "unavailable:prune"@,
        LoggingHealth::Unavailable(LoggingFailureStage::Rotate) => "unavailable:rotation"@,
        LoggingHealth::Unavailable(LoggingFailureStage::Write) => "unavailable:write"@,
        LoggingHealth::Unavailable(LoggingFailureStage::Flush) => "unavailable:flush"@,
    }
}

/// The word for the health of the local log.
pub fn logging_health_name(value: LoggingHealth) -> (r: &'static str)
    ensures
        r@ == logging_health_word(value),
{
    match value {
        LoggingHealth::Available => "available",
        LoggingHealth::Unavailable(LoggingFailureStage::ResolveDirectory) =>
            "unavailable:directory-resolution",
        LoggingHealth::Unavailable(LoggingFailureStage::CreateDirectory) =>
            "unavailable:directory-creation",
        LoggingHealth::Unavailable(LoggingFailureStage::Open) => "unavailable:open",
        LoggingHealth::Unavailable(LoggingFailureStage::Prune) => "unavailable:prune",
        LoggingHealth::Unavailable(LoggingFailureStage::Rotate) => "unavailable:rotation",
        LoggingHealth::Unavailable(LoggingFailureStage::Write) => "unavailable:write",
        LoggingHealth::Unavailable(LoggingFailureStage::Flush) => "unavailable:flush",
    }
}

/// The views of lines.
pub open spec fn texts(lines: Seq<String>) -> Seq<Seq<char>> {
    lines.map_values(|line: String| line@)
}

proof fn texts_of_push(lines: Seq<String>, line: String)
    ensures
        texts(lines.push(line)) == texts(lines).push(line@),
{
    assert(texts(lines.push(line)) =~= texts(lines).push(line@));
}

/// A report that is being written.
#[derive(Debug)]
pub struct BoundedText {
    text: String,
    omitted: bool,
}

/// A report that is being written, as a mathematical value.
pub ghost struct BoundedModel {
    pub text: Seq<char>,
    pub omitted: bool,
}

impl View for BoundedText {
    type V = BoundedModel;

    closed spec fn view(&self) -> BoundedModel {
        BoundedModel { text: self.text@, omitted: self.omitted }
    }
}

impl BoundedModel {
    /// A report without lines.
    pub open spec fn empty() -> BoundedModel {
        BoundedModel { text: Seq::empty(), omitted: false }
    }

    /// With one more line, where it fits together with the line that says that
    /// lines were left out. Once a line was left out, so are all after it.
    pub open spec fn with_line(self, line: Seq<char>) -> BoundedModel {
        if self.omitted {
            self
        } else if byte_length(self.text) + byte_length(line) + 1 + OMITTED_MARKER_BYTES
            > MAX_DIAGNOSTIC_BYTES {
            BoundedModel { omitted: true, ..self }
        } else {
            BoundedModel { text: self.text + line + "\n"@, ..self }
        }
    }

    /// With more lines.
    pub open spec fn with_lines(self, lines: Seq<Seq<char>>) -> BoundedModel
        decreases lines.len(),
    {
        if lines.len() == 0 {
            self
        } else {
            self.with_lines(lines.drop_last()).with_line(lines.last())
        }
    }

    /// The report.
    pub open spec fn finished(self) -> Seq<char> {
        if self.omitted {
            self.text + omitted_marker()
        } else {
            self.text
        }
    }

    /// Whether there is room for the line that says that lines were left out.
    pub open spec fn has_room(self) -> bool {
        byte_length(self.text) + OMITTED_MARKER_BYTES <= MAX_DIAGNOSTIC_BYTES
    }
}

proof fn marker_bytes()
    ensures
        byte_length(omitted_marker()) == OMITTED_MARKER_BYTES,
        byte_length("\n"@) == 1,
        byte_length(Seq::<char>::empty()) == 0,
{
    reveal_strlit("output_omitted=true\n");
    reveal_strlit("\n");
    assert(vstd::utf8::is_ascii_chars("output_omitted=true\n"@));
    assert(vstd::utf8::is_ascii_chars("\n"@));
    crate::text::byte_length_of_ascii("output_omitted=true\n"@);
    crate::text::byte_length_of_ascii("\n"@);
    crate::text::byte_length_of_ascii(Seq::<char>::empty());
}

impl BoundedText {
    #[verifier::type_invariant]
    spec fn is_bounded(self) -> bool {
        self@.has_room()
    }

    /// A report without lines.
    pub fn new() -> (r: BoundedText)
        ensures
            r@ == BoundedModel::empty(),
    {
        proof {
            marker_bytes();
            assert(""@ =~= Seq::<char>::empty()) by {
                reveal_strlit("");
            }
        }
        let text = String::new();
        assert(text@ =~= Seq::<char>::empty());
        BoundedText { text, omitted: false }
    }

    /// Adds a line, where it fits.
    pub fn line(&mut self, line: &str)
        ensures
            final(self)@ == old(self)@.with_line(line@),
    {
        proof {
            use_type_invariant(&*self);
            marker_bytes();
        }
        if self.omitted {
            return;
        }
        let used: usize = length_in_bytes(self.text.as_str());
        let needed: usize = length_in_bytes(line);
        let left: usize = MAX_DIAGNOSTIC_BYTES - OMITTED_MARKER_BYTES - used;
        if needed >= left {
            self.omitted = true;
            return;
        }
        let ghost before = self.text@;
        let mut text = String::new();
        core::mem::swap(&mut self.text, &mut text);
        text.append(line);
        text.append("\n");
        proof {
            byte_length_of_sum(before, line@);
            byte_length_of_sum(before + line@, "\n"@);
        }
        *self = BoundedText { text, omitted: false };
    }

    /// Adds lines, as far as they fit.
    pub fn lines(&mut self, lines: &Vec<String>)
        ensures
            final(self)@ == old(self)@.with_lines(texts(lines@)),
    {
        let ghost all = texts(lines@);
        let mut i: usize = 0;
        assert(all.take(0) =~= Seq::empty());
        while i < lines.len()
            invariant
                i <= lines.len(),
                all == texts(lines@),
                self@ == old(self)@.with_lines(all.take(i as int)),
            decreases lines.len() - i,
        {
            let ghost upto = all.take(i + 1);
            assert(upto.drop_last() =~= all.take(i as int));
            assert(upto.last() == lines@[i as int]@);
            self.line(lines[i].as_str());
            i = i + 1;
        }
        assert(all.take(i as int) =~= all);
    }

    /// The report.
    pub fn finish(self) -> (r: String)
        ensures
            r@ == self@.finished(),
            byte_length(r@) <= MAX_DIAGNOSTIC_BYTES,
    {
        proof {
            use_type_invariant(&self);
            marker_bytes();
            byte_length_of_sum(self.text@, omitted_marker());
        }
        if self.omitted {
            self.text.concat("output_omitted=true\n")
        } else {
            self.text
        }
    }
}

/// The characters of which a text from outside may be made.
pub open spec fn is_harmless(c: char) -> bool {
    is_alphanumeric(c) || c == ' ' || c == '.' || c == '-' || c == '_' || c == '+' || c == '('
        || c == ')'
}

/// Whether a text is a part of a dotted network address: up to three digits
/// that make at most 255.
pub open spec fn is_octet(part: Seq<char>) -> bool {
    1 <= part.len() <= 3 && all_chars(part, |c: char| is_digit(c)) && digits_value(part) <= 255
}

/// Whether a text has the form of a dotted network address.
pub open spec fn is_address(text: Seq<char>) -> bool {
    let parts = split(text, '.');
    parts.len() == 4 && forall|i: int| 0 <= i < 4 ==> is_octet(#[trigger] parts[i])
}

/// What the report says of a text from outside.
pub open spec fn external_words(text: Seq<char>, maximum_bytes: nat) -> Seq<char> {
    if text.len() > 0 && byte_length(text) <= maximum_bytes && !is_address(text) && all_chars(
        text,
        |c: char| is_harmless(c),
    ) {
        text
    } else {
        "unavailable"@
    }
}

/// The characters of which a time may be made.
pub open spec fn is_time_char(c: char) -> bool {
    is_digit(c) || c == 'T' || c == 'Z' || c == ':' || c == '.' || c == '-' || c == '+'
}

/// What the report says of the time at which it was made.
pub open spec fn timestamp_words(text: Seq<char>) -> Seq<char> {
    if text.len() > 0 && byte_length(text) <= 64 && all_chars(text, |c: char| is_time_char(c)) {
        text
    } else {
        "unavailable"@
    }
}

/// Whether a text has the form of a dotted network address.
pub fn looks_like_ipv4(value: &str) -> (r: bool)
    ensures
        r == is_address(value@),
{
    let length: usize = value.unicode_len();
    let mut parts: u128 = 1;
    let mut sound = true;
    let mut digits: usize = 0;
    let mut numeric = true;
    let mut number: u32 = 0;
    let mut i: usize = 0;
    let ghost whole = value@;
    assert(whole.take(0) =~= Seq::empty());
    assert(split(whole.take(0), '.') =~= seq![Seq::<char>::empty()]);
    while i < length
        invariant
            i <= length,
            whole == value@,
            length == whole.len(),
            1 <= parts <= i + 1,
            digits <= i,
            split(whole.take(i as int), '.').len() == parts,
            sound <==> forall|k: int|
                0 <= k < parts - 1 ==> is_octet(#[trigger] split(whole.take(i as int), '.')[k]),
            digits == split(whole.take(i as int), '.').last().len(),
            numeric <==> all_chars(
                split(whole.take(i as int), '.').last(),
                |c: char| is_digit(c),
            ),
            number <= 9_999,
            numeric && digits <= 4 ==> number == digits_value(
                split(whole.take(i as int), '.').last(),
            ),
        decreases length - i,
    {
        let c = value.get_char(i);
        let ghost before = split(whole.take(i as int), '.');
        let ghost after = split(whole.take(i + 1), '.');
        let ghost part = before.last();
        proof {
            assert(whole.take(i + 1).drop_last() =~= whole.take(i as int));
            assert(whole.take(i + 1).last() == c);
        }
        if c == '.' {
            let octet = 1 <= digits && digits <= 3 && numeric && number <= 255;
            proof {
                assert(octet == is_octet(part));
                assert(after == before.push(Seq::<char>::empty()));
                assert(after.last() =~= Seq::<char>::empty());
                assert forall|k: int| 0 <= k < parts implies after[k] == before[k] by {}
                assert(before[parts - 1] == part);
                if sound && octet {
                    assert forall|k: int| 0 <= k < parts implies is_octet(#[trigger] after[k]) by {
                        assert(after[k] == before[k]);
                        if k < parts - 1 {
                            assert(is_octet(before[k]));
                        }
                    }
                } else if !sound {
                    let k = choose|k: int| 0 <= k < parts - 1 && !is_octet(#[trigger] before[k]);
                    assert(after[k] == before[k]);
                    assert(!is_octet(after[k]));
                } else {
                    assert(!is_octet(after[parts - 1]));
                }
            }
            sound = sound && octet;
            parts = parts + 1;
            digits = 0;
            numeric = true;
            number = 0;
        } else {
            let digit_here = is_digit_char(c);
            proof {
                let longer = part.push(c);
                assert(after == before.drop_last().push(longer));
                assert(after.last() == longer);
                assert(longer.drop_last() =~= part);
                assert(longer.last() == c);
                assert forall|k: int| 0 <= k < parts - 1 implies after[k] == before[k] by {}
                if sound {
                    assert forall|k: int| 0 <= k < parts - 1 implies is_octet(#[trigger] after[k]) by {
                        assert(is_octet(before[k]));
                    }
                } else {
                    let k = choose|k: int| 0 <= k < parts - 1 && !is_octet(#[trigger] before[k]);
                    assert(!is_octet(after[k]));
                }
                if numeric && digit_here {
                    assert forall|k: int| 0 <= k < longer.len() implies is_digit(
                        #[trigger] longer[k],
                    ) by {
                        if k < part.len() {
                            assert(longer[k] == part[k]);
                        }
                    }
                } else if !numeric {
                    let k = choose|k: int| 0 <= k < part.len() && !is_digit(#[trigger] part[k]);
                    assert(longer[k] == part[k]);
                    assert(!is_digit(longer[k]));
                } else {
                    assert(!is_digit(longer[part.len() as int]));
                }
            }
            if numeric && digit_here && digits < 4 {
                proof {
                    small_numbers_are_small(part);
                }
                number = 10 * number + (c as u32 - '0' as u32);
            }
            numeric = numeric && digit_here;
            digits = digits + 1;
        }
        i = i + 1;
    }
    proof {
        assert(whole.take(length as int) =~= whole);
        let all = split(whole, '.');
        let octet = 1 <= digits && digits <= 3 && numeric && number <= 255;
        assert(octet == is_octet(all.last()));
        if parts == 4 {
            assert(all[3] == all.last());
            if sound && octet {
                assert forall|k: int| 0 <= k < 4 implies is_octet(#[trigger] all[k]) by {
                    if k < 3 {
                        assert(is_octet(all[k]));
                    }
                }
            } else if !sound {
                let k = choose|k: int| 0 <= k < 3 && !is_octet(#[trigger] all[k]);
                assert(!is_octet(all[k]));
            } else {
                assert(!is_octet(all[3]));
            }
        }
    }
    parts == 4 && sound && 1 <= digits && digits <= 3 && numeric && number <= 255
}

proof fn small_numbers_are_small(digits: Seq<char>)
    requires
        all_chars(digits, |c: char| is_digit(c)),
        digits.len() <= 3,
    ensures
        digits_value(digits) <= 999,
        digits.len() <= 2 ==> digits_value(digits) <= 99,
        digits.len() <= 1 ==> digits_value(digits) <= 9,
        digits.len() == 0 ==> digits_value(digits) == 0,
    decreases digits.len(),
{
    if digits.len() > 0 {
        let rest = digits.drop_last();
        assert forall|k: int| 0 <= k < rest.len() implies is_digit(#[trigger] rest[k]) by {
            assert(digits[k] == rest[k]);
        }
        assert(is_digit(digits[digits.len() - 1]));
        small_numbers_are_small(rest);
    }
}

/// What the report says of a text from outside: the text itself where it is
/// short, made of harmless characters and no network address, and a word in
/// its place where it is not.
pub fn safe_external(value: &str, maximum_bytes: usize) -> (r: String)
    ensures
        r@ == external_words(value@, maximum_bytes as nat),
{
    if value.is_empty() || length_in_bytes(value) > maximum_bytes || looks_like_ipv4(value) {
        return String::from_str("unavailable");
    }
    let length: usize = value.unicode_len();
    let mut i: usize = 0;
    while i < length
        invariant
            i <= length,
            length == value@.len(),
            forall|k: int| 0 <= k < i ==> is_harmless(#[trigger] value@[k]),
        decreases length - i,
    {
        let c = value.get_char(i);
        if !(is_alphanumeric_char(c) || c == ' ' || c == '.' || c == '-' || c == '_' || c == '+'
            || c == '(' || c == ')') {
            assert(!is_harmless(value@[i as int]));
            return String::from_str("unavailable");
        }
        i = i + 1;
    }
    String::from_str(value)
}

/// What the report says of the time at which it was made.
pub fn safe_timestamp(value: &str) -> (r: String)
    ensures
        r@ == timestamp_words(value@),
{
    if value.is_empty() || length_in_bytes(value) > 64 {
        return String::from_str("unavailable");
    }
    let length: usize = value.unicode_len();
    let mut i: usize = 0;
    while i < length
        invariant
            i <= length,
            length == value@.len(),
            forall|k: int| 0 <= k < i ==> is_time_char(#[trigger] value@[k]),
        decreases length - i,
    {
        let c = value.get_char(i);
        if !(is_digit_char(c) || c == 'T' || c == 'Z' || c == ':' || c == '.' || c == '-' || c
            == '+') {
            assert(!is_time_char(value@[i as int]));
            return String::from_str("unavailable");
        }
        i = i + 1;
    }
    String::from_str(value)
}

/// The point at which starting came to its end, in words.
pub open spec fn startup_words(failure: StartupFailurePoint) -> Seq<char> {
    match failure {
        StartupFailurePoint::Settings => "settings"@,
        StartupFailurePoint::Required(capability) => "required-capability:"@ + capability.0@,
    }
}

/// The point at which starting came to its end, in words.
pub fn startup_failure(failure: StartupFailurePoint) -> (r: String)
    ensures
        r@ == startup_words(failure),
{
    match failure {
        StartupFailurePoint::Settings => String::from_str("settings"),
        StartupFailurePoint::Required(capability) => String::from_str(
            "required-capability:",
        ).concat(capability.as_str()),
    }
}

/// Capabilities in words.
pub open spec fn capabilities_words(capabilities: Seq<CapabilityId>) -> Seq<char> {
    if capabilities.len() == 0 {
        "none"@
    } else {
        joined(capabilities.map_values(|capability: CapabilityId| capability.0@), ","@)
    }
}

/// Capabilities in words.
pub fn joined_capabilities(capabilities: &Vec<CapabilityId>) -> (r: String)
    ensures
        r@ == capabilities_words(capabilities@),
{
    if capabilities.len() == 0 {
        return String::from_str("none");
    }
    let mut names: Vec<&'static str> = Vec::new();
    let mut i: usize = 0;
    while i < capabilities.len()
        invariant
            i <= capabilities.len(),
            names@ == capabilities@.take(i as int).map_values(
                |capability: CapabilityId| capability.0,
            ),
        decreases capabilities.len() - i,
    {
        names.push(capabilities[i].as_str());
        i = i + 1;
        assert(names@ =~= capabilities@.take(i as int).map_values(
            |capability: CapabilityId| capability.0,
        ));
    }
    assert(names@.map_values(|part: &'static str| part@) =~= capabilities@.map_values(
        |capability: CapabilityId| capability.0@,
    ));
    join_texts(&names, ",")
}

/// Reasons to keep the computer awake, in words.
pub open spec fn reasons_words(reasons: Seq<WakeReason>) -> Seq<char> {
    if reasons.len() == 0 {
        "none"@
    } else {
        joined(reasons.map_values(|reason: WakeReason| wake_reason_word(reason)), ","@)
    }
}

/// Reasons to keep the computer awake, in words.
pub fn wake_reasons(reasons: &Vec<WakeReason>) -> (r: String)
    ensures
        r@ == reasons_words(reasons@),
{
    if reasons.len() == 0 {
        return String::from_str("none");
    }
    let mut names: Vec<&'static str> = Vec::new();
    let mut i: usize = 0;
    while i < reasons.len()
        invariant
            i <= reasons.len(),
            names@.map_values(|part: &'static str| part@) == reasons@.take(i as int).map_values(
                |reason: WakeReason| wake_reason_word(reason),
            ),
        decreases reasons.len() - i,
    {
        let ghost prior = names@;
        let name = wake_reason(reasons[i]);
        names.push(name);
        i = i + 1;
        assert(names@.map_values(|part: &'static str| part@) =~= prior.map_values(
            |part: &'static str| part@,
        ).push(name@));
        assert(reasons@.take(i as int) =~= reasons@.take(i - 1).push(reasons@[i - 1]));
        assert(reasons@.take(i as int).map_values(|reason: WakeReason| wake_reason_word(reason))
            =~= reasons@.take(i - 1).map_values(
            |reason: WakeReason| wake_reason_word(reason),
        ).push(name@));
    }
    assert(reasons@.take(i as int) =~= reasons@);
    join_texts(&names, ",")
}

/// The manual session in words.
pub open spec fn manual_words(state: ManualSessionState) -> Seq<char> {
    match state {
        ManualSessionState::Inactive => "inactive"@,
        ManualSessionState::Finite { remaining } => "finite remaining_seconds="@ + decimal(
            remaining@ / NANOS_PER_SECOND as nat,
        ),
        ManualSessionState::UntilDisabled => "until-disabled"@,
    }
}

/// The manual session in words.
pub fn manual_state(state: &ManualSessionState) -> (r: String)
    ensures
        r@ == manual_words(*state),
{
    match state {
        ManualSessionState::Inactive => String::from_str("inactive"),
        ManualSessionState::Finite { remaining } => String::from_str(
            "finite remaining_seconds=",
        ).concat(decimal_text(remaining.as_secs() as u128).as_str()),
        ManualSessionState::UntilDisabled => String::from_str("until-disabled"),
    }
}

/// The detector in words.
pub open spec fn detector_words(state: AutomaticDownloadState) -> Seq<char> {
    match state {
        AutomaticDownloadState::Idle => "idle"@,
        AutomaticDownloadState::Active => "active"@,
        AutomaticDownloadState::Hold { remaining_grace } => "hold remaining_milliseconds="@
            + decimal(remaining_grace@ / NANOS_PER_MILLISECOND as nat),
    }
}

/// The detector in words.
pub fn detector_state(state: &AutomaticDownloadState) -> (r: String)
    ensures
        r@ == detector_words(*state),
{
    match state {
        AutomaticDownloadState::Idle => String::from_str("idle"),
        AutomaticDownloadState::Active => String::from_str("active"),
        AutomaticDownloadState::Hold { remaining_grace } => String::from_str(
            "hold remaining_milliseconds=",
        ).concat(decimal_text(remaining_grace.as_millis()).as_str()),
    }
}

/// How the settings came to be what they are, in words.
pub open spec fn load_words(condition: LoadCondition) -> Seq<char> {
    match condition {
        LoadCondition::FirstRun => "first-run"@,
        LoadCondition::CurrentVersion => "current-version"@,
        LoadCondition::PartialRecovery => "partial-recovery"@,
        LoadCondition::RecoveredFromBackup => "recovered-from-backup"@,
        LoadCondition::MalformedDefaulted => "malformed-defaulted"@,
        LoadCondition::PersistenceUnavailable => "persistence-unavailable"@,
        LoadCondition::SchemaMetadataRecovered => "schema-metadata-recovered"@,
        LoadCondition::UnsupportedFutureSchema { found } => "unsupported-future-schema:"@
            + decimal(found as nat),
    }
}

/// How the settings came to be what they are, in words.
pub fn load_condition(condition: LoadCondition) -> (r: String)
    ensures
        r@ == load_words(condition),
{
    match condition {
        LoadCondition::FirstRun => String::from_str("first-run"),
        LoadCondition::CurrentVersion => String::from_str("current-version"),
        LoadCondition::PartialRecovery => String::from_str("partial-recovery"),
        LoadCondition::RecoveredFromBackup => String::from_str("recovered-from-backup"),
        LoadCondition::MalformedDefaulted => String::from_str("malformed-defaulted"),
        LoadCondition::PersistenceUnavailable => String::from_str("persistence-unavailable"),
        LoadCondition::SchemaMetadataRecovered => String::from_str("schema-metadata-recovered"),
        LoadCondition::UnsupportedFutureSchema { found } => String::from_str(
            "unsupported-future-schema:",
        ).concat(decimal_text(found as u128).as_str()),
    }
}

/// What the report says of an update's version.
pub open spec fn version_words(version: Option<Seq<char>>) -> Seq<char> {
    match version {
        Some(version) => external_words(version, 64),
        None => "unavailable"@,
    }
}

/// What the report says of an update's version.
pub fn safe_version(version: Option<&str>) -> (r: String)
    ensures
        r@ == version_words(
            match version {
                Some(version) => Some(version@),
                None => None,
            },
        ),
{
    match version {
        Some(version) => safe_external(version, 64),
        None => String::from_str("unavailable"),
    }
}

/// What the report says of the version of an update that can still be
/// installed.
pub open spec fn pending_words(pending: Option<PendingUpdateView>) -> Seq<char> {
    match pending {
        Some(pending) => version_words(pending.version_view()),
        None => "unavailable"@,
    }
}

/// What the report says of the version of an update that can still be
/// installed.
pub fn pending_version(pending: &Option<PendingUpdateView>) -> (r: String)
    ensures
        r@ == pending_words(*pending),
{
    match pending {
        Some(pending) => safe_version(pending.version()),
        None => String::from_str("unavailable"),
    }
}

fn version_text(version: &Option<String>) -> (r: String)
    ensures
        r@ == version_words(text_view(*version)),
{
    match version {
        Some(version) => safe_external(version.as_str(), 64),
        None => String::from_str("unavailable"),
    }
}

fn labelled(label: &str, value: &str) -> (r: String)
    ensures
        r@ == label@ + value@,
{
    String::from_str(label).concat(value)
}

fn numbered(label: &str, value: u128) -> (r: String)
    ensures
        r@ == label@ + decimal(value as nat),
{
    String::from_str(label).concat(decimal_text(value).as_str())
}

/// The lines on an update.
pub open spec fn update_lines(status: UpdateStatus) -> Seq<Seq<char>> {
    match status {
        UpdateStatus::Idle => seq!["status=idle"@],
        UpdateStatus::Checking(trigger) => seq![
            "status=checking"@,
            "trigger="@ + update_trigger_word(trigger),
        ],
        UpdateStatus::UpToDate => seq!["status=up-to-date"@],
        UpdateStatus::UpdateAvailable { version } => seq![
            "status=update-available"@,
            "target_version="@ + version_words(text_view(version)),
        ],
        UpdateStatus::AwaitingConfirmation { version } => seq![
            "status=awaiting-confirmation"@,
            "target_version="@ + version_words(text_view(version)),
        ],
        UpdateStatus::Downloading { version, percent } => seq![
            "status=downloading"@,
            "target_version="@ + version_words(text_view(version)),
            match percent {
                Some(percent) => "progress_percent="@ + decimal(percent as nat),
                None => "progress_percent=unavailable"@,
            },
        ],
        UpdateStatus::Installing { version } => seq![
            "status=installing"@,
            "target_version="@ + version_words(text_view(version)),
        ],
        UpdateStatus::Failed { stage, trigger, pending } => seq![
            "status=failed"@,
            "failure_stage="@ + update_stage_word(stage),
            "trigger="@ + update_trigger_word(trigger),
            "target_version="@ + pending_words(pending),
        ],
    }
}

/// The lines on an update.
pub fn update_status(status: &UpdateStatus) -> (r: Vec<String>)
    ensures
        texts(r@) == update_lines(*status),
{
    let mut lines: Vec<String> = Vec::new();
    match status {
        UpdateStatus::Idle => {
            lines.push(String::from_str("status=idle"));
        },
        UpdateStatus::Checking(trigger) => {
            lines.push(String::from_str("status=checking"));
            lines.push(labelled("trigger=", update_trigger(*trigger)));
        },
        UpdateStatus::UpToDate => {
            lines.push(String::from_str("status=up-to-date"));
        },
        UpdateStatus::UpdateAvailable { version } => {
            lines.push(String::from_str("status=update-available"));
            lines.push(labelled("target_version=", version_text(version).as_str()));
        },
        UpdateStatus::AwaitingConfirmation { version } => {
            lines.push(String::from_str("status=awaiting-confirmation"));
            lines.push(labelled("target_version=", version_text(version).as_str()));
        },
        UpdateStatus::Downloading { version, percent } => {
            lines.push(String::from_str("status=downloading"));
            lines.push(labelled("target_version=", version_text(version).as_str()));
            lines.push(
                match percent {
                    Some(percent) => numbered("progress_percent=", *percent as u128),
                    None => String::from_str("progress_percent=unavailable"),
                },
            );
        },
        UpdateStatus::Installing { version } => {
            lines.push(String::from_str("status=installing"));
            lines.push(labelled("target_version=", version_text(version).as_str()));
        },
        UpdateStatus::Failed { stage, trigger, pending } => {
            lines.push(String::from_str("status=failed"));
            lines.push(labelled("failure_stage=", update_stage(*stage)));
            lines.push(labelled("trigger=", update_trigger(*trigger)));
            lines.push(labelled("target_version=", pending_version(pending).as_str()));
        },
    }
    assert(texts(lines@) =~= update_lines(*status));
    lines
}

/// The lines on the life of the program.
pub open spec fn application_section(facts: ApplicationFacts) -> Seq<Seq<char>> {
    seq![
        "status="@ + application_status_word(facts.status),
        "unavailable_capabilities="@ + capabilities_words(facts.unavailable_capabilities@),
        "startup_failure="@ + match facts.startup_failure {
            Some(failure) => startup_words(failure),
            None => "none"@,
        },
        "cleanup_failures="@ + capabilities_words(facts.cleanup_failures@),
    ]
}

/// The lines on the life of the program.
pub fn application_lines(facts: &ApplicationFacts) -> (r: Vec<String>)
    ensures
        texts(r@) == application_section(*facts),
{
    let mut lines: Vec<String> = Vec::new();
    lines.push(labelled("status=", application_status(facts.status)));
    lines.push(
        labelled(
            "unavailable_capabilities=",
            joined_capabilities(&facts.unavailable_capabilities).as_str(),
        ),
    );
    let failure = match facts.startup_failure {
        Some(failure) => startup_failure(failure),
        None => String::from_str("none"),
    };
    lines.push(labelled("startup_failure=", failure.as_str()));
    lines.push(
        labelled("cleanup_failures=", joined_capabilities(&facts.cleanup_failures).as_str()),
    );
    assert(texts(lines@) =~= application_section(*facts));
    lines
}

/// The line on a setting that fell back to its default.
pub open spec fn recovery_line(recovery: FieldRecovery) -> Seq<char> {
    "field_recovery="@ + setting_path_word(recovery.path) + " reason="@ + recovery_reason_word(
        recovery.reason,
    )
}

/// The line on a file that could not be put in order.
pub open spec fn warning_line(warning: ArtifactWarning) -> Seq<char> {
    "artifact_warning="@ + artifact_warning_word(warning)
}

/// The lines on the settings.
pub open spec fn settings_section(facts: SettingsFacts) -> Seq<Seq<char>> {
    seq![
        "automatic_download_protection="@ + bool_word(facts.automatic_download_protection),
        "protect_on_battery="@ + bool_word(facts.protect_on_battery),
        "launch_at_login="@ + bool_word(facts.launch_at_login),
        "automatic_update_checks="@ + bool_word(facts.automatic_update_checks),
        "threshold_bytes_per_second="@ + decimal(facts.threshold_bytes_per_second as nat),
        "qualification_milliseconds="@ + decimal(
            facts.qualification@ / NANOS_PER_MILLISECOND as nat,
        ),
        "grace_milliseconds="@ + decimal(facts.grace@ / NANOS_PER_MILLISECOND as nat),
        "load_condition="@ + load_words(facts.load_condition),
        "persistence="@ + persistence_word(facts.persistence),
    ] + facts.field_recoveries@.map_values(|recovery: FieldRecovery| recovery_line(recovery))
        + facts.artifact_warnings@.map_values(|warning: ArtifactWarning| warning_line(warning))
        + match facts.last_save_failure {
        Some(failure) => seq!["last_save_failure="@ + settings_failure_word(failure)],
        None => Seq::empty(),
    }
}

/// The lines on the settings.
pub fn settings_lines(facts: &SettingsFacts) -> (r: Vec<String>)
    ensures
        texts(r@) == settings_section(*facts),
{
    let mut lines: Vec<String> = Vec::new();
    lines.push(
        labelled(
            "automatic_download_protection=",
            bool_text(facts.automatic_download_protection),
        ),
    );
    lines.push(labelled("protect_on_battery=", bool_text(facts.protect_on_battery)));
    lines.push(labelled("launch_at_login=", bool_text(facts.launch_at_login)));
    lines.push(labelled("automatic_update_checks=", bool_text(facts.automatic_update_checks)));
    lines.push(
        numbered("threshold_bytes_per_second=", facts.threshold_bytes_per_second as u128),
    );
    lines.push(numbered("qualification_milliseconds=", facts.qualification.as_millis()));
    lines.push(numbered("grace_milliseconds=", facts.grace.as_millis()));
    lines.push(labelled("load_condition=", load_condition(facts.load_condition).as_str()));
    lines.push(labelled("persistence=", persistence(facts.persistence)));
    let ghost head = texts(lines@);
    let ghost recovered = facts.field_recoveries@.map_values(
        |recovery: FieldRecovery| recovery_line(recovery),
    );
    let mut i: usize = 0;
    assert(head + recovered.take(0) =~= head);
    while i < facts.field_recoveries.len()
        invariant
            i <= facts.field_recoveries.len(),
            recovered == facts.field_recoveries@.map_values(
                |recovery: FieldRecovery| recovery_line(recovery),
            ),
            texts(lines@) == head + recovered.take(i as int),
        decreases facts.field_recoveries.len() - i,
    {
        let recovery = facts.field_recoveries[i];
        let line = labelled("field_recovery=", setting_path(recovery.path)).concat(
            " reason=",
        ).concat(recovery_reason(recovery.reason));
        proof {
            texts_of_push(lines@, line);
            assert(recovered.take(i + 1) =~= recovered.take(i as int).push(line@));
        }
        lines.push(line);
        i = i + 1;
        assert(texts(lines@) =~= head + recovered.take(i as int));
    }
    assert(recovered.take(i as int) =~= recovered);
    let ghost so_far = texts(lines@);
    let ghost warned = facts.artifact_warnings@.map_values(
        |warning: ArtifactWarning| warning_line(warning),
    );
    let mut j: usize = 0;
    assert(so_far + warned.take(0) =~= so_far);
    while j < facts.artifact_warnings.len()
        invariant
            j <= facts.artifact_warnings.len(),
            warned == facts.artifact_warnings@.map_values(
                |warning: ArtifactWarning| warning_line(warning),
            ),
            texts(lines@) == so_far + warned.take(j as int),
        decreases facts.artifact_warnings.len() - j,
    {
        let line = labelled("artifact_warning=", artifact_warning(facts.artifact_warnings[j]));
        proof {
            texts_of_push(lines@, line);
            assert(warned.take(j + 1) =~= warned.take(j as int).push(line@));
        }
        lines.push(line);
        j = j + 1;
        assert(texts(lines@) =~= so_far + warned.take(j as int));
    }
    assert(warned.take(j as int) =~= warned);
    let ghost almost = texts(lines@);
    match facts.last_save_failure {
        Some(failure) => {
            let line = labelled("last_save_failure=", settings_failure(failure));
            proof {
                texts_of_push(lines@, line);
            }
            lines.push(line);
        },
        None => {},
    }
    assert(head =~= settings_section(*facts).take(9));
    assert(almost =~= head + recovered + warned);
    assert(texts(lines@) =~= settings_section(*facts));
    lines
}

/// Whether the wake coordinator failed, in words.
pub open spec fn wake_failure_word(failed: bool) -> Seq<char> {
    if failed {
        "wake-coordination"@
    } else {
        "none"@
    }
}

fn wake_failure(failed: bool) -> (r: &'static str)
    ensures
        r@ == wake_failure_word(failed),
{
    if failed {
        "wake-coordination"
    } else {
        "none"
    }
}

/// The lines on the manual session.
pub open spec fn manual_section(facts: ManualFacts) -> Seq<Seq<char>> {
    seq![
        "state="@ + manual_words(facts.state),
        "background_failure="@ + wake_failure_word(facts.background_failure),
    ]
}

/// The lines on the manual session.
pub fn manual_lines(facts: &ManualFacts) -> (r: Vec<String>)
    ensures
        texts(r@) == manual_section(*facts),
{
    let mut lines: Vec<String> = Vec::new();
    lines.push(labelled("state=", manual_state(&facts.state).as_str()));
    lines.push(labelled("background_failure=", wake_failure(facts.background_failure)));
    assert(texts(lines@) =~= manual_section(*facts));
    lines
}

/// The lines on the detector.
pub open spec fn detector_section(facts: DetectorFacts) -> Seq<Seq<char>> {
    seq![
        "state="@ + detector_words(facts.state),
        match facts.latest_receive_rate_bytes_per_second {
            Some(rate) => "aggregate_receive_bytes_per_second="@ + decimal(rate as nat),
            None => "aggregate_receive_bytes_per_second=unavailable"@,
        },
    ]
}

/// The lines on the detector.
pub fn detector_lines(facts: &DetectorFacts) -> (r: Vec<String>)
    ensures
        texts(r@) == detector_section(*facts),
{
    let mut lines: Vec<String> = Vec::new();
    lines.push(labelled("state=", detector_state(&facts.state).as_str()));
    lines.push(
        match facts.latest_receive_rate_bytes_per_second {
            Some(rate) => numbered("aggregate_receive_bytes_per_second=", rate),
            None => String::from_str("aggregate_receive_bytes_per_second=unavailable"),
        },
    );
    assert(texts(lines@) =~= detector_section(*facts));
    lines
}

/// The lines on the automatic protection.
pub open spec fn automatic_section(facts: AutomaticFacts) -> Seq<Seq<char>> {
    seq![
        "preference_enabled="@ + bool_word(facts.preference_enabled),
        "protect_on_battery="@ + bool_word(facts.protect_on_battery),
        "detector_intent="@ + bool_word(facts.detector_intent),
        "desired_automatic_reason="@ + bool_word(facts.desired_automatic_reason),
        "suppression="@ + match facts.suppression {
            Some(reason) => suppression_word(reason),
            None => "none"@,
        },
        "coordination_failure="@ + wake_failure_word(facts.coordination_failure),
    ]
}

/// The lines on the automatic protection.
pub fn automatic_lines(facts: &AutomaticFacts) -> (r: Vec<String>)
    ensures
        texts(r@) == automatic_section(*facts),
{
    let mut lines: Vec<String> = Vec::new();
    lines.push(labelled("preference_enabled=", bool_text(facts.preference_enabled)));
    lines.push(labelled("protect_on_battery=", bool_text(facts.protect_on_battery)));
    lines.push(labelled("detector_intent=", bool_text(facts.detector_intent)));
    lines.push(
        labelled("desired_automatic_reason=", bool_text(facts.desired_automatic_reason)),
    );
    let reason = match facts.suppression {
        Some(reason) => suppression(reason),
        None => "none",
    };
    lines.push(labelled("suppression=", reason));
    lines.push(labelled("coordination_failure=", wake_failure(facts.coordination_failure)));
    assert(texts(lines@) =~= automatic_section(*facts));
    lines
}

/// The lines on the power source.
pub open spec fn power_section(facts: PowerFacts) -> Seq<Seq<char>> {
    seq![
        "source="@ + power_source_word(facts.source),
        "health="@ + power_health_word(facts.health),
    ] + match facts.failure {
        Some(failure) => seq!["failure_operation="@ + power_operation_word(failure.operation)]
            + match failure.code {
            Some(code) => seq!["failure_code="@ + decimal(code as nat)],
            None => Seq::empty(),
        },
        None => Seq::empty(),
    }
}

/// The lines on the power source.
pub fn power_lines(facts: &PowerFacts) -> (r: Vec<String>)
    ensures
        texts(r@) == power_section(*facts),
{
    let mut lines: Vec<String> = Vec::new();
    lines.push(labelled("source=", power_source(facts.source)));
    lines.push(labelled("health=", power_health(facts.health)));
    match facts.failure {
        Some(failure) => {
            lines.push(labelled("failure_operation=", power_operation(failure.operation)));
            match failure.code {
                Some(code) => {
                    lines.push(numbered("failure_code=", code as u128));
                },
                None => {},
            }
        },
        None => {},
    }
    assert(texts(lines@) =~= power_section(*facts));
    lines
}

/// The lines on the wake coordinator.
pub open spec fn wake_section(facts: WakeFacts) -> Seq<Seq<char>> {
    seq![
        "active_reasons="@ + reasons_words(facts.active_reasons@),
        "native_protection="@ + protection_word(facts.protection),
    ]
}

/// The lines on the wake coordinator.
pub fn wake_lines(facts: &WakeFacts) -> (r: Vec<String>)
    ensures
        texts(r@) == wake_section(*facts),
{
    let mut lines: Vec<String> = Vec::new();
    lines.push(labelled("active_reasons=", wake_reasons(&facts.active_reasons).as_str()));
    lines.push(labelled("native_protection=", protection(facts.protection)));
    assert(texts(lines@) =~= wake_section(*facts));
    lines
}

/// The lines on the network.
pub open spec fn network_section(facts: NetworkFacts, interfaces: nat) -> Seq<Seq<char>> {
    seq![
        "status="@ + network_status_word(facts.status),
        "failure="@ + match facts.failure {
            Some(failure) => network_failure_word(failure),
            None => "none"@,
        },
        "interface_count="@ + decimal(interfaces),
    ]
}

/// The lines on the network.
pub fn network_lines(facts: &NetworkFacts, interface_count: usize) -> (r: Vec<String>)
    ensures
        texts(r@) == network_section(*facts, interface_count as nat),
{
    let mut lines: Vec<String> = Vec::new();
    lines.push(labelled("status=", network_status(facts.status)));
    let failure = match facts.failure {
        Some(failure) => network_failure(failure),
        None => "none",
    };
    lines.push(labelled("failure=", failure));
    lines.push(numbered("interface_count=", interface_count as u128));
    assert(texts(lines@) =~= network_section(*facts, interface_count as nat));
    lines
}

/// The lines on starting at login.
pub open spec fn launch_section(facts: LaunchAtLoginFacts) -> Seq<Seq<char>> {
    seq![
        "available="@ + bool_word(facts.available),
        "desired="@ + bool_word(facts.desired),
        "observed="@ + registration_word(facts.observed),
        "failure_stage="@ + match facts.failure_stage {
            Some(stage) => launch_stage_word(stage),
            None => "none"@,
        },
    ]
}

/// The lines on starting at login.
pub fn launch_at_login_lines(facts: &LaunchAtLoginFacts) -> (r: Vec<String>)
    ensures
        texts(r@) == launch_section(*facts),
{
    let mut lines: Vec<String> = Vec::new();
    lines.push(labelled("available=", bool_text(facts.available)));
    lines.push(labelled("desired=", bool_text(facts.desired)));
    lines.push(labelled("observed=", registration(facts.observed)));
    let stage = match facts.failure_stage {
        Some(stage) => launch_stage(stage),
        None => "none",
    };
    lines.push(labelled("failure_stage=", stage));
    assert(texts(lines@) =~= launch_section(*facts));
    lines
}

/// The lines on the updater.
pub open spec fn updater_section(facts: UpdaterFacts) -> Seq<Seq<char>> {
    seq![
        "availability="@ + update_availability_word(facts.availability),
        "automatic_checks="@ + bool_word(facts.automatic_checks),
    ] + update_lines(facts.status)
}

/// The lines on the updater.
pub fn updater_lines(facts: &UpdaterFacts) -> (r: Vec<String>)
    ensures
        texts(r@) == updater_section(*facts),
{
    let mut lines: Vec<String> = Vec::new();
    lines.push(labelled("availability=", update_availability(facts.availability)));
    lines.push(labelled("automatic_checks=", bool_text(facts.automatic_checks)));
    let ghost head = texts(lines@);
    let mut status = update_status(&facts.status);
    let ghost tail = status@;
    lines.append(&mut status);
    assert(texts(lines@) =~= head + texts(tail));
    assert(texts(lines@) =~= updater_section(*facts));
    lines
}

/// Interfaces in the order of their numbers, and those with one number in the
/// order in which they came.
pub open spec fn by_number(interfaces: Seq<InterfaceFacts>) -> Seq<InterfaceFacts>
    decreases interfaces.len(),
{
    if interfaces.len() == 0 {
        Seq::empty()
    } else {
        put_in(by_number(interfaces.drop_last()), interfaces.last())
    }
}

/// An ordered list with an interface behind all that have its number or a
/// smaller one at the head of the list.
pub open spec fn put_in(list: Seq<InterfaceFacts>, interface: InterfaceFacts) -> Seq<InterfaceFacts>
    decreases list.len(),
{
    if list.len() == 0 || list.last().id <= interface.id {
        list.push(interface)
    } else {
        put_in(list.drop_last(), interface).push(list.last())
    }
}

fn insert_by_number(list: &mut Vec<InterfaceFacts>, interface: InterfaceFacts)
    ensures
        final(list)@ == put_in(old(list)@, interface),
{
    let ghost before = list@;
    let mut place: usize = list.len();
    assert(before.skip(place as int) =~= Seq::empty());
    assert(before.take(place as int) =~= before);
    assert(put_in(before, interface) =~= put_in(before.take(place as int), interface)
        + before.skip(place as int));
    while place > 0 && list[place - 1].id > interface.id
        invariant
            place <= list.len(),
            list@ == before,
            put_in(before, interface) == put_in(before.take(place as int), interface)
                + before.skip(place as int),
        decreases place,
    {
        let ghost upto = before.take(place as int);
        proof {
            assert(upto.last() == before[place - 1]);
            assert(upto.drop_last() =~= before.take(place - 1));
            assert(put_in(upto, interface) == put_in(before.take(place - 1), interface).push(
                before[place - 1],
            ));
            assert(put_in(upto, interface) + before.skip(place as int) =~= put_in(
                before.take(place - 1),
                interface,
            ) + before.skip(place - 1));
        }
        place = place - 1;
    }
    proof {
        let upto = before.take(place as int);
        if place > 0 {
            assert(upto.last() == before[place - 1]);
        }
        assert(put_in(upto, interface) =~= upto.push(interface));
    }
    list.insert(place, interface);
    assert(list@ =~= put_in(before, interface));
}

/// What is listed of the interfaces: the first sixty-four in the order of
/// their numbers.
pub open spec fn listed(interfaces: Seq<InterfaceFacts>) -> Seq<InterfaceFacts> {
    if interfaces.len() > MAX_INTERFACES {
        by_number(interfaces).take(MAX_INTERFACES as int)
    } else {
        by_number(interfaces)
    }
}

proof fn order_keeps_length(interfaces: Seq<InterfaceFacts>)
    ensures
        by_number(interfaces).len() == interfaces.len(),
    decreases interfaces.len(),
{
    if interfaces.len() > 0 {
        order_keeps_length(interfaces.drop_last());
        put_in_adds_one(by_number(interfaces.drop_last()), interfaces.last());
    }
}

proof fn put_in_adds_one(list: Seq<InterfaceFacts>, interface: InterfaceFacts)
    ensures
        put_in(list, interface).len() == list.len() + 1,
    decreases list.len(),
{
    if list.len() > 0 && !(list.last().id <= interface.id) {
        put_in_adds_one(list.drop_last(), interface);
    }
}

/// The line on an interface.
pub open spec fn interface_line(interface: InterfaceFacts) -> Seq<char> {
    "interface id="@ + decimal(interface.id as nat) + " included="@ + bool_word(interface.included)
        + " continuity="@ + continuity_word(interface.continuity) + " received_bytes="@ + decimal(
        interface.received_bytes as nat,
    ) + " recent_delta="@ + match interface.recent_delta {
        Some(delta) => decimal(delta as nat),
        None => "unavailable"@,
    }
}

fn interface_text(interface: &InterfaceFacts) -> (r: String)
    ensures
        r@ == interface_line(*interface),
{
    let delta = match interface.recent_delta {
        Some(delta) => decimal_text(delta as u128),
        None => String::from_str("unavailable"),
    };
    numbered("interface id=", interface.id as u128).concat(" included=").concat(
        bool_text(interface.included),
    ).concat(" continuity=").concat(continuity(interface.continuity)).concat(
        " received_bytes=",
    ).concat(decimal_text(interface.received_bytes as u128).as_str()).concat(
        " recent_delta=",
    ).concat(delta.as_str())
}

/// The lines on the interfaces, with the number of those that are not listed.
pub open spec fn interface_section(interfaces: Seq<InterfaceFacts>) -> Seq<Seq<char>> {
    listed(interfaces).map_values(|interface: InterfaceFacts| interface_line(interface))
        + if interfaces.len() > MAX_INTERFACES {
        seq!["interfaces_omitted="@ + decimal((interfaces.len() - MAX_INTERFACES) as nat)]
    } else {
        Seq::empty()
    }
}

fn interface_lines(interfaces: &Vec<InterfaceFacts>) -> (r: Vec<String>)
    ensures
        texts(r@) == interface_section(interfaces@),
{
    let mut ordered: Vec<InterfaceFacts> = Vec::new();
    let mut i: usize = 0;
    assert(interfaces@.take(0) =~= Seq::empty());
    assert(ordered@ =~= by_number(interfaces@.take(0)));
    while i < interfaces.len()
        invariant
            i <= interfaces.len(),
            ordered@ == by_number(interfaces@.take(i as int)),
        decreases interfaces.len() - i,
    {
        let ghost upto = interfaces@.take(i + 1);
        assert(upto.drop_last() =~= interfaces@.take(i as int));
        assert(upto.last() == interfaces@[i as int]);
        insert_by_number(&mut ordered, interfaces[i]);
        i = i + 1;
    }
    assert(interfaces@.take(i as int) =~= interfaces@);
    proof {
        order_keeps_length(interfaces@);
    }
    let shown: usize = if ordered.len() > MAX_INTERFACES {
        MAX_INTERFACES
    } else {
        ordered.len()
    };
    let mut lines: Vec<String> = Vec::new();
    let ghost all = listed(interfaces@).map_values(
        |interface: InterfaceFacts| interface_line(interface),
    );
    let mut j: usize = 0;
    assert(texts(lines@) =~= all.take(0));
    while j < shown
        invariant
            j <= shown,
            shown <= ordered.len(),
            shown == all.len(),
            forall|k: int| 0 <= k < shown ==> #[trigger] all[k] == interface_line(ordered@[k]),
            texts(lines@) == all.take(j as int),
        decreases shown - j,
    {
        let line = interface_text(&ordered[j]);
        proof {
            texts_of_push(lines@, line);
            assert(all.take(j + 1) =~= all.take(j as int).push(all[j as int]));
        }
        lines.push(line);
        j = j + 1;
        assert(texts(lines@) =~= all.take(j as int));
    }
    assert(all.take(j as int) =~= all);
    if interfaces.len() > MAX_INTERFACES {
        lines.push(
            numbered("interfaces_omitted=", (interfaces.len() - MAX_INTERFACES) as u128),
        );
    }
    assert(texts(lines@) =~= interface_section(interfaces@));
    lines
}

/// The lines of a section. A part of the program that there is not yet has one
/// line that says so.
pub open spec fn section_lines(name: Seq<char>, lines: Option<Seq<Seq<char>>>) -> Seq<Seq<char>> {
    seq!["["@ + name + "]"@] + match lines {
        Some(lines) => lines,
        None => seq!["status=not-initialized"@],
    }
}

/// The view of optional lines.
pub open spec fn lines_view(lines: Option<Vec<String>>) -> Option<Seq<Seq<char>>> {
    match lines {
        Some(lines) => Some(texts(lines@)),
        None => None,
    }
}

/// Adds a section to lines.
pub fn section(output: &mut Vec<String>, name: &str, lines: Option<Vec<String>>)
    ensures
        texts(final(output)@) == texts(old(output)@) + section_lines(name@, lines_view(lines)),
{
    let ghost before = output@;
    output.push(String::from_str("[").concat(name).concat("]"));
    match lines {
        Some(lines) => {
            let ghost inner = lines@;
            let mut lines = lines;
            output.append(&mut lines);
            assert(texts(output@) =~= texts(before) + section_lines(
                name@,
                Some(texts(inner)),
            ));
        },
        None => {
            output.push(String::from_str("status=not-initialized"));
            assert(texts(output@) =~= texts(before) + section_lines(name@, None));
        },
    }
}

/// The first lines of a report.
pub open spec fn heading(generated_at: Seq<char>, platform: PlatformInfo) -> Seq<Seq<char>> {
    seq![
        "Chiù diagnostics"@,
        "generated_at_utc="@ + timestamp_words(generated_at),
        "version="@ + version_word(),
        "os_family="@ + external_words(platform.family@, 32),
        "os_version="@ + external_words(platform.version@, 128),
        "architecture="@ + external_words(platform.architecture@, 32),
    ]
}

/// The last lines of a report.
pub open spec fn logging_section(health: LoggingHealth) -> Seq<Seq<char>> {
    seq![
        "[logging]"@,
        "health="@ + logging_health_word(health),
        "maximum_files="@ + decimal((ARCHIVE_COUNT + 1) as nat),
        "maximum_file_bytes="@ + decimal(MAX_FILE_SIZE as nat),
    ]
}

/// The lines of a report, before any is left out.
pub open spec fn report_lines(
    input: DiagnosticInput,
    generated_at: Seq<char>,
    platform: PlatformInfo,
    health: LoggingHealth,
) -> Seq<Seq<char>> {
    heading(generated_at, platform) + section_lines(
        "application"@,
        Some(application_section(input.application)),
    ) + section_lines(
        "settings"@,
        match input.settings {
            Some(facts) => Some(settings_section(facts)),
            None => None,
        },
    ) + section_lines("manual_keep_awake"@, Some(manual_section(input.manual))) + section_lines(
        "detector"@,
        match input.detector {
            Some(facts) => Some(detector_section(facts)),
            None => None,
        },
    ) + section_lines(
        "automatic_protection"@,
        match input.automatic {
            Some(facts) => Some(automatic_section(facts)),
            None => None,
        },
    ) + section_lines(
        "power_source"@,
        match input.power {
            Some(facts) => Some(power_section(facts)),
            None => None,
        },
    ) + section_lines("wake_coordination"@, Some(wake_section(input.wake))) + section_lines(
        "network"@,
        Some(network_section(input.network, input.interfaces@.len())),
    ) + interface_section(input.interfaces@) + section_lines(
        "launch_at_login"@,
        match input.launch_at_login {
            Some(facts) => Some(launch_section(facts)),
            None => None,
        },
    ) + section_lines(
        "updater"@,
        match input.updater {
            Some(facts) => Some(updater_section(facts)),
            None => None,
        },
    ) + logging_section(health)
}

/// The report.
pub fn render(
    input: &DiagnosticInput,
    generated_at: &str,
    platform: &PlatformInfo,
    logging_health: LoggingHealth,
) -> (r: String)
    ensures
        r@ == BoundedModel::empty().with_lines(
            report_lines(*input, generated_at@, *platform, logging_health),
        ).finished(),
        byte_length(r@) <= MAX_DIAGNOSTIC_BYTES,
{
    let mut lines: Vec<String> = Vec::new();
    lines.push(String::from_str("Chiù diagnostics"));
    lines.push(labelled("generated_at_utc=", safe_timestamp(generated_at).as_str()));
    lines.push(labelled("version=", version()));
    lines.push(labelled("os_family=", safe_external(platform.family.as_str(), 32).as_str()));
    lines.push(labelled("os_version=", safe_external(platform.version.as_str(), 128).as_str()));
    lines.push(
        labelled("architecture=", safe_external(platform.architecture.as_str(), 32).as_str()),
    );
    assert(texts(lines@) =~= heading(generated_at@, *platform));
    section(&mut lines, "application", Some(application_lines(&input.application)));
    let settings = match &input.settings {
        Some(facts) => Some(settings_lines(facts)),
        None => None,
    };
    section(&mut lines, "settings", settings);
    section(&mut lines, "manual_keep_awake", Some(manual_lines(&input.manual)));
    let detector = match &input.detector {
        Some(facts) => Some(detector_lines(facts)),
        None => None,
    };
    section(&mut lines, "detector", detector);
    let automatic = match &input.automatic {
        Some(facts) => Some(automatic_lines(facts)),
        None => None,
    };
    section(&mut lines, "automatic_protection", automatic);
    let power = match &input.power {
        Some(facts) => Some(power_lines(facts)),
        None => None,
    };
    section(&mut lines, "power_source", power);
    section(&mut lines, "wake_coordination", Some(wake_lines(&input.wake)));
    section(
        &mut lines,
        "network",
        Some(network_lines(&input.network, input.interfaces.len())),
    );
    let ghost before = texts(lines@);
    let mut interfaces = interface_lines(&input.interfaces);
    let ghost listing = texts(interfaces@);
    lines.append(&mut interfaces);
    assert(texts(lines@) =~= before + listing);
    let launch_at_login = match &input.launch_at_login {
        Some(facts) => Some(launch_at_login_lines(facts)),
        None => None,
    };
    section(&mut lines, "launch_at_login", launch_at_login);
    let updater = match &input.updater {
        Some(facts) => Some(updater_lines(facts)),
        None => None,
    };
    section(&mut lines, "updater", updater);
    let ghost almost = texts(lines@);
    let retention = LocalLog::retention_policy();
    lines.push(String::from_str("[logging]"));
    lines.push(labelled("health=", logging_health_name(logging_health)));
    lines.push(numbered("maximum_files=", retention.maximum_files as u128));
    lines.push(numbered("maximum_file_bytes=", retention.maximum_file_bytes as u128));
    assert(texts(lines@) =~= almost + logging_section(logging_health));
    let mut output = BoundedText::new();
    output.lines(&lines);
    output.finish()
}

/// However many lines a report would have and however long they are, it never
/// has more bytes than allowed.
pub proof fn a_report_is_never_too_long(lines: Seq<Seq<char>>)
    ensures
        BoundedModel::empty().with_lines(lines).has_room(),
        byte_length(BoundedModel::empty().with_lines(lines).finished()) <= MAX_DIAGNOSTIC_BYTES,
    decreases lines.len(),
{
    marker_bytes();
    let whole = BoundedModel::empty().with_lines(lines);
    if lines.len() > 0 {
        a_report_is_never_too_long(lines.drop_last());
        let before = BoundedModel::empty().with_lines(lines.drop_last());
        byte_length_of_sum(before.text, lines.last());
        byte_length_of_sum(before.text + lines.last(), "\n"@);
    }
    byte_length_of_sum(whole.text, omitted_marker());
}

/// The lines of a text, each with its end.
pub open spec fn ended_lines(lines: Seq<Seq<char>>) -> Seq<char>
    decreases lines.len(),
{
    if lines.len() == 0 {
        Seq::empty()
    } else {
        ended_lines(lines.drop_last()) + lines.last() + "\n"@
    }
}

/// A report is made of whole lines, the first ones of what it would say; and
/// where it does not say that lines were left out, none were.
pub proof fn a_report_is_made_of_whole_lines(lines: Seq<Seq<char>>)
    ensures
        ({
            let whole = BoundedModel::empty().with_lines(lines);
            &&& exists|kept: int|
                0 <= kept <= lines.len() && whole.text == ended_lines(#[trigger] lines.take(kept))
            &&& !whole.omitted ==> whole.text == ended_lines(lines)
        }),
    decreases lines.len(),
{
    let whole = BoundedModel::empty().with_lines(lines);
    if lines.len() == 0 {
        assert(lines.take(0) =~= lines);
        assert(whole.text == ended_lines(lines.take(0)));
    } else {
        let before = lines.drop_last();
        a_report_is_made_of_whole_lines(before);
        let model = BoundedModel::empty().with_lines(before);
        let kept = choose|kept: int|
            0 <= kept <= before.len() && model.text == ended_lines(#[trigger] before.take(kept));
        assert(before.take(kept) =~= lines.take(kept));
        assert(lines.take(lines.len() as int) =~= lines);
        if !whole.omitted {
            assert(whole.text == ended_lines(lines.take(lines.len() as int)));
        } else {
            assert(whole.text == ended_lines(lines.take(kept)));
        }
    }
}

/// What the report says of a text from outside is "unavailable", or the text
/// itself, made of harmless characters, within its length and no network
/// address.
pub proof fn outside_texts_are_harmless(text: Seq<char>, maximum_bytes: nat)
    ensures
        ({
            let words = external_words(text, maximum_bytes);
            words == "unavailable"@ || (words == text && all_chars(
                words,
                |c: char| is_harmless(c),
            ) && byte_length(words) <= maximum_bytes && !is_address(words))
        }),
{
}

proof fn put_in_keeps_order(list: Seq<InterfaceFacts>, interface: InterfaceFacts)
    requires
        forall|i: int, j: int|
            0 <= i < j < list.len() ==> (#[trigger] list[i]).id <= (#[trigger] list[j]).id,
    ensures
        ({
            let new = put_in(list, interface);
            &&& forall|i: int, j: int|
                0 <= i < j < new.len() ==> (#[trigger] new[i]).id <= (#[trigger] new[j]).id
            &&& new.to_multiset() == list.to_multiset().insert(interface)
            &&& forall|i: int|
                0 <= i < new.len() ==> (#[trigger] new[i]).id <= interface.id || (list.len() > 0
                    && new[i].id <= list.last().id)
        }),
    decreases list.len(),
{
    broadcast use vstd::seq_lib::group_to_multiset_ensures;

    let new = put_in(list, interface);
    if list.len() == 0 || list.last().id <= interface.id {
        assert forall|i: int, j: int| 0 <= i < j < new.len() implies (#[trigger] new[i]).id <= (
        #[trigger] new[j]).id by {
            if j == list.len() && i < list.len() - 1 {
                assert(list[i].id <= list[list.len() - 1].id);
            }
        }
        assert forall|i: int| 0 <= i < new.len() implies (#[trigger] new[i]).id <= interface.id by {
            if i < list.len() - 1 {
                assert(list[i].id <= list[list.len() - 1].id);
            }
        }
    } else {
        let rest = list.drop_last();
        assert forall|i: int, j: int| 0 <= i < j < rest.len() implies (#[trigger] rest[i]).id <= (
        #[trigger] rest[j]).id by {
            assert(list[i].id <= list[j].id);
        }
        put_in_keeps_order(rest, interface);
        let inner = put_in(rest, interface);
        assert(new == inner.push(list.last()));
        assert(list =~= rest.push(list.last()));
        if rest.len() > 0 {
            assert(list[rest.len() - 1].id <= list[list.len() - 1].id);
        }
        assert(new.to_multiset() =~= list.to_multiset().insert(interface));
        assert forall|i: int, j: int| 0 <= i < j < new.len() implies (#[trigger] new[i]).id <= (
        #[trigger] new[j]).id by {
            if j < inner.len() {
                assert(new[i] == inner[i] && new[j] == inner[j]);
            } else {
                assert(new[i] == inner[i]);
            }
        }
    }
}

/// Interfaces are listed in the order of their numbers, and none is lost or
/// added by ordering them.
pub proof fn interfaces_are_listed_by_number(interfaces: Seq<InterfaceFacts>)
    ensures
        by_number(interfaces).to_multiset() == interfaces.to_multiset(),
        forall|i: int, j: int|
            0 <= i < j < by_number(interfaces).len() ==> (#[trigger] by_number(interfaces)[i]).id
                <= (#[trigger] by_number(interfaces)[j]).id,
    decreases interfaces.len(),
{
    broadcast use vstd::seq_lib::group_to_multiset_ensures;

    if interfaces.len() > 0 {
        let rest = interfaces.drop_last();
        interfaces_are_listed_by_number(rest);
        put_in_keeps_order(by_number(rest), interfaces.last());
        assert(interfaces =~= rest.push(interfaces.last()));
    }
}

} // verus!
