//! The local log: what may be written to it, and how its files are rotated.
//!
//! An event holds no text from outside the program except an update's
//! version, and that only where it has the form of a version.

pub mod laws;

use crate::text::{
    all_chars, bool_text, bool_word, byte_length, decimal, decimal_text, digits_value,
    is_alphanumeric, is_alphanumeric_char, is_digit, is_digit_char, length_in_bytes, same_text,
};
use vstd::prelude::*;
use vstd::string::*;

verus! {

/// How many rotated files are kept besides the current one.
pub const ARCHIVE_COUNT: usize = 4;

/// The size beyond which the current file is rotated.
pub const MAX_FILE_SIZE: u64 = 1_048_576;

/// The step at which logging failed.
#[derive(Clone, Copy, Debug, PartialEq, Eq, Structural)]
pub enum LoggingFailureStage {
    ResolveDirectory,
    CreateDirectory,
    Open,
    Prune,
    Rotate,
    Write,
    Flush,
}

/// Whether events reach the log file.
#[derive(Clone, Copy, Debug, PartialEq, Eq, Structural)]
pub enum LoggingHealth {
    Available,
    Unavailable(LoggingFailureStage),
}

/// How much of the log is kept.
#[derive(Clone, Copy, Debug, PartialEq, Eq, Structural)]
pub struct RetentionPolicy {
    pub maximum_files: usize,
    pub maximum_file_bytes: u64,
}

/// How an operation ended.
#[derive(Clone, Copy, Debug, PartialEq, Eq, Structural)]
pub enum EventOutcome {
    Succeeded,
    Failed,
    Rejected,
}

/// What was asked of the platform's sleep inhibitor.
#[derive(Clone, Copy, Debug, PartialEq, Eq, Structural)]
pub enum ProtectionAction {
    Acquire,
    Release,
}

/// The detector's state, without its durations.
#[derive(Clone, Copy, Debug, PartialEq, Eq, Structural)]
pub enum DetectorStateEvent {
    Idle,
    Active,
    Hold,
}

/// A manual command, without its preset.
#[derive(Clone, Copy, Debug, PartialEq, Eq, Structural)]
pub enum ManualCommandEvent {
    Start,
    Add,
    Convert,
    Stop,
}

/// Something worth a line in the log.
#[allow(inconsistent_fields)]
#[derive(Clone, Debug, PartialEq, Eq)]
pub enum SafeEvent {
    ProcessStarted,
    ProcessStopped,
    ApplicationReady,
    ApplicationDegraded,
    ApplicationFailed,
    ShutdownRequested,
    CleanupFailed { capability: &'static str },
    OptionalCapabilityUnavailable { capability: &'static str },
    SettingsLoaded { condition: &'static str, persistence: &'static str, recoveries: usize },
    SettingsChanged { field: &'static str },
    SettingsWriteFailed { field: &'static str },
    ManualCommand { command: ManualCommandEvent, outcome: EventOutcome },
    ManualExpired { outcome: EventOutcome },
    DetectorTransition { from: DetectorStateEvent, to: DetectorStateEvent },
    DetectorContinuityReset,
    AutomaticEligibilityChanged { eligible: bool, suppression: &'static str },
    AutomaticReconciliation { active: bool, outcome: EventOutcome },
    PowerChanged { source: &'static str, health: &'static str },
    WakeReasonsChanged { automatic: bool, manual: bool },
    NativeProtection { action: ProtectionAction, outcome: EventOutcome },
    NetworkAvailability { status: &'static str },
    NetworkContinuityReset,
    NetworkTopologyChanged { interfaces: usize },
    LaunchAtLogin { action: &'static str, outcome: EventOutcome, stage: &'static str },
    Updater { action: &'static str, outcome: EventOutcome, stage: &'static str },
    UpdaterAvailable { version: String },
    DiagnosticsAction { action: &'static str, outcome: EventOutcome },
    PresentationFailure { stage: &'static str },
}

/// The version of this program.
pub open spec fn version_word() -> Seq<char> {
    "0.1.0"@
}

/// The version of this program.
pub fn version() -> (r: &'static str)
    ensures
        r@ == version_word(),
{
    "0.1.0"
}

/// The word for an outcome in a log line.
pub open spec fn outcome_word(outcome: EventOutcome) -> Seq<char> {
    match outcome {
        EventOutcome::Succeeded => "succeeded"@,
        EventOutcome::Failed => "failed"@,
        EventOutcome::Rejected => "rejected"@,
    }
}

/// The word for an outcome in a log line.
pub fn outcome_name(outcome: EventOutcome) -> (r: &'static str)
    ensures
        r@ == outcome_word(outcome),
{
    match outcome {
        EventOutcome::Succeeded => "succeeded",
        EventOutcome::Failed => "failed",
        EventOutcome::Rejected => "rejected",
    }
}

/// The level at which an outcome is logged: only a failure is a warning.
pub open spec fn level_word(outcome: EventOutcome) -> Seq<char> {
    match outcome {
        EventOutcome::Succeeded => "INFO"@,
        EventOutcome::Failed => "WARN"@,
        EventOutcome::Rejected => "INFO"@,
    }
}

/// The level at which an outcome is logged: only a failure is a warning.
pub fn level(outcome: EventOutcome) -> (r: &'static str)
    ensures
        r@ == level_word(outcome),
{
    match outcome {
        EventOutcome::Succeeded => "INFO",
        EventOutcome::Failed => "WARN",
        EventOutcome::Rejected => "INFO",
    }
}

/// The word for a native action in a log line.
pub open spec fn protection_action_word(action: ProtectionAction) -> Seq<char> {
    match action {
        ProtectionAction::Acquire => "acquire"@,
        ProtectionAction::Release => "release"@,
    }
}

/// The word for a native action in a log line.
pub fn protection_action(action: ProtectionAction) -> (r: &'static str)
    ensures
        r@ == protection_action_word(action),
{
    match action {
        ProtectionAction::Acquire => "acquire",
        ProtectionAction::Release => "release",
    }
}

/// The word for a detector state in a log line.
pub open spec fn detector_state_word(state: DetectorStateEvent) -> Seq<char> {
    match state {
        DetectorStateEvent::Idle => "idle"@,
        DetectorStateEvent::Active => "active"@,
        DetectorStateEvent::Hold => "hold"@,
    }
}

/// The word for a detector state in a log line.
pub fn detector_state(state: DetectorStateEvent) -> (r: &'static str)
    ensures
        r@ == detector_state_word(state),
{
    match state {
        DetectorStateEvent::Idle => "idle",
        DetectorStateEvent::Active => "active",
        DetectorStateEvent::Hold => "hold",
    }
}

/// The word for a manual command in a log line.
pub open spec fn manual_command_word(command: ManualCommandEvent) -> Seq<char> {
    match command {
        ManualCommandEvent::Start => "start"@,
        ManualCommandEvent::Add => "add"@,
        ManualCommandEvent::Convert => "convert"@,
        ManualCommandEvent::Stop => "stop"@,
    }
}

/// The word for a manual command in a log line.
pub fn manual_command(command: ManualCommandEvent) -> (r: &'static str)
    ensures
        r@ == manual_command_word(command),
{
    match command {
        ManualCommandEvent::Start => "start",
        ManualCommandEvent::Add => "add",
        ManualCommandEvent::Convert => "convert",
        ManualCommandEvent::Stop => "stop",
    }
}

/// The word for the stage at which logging failed.
pub open spec fn stage_word(stage: LoggingFailureStage) -> Seq<char> {
    match stage {
        LoggingFailureStage::ResolveDirectory => "directory-resolution"@,
        LoggingFailureStage::CreateDirectory => "directory-creation"@,
        LoggingFailureStage::Open => "open"@,
        LoggingFailureStage::Prune => "prune"@,
        LoggingFailureStage::Rotate => "rotation"@,
        LoggingFailureStage::Write => "write"@,
        LoggingFailureStage::Flush => "flush"@,
    }
}

/// The word for the stage at which logging failed.
pub fn stage_name(stage: LoggingFailureStage) -> (r: &'static str)
    ensures
        r@ == stage_word(stage),
{
    match stage {
        LoggingFailureStage::ResolveDirectory => "directory-resolution",
        LoggingFailureStage::CreateDirectory => "directory-creation",
        LoggingFailureStage::Open => "open",
        LoggingFailureStage::Prune => "prune",
        LoggingFailureStage::Rotate => "rotation",
        LoggingFailureStage::Write => "write",
        LoggingFailureStage::Flush => "flush",
    }
}

/// The text of an event, without the time at which it is recorded.
pub open spec fn event_text(event: SafeEvent) -> Seq<char> {
    match event {
        SafeEvent::ProcessStarted => "INFO process.started version="@ + version_word(),
        SafeEvent::ProcessStopped => "INFO process.stopped"@,
        SafeEvent::ApplicationReady => "INFO application.ready"@,
        SafeEvent::ApplicationDegraded => "WARN application.degraded"@,
        SafeEvent::ApplicationFailed => "ERROR application.failed"@,
        SafeEvent::ShutdownRequested => "INFO application.shutdown-requested"@,
        SafeEvent::CleanupFailed { capability } => "ERROR application.cleanup-failed capability="@
            + capability@,
        SafeEvent::OptionalCapabilityUnavailable { capability } =>
            "WARN capability.unavailable capability="@
            + capability@,
        SafeEvent::SettingsLoaded { condition, persistence, recoveries } =>
            "INFO settings.loaded condition="@
            + condition@ + " persistence="@ + persistence@ + " recoveries="@
            + decimal(recoveries as nat),
        SafeEvent::SettingsChanged { field } => "INFO settings.changed field="@ + field@,
        SafeEvent::SettingsWriteFailed { field } => "WARN settings.write-failed field="@ + field@,
        SafeEvent::ManualCommand { command, outcome } => level_word(outcome)
            + " manual.command command="@ + manual_command_word(command) + " outcome="@
            + outcome_word(outcome),
        SafeEvent::ManualExpired { outcome } => level_word(outcome)
            + " manual.expired outcome="@ + outcome_word(outcome),
        SafeEvent::DetectorTransition { from, to } => "INFO detector.transition from="@
            + detector_state_word(from) + " to="@ + detector_state_word(to),
        SafeEvent::DetectorContinuityReset => "WARN detector.continuity-reset"@,
        SafeEvent::AutomaticEligibilityChanged { eligible, suppression } =>
            "INFO automatic.eligibility eligible="@
            + bool_word(eligible) + " suppression="@ + suppression@,
        SafeEvent::AutomaticReconciliation { active, outcome } => level_word(outcome)
            + " automatic.reconciliation active="@ + bool_word(active) + " outcome="@
            + outcome_word(outcome),
        SafeEvent::PowerChanged { source, health } => "INFO power.changed source="@
            + source@ + " health="@ + health@,
        SafeEvent::WakeReasonsChanged { automatic, manual } =>
            "INFO wake.reasons-changed automatic="@
            + bool_word(automatic) + " manual="@ + bool_word(manual),
        SafeEvent::NativeProtection { action, outcome } => level_word(outcome)
            + " wake.native-protection action="@ + protection_action_word(action) + " outcome="@
            + outcome_word(outcome),
        SafeEvent::NetworkAvailability { status } => "INFO network.availability status="@ + status@,
        SafeEvent::NetworkContinuityReset => "WARN network.continuity-reset"@,
        SafeEvent::NetworkTopologyChanged { interfaces } =>
            "INFO network.topology-changed interfaces="@
            + decimal(interfaces as nat),
        SafeEvent::LaunchAtLogin { action, outcome, stage } => level_word(outcome)
            + " launch-at-login action="@ + action@ + " outcome="@ + outcome_word(outcome)
            + " stage="@ + stage@,
        SafeEvent::Updater { action, outcome, stage } => level_word(outcome)
            + " updater action="@ + action@ + " outcome="@ + outcome_word(outcome) + " stage="@
            + stage@,
        SafeEvent::UpdaterAvailable { version } => "INFO updater.update-available version="@
            + version@,
        SafeEvent::DiagnosticsAction { action, outcome } => level_word(outcome)
            + " diagnostics action="@ + action@ + " outcome="@ + outcome_word(outcome),
        SafeEvent::PresentationFailure { stage } => "ERROR presentation.failed stage="@ + stage@,
    }
}

impl SafeEvent {
    /// The event that an update was found. A version that is not plainly a
    /// version is not kept.
    pub fn updater_available(version: Option<&str>) -> (r: SafeEvent)
        ensures
            r is UpdaterAvailable,
            r->version@ == safe_version_text(
                match version {
                    Some(text) => Some(text@),
                    None => None,
                },
            ),
    {
        SafeEvent::UpdaterAvailable { version: safe_version(version) }
    }

    /// The text of the event, without the time at which it is recorded.
    pub fn render(&self) -> (r: String)
        ensures
            r@ == event_text(*self),
    {
        match self {
            SafeEvent::ProcessStarted => String::from_str("INFO process.started version=")
                .concat(version()),
            SafeEvent::ProcessStopped => String::from_str("INFO process.stopped"),
            SafeEvent::ApplicationReady => String::from_str("INFO application.ready"),
            SafeEvent::ApplicationDegraded => String::from_str("WARN application.degraded"),
            SafeEvent::ApplicationFailed => String::from_str("ERROR application.failed"),
            SafeEvent::ShutdownRequested => String::from_str("INFO application.shutdown-requested"),
            SafeEvent::CleanupFailed { capability } =>
                String::from_str("ERROR application.cleanup-failed capability=")
                .concat(capability),
            SafeEvent::OptionalCapabilityUnavailable { capability } =>
                String::from_str("WARN capability.unavailable capability=")
                .concat(capability),
            SafeEvent::SettingsLoaded { condition, persistence, recoveries } =>
                String::from_str("INFO settings.loaded condition=")
                .concat(condition)
                .concat(" persistence=")
                .concat(persistence)
                .concat(" recoveries=")
                .concat(decimal_text(*recoveries as u128).as_str()),
            SafeEvent::SettingsChanged { field } => String::from_str("INFO settings.changed field=")
                .concat(field),
            SafeEvent::SettingsWriteFailed { field } =>
                String::from_str("WARN settings.write-failed field=")
                .concat(field),
            SafeEvent::ManualCommand { command, outcome } => String::from_str(level(*outcome))
                .concat(" manual.command command=")
                .concat(manual_command(*command))
                .concat(" outcome=")
                .concat(outcome_name(*outcome)),
            SafeEvent::ManualExpired { outcome } => String::from_str(level(*outcome))
                .concat(" manual.expired outcome=")
                .concat(outcome_name(*outcome)),
            SafeEvent::DetectorTransition { from, to } =>
                String::from_str("INFO detector.transition from=")
                .concat(detector_state(*from))
                .concat(" to=")
                .concat(detector_state(*to)),
            SafeEvent::DetectorContinuityReset =>
                String::from_str("WARN detector.continuity-reset"),
            SafeEvent::AutomaticEligibilityChanged { eligible, suppression } =>
                String::from_str("INFO automatic.eligibility eligible=")
                .concat(bool_text(*eligible))
                .concat(" suppression=")
                .concat(suppression),
            SafeEvent::AutomaticReconciliation { active, outcome } =>
                String::from_str(level(*outcome))
                .concat(" automatic.reconciliation active=")
                .concat(bool_text(*active))
                .concat(" outcome=")
                .concat(outcome_name(*outcome)),
            SafeEvent::PowerChanged { source, health } =>
                String::from_str("INFO power.changed source=")
                .concat(source)
                .concat(" health=")
                .concat(health),
            SafeEvent::WakeReasonsChanged { automatic, manual } =>
                String::from_str("INFO wake.reasons-changed automatic=")
                .concat(bool_text(*automatic))
                .concat(" manual=")
                .concat(bool_text(*manual)),
            SafeEvent::NativeProtection { action, outcome } => String::from_str(level(*outcome))
                .concat(" wake.native-protection action=")
                .concat(protection_action(*action))
                .concat(" outcome=")
                .concat(outcome_name(*outcome)),
            SafeEvent::NetworkAvailability { status } =>
                String::from_str("INFO network.availability status=")
                .concat(status),
            SafeEvent::NetworkContinuityReset => String::from_str("WARN network.continuity-reset"),
            SafeEvent::NetworkTopologyChanged { interfaces } =>
                String::from_str("INFO network.topology-changed interfaces=")
                .concat(decimal_text(*interfaces as u128).as_str()),
            SafeEvent::LaunchAtLogin { action, outcome, stage } => String::from_str(level(*outcome))
                .concat(" launch-at-login action=")
                .concat(action)
                .concat(" outcome=")
                .concat(outcome_name(*outcome))
                .concat(" stage=")
                .concat(stage),
            SafeEvent::Updater { action, outcome, stage } => String::from_str(level(*outcome))
                .concat(" updater action=")
                .concat(action)
                .concat(" outcome=")
                .concat(outcome_name(*outcome))
                .concat(" stage=")
                .concat(stage),
            SafeEvent::UpdaterAvailable { version } =>
                String::from_str("INFO updater.update-available version=")
                .concat(version.as_str()),
            SafeEvent::DiagnosticsAction { action, outcome } => String::from_str(level(*outcome))
                .concat(" diagnostics action=")
                .concat(action)
                .concat(" outcome=")
                .concat(outcome_name(*outcome)),
            SafeEvent::PresentationFailure { stage } =>
                String::from_str("ERROR presentation.failed stage=")
                .concat(stage),
        }
    }
}

/// The characters of which a version may be made.
pub open spec fn is_version_char(c: char) -> bool {
    is_alphanumeric(c) || c == '.' || c == '-' || c == '+'
}

/// The most bytes that a version may have.
pub const MAX_VERSION_BYTES: usize = 64;

/// Whether a text has the form of a version.
pub open spec fn is_version(text: Seq<char>) -> bool {
    &&& text.len() > 0
    &&& byte_length(text) <= MAX_VERSION_BYTES
    &&& all_chars(text, |c: char| is_version_char(c))
}

/// What is logged of a version.
pub open spec fn safe_version_text(version: Option<Seq<char>>) -> Seq<char> {
    match version {
        None => "unknown"@,
        Some(text) => if is_version(text) {
            text
        } else {
            "redacted"@
        },
    }
}

/// What is logged of a version: the text itself where it has the form of a
/// version, and a word in its place where it does not.
pub fn safe_version(version: Option<&str>) -> (r: String)
    ensures
        r@ == safe_version_text(
            match version {
                Some(text) => Some(text@),
                None => None,
            },
        ),
{
    let text = match version {
        None => return String::from_str("unknown"),
        Some(text) => text,
    };
    if text.is_empty() || length_in_bytes(text) > MAX_VERSION_BYTES {
        return String::from_str("redacted");
    }
    let length = text.unicode_len();
    let mut checked: usize = 0;
    while checked < length
        invariant
            checked <= length,
            version == Some(text),
            length == text@.len(),
            forall|i: int| 0 <= i < checked ==> is_version_char(#[trigger] text@[i]),
        decreases length - checked,
    {
        let c = text.get_char(checked);
        if !(is_alphanumeric_char(c) || c == '.' || c == '-' || c == '+') {
            assert(!is_version_char(text@[checked as int]));
            return String::from_str("redacted");
        }
        checked = checked + 1;
    }
    String::from_str(text)
}

/// The value of a text that is an unsigned number: decimal digits, of which
/// there is at least one, after an optional plus sign.
pub open spec fn unsigned_value(text: Seq<char>) -> Option<nat> {
    let digits = if text.len() > 0 && text[0] == '+' {
        text.drop_first()
    } else {
        text
    };
    if digits.len() > 0 && all_chars(digits, |c: char| is_digit(c)) {
        Some(digits_value(digits))
    } else {
        None
    }
}

/// The index in the name of a rotated log file, `chiu.<index>.log`.
pub open spec fn archive_index(name: Seq<char>) -> Option<nat> {
    if name.len() >= 9 && name.subrange(0, 5) == "chiu."@ && name.subrange(
        name.len() - 4,
        name.len() as int,
    ) == ".log"@ {
        unsigned_value(name.subrange(5, name.len() - 4))
    } else {
        None
    }
}

/// The value of a text that is an unsigned number, where it fits.
pub fn parse_unsigned(text: &str) -> (r: Option<usize>)
    ensures
        r is Some <==> unsigned_value(text@) is Some && unsigned_value(text@)->0 <= usize::MAX,
        r is Some ==> r->0 == unsigned_value(text@)->0,
{
    let length = text.unicode_len();
    let start: usize = if length > 0 && text.get_char(0) == '+' {
        1
    } else {
        0
    };
    let ghost digits = text@.subrange(start as int, length as int);
    proof {
        if start == 1 {
            assert(digits =~= text@.drop_first());
        } else {
            assert(digits =~= text@);
        }
    }
    if start == length {
        return None;
    }
    let mut value: Option<usize> = Some(0);
    let mut next: usize = start;
    assert(digits.take(0) =~= Seq::<char>::empty());
    while next < length
        invariant
            start <= next <= length,
            length == text@.len(),
            digits == text@.subrange(start as int, length as int),
            forall|i: int| 0 <= i < next - start ==> is_digit(#[trigger] digits[i]),
            value is Some <==> digits_value(digits.take(next - start)) <= usize::MAX,
            value is Some ==> value->0 == digits_value(digits.take(next - start)),
            unsigned_value(text@) is Some <==> digits.len() > 0 && all_chars(
                digits,
                |c: char| is_digit(c),
            ),
        decreases length - next,
    {
        let c = text.get_char(next);
        assert(c == digits[next - start]);
        if !is_digit_char(c) {
            assert(!is_digit(digits[next - start]));
            return None;
        }
        proof {
            let longer = digits.take(next - start + 1);
            assert(longer.drop_last() =~= digits.take(next - start));
            assert(longer.last() == c);
        }
        let figure: usize = (c as u32 - '0' as u32) as usize;
        value = match value {
            None => None,
            Some(so_far) => match so_far.checked_mul(10) {
                None => None,
                Some(shifted) => shifted.checked_add(figure),
            },
        };
        next = next + 1;
    }
    assert(digits.take(length - start) =~= digits);
    value
}

/// The index in the name of a rotated log file, where it is one and its index
/// fits.
pub fn parse_archive_index(name: &str) -> (r: Option<usize>)
    ensures
        r is Some <==> archive_index(name@) is Some && archive_index(name@)->0 <= usize::MAX,
        r is Some ==> r->0 == archive_index(name@)->0,
{
    let length = name.unicode_len();
    if length < 9 {
        return None;
    }
    if !same_text(name.substring_char(0, 5), "chiu.") {
        return None;
    }
    if !same_text(name.substring_char(length - 4, length), ".log") {
        return None;
    }
    parse_unsigned(name.substring_char(5, length - 4))
}

/// The name of a log file: the current one is file 0, and the others are
/// numbered from the newest on.
pub open spec fn log_file_name(file: nat) -> Seq<char> {
    if file == 0 {
        "chiu.log"@
    } else {
        "chiu."@ + decimal(file) + ".log"@
    }
}

/// The name of a log file.
pub fn file_name(file: usize) -> (r: String)
    ensures
        r@ == log_file_name(file as nat),
{
    if file == 0 {
        String::from_str("chiu.log")
    } else {
        String::from_str("chiu.").concat(decimal_text(file as u128).as_str()).concat(".log")
    }
}

/// A number is written in digits, and is read back from them.
pub proof fn decimal_is_read_back(n: nat)
    ensures
        decimal(n).len() > 0,
        all_chars(decimal(n), |c: char| is_digit(c)),
        digits_value(decimal(n)) == n,
    decreases n,
{
    reveal_with_fuel(digits_value, 2);
    if n < 10 {
        assert(decimal(n).drop_last() =~= Seq::<char>::empty());
    } else {
        decimal_is_read_back(n / 10);
        let rest = decimal(n / 10);
        assert(decimal(n).drop_last() =~= rest);
        assert forall|k: int| 0 <= k < decimal(n).len() implies is_digit(
            #[trigger] decimal(n)[k],
        ) by {
            if k < rest.len() {
                assert(is_digit(rest[k]));
            }
        }
    }
}

/// A rotated file is known by its name: the index is read back from it. The
/// current file is not taken for a rotated one.
pub proof fn archives_are_known_by_their_names(file: nat)
    ensures
        file > 0 ==> archive_index(log_file_name(file)) == Some(file),
        file == 0 ==> archive_index(log_file_name(file)) is None,
{
    reveal_strlit("chiu.");
    reveal_strlit(".log");
    reveal_strlit("chiu.log");
    if file > 0 {
        decimal_is_read_back(file);
        let name = log_file_name(file);
        let digits = decimal(file);
        assert(name.subrange(0, 5) =~= "chiu."@);
        assert(name.subrange(name.len() - 4, name.len() as int) =~= ".log"@);
        assert(name.subrange(5, name.len() - 4) =~= digits);
        assert(is_digit(digits[0]));
    }
}

/// Whether a file in the log directory is a rotated file that is no longer
/// kept: one with the index zero or an index beyond the last archive.
pub fn is_excess_archive(name: &str, archive_count: usize) -> (r: bool)
    ensures
        r <==> archive_index(name@) is Some && archive_index(name@)->0 <= usize::MAX && (
        archive_index(name@)->0 == 0 || archive_index(name@)->0 > archive_count),
{
    match parse_archive_index(name) {
        None => false,
        Some(index) => index == 0 || index > archive_count,
    }
}

/// The names of the rotated files that are to be removed when the log is
/// opened, in the order in which they were found.
pub open spec fn excess_archives(names: Seq<Seq<char>>, archive_count: nat) -> Seq<Seq<char>> {
    names.filter(
        |name: Seq<char>|
            archive_index(name) is Some && archive_index(name)->0 <= usize::MAX && (archive_index(
                name,
            )->0 == 0 || archive_index(name)->0 > archive_count),
    )
}

/// The positions, in a listing of the log directory, of the files that are to
/// be removed when the log is opened.
pub fn prune_owned_archives(names: &Vec<String>, archive_count: usize) -> (r: Vec<usize>)
    ensures
        forall|i: int| 0 <= i < r.len() ==> #[trigger] r[i] < names.len(),
        r@.map_values(|i: usize| names@[i as int]@) == excess_archives(
            names@.map_values(|name: String| name@),
            archive_count as nat,
        ),
{
    let ghost keep = |name: Seq<char>|
        archive_index(name) is Some && archive_index(name)->0 <= usize::MAX && (archive_index(
            name,
        )->0 == 0 || archive_index(name)->0 > archive_count);
    let ghost views = names@.map_values(|name: String| name@);
    let mut r: Vec<usize> = Vec::new();
    let mut seen: usize = 0;
    proof {
        assert(views.take(0) =~= Seq::empty());
        reveal(Seq::filter);
        assert(r@.map_values(|i: usize| names@[i as int]@) =~= views.take(0).filter(keep));
    }
    while seen < names.len()
        invariant
            seen <= names.len(),
            views == names@.map_values(|name: String| name@),
            keep == (|name: Seq<char>|
                archive_index(name) is Some && archive_index(name)->0 <= usize::MAX && (
                archive_index(name)->0 == 0 || archive_index(name)->0 > archive_count)),
            forall|i: int| 0 <= i < r.len() ==> #[trigger] r[i] < names.len(),
            r@.map_values(|i: usize| names@[i as int]@) == views.take(seen as int).filter(keep),
        decreases names.len() - seen,
    {
        let excess = is_excess_archive(names[seen].as_str(), archive_count);
        proof {
            let longer = views.take(seen + 1);
            assert(longer.drop_last() =~= views.take(seen as int));
            assert(longer.last() == names@[seen as int]@);
            reveal(Seq::filter);
            assert(excess == keep(longer.last()));
        }
        let ghost before = r@;
        if excess {
            r.push(seen);
            assert(r@.map_values(|i: usize| names@[i as int]@) =~= before.map_values(
                |i: usize| names@[i as int]@,
            ).push(names@[seen as int]@));
        }
        seen = seen + 1;
    }
    assert(views.take(names.len() as int) =~= views);
    r
}

/// One step of writing a line to the log files. File zero is the current
/// file, and the others are the archives by their index.
#[derive(Clone, Copy, Debug, PartialEq, Eq, Structural)]
pub enum WriterStep {
    /// Flush the open file before it is moved away.
    FlushBeforeRotation,
    /// Remove a file if it exists.
    Remove { file: usize },
    /// Move a file to another index if it exists.
    Move { from: usize, to: usize },
    /// Open the current file for appending.
    Open,
    /// Append the line to the open file.
    Append,
    /// Flush the open file after the line.
    Flush,
}

impl WriterStep {
    /// The stage that is reported where the step fails.
    pub open spec fn failure(self) -> LoggingFailureStage {
        match self {
            WriterStep::FlushBeforeRotation => LoggingFailureStage::Flush,
            WriterStep::Remove { file } => LoggingFailureStage::Prune,
            WriterStep::Move { from, to } => LoggingFailureStage::Rotate,
            WriterStep::Open => LoggingFailureStage::Open,
            WriterStep::Append => LoggingFailureStage::Write,
            WriterStep::Flush => LoggingFailureStage::Flush,
        }
    }

    /// The stage that is reported where the step fails.
    pub fn failure_stage(&self) -> (r: LoggingFailureStage)
        ensures
            r == self.failure(),
    {
        match self {
            WriterStep::FlushBeforeRotation => LoggingFailureStage::Flush,
            WriterStep::Remove { file } => LoggingFailureStage::Prune,
            WriterStep::Move { from, to } => LoggingFailureStage::Rotate,
            WriterStep::Open => LoggingFailureStage::Open,
            WriterStep::Append => LoggingFailureStage::Write,
            WriterStep::Flush => LoggingFailureStage::Flush,
        }
    }
}

/// The moves of a rotation for the archives from `first` down to the first,
/// each taking the file before it.
pub open spec fn rotation_moves(first: nat) -> Seq<WriterStep>
    decreases first,
{
    if first == 0 {
        Seq::empty()
    } else {
        seq![WriterStep::Move { from: (first - 1) as usize, to: first as usize }] + rotation_moves(
            (first - 1) as nat,
        )
    }
}

/// The steps of a rotation that keeps `archive_count` archives.
pub open spec fn rotation_steps(archive_count: nat) -> Seq<WriterStep> {
    let oldest = if archive_count == 0 {
        Seq::empty()
    } else {
        seq![WriterStep::Remove { file: archive_count as usize }]
    };
    seq![WriterStep::FlushBeforeRotation] + oldest + rotation_moves(archive_count) + seq![
        WriterStep::Open,
    ]
}

/// What the log files hold, by their index, after a step that succeeds.
pub open spec fn after_step<C>(files: Map<nat, C>, step: WriterStep) -> Map<nat, C> {
    match step {
        WriterStep::Remove { file } => files.remove(file as nat),
        WriterStep::Move { from, to } => if files.dom().contains(from as nat) {
            files.insert(to as nat, files[from as nat]).remove(from as nat)
        } else {
            files
        },
        _ => files,
    }
}

/// What the log files hold after steps that all succeed.
pub open spec fn after_steps<C>(files: Map<nat, C>, steps: Seq<WriterStep>) -> Map<nat, C>
    decreases steps.len(),
{
    if steps.len() == 0 {
        files
    } else {
        after_steps(after_step(files, steps[0]), steps.drop_first())
    }
}

proof fn after_steps_of_sum<C>(files: Map<nat, C>, a: Seq<WriterStep>, b: Seq<WriterStep>)
    ensures
        after_steps(files, a + b) == after_steps(after_steps(files, a), b),
    decreases a.len(),
{
    if a.len() == 0 {
        assert(a + b =~= b);
    } else {
        assert((a + b).drop_first() =~= a.drop_first() + b);
        after_steps_of_sum(after_step(files, a[0]), a.drop_first(), b);
    }
}

proof fn moves_shift<C>(files: Map<nat, C>, first: nat)
    requires
        first <= usize::MAX,
        !files.dom().contains(first),
    ensures
        ({
            let moved = after_steps(files, rotation_moves(first));
            &&& forall|i: nat| #![trigger moved.dom().contains(i)]
                moved.dom().contains(i) <==> (i > first && files.dom().contains(i)) || (1 <= i
                    <= first && files.dom().contains((i - 1) as nat))
            &&& forall|i: nat| #![trigger moved[i]]
                1 <= i <= first && files.dom().contains((i - 1) as nat) ==> moved[i] == files[(i
                    - 1) as nat]
            &&& forall|i: nat| #![trigger moved[i]]
                i > first && files.dom().contains(i) ==> moved[i] == files[i]
        }),
    decreases first,
{
    if first > 0 {
        let step = WriterStep::Move { from: (first - 1) as usize, to: first as usize };
        let rest = rotation_moves((first - 1) as nat);
        assert(rotation_moves(first)[0] == step);
        assert(rotation_moves(first).drop_first() =~= rest);
        let next = after_step(files, step);
        assert(after_steps(files, rotation_moves(first)) == after_steps(next, rest));
        moves_shift(next, (first - 1) as nat);
    }
}

/// A rotation moves the current file to the first archive and each archive to
/// the next index, drops the last archive, leaves no current file, and keeps
/// the files beyond the last archive as they were.
pub proof fn rotation_shifts_the_files<C>(files: Map<nat, C>, archive_count: nat)
    requires
        1 <= archive_count <= usize::MAX,
    ensures
        ({
            let rotated = after_steps(files, rotation_steps(archive_count));
            &&& forall|i: nat| #![trigger rotated.dom().contains(i)]
                rotated.dom().contains(i) <==> (i > archive_count && files.dom().contains(i)) || (1
                    <= i <= archive_count && files.dom().contains((i - 1) as nat))
            &&& forall|i: nat| #![trigger rotated[i]]
                1 <= i <= archive_count && files.dom().contains((i - 1) as nat) ==> rotated[i]
                    == files[(i - 1) as nat]
            &&& forall|i: nat| #![trigger rotated[i]]
                i > archive_count && files.dom().contains(i) ==> rotated[i] == files[i]
        }),
{
    let flush = WriterStep::FlushBeforeRotation;
    let oldest = WriterStep::Remove { file: archive_count as usize };
    let moves = rotation_moves(archive_count);
    let rest = moves + seq![WriterStep::Open];
    assert(rotation_steps(archive_count) =~= seq![flush] + (seq![oldest] + rest));
    assert(rotation_steps(archive_count)[0] == flush);
    assert(rotation_steps(archive_count).drop_first() =~= seq![oldest] + rest);
    assert((seq![oldest] + rest).drop_first() =~= rest);
    let trimmed = files.remove(archive_count);
    assert(after_step(files, flush) == files);
    assert((seq![oldest] + rest)[0] == oldest);
    assert(after_step(files, oldest) == trimmed);
    assert(after_steps(files, seq![oldest] + rest) == after_steps(trimmed, rest));
    assert(after_steps(files, rotation_steps(archive_count)) == after_steps(
        files,
        seq![oldest] + rest,
    ));
    after_steps_of_sum(trimmed, moves, seq![WriterStep::Open]);
    moves_shift(trimmed, archive_count);
    let moved = after_steps(trimmed, moves);
    assert(seq![WriterStep::Open].drop_first() =~= Seq::empty());
    assert(seq![WriterStep::Open][0] == WriterStep::Open);
    assert(after_steps(after_step(moved, WriterStep::Open), Seq::empty()) == moved);
    assert(after_steps(moved, seq![WriterStep::Open]) == moved);
}

/// After a rotation there are at most as many files as archives are kept,
/// however many there were, so that with the current file the log never has
/// more than one file beyond the archives.
pub proof fn rotation_keeps_the_file_count<C>(files: Map<nat, C>, archive_count: nat)
    requires
        1 <= archive_count <= usize::MAX,
        forall|i: nat| #[trigger] files.dom().contains(i) ==> i <= archive_count,
    ensures
        forall|i: nat| #[trigger]
            after_steps(files, rotation_steps(archive_count)).dom().contains(i) ==> 1 <= i
                <= archive_count,
{
    rotation_shifts_the_files(files, archive_count);
}

/// What is known of the open log file: how long it is, how long it may become
/// and how many archives are kept.
#[derive(Clone, Copy, Debug, PartialEq, Eq, Structural)]
pub struct RotatingWriter {
    pub length: u64,
    pub maximum_file_bytes: u64,
    pub archive_count: usize,
}

impl RotatingWriter {
    /// Whether a line of `incoming` bytes makes the current file too long. A
    /// line that is too long by itself goes to an empty file.
    pub open spec fn rotates(self, incoming: nat) -> bool {
        self.length > 0 && self.length + incoming > self.maximum_file_bytes && (self.length
            + incoming <= u64::MAX || self.maximum_file_bytes < u64::MAX)
    }

    /// The steps that write a line of `incoming` bytes.
    pub open spec fn steps(self, incoming: nat) -> Seq<WriterStep> {
        let rotation = if self.rotates(incoming) {
            rotation_steps(self.archive_count as nat)
        } else {
            Seq::empty()
        };
        rotation + seq![WriterStep::Append, WriterStep::Flush]
    }

    /// A writer on a file that was opened with the given length.
    pub fn open(length: u64, maximum_file_bytes: u64, archive_count: usize) -> (r: RotatingWriter)
        ensures
            r == (RotatingWriter { length, maximum_file_bytes, archive_count }),
    {
        RotatingWriter { length, maximum_file_bytes, archive_count }
    }

    /// The steps of a rotation.
    pub fn rotate(&self) -> (r: Vec<WriterStep>)
        ensures
            r@ == rotation_steps(self.archive_count as nat),
    {
        let mut r: Vec<WriterStep> = Vec::new();
        r.push(WriterStep::FlushBeforeRotation);
        if self.archive_count > 0 {
            r.push(WriterStep::Remove { file: self.archive_count });
        }
        let ghost head = r@;
        let mut index: usize = self.archive_count;
        assert(head + rotation_moves(self.archive_count as nat) =~= r@ + rotation_moves(
            index as nat,
        ));
        while index > 0
            invariant
                index <= self.archive_count,
                head + rotation_moves(self.archive_count as nat) == r@ + rotation_moves(
                    index as nat,
                ),
            decreases index,
        {
            let ghost before = r@;
            r.push(WriterStep::Move { from: index - 1, to: index });
            assert(before + rotation_moves(index as nat) =~= r@ + rotation_moves(
                (index - 1) as nat,
            ));
            index = index - 1;
        }
        assert(r@ =~= head + rotation_moves(self.archive_count as nat));
        r.push(WriterStep::Open);
        assert(r@ =~= rotation_steps(self.archive_count as nat));
        r
    }

    /// The steps that write a line of `incoming` bytes, in their order. The
    /// first that fails ends the writing.
    pub fn write_line(&self, incoming: u64) -> (r: Vec<WriterStep>)
        ensures
            r@ == self.steps(incoming as nat),
    {
        let mut r: Vec<WriterStep> = if self.length > 0 && self.length.saturating_add(incoming)
            > self.maximum_file_bytes {
            self.rotate()
        } else {
            Vec::new()
        };
        r.push(WriterStep::Append);
        r.push(WriterStep::Flush);
        assert(r@ =~= self.steps(incoming as nat));
        r
    }

    /// Takes note of a step that succeeded, in the writing of a line of
    /// `incoming` bytes: a new file is empty, and the line counts once it is
    /// flushed.
    pub fn step_succeeded(&mut self, step: WriterStep, incoming: u64)
        ensures
            final(self).maximum_file_bytes == old(self).maximum_file_bytes,
            final(self).archive_count == old(self).archive_count,
            final(self).length == match step {
                WriterStep::Open => 0,
                WriterStep::Flush => if old(self).length + incoming <= u64::MAX {
                    (old(self).length + incoming) as u64
                } else {
                    u64::MAX
                },
                _ => old(self).length,
            },
    {
        match step {
            WriterStep::Open => {
                self.length = 0;
            },
            WriterStep::Flush => {
                self.length = self.length.saturating_add(incoming);
            },
            _ => {},
        }
    }
}

/// The length of the current file once all steps for a line have succeeded.
pub open spec fn length_after_line(writer: RotatingWriter, incoming: nat) -> nat {
    let kept = if writer.rotates(incoming) {
        0
    } else {
        writer.length as nat
    };
    if kept + incoming <= u64::MAX {
        kept + incoming
    } else {
        u64::MAX as nat
    }
}

/// A file that holds more than one line is never longer than the limit: what
/// a line makes of a file within the limit stays within it, unless the line
/// alone is longer.
pub proof fn files_stay_within_the_limit(writer: RotatingWriter, incoming: nat)
    requires
        incoming <= u64::MAX,
        writer.length <= writer.maximum_file_bytes,
        incoming <= writer.maximum_file_bytes,
    ensures
        length_after_line(writer, incoming) <= writer.maximum_file_bytes,
{
}

/// What is to be done with a line of the log.
#[derive(Clone, Debug, PartialEq, Eq)]
pub enum LogAction {
    /// Write the line to the log file.
    Write(String),
    /// Print the line: there is no log file.
    Print(String),
}

/// The line that is recorded for an event.
pub open spec fn event_line(timestamp: Seq<char>, event: SafeEvent) -> Seq<char> {
    timestamp + " "@ + event_text(event) + "\n"@
}

/// The local log: whether there is a file to write to, and where.
#[derive(Clone, Debug)]
pub struct LocalLog {
    health: LoggingHealth,
    writing: bool,
    directory: Option<String>,
}

/// The local log as its users see it.
pub ghost struct LocalLogView {
    pub health: LoggingHealth,
    pub writing: bool,
    pub directory: Option<Seq<char>>,
}

impl View for LocalLog {
    type V = LocalLogView;

    closed spec fn view(&self) -> LocalLogView {
        LocalLogView {
            health: self.health,
            writing: self.writing,
            directory: match self.directory {
                Some(directory) => Some(directory@),
                None => None,
            },
        }
    }
}

impl LocalLogView {
    /// The log without a file, because of a failure at `stage`.
    pub open spec fn closed(stage: LoggingFailureStage) -> LocalLogView {
        LocalLogView {
            health: LoggingHealth::Unavailable(stage),
            writing: false,
            directory: None,
        }
    }

    /// The log that writes to a file in `directory`.
    pub open spec fn opened(directory: Seq<char>) -> LocalLogView {
        LocalLogView { health: LoggingHealth::Available, writing: true, directory: Some(directory) }
    }

    /// Events are written exactly while the log is available.
    pub open spec fn consistent(self) -> bool {
        self.writing <==> self.health == LoggingHealth::Available
    }
}

impl LocalLog {
    /// The log after an attempt to open its file: `directory` is where the
    /// log goes, if that is known, and `opened` is how opening it there went.
    pub fn initialize(directory: Option<String>, opened: Result<(), LoggingFailureStage>) -> (r:
        LocalLog)
        ensures
            r@ == match (directory, opened) {
                (None, _) => LocalLogView::closed(LoggingFailureStage::ResolveDirectory),
                (Some(directory), Ok(_)) => LocalLogView::opened(directory@),
                (Some(_), Err(stage)) => LocalLogView::closed(stage),
            },
            r@.consistent(),
    {
        match directory {
            None => Self::unavailable(LoggingFailureStage::ResolveDirectory),
            Some(directory) => match opened {
                Ok(()) => Self::with_writer(directory),
                Err(stage) => Self::unavailable(stage),
            },
        }
    }

    /// The log without a file.
    pub fn unavailable(stage: LoggingFailureStage) -> (r: LocalLog)
        ensures
            r@ == LocalLogView::closed(stage),
            r@.consistent(),
    {
        LocalLog { health: LoggingHealth::Unavailable(stage), writing: false, directory: None }
    }

    /// The log with an open file in `directory`.
    pub fn with_writer(directory: String) -> (r: LocalLog)
        ensures
            r@ == LocalLogView::opened(directory@),
            r@.consistent(),
    {
        LocalLog { health: LoggingHealth::Available, writing: true, directory: Some(directory) }
    }

    /// What is to be done to record an event at a time.
    pub fn record(&self, timestamp: &str, event: &SafeEvent) -> (r: LogAction)
        ensures
            self@.writing ==> r is Write && r->Write_0@ == event_line(timestamp@, *event),
            !self@.writing ==> r is Print && r->Print_0@ == event_line(timestamp@, *event),
    {
        let line = String::from_str(timestamp).concat(" ").concat(event.render().as_str()).concat(
            "\n",
        );
        if self.writing {
            LogAction::Write(line)
        } else {
            LogAction::Print(line)
        }
    }

    /// Takes note of how writing a line went. After a failure the log is
    /// closed for good; what is returned then is to be printed.
    pub fn written(&mut self, outcome: Result<(), LoggingFailureStage>) -> (r: Option<String>)
        ensures
            outcome is Ok ==> r is None && final(self)@ == old(self)@,
            outcome is Err ==> {
                &&& r is Some
                &&& r->0@ == "Chiù local logging unavailable: "@ + stage_word(outcome->Err_0)
                &&& final(self)@ == (LocalLogView {
                    health: LoggingHealth::Unavailable(outcome->Err_0),
                    writing: false,
                    directory: old(self)@.directory,
                })
            },
    {
        match outcome {
            Ok(()) => None,
            Err(stage) => {
                self.health = LoggingHealth::Unavailable(stage);
                self.writing = false;
                Some(String::from_str("Chiù local logging unavailable: ").concat(stage_name(stage)))
            },
        }
    }

    /// Whether events reach the log file.
    pub fn health(&self) -> (r: LoggingHealth)
        ensures
            r == self@.health,
    {
        self.health
    }

    /// Where the log file is, while it can be written.
    pub fn directory(&self) -> (r: Option<&str>)
        ensures
            r is Some <==> self@.health == LoggingHealth::Available && self@.directory is Some,
            r is Some ==> r->0@ == self@.directory->0,
    {
        match self.health {
            LoggingHealth::Available => match &self.directory {
                Some(directory) => Some(directory.as_str()),
                None => None,
            },
            LoggingHealth::Unavailable(_) => None,
        }
    }

    /// How much of the log is kept.
    pub fn retention_policy() -> (r: RetentionPolicy)
        ensures
            r == (RetentionPolicy {
                maximum_files: (ARCHIVE_COUNT + 1) as usize,
                maximum_file_bytes: MAX_FILE_SIZE,
            }),
    {
        RetentionPolicy { maximum_files: ARCHIVE_COUNT + 1, maximum_file_bytes: MAX_FILE_SIZE }
    }
}

/// What an event says of an update is "unknown", "redacted" or a text made of
/// letters, digits, dots, hyphens and plus signs, whatever the update said.
pub proof fn logged_versions_are_plain(version: Option<Seq<char>>)
    ensures
        safe_version_text(version) == "unknown"@ || safe_version_text(version) == "redacted"@
            || all_chars(safe_version_text(version), |c: char| is_version_char(c)),
        version is Some && is_version(version->0) ==> safe_version_text(version) == version->0,
{
}

} // verus!
