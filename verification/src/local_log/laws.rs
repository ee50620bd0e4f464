//! What the log is for: what its lines say, when a new file is begun, and which
//! files are kept.

use super::{
    archive_index, decimal_is_read_back, event_line, event_text, excess_archives, is_version,
    length_after_line, log_file_name, rotation_steps, safe_version_text, unsigned_value,
    ARCHIVE_COUNT, DetectorStateEvent, EventOutcome, LocalLogView, LoggingFailureStage,
    LoggingHealth, MAX_FILE_SIZE, ManualCommandEvent, ProtectionAction, RotatingWriter,
    SafeEvent, WriterStep,
};
use crate::text::{byte_length, decimal};
use vstd::prelude::*;
use vstd::string::*;

verus! {

/// Events without a payload are logged under their names: trouble as a
/// warning, the end of the program for want of something as an error.
pub proof fn plain_events_are_logged_by_name()
    ensures
        event_text(SafeEvent::ProcessStopped) == "INFO process.stopped"@,
        event_text(SafeEvent::ApplicationReady) == "INFO application.ready"@,
        event_text(SafeEvent::ApplicationDegraded) == "WARN application.degraded"@,
        event_text(SafeEvent::ApplicationFailed) == "ERROR application.failed"@,
        event_text(SafeEvent::ShutdownRequested) == "INFO application.shutdown-requested"@,
        event_text(SafeEvent::DetectorContinuityReset) == "WARN detector.continuity-reset"@,
        event_text(SafeEvent::NetworkContinuityReset) == "WARN network.continuity-reset"@,
{
}

/// Events that carry a word or a number are logged with it, and with nothing
/// that they do not carry.
pub proof fn events_are_logged_with_what_they_carry(
    word: &'static str,
    second: &'static str,
    version: String,
    count: usize,
)
    ensures
        event_text(SafeEvent::ProcessStarted) == "INFO process.started version="@ + "0.1.0"@,
        event_text(SafeEvent::CleanupFailed { capability: word })
            == "ERROR application.cleanup-failed capability="@ + word@,
        event_text(SafeEvent::OptionalCapabilityUnavailable { capability: word })
            == "WARN capability.unavailable capability="@ + word@,
        event_text(
            SafeEvent::SettingsLoaded { condition: word, persistence: second, recoveries: count },
        ) == "INFO settings.loaded condition="@ + word@ + " persistence="@ + second@
            + " recoveries="@ + decimal(count as nat),
        event_text(SafeEvent::SettingsChanged { field: word }) == "INFO settings.changed field="@
            + word@,
        event_text(SafeEvent::SettingsWriteFailed { field: word })
            == "WARN settings.write-failed field="@ + word@,
        event_text(SafeEvent::PowerChanged { source: word, health: second })
            == "INFO power.changed source="@ + word@ + " health="@ + second@,
        event_text(SafeEvent::NetworkAvailability { status: word })
            == "INFO network.availability status="@ + word@,
        event_text(SafeEvent::NetworkTopologyChanged { interfaces: count })
            == "INFO network.topology-changed interfaces="@ + decimal(count as nat),
        event_text(SafeEvent::UpdaterAvailable { version })
            == "INFO updater.update-available version="@ + version@,
        event_text(SafeEvent::PresentationFailure { stage: word })
            == "ERROR presentation.failed stage="@ + word@,
{
}

/// Changes of what keeps the computer awake are logged with what is so now.
pub proof fn changes_are_logged_with_what_is_so_now(
    on: bool,
    other: bool,
    on_word: Seq<char>,
    other_word: Seq<char>,
    word: &'static str,
    from: DetectorStateEvent,
    to: DetectorStateEvent,
    from_word: Seq<char>,
    to_word: Seq<char>,
)
    requires
        on ==> on_word == "true"@,
        !on ==> on_word == "false"@,
        other ==> other_word == "true"@,
        !other ==> other_word == "false"@,
        from == DetectorStateEvent::Idle ==> from_word == "idle"@,
        from == DetectorStateEvent::Active ==> from_word == "active"@,
        from == DetectorStateEvent::Hold ==> from_word == "hold"@,
        to == DetectorStateEvent::Idle ==> to_word == "idle"@,
        to == DetectorStateEvent::Active ==> to_word == "active"@,
        to == DetectorStateEvent::Hold ==> to_word == "hold"@,
    ensures
        event_text(SafeEvent::DetectorTransition { from, to }) == "INFO detector.transition from="@
            + from_word + " to="@ + to_word,
        event_text(SafeEvent::AutomaticEligibilityChanged { eligible: on, suppression: word })
            == "INFO automatic.eligibility eligible="@ + on_word + " suppression="@ + word@,
        event_text(SafeEvent::WakeReasonsChanged { automatic: on, manual: other })
            == "INFO wake.reasons-changed automatic="@ + on_word + " manual="@ + other_word,
{
}

/// What was attempted is logged with how it went: a failure is a warning, and
/// a request that was refused is not.
pub proof fn attempts_are_logged_with_how_they_went(
    outcome: EventOutcome,
    level: Seq<char>,
    end: Seq<char>,
    on: bool,
    on_word: Seq<char>,
    action: &'static str,
    stage: &'static str,
)
    requires
        outcome == EventOutcome::Succeeded ==> level == "INFO"@ && end == "succeeded"@,
        outcome == EventOutcome::Failed ==> level == "WARN"@ && end == "failed"@,
        outcome == EventOutcome::Rejected ==> level == "INFO"@ && end == "rejected"@,
        on ==> on_word == "true"@,
        !on ==> on_word == "false"@,
    ensures
        event_text(SafeEvent::ManualCommand { command: ManualCommandEvent::Start, outcome })
            == level + " manual.command command="@ + "start"@ + " outcome="@ + end,
        event_text(SafeEvent::ManualCommand { command: ManualCommandEvent::Add, outcome }) == level
            + " manual.command command="@ + "add"@ + " outcome="@ + end,
        event_text(SafeEvent::ManualCommand { command: ManualCommandEvent::Convert, outcome })
            == level + " manual.command command="@ + "convert"@ + " outcome="@ + end,
        event_text(SafeEvent::ManualCommand { command: ManualCommandEvent::Stop, outcome })
            == level + " manual.command command="@ + "stop"@ + " outcome="@ + end,
        event_text(SafeEvent::ManualExpired { outcome }) == level + " manual.expired outcome="@
            + end,
        event_text(SafeEvent::AutomaticReconciliation { active: on, outcome }) == level
            + " automatic.reconciliation active="@ + on_word + " outcome="@ + end,
        event_text(SafeEvent::NativeProtection { action: ProtectionAction::Acquire, outcome })
            == level + " wake.native-protection action="@ + "acquire"@ + " outcome="@ + end,
        event_text(SafeEvent::NativeProtection { action: ProtectionAction::Release, outcome })
            == level + " wake.native-protection action="@ + "release"@ + " outcome="@ + end,
        event_text(SafeEvent::LaunchAtLogin { action, outcome, stage }) == level
            + " launch-at-login action="@ + action@ + " outcome="@ + end + " stage="@ + stage@,
        event_text(SafeEvent::Updater { action, outcome, stage }) == level + " updater action="@
            + action@ + " outcome="@ + end + " stage="@ + stage@,
        event_text(SafeEvent::DiagnosticsAction { action, outcome }) == level
            + " diagnostics action="@ + action@ + " outcome="@ + end,
{
}

/// A line is the time, the event and the end of the line.
pub proof fn a_line_begins_with_its_time(timestamp: Seq<char>, event: SafeEvent)
    ensures
        ({
            let line = event_line(timestamp, event);
            &&& line.take(timestamp.len() as int) == timestamp
            &&& line[timestamp.len() as int] == ' '
            &&& line.last() == '\n'
            &&& line.subrange(timestamp.len() as int + 1, line.len() - 1) == event_text(event)
        }),
{
    reveal_strlit(" ");
    reveal_strlit("\n");
    let line = event_line(timestamp, event);
    assert(line.take(timestamp.len() as int) =~= timestamp);
    assert(line.subrange(timestamp.len() as int + 1, line.len() - 1) =~= event_text(event));
}

/// A version is logged as it is where it is no longer than 64 bytes and made
/// of letters, digits, dots, hyphens and plus signs alone. Another is not
/// logged, and none at all is unknown.
pub proof fn versions_are_logged_where_they_look_like_one(version: Seq<char>)
    ensures
        safe_version_text(None) == "unknown"@,
        is_version(version) <==> {
            &&& version.len() > 0
            &&& byte_length(version) <= 64
            &&& forall|i: int| #![trigger version[i]]
                0 <= i < version.len() ==> {
                    ||| '0' as u32 <= version[i] as u32 <= '9' as u32
                    ||| 'a' as u32 <= version[i] as u32 <= 'z' as u32
                    ||| 'A' as u32 <= version[i] as u32 <= 'Z' as u32
                    ||| version[i] == '.'
                    ||| version[i] == '-'
                    ||| version[i] == '+'
                }
        },
        is_version(version) ==> safe_version_text(Some(version)) == version,
        !is_version(version) ==> safe_version_text(Some(version)) == "redacted"@,
{
}

/// A new file is begun exactly where the current one holds something and the
/// line would make it longer than it may be, whatever the limit is.
pub proof fn a_new_file_is_begun_when_the_line_does_not_fit(writer: RotatingWriter, incoming: u64)
    requires
        writer.length + incoming <= u64::MAX,
    ensures
        ({
            let steps = writer.steps(incoming as nat);
            let fits = writer.length == 0 || writer.length + incoming <= writer.maximum_file_bytes;
            &&& fits <==> steps == seq![WriterStep::Append, WriterStep::Flush]
            &&& fits ==> length_after_line(writer, incoming as nat) == writer.length + incoming
            &&& !fits ==> length_after_line(writer, incoming as nat) == incoming
            &&& !fits ==> steps == rotation_steps(writer.archive_count as nat)
                + seq![WriterStep::Append, WriterStep::Flush]
        }),
{
    let steps = writer.steps(incoming as nat);
    if writer.rotates(incoming as nat) {
        assert(steps[0] == WriterStep::FlushBeforeRotation);
    } else {
        assert(steps =~= seq![WriterStep::Append, WriterStep::Flush]);
    }
}

/// Nothing of the current file is lost in a rotation: it is flushed first of
/// all, and a new one is opened last of all.
pub proof fn a_rotation_flushes_first_and_opens_last(archive_count: nat)
    ensures
        rotation_steps(archive_count).first() == WriterStep::FlushBeforeRotation,
        rotation_steps(archive_count).last() == WriterStep::Open,
        0 < archive_count <= usize::MAX ==> rotation_steps(archive_count)[1] == (
        WriterStep::Remove { file: archive_count as usize }),
{
}

/// Each step that fails is shown as what it was for.
pub proof fn failing_steps_are_named(file: usize, to: usize)
    ensures
        WriterStep::FlushBeforeRotation.failure() == LoggingFailureStage::Flush,
        (WriterStep::Remove { file }).failure() == LoggingFailureStage::Prune,
        (WriterStep::Move { from: file, to }).failure() == LoggingFailureStage::Rotate,
        WriterStep::Open.failure() == LoggingFailureStage::Open,
        WriterStep::Append.failure() == LoggingFailureStage::Write,
        WriterStep::Flush.failure() == LoggingFailureStage::Flush,
{
}

/// At most four files of a mebibyte each are kept besides the current one.
pub proof fn little_is_kept()
    ensures
        ARCHIVE_COUNT == 4,
        MAX_FILE_SIZE == 1_048_576,
{
}

/// A number is read from its digits, with or without a plus sign before them,
/// and from nothing else.
pub proof fn numbers_are_read_from_their_digits(n: nat, text: Seq<char>)
    ensures
        unsigned_value(decimal(n)) == Some(n),
        unsigned_value(seq!['+'] + decimal(n)) == Some(n),
        unsigned_value(Seq::empty()) is None,
        unsigned_value(text) is Some ==> forall|i: int|
            #![trigger text[i]]
            0 <= i < text.len() ==> '0' as u32 <= text[i] as u32 <= '9' as u32 || (i == 0 && text[i]
                == '+'),
        text.len() > 0 && (forall|i: int|
            #![trigger text[i]]
            0 <= i < text.len() ==> '0' as u32 <= text[i] as u32 <= '9' as u32) ==> unsigned_value(
            text,
        ) is Some,
{
    decimal_is_read_back(n);
    assert((seq!['+'] + decimal(n)).drop_first() =~= decimal(n));
    if unsigned_value(text) is Some && text[0] == '+' {
        assert forall|i: int| #![trigger text[i]] 1 <= i < text.len() implies '0' as u32
            <= text[i] as u32 <= '9' as u32 by {
            assert(text.drop_first()[i - 1] == text[i]);
        }
    }
}

proof fn kept_ones_were_there(
    names: Seq<Seq<char>>,
    wanted: spec_fn(Seq<char>) -> bool,
    name: Seq<char>,
)
    requires
        names.filter(wanted).contains(name),
    ensures
        names.contains(name),
        wanted(name),
    decreases names.len(),
{
    reveal(Seq::filter);
    if names.len() > 0 {
        let shorter = names.drop_last();
        if shorter.filter(wanted).contains(name) {
            kept_ones_were_there(shorter, wanted, name);
            let i = choose|i: int| 0 <= i < shorter.len() && shorter[i] == name;
            assert(names[i] == name);
        } else {
            let kept = names.filter(wanted);
            let i = choose|i: int| 0 <= i < kept.len() && kept[i] == name;
            assert(i < shorter.filter(wanted).len() ==> shorter.filter(wanted)[i] == name);
            assert(names[names.len() - 1] == name);
        }
    }
}

/// Archives beyond the ones that are kept are removed, and no other file is.
pub proof fn only_excess_archives_are_removed(names: Seq<Seq<char>>, count: nat, name: Seq<char>)
    ensures
        excess_archives(names, count).contains(name) ==> names.contains(name) && archive_index(
            name,
        ) is Some && !(1 <= archive_index(name)->0 <= count),
        names.contains(name) && archive_index(name) is Some && count < archive_index(name)->0
            <= usize::MAX ==> excess_archives(names, count).contains(name),
        log_file_name(0) == "chiu.log"@,
{
    broadcast use vstd::seq_lib::group_filter_ensures;

    let excess = |name: Seq<char>|
        archive_index(name) is Some && archive_index(name)->0 <= usize::MAX && (archive_index(
            name,
        )->0 == 0 || archive_index(name)->0 > count);
    assert(excess_archives(names, count) =~= names.filter(excess));
    if names.filter(excess).contains(name) {
        kept_ones_were_there(names, excess, name);
    }
    if names.contains(name) && excess(name) {
        let i = choose|i: int| 0 <= i < names.len() && names[i] == name;
        assert(names.filter(excess).contains(names[i]));
    }
}

/// A log with a file writes to it in its directory, and one without has
/// neither.
pub proof fn a_log_writes_where_it_was_opened(directory: Seq<char>, stage: LoggingFailureStage)
    ensures
        LocalLogView::opened(directory).health == LoggingHealth::Available,
        LocalLogView::opened(directory).writing,
        LocalLogView::opened(directory).directory == Some(directory),
        LocalLogView::closed(stage).health == LoggingHealth::Unavailable(stage),
        !LocalLogView::closed(stage).writing,
        LocalLogView::closed(stage).directory is None,
{
}

} // verus!
