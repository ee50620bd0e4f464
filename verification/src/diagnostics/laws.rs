//! What reports are for: what they tell of the program, line by line.

use super::report::{
    application_section, application_status_word, automatic_section, capabilities_words,
    detector_section, external_words, heading, interface_line, interface_section, is_harmless,
    launch_section, listed, load_words, logging_health_word, logging_section, manual_section,
    network_section, pending_words, power_section, reasons_words, recovery_line, report_lines,
    settings_section, timestamp_words, update_lines, updater_section, version_words,
    wake_section, warning_line, BoundedModel, MAX_DIAGNOSTIC_BYTES, MAX_INTERFACES,
};
use super::{
    settings_facts, ApplicationFacts, AutomaticFacts, DetectorFacts, DiagnosticInput,
    DiagnosticsService, InterfaceFacts, LaunchAtLoginFacts, ManualFacts, NetworkFacts,
    PlatformInfo, PowerFacts, SettingsFacts, UpdaterFacts, WakeFacts,
};
use crate::application::{ApplicationStatus, CapabilityId, StartupFailurePoint};
use crate::automatic_download::AutomaticDownloadState;
use crate::local_log::{LocalLog, LoggingHealth};
use crate::manual_session::{text_view, ManualSessionState};
use crate::settings::{LoadCondition, Settings};
use crate::settings::service::SettingsHealth;
use crate::text::{byte_length, decimal};
use crate::updater::UpdateStatus;
use crate::wake_coordinator::WakeReason;
use vstd::prelude::*;
use vstd::string::*;

verus! {

/// A switch in words.
pub open spec fn yes(value: bool) -> Seq<char> {
    if value {
        "true"@
    } else {
        "false"@
    }
}

/// Whether lines stand together in a report.
pub open spec fn holds(report: Seq<Seq<char>>, lines: Seq<Seq<char>>) -> bool {
    exists|from: int|
        0 <= from && from + lines.len() <= report.len() && #[trigger] report.subrange(
            from,
            from + lines.len(),
        ) == lines
}

/// Parts one after the other.
pub open spec fn together(parts: Seq<Seq<Seq<char>>>) -> Seq<Seq<char>>
    decreases parts.len(),
{
    if parts.len() == 0 {
        Seq::empty()
    } else {
        together(parts.drop_last()) + parts.last()
    }
}

proof fn one_more_part(parts: Seq<Seq<Seq<char>>>, next: Seq<Seq<char>>)
    ensures
        together(parts.push(next)) == together(parts) + next,
{
    assert(parts.push(next).drop_last() =~= parts);
}

proof fn parts_are_held(parts: Seq<Seq<Seq<char>>>, i: int)
    requires
        0 <= i < parts.len(),
    ensures
        holds(together(parts), parts[i]),
    decreases parts.len(),
{
    let whole = together(parts);
    let before = together(parts.drop_last());
    let last = parts.last();
    if i == parts.len() - 1 {
        let from = before.len() as int;
        assert(whole.subrange(from, from + last.len()) =~= last);
    } else {
        parts_are_held(parts.drop_last(), i);
        let lines = parts[i];
        assert(parts.drop_last()[i] == lines);
        let from = choose|from: int|
            0 <= from && from + lines.len() <= before.len() && #[trigger] before.subrange(
                from,
                from + lines.len(),
            ) == lines;
        assert(whole.subrange(from, from + lines.len()) =~= before.subrange(
            from,
            from + lines.len(),
        ));
    }
}

proof fn sums_associate(a: Seq<Seq<char>>, b: Seq<Seq<char>>, c: Seq<Seq<char>>)
    ensures
        a + b + c == a + (b + c),
{
    assert(a + b + c =~= a + (b + c));
}

proof fn empty_is_nothing(lines: Seq<Seq<char>>)
    ensures
        Seq::<Seq<char>>::empty() + lines == lines,
{
    assert(Seq::<Seq<char>>::empty() + lines =~= lines);
}

/// Whether lines begin with other lines.
spec fn starts(lines: Seq<Seq<char>>, first: Seq<Seq<char>>) -> bool {
    first.len() <= lines.len() && lines.take(first.len() as int) == first
}

proof fn begins_with(first: Seq<Seq<char>>, lines: Seq<Seq<char>>, more: Seq<Seq<char>>)
    requires
        lines == first || starts(lines, first),
    ensures
        starts(lines + more, first),
{
    assert(first.take(first.len() as int) =~= first);
    assert((lines + more).take(first.len() as int) =~= lines.take(first.len() as int));
}

proof fn the_beginning(head: Seq<Seq<char>>, next: Seq<Seq<char>>, report: Seq<Seq<char>>)
    requires
        starts(report, head + next),
        head.len() == 6,
        next.len() >= 2,
    ensures
        report.take(6) == head,
        report[6] == next[0],
        report[7] == next[1],
{
    let first = head + next;
    assert(report.take(first.len() as int) == first);
    assert(report.take(6) =~= first.take(6));
    assert(first.take(6) =~= head);
    assert(report[6] == report.take(first.len() as int)[6]);
    assert(report[7] == report.take(first.len() as int)[7]);
}

/// The part of a report on something, under its heading: what is told of it,
/// or that it has not begun.
pub open spec fn part(name: Seq<char>, lines: Option<Seq<Seq<char>>>) -> Seq<Seq<char>> {
    seq!["["@ + name + "]"@] + if lines is Some {
        lines->0
    } else {
        seq!["status=not-initialized"@]
    }
}

/// A report holds every part, each under its own heading, with what is told of
/// the part of that name.
pub proof fn a_report_holds_every_part(
    input: DiagnosticInput,
    generated_at: Seq<char>,
    platform: PlatformInfo,
    health: LoggingHealth,
)
    ensures
        ({
            let report = report_lines(input, generated_at, platform, health);
            &&& report.take(6) == heading(generated_at, platform)
            &&& report[6] == "["@ + "application"@ + "]"@
            &&& report[7] == "status="@ + super::report::application_status_word(
                input.application.status,
            )
            &&& holds(report, part("application"@, Some(application_section(input.application))))
            &&& holds(
                report,
                part(
                    "settings"@,
                    match input.settings {
                        Some(facts) => Some(settings_section(facts)),
                        None => None,
                    },
                ),
            )
            &&& holds(report, part("manual_keep_awake"@, Some(manual_section(input.manual))))
            &&& holds(
                report,
                part(
                    "detector"@,
                    match input.detector {
                        Some(facts) => Some(detector_section(facts)),
                        None => None,
                    },
                ),
            )
            &&& holds(
                report,
                part(
                    "automatic_protection"@,
                    match input.automatic {
                        Some(facts) => Some(automatic_section(facts)),
                        None => None,
                    },
                ),
            )
            &&& holds(
                report,
                part(
                    "power_source"@,
                    match input.power {
                        Some(facts) => Some(power_section(facts)),
                        None => None,
                    },
                ),
            )
            &&& holds(report, part("wake_coordination"@, Some(wake_section(input.wake))))
            &&& holds(
                report,
                part("network"@, Some(network_section(input.network, input.interfaces@.len())))
                    + interface_section(input.interfaces@),
            )
            &&& holds(
                report,
                part(
                    "launch_at_login"@,
                    match input.launch_at_login {
                        Some(facts) => Some(launch_section(facts)),
                        None => None,
                    },
                ),
            )
            &&& holds(
                report,
                part(
                    "updater"@,
                    match input.updater {
                        Some(facts) => Some(updater_section(facts)),
                        None => None,
                    },
                ),
            )
            &&& holds(report, logging_section(health))
        }),
{
    let report = report_lines(input, generated_at, platform, health);
    let p0 = heading(generated_at, platform);
    let p1 = part("application"@, Some(application_section(input.application)));
    let p2 = part(
        "settings"@,
        match input.settings {
            Some(facts) => Some(settings_section(facts)),
            None => None,
        },
    );
    let p3 = part("manual_keep_awake"@, Some(manual_section(input.manual)));
    let p4 = part(
        "detector"@,
        match input.detector {
            Some(facts) => Some(detector_section(facts)),
            None => None,
        },
    );
    let p5 = part(
        "automatic_protection"@,
        match input.automatic {
            Some(facts) => Some(automatic_section(facts)),
            None => None,
        },
    );
    let p6 = part(
        "power_source"@,
        match input.power {
            Some(facts) => Some(power_section(facts)),
            None => None,
        },
    );
    let p7 = part("wake_coordination"@, Some(wake_section(input.wake)));
    let p8 = part("network"@, Some(network_section(input.network, input.interfaces@.len())))
        + interface_section(input.interfaces@);
    let p9 = part(
        "launch_at_login"@,
        match input.launch_at_login {
            Some(facts) => Some(launch_section(facts)),
            None => None,
        },
    );
    let p10 = part(
        "updater"@,
        match input.updater {
            Some(facts) => Some(updater_section(facts)),
            None => None,
        },
    );
    let p11 = logging_section(health);
    let s0 = Seq::<Seq<Seq<char>>>::empty();
    let s1 = s0.push(p0);
    one_more_part(s0, p0);
    let s2 = s1.push(p1);
    one_more_part(s1, p1);
    let s3 = s2.push(p2);
    one_more_part(s2, p2);
    let s4 = s3.push(p3);
    one_more_part(s3, p3);
    let s5 = s4.push(p4);
    one_more_part(s4, p4);
    let s6 = s5.push(p5);
    one_more_part(s5, p5);
    let s7 = s6.push(p6);
    one_more_part(s6, p6);
    let s8 = s7.push(p7);
    one_more_part(s7, p7);
    let s9 = s8.push(p8);
    one_more_part(s8, p8);
    let s10 = s9.push(p9);
    one_more_part(s9, p9);
    let s11 = s10.push(p10);
    one_more_part(s10, p10);
    let s12 = s11.push(p11);
    one_more_part(s11, p11);
    parts_are_held(s12, 0);
    parts_are_held(s12, 1);
    parts_are_held(s12, 2);
    parts_are_held(s12, 3);
    parts_are_held(s12, 4);
    parts_are_held(s12, 5);
    parts_are_held(s12, 6);
    parts_are_held(s12, 7);
    parts_are_held(s12, 8);
    parts_are_held(s12, 9);
    parts_are_held(s12, 10);
    parts_are_held(s12, 11);
    let network = part("network"@, Some(network_section(input.network, input.interfaces@.len())));
    let interfaces = interface_section(input.interfaces@);
    sums_associate(together(s8), network, interfaces);
    empty_is_nothing(p0);
    assert(report == together(s12));
    begins_with(together(s2), together(s2), p2);
    begins_with(together(s2), together(s3), p3);
    begins_with(together(s2), together(s4), p4);
    begins_with(together(s2), together(s5), p5);
    begins_with(together(s2), together(s6), p6);
    begins_with(together(s2), together(s7), p7);
    begins_with(together(s2), together(s8), p8);
    begins_with(together(s2), together(s9), p9);
    begins_with(together(s2), together(s10), p10);
    begins_with(together(s2), together(s11), p11);
    the_beginning(p0, p1, report);
}

/// The part on the program: its status, what it runs without, where its start
/// failed and what could not be stopped.
pub proof fn the_program_is_told(facts: ApplicationFacts)
    ensures
        ({
            let lines = application_section(facts);
            &&& lines.len() == 4
            &&& lines[0] == "status="@ + super::report::application_status_word(facts.status)
            &&& lines[1] == "unavailable_capabilities="@ + capabilities_words(
                facts.unavailable_capabilities@,
            )
            &&& facts.startup_failure is None ==> lines[2] == "startup_failure="@ + "none"@
            &&& facts.startup_failure == Some(StartupFailurePoint::Settings) ==> lines[2]
                == "startup_failure="@ + "settings"@
            &&& facts.startup_failure is Some && facts.startup_failure->0 is Required ==> lines[2]
                == "startup_failure="@ + ("required-capability:"@
                + facts.startup_failure->0->Required_0.0@)
            &&& lines[3] == "cleanup_failures="@ + capabilities_words(facts.cleanup_failures@)
        }),
{
}

/// Capabilities are listed with commas between them, and none as such.
pub proof fn capabilities_are_listed(capabilities: Seq<CapabilityId>, next: CapabilityId)
    ensures
        capabilities_words(Seq::empty()) == "none"@,
        capabilities_words(seq![next]) == next.0@,
        capabilities.len() > 0 ==> capabilities_words(capabilities.push(next))
            == capabilities_words(capabilities) + ","@ + next.0@,
{
    reveal_with_fuel(crate::text::joined, 3);
    let names = |list: Seq<CapabilityId>|
        list.map_values(|capability: CapabilityId| capability.0@);
    assert(names(seq![next]) =~= seq![next.0@]);
    assert(names(capabilities.push(next)) =~= names(capabilities).push(next.0@));
    assert(names(capabilities).push(next.0@).drop_last() =~= names(capabilities));
    assert(seq![next.0@].drop_last() =~= Seq::<Seq<char>>::empty());
}

/// The reasons to stay awake are listed with commas between them, and none as
/// such.
pub proof fn reasons_are_listed(reasons: Seq<WakeReason>)
    ensures
        reasons_words(Seq::empty()) == "none"@,
        reasons_words(seq![WakeReason::AutomaticDownload]) == "automatic-download"@,
        reasons_words(seq![WakeReason::ManualKeepAwake]) == "manual-keep-awake"@,
        reasons_words(seq![WakeReason::AutomaticDownload, WakeReason::ManualKeepAwake])
            == "automatic-download"@ + ","@ + "manual-keep-awake"@,
{
    reveal_with_fuel(crate::text::joined, 3);
    let names = |list: Seq<WakeReason>|
        list.map_values(|reason: WakeReason| super::report::wake_reason_word(reason));
    let one = "automatic-download"@;
    let two = "manual-keep-awake"@;
    assert(names(seq![WakeReason::AutomaticDownload]) =~= seq![one]);
    assert(names(seq![WakeReason::ManualKeepAwake]) =~= seq![two]);
    assert(names(seq![WakeReason::AutomaticDownload, WakeReason::ManualKeepAwake]) =~= seq![
        one,
        two,
    ]);
    assert(seq![one].drop_last() =~= Seq::<Seq<char>>::empty());
    assert(seq![two].drop_last() =~= Seq::<Seq<char>>::empty());
    assert(seq![one, two].drop_last() =~= seq![one]);
}

/// The part on the settings: every switch under its own name, the tuning in
/// bytes per second and milliseconds, how the settings were loaded, and what
/// went wrong with them.
pub proof fn the_settings_are_told(facts: SettingsFacts)
    ensures
        ({
            let lines = settings_section(facts);
            let recovered = facts.field_recoveries@.len();
            let warned = facts.artifact_warnings@.len();
            &&& lines[0] == "automatic_download_protection="@ + yes(
                facts.automatic_download_protection,
            )
            &&& lines[1] == "protect_on_battery="@ + yes(facts.protect_on_battery)
            &&& lines[2] == "launch_at_login="@ + yes(facts.launch_at_login)
            &&& lines[3] == "automatic_update_checks="@ + yes(facts.automatic_update_checks)
            &&& lines[4] == "threshold_bytes_per_second="@ + decimal(
                facts.threshold_bytes_per_second as nat,
            )
            &&& lines[5] == "qualification_milliseconds="@ + decimal(
                facts.qualification@ / 1_000_000,
            )
            &&& lines[6] == "grace_milliseconds="@ + decimal(facts.grace@ / 1_000_000)
            &&& lines[7] == "load_condition="@ + load_words(facts.load_condition)
            &&& lines[8] == "persistence="@ + super::report::persistence_word(facts.persistence)
            &&& forall|i: int|
                0 <= i < recovered ==> #[trigger] lines[9 + i] == recovery_line(
                    facts.field_recoveries@[i],
                )
            &&& forall|i: int|
                0 <= i < warned ==> #[trigger] lines[9 + recovered + i] == warning_line(
                    facts.artifact_warnings@[i],
                )
            &&& facts.last_save_failure is None ==> lines.len() == 9 + recovered + warned
            &&& facts.last_save_failure is Some ==> lines.len() == 10 + recovered + warned
                && lines.last() == "last_save_failure="@ + super::report::settings_failure_word(
                facts.last_save_failure->0,
            )
        }),
{
}

/// Recoveries and warnings are told by what they are about.
pub proof fn recoveries_are_told(
    recovery: crate::settings::FieldRecovery,
    warning: crate::settings::ArtifactWarning,
)
    ensures
        recovery_line(recovery) == "field_recovery="@ + super::report::setting_path_word(
            recovery.path,
        ) + " reason="@ + super::report::recovery_reason_word(recovery.reason),
        warning_line(warning) == "artifact_warning="@ + super::report::artifact_warning_word(
            warning,
        ),
{
}

/// How the settings were loaded is told apart from how else they may be, and a
/// later version by its number.
pub proof fn conditions_of_loading_are_told(condition: LoadCondition)
    ensures
        condition == LoadCondition::FirstRun ==> load_words(condition) == "first-run"@,
        condition == LoadCondition::CurrentVersion ==> load_words(condition)
            == "current-version"@,
        condition == LoadCondition::PartialRecovery ==> load_words(condition)
            == "partial-recovery"@,
        condition == LoadCondition::RecoveredFromBackup ==> load_words(condition)
            == "recovered-from-backup"@,
        condition == LoadCondition::MalformedDefaulted ==> load_words(condition)
            == "malformed-defaulted"@,
        condition == LoadCondition::PersistenceUnavailable ==> load_words(condition)
            == "persistence-unavailable"@,
        condition == LoadCondition::SchemaMetadataRecovered ==> load_words(condition)
            == "schema-metadata-recovered"@,
        condition is UnsupportedFutureSchema ==> load_words(condition)
            == "unsupported-future-schema:"@ + decimal(condition->found as nat),
{
}

/// The part on the manual session: its state, with the whole seconds that are
/// left, and whether something failed.
pub proof fn the_session_is_told(facts: ManualFacts)
    ensures
        ({
            let lines = manual_section(facts);
            &&& lines.len() == 2
            &&& facts.state == ManualSessionState::Inactive ==> lines[0] == "state="@ + "inactive"@
            &&& facts.state == ManualSessionState::UntilDisabled ==> lines[0] == "state="@
                + "until-disabled"@
            &&& facts.state is Finite ==> lines[0] == "state="@ + ("finite remaining_seconds="@
                + decimal(facts.state->remaining@ / 1_000_000_000))
            &&& facts.background_failure ==> lines[1] == "background_failure="@
                + "wake-coordination"@
            &&& !facts.background_failure ==> lines[1] == "background_failure="@ + "none"@
        }),
{
}

/// The part on the detector: its state, with the whole milliseconds of grace
/// that are left, and the latest rate.
pub proof fn the_detector_is_told(facts: DetectorFacts)
    ensures
        ({
            let lines = detector_section(facts);
            &&& lines.len() == 2
            &&& facts.state == AutomaticDownloadState::Idle ==> lines[0] == "state="@ + "idle"@
            &&& facts.state == AutomaticDownloadState::Active ==> lines[0] == "state="@ + "active"@
            &&& facts.state is Hold ==> lines[0] == "state="@ + ("hold remaining_milliseconds="@
                + decimal(facts.state->remaining_grace@ / 1_000_000))
            &&& facts.latest_receive_rate_bytes_per_second is Some ==> lines[1]
                == "aggregate_receive_bytes_per_second="@ + decimal(
                facts.latest_receive_rate_bytes_per_second->0 as nat,
            )
            &&& facts.latest_receive_rate_bytes_per_second is None ==> lines[1]
                == "aggregate_receive_bytes_per_second=unavailable"@
        }),
{
}

/// The part on automatic protection: every fact under its own name.
pub proof fn the_policy_is_told(facts: AutomaticFacts)
    ensures
        ({
            let lines = automatic_section(facts);
            &&& lines.len() == 6
            &&& lines[0] == "preference_enabled="@ + yes(facts.preference_enabled)
            &&& lines[1] == "protect_on_battery="@ + yes(facts.protect_on_battery)
            &&& lines[2] == "detector_intent="@ + yes(facts.detector_intent)
            &&& lines[3] == "desired_automatic_reason="@ + yes(facts.desired_automatic_reason)
            &&& facts.suppression is None ==> lines[4] == "suppression="@ + "none"@
            &&& facts.suppression is Some ==> lines[4] == "suppression="@
                + super::report::suppression_word(facts.suppression->0)
            &&& facts.coordination_failure ==> lines[5] == "coordination_failure="@
                + "wake-coordination"@
            &&& !facts.coordination_failure ==> lines[5] == "coordination_failure="@ + "none"@
        }),
{
}

/// The part on the power source, with what was refused and the platform's code
/// where there is one.
pub proof fn the_power_source_is_told(facts: PowerFacts)
    ensures
        ({
            let lines = power_section(facts);
            &&& lines[0] == "source="@ + super::report::power_source_word(facts.source)
            &&& lines[1] == "health="@ + super::report::power_health_word(facts.health)
            &&& facts.failure is None ==> lines.len() == 2
            &&& facts.failure is Some ==> lines[2] == "failure_operation="@
                + super::report::power_operation_word(facts.failure->0.operation)
            &&& facts.failure is Some && facts.failure->0.code is None ==> lines.len() == 3
            &&& facts.failure is Some && facts.failure->0.code is Some ==> lines.len() == 4
                && lines[3] == "failure_code="@ + decimal(facts.failure->0.code->0 as nat)
        }),
{
}

/// The parts on protection, on the network and on starting at login.
pub proof fn protection_network_and_launch_are_told(
    wake: WakeFacts,
    network: NetworkFacts,
    interfaces: nat,
    launch: LaunchAtLoginFacts,
)
    ensures
        wake_section(wake).len() == 2,
        wake_section(wake)[0] == "active_reasons="@ + reasons_words(wake.active_reasons@),
        wake_section(wake)[1] == "native_protection="@ + super::report::protection_word(
            wake.protection,
        ),
        network_section(network, interfaces).len() == 3,
        network_section(network, interfaces)[0] == "status="@
            + super::report::network_status_word(network.status),
        network.failure is None ==> network_section(network, interfaces)[1] == "failure="@
            + "none"@,
        network.failure is Some ==> network_section(network, interfaces)[1] == "failure="@
            + super::report::network_failure_word(network.failure->0),
        network_section(network, interfaces)[2] == "interface_count="@ + decimal(interfaces),
        launch_section(launch).len() == 4,
        launch_section(launch)[0] == "available="@ + yes(launch.available),
        launch_section(launch)[1] == "desired="@ + yes(launch.desired),
        launch_section(launch)[2] == "observed="@ + super::report::registration_word(
            launch.observed,
        ),
        launch.failure_stage is None ==> launch_section(launch)[3] == "failure_stage="@ + "none"@,
        launch.failure_stage is Some ==> launch_section(launch)[3] == "failure_stage="@
            + super::report::launch_stage_word(launch.failure_stage->0),
{
}

/// Interfaces are told one by one, at most 64 of them, and how many were left
/// out.
pub proof fn interfaces_are_told(interfaces: Seq<InterfaceFacts>, i: int)
    requires
        0 <= i < interface_section(interfaces).len(),
    ensures
        ({
            let lines = interface_section(interfaces);
            &&& interfaces.len() <= 64 ==> lines.len() == listed(interfaces).len()
            &&& interfaces.len() > 64 ==> lines.len() == 65 && lines[64] == "interfaces_omitted="@
                + decimal((interfaces.len() - 64) as nat)
            &&& i < listed(interfaces).len() ==> lines[i] == "interface id="@ + decimal(
                listed(interfaces)[i].id as nat,
            ) + " included="@ + yes(listed(interfaces)[i].included) + " continuity="@
                + super::report::continuity_word(listed(interfaces)[i].continuity)
                + " received_bytes="@ + decimal(listed(interfaces)[i].received_bytes as nat)
                + " recent_delta="@ + if listed(interfaces)[i].recent_delta is Some {
                decimal(listed(interfaces)[i].recent_delta->0 as nat)
            } else {
                "unavailable"@
            }
        }),
{
    super::report::interfaces_are_listed_by_number(interfaces);
    interfaces.to_multiset_ensures();
    super::report::by_number(interfaces).to_multiset_ensures();
    let lines = interface_section(interfaces);
    let all = listed(interfaces);
    assert(all.len() <= 64);
    if i < all.len() {
        assert(lines[i] == interface_line(all[i]));
    }
}

/// The part on updates: whether they are to be had and searched for, and what
/// is under way, with a version only where it is plain.
pub proof fn updates_are_told(facts: UpdaterFacts)
    ensures
        ({
            let lines = updater_section(facts);
            let status = facts.status;
            &&& lines[0] == "availability="@ + super::report::update_availability_word(
                facts.availability,
            )
            &&& lines[1] == "automatic_checks="@ + yes(facts.automatic_checks)
            &&& lines[2] == "status=idle"@ <== status == UpdateStatus::Idle
            &&& lines[2] == "status=up-to-date"@ <== status == UpdateStatus::UpToDate
            &&& status is Checking ==> lines[2] == "status=checking"@ && lines[3] == "trigger="@
                + super::report::update_trigger_word(status->Checking_0)
            &&& status is UpdateAvailable ==> lines[2] == "status=update-available"@ && lines[3]
                == "target_version="@ + version_words(text_view(status->UpdateAvailable_version))
            &&& status is AwaitingConfirmation ==> lines[2] == "status=awaiting-confirmation"@
                && lines[3] == "target_version="@ + version_words(
                text_view(status->AwaitingConfirmation_version),
            )
            &&& status is Installing ==> lines[2] == "status=installing"@ && lines[3]
                == "target_version="@ + version_words(text_view(status->Installing_version))
            &&& status is Downloading ==> {
                &&& lines[2] == "status=downloading"@
                &&& lines[3] == "target_version="@ + version_words(
                    text_view(status->Downloading_version),
                )
                &&& status->percent is Some ==> lines[4] == "progress_percent="@ + decimal(
                    status->percent->0 as nat,
                )
                &&& status->percent is None ==> lines[4] == "progress_percent=unavailable"@
            }
            &&& status is Failed ==> {
                &&& lines[2] == "status=failed"@
                &&& lines[3] == "failure_stage="@ + super::report::update_stage_word(status->stage)
                &&& lines[4] == "trigger="@ + super::report::update_trigger_word(status->trigger)
                &&& lines[5] == "target_version="@ + pending_words(status->pending)
            }
        }),
{
    assert(updater_section(facts).skip(2) =~= update_lines(facts.status));
    assert forall|i: int| 2 <= i < updater_section(facts).len() implies updater_section(facts)[i]
        == #[trigger] update_lines(facts.status)[i - 2] by {}
}

/// The head of a report: the time, the version, and the platform in words that
/// are short and harmless, or withheld.
pub proof fn the_head_is_told(generated_at: Seq<char>, platform: PlatformInfo)
    ensures
        ({
            let lines = heading(generated_at, platform);
            &&& lines.len() == 6
            &&& lines[0] == "Chiù diagnostics"@
            &&& lines[1] == "generated_at_utc="@ + timestamp_words(generated_at)
            &&& lines[2] == "version="@ + "0.1.0"@
            &&& lines[3] == "os_family="@ + external_words(platform.family@, 32)
            &&& lines[4] == "os_version="@ + external_words(platform.version@, 128)
            &&& lines[5] == "architecture="@ + external_words(platform.architecture@, 32)
        }),
{
}

/// The end of a report: the health of the log, and that it keeps five files of
/// up to a mebibyte each.
pub proof fn the_log_is_told(health: LoggingHealth)
    ensures
        logging_section(health).len() == 4,
        logging_section(health)[0] == "[logging]"@,
        logging_section(health)[1] == "health="@ + logging_health_word(health),
        logging_section(health)[2] == "maximum_files="@ + decimal(5),
        logging_section(health)[3] == "maximum_file_bytes="@ + decimal(1_048_576),
{
}

/// The characters of texts from outside: letters and digits of ASCII, blanks,
/// dots, dashes, underscores, plus signs and brackets, and no others.
pub proof fn harmless_characters(c: char)
    ensures
        is_harmless(c) <==> ('a' <= c <= 'z') || ('A' <= c <= 'Z') || ('0' <= c <= '9') || c == ' '
            || c == '.' || c == '-' || c == '_' || c == '+' || c == '(' || c == ')',
        super::report::is_time_char(c) <==> ('0' <= c <= '9') || c == 'T' || c == 'Z' || c == ':'
            || c == '.' || c == '-' || c == '+',
{
}

/// A text from outside is told as it is where it is not empty, short enough,
/// harmless and no address, and else withheld. So is a time.
pub proof fn outside_texts_are_told_or_withheld(text: Seq<char>, limit: nat)
    ensures
        ({
            let plain = forall|i: int| 0 <= i < text.len() ==> is_harmless(#[trigger] text[i]);
            let timely = forall|i: int|
                0 <= i < text.len() ==> super::report::is_time_char(#[trigger] text[i]);
            &&& text.len() > 0 && byte_length(text) <= limit && plain
                && !super::report::is_address(text) ==> external_words(text, limit) == text
            &&& text.len() == 0 || byte_length(text) > limit || !plain
                || super::report::is_address(text) ==> external_words(text, limit)
                == "unavailable"@
            &&& text.len() > 0 && byte_length(text) <= 64 && timely ==> timestamp_words(text)
                == text
            &&& text.len() == 0 || byte_length(text) > 64 || !timely ==> timestamp_words(text)
                == "unavailable"@
            &&& version_words(Some(text)) == external_words(text, 64)
            &&& version_words(None) == "unavailable"@
            &&& pending_words(None) == "unavailable"@
        }),
{
}

/// A report keeps whole lines up to 64 KiB, always with room to say that lines
/// were left out; the first that does not fit ends it.
pub proof fn lines_are_kept_while_they_fit(model: BoundedModel, line: Seq<char>)
    ensures
        ({
            let after = model.with_line(line);
            let fits = byte_length(model.text) + byte_length(line) + 1 + 20 <= 65_536;
            &&& after.omitted <==> model.omitted || !fits
            &&& !model.omitted && fits ==> after.text == model.text + line + "\n"@
            &&& model.omitted || !fits ==> after.text == model.text
            &&& model.omitted ==> model.finished() == model.text + "output_omitted=true\n"@
            &&& !model.omitted ==> model.finished() == model.text
        }),
{
}

/// Diagnostics are copied where there is a clipboard and logs are opened where
/// there are any, until the end is announced.
pub proof fn diagnostics_are_offered_until_the_end(service: DiagnosticsService, log: LocalLog)
    ensures
        service.offers(log).copy <==> service.clipboard && service.accepting,
        service.offers(log).open_logs <==> service.accepting && log@.health
            == LoggingHealth::Available && log@.directory is Some,
{
}

/// Two statuses of the program with the same word in a report are the same.
pub proof fn statuses_are_told_apart(a: ApplicationStatus, b: ApplicationStatus)
    requires
        application_status_word(a) == application_status_word(b),
    ensures
        a == b,
{
    crate::words::report_words_for_application_status(a);
    crate::words::report_words_for_application_status(b);
}

/// What a report says of the settings is what they are.
pub proof fn the_settings_are_gathered(
    facts: SettingsFacts,
    settings: Settings,
    health: SettingsHealth,
)
    requires
        settings_facts(facts, settings, health),
    ensures
        facts.automatic_download_protection == settings@.protection,
        facts.protect_on_battery == settings@.on_battery,
        facts.launch_at_login == settings@.launch,
        facts.automatic_update_checks == settings@.update_checks,
        facts.threshold_bytes_per_second == settings@.tuning.rate,
        facts.qualification@ == settings@.tuning.qualification,
        facts.grace@ == settings@.tuning.grace,
        facts.load_condition == health@.condition,
        facts.persistence == health@.persistence,
        facts.field_recoveries@ == health@.recoveries,
        facts.artifact_warnings@ == health@.warnings,
        facts.last_save_failure == health@.save_failure,
{
}

/// A report is no longer than 64 KiB and tells of no more than 64 interfaces.
pub proof fn reports_are_short()
    ensures
        MAX_DIAGNOSTIC_BYTES == 64 * 1_024,
        MAX_INTERFACES == 64,
{
}

} // verus!
