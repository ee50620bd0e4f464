//! What the menu is for: each item does what its label says, and shows what is
//! so.

use super::menu::{menu_entries, EntryModel, MenuId};
use super::{
    access_words, asked_of_host, ExitAnswer, ExitPhase, HostAction, KeepAwakeShape,
    MenuStructure, PresentationControl, REFRESH_INTERVAL_SECONDS,
};
use crate::manual_session::{
    ManualSessionAddPreset, ManualSessionCommand, ManualSessionStartPreset,
};
use crate::product_composition::laws::{menu_grace, menu_rate};
use crate::tray::{shows, TrayCommandOutcome, TrayInput, TrayView};
use crate::tray::command::{GracePreset, ThresholdPreset, TrayCommand};
use crate::tray::laws::{the_grace_in_force_is_marked, the_rate_in_force_is_marked};
use vstd::prelude::*;
use vstd::string::*;

verus! {

/// Every choice of a rate is marked exactly where it asks for the rate that is
/// in force, and every choice of a grace exactly where it asks for the grace
/// that is. They can be chosen while commands are taken.
pub proof fn the_choice_in_force_is_marked(view: TrayView, input: TrayInput, i: int)
    requires
        shows(view, input),
    ensures
        ({
            let list = menu_entries(MenuId::Threshold, view);
            &&& list.len() >= 3
            &&& 0 <= i < 3 ==> {
                &&& list[i] is Check
                &&& list[i]->Check_command is SetThreshold
                &&& list[i]->checked <==> input.tuning@.rate == menu_rate(
                    list[i]->Check_command->SetThreshold_0,
                )
                &&& list[i]->Check_enabled == view.commands_enabled
            }
        }),
        ({
            let list = menu_entries(MenuId::Grace, view);
            &&& list.len() >= 5
            &&& 0 <= i < 5 ==> {
                &&& list[i] is Check
                &&& list[i]->Check_command is SetGrace
                &&& list[i]->checked <==> input.tuning@.grace == menu_grace(
                    list[i]->Check_command->SetGrace_0,
                )
                &&& list[i]->Check_enabled == view.commands_enabled
            }
        }),
{
    the_rate_in_force_is_marked(view, input);
    the_grace_in_force_is_marked(view, input);
    let rates = menu_entries(MenuId::Threshold, view);
    assert(i == 0 || i == 1 || i == 2 || !(0 <= i < 3));
    assert(i == 0 || i == 1 || i == 2 || i == 3 || i == 4 || !(0 <= i < 5));
}

/// The choices of a rate are three and those of a grace five, each under its
/// own label, and one more line tells another value that is in force.
pub proof fn choices_are_labelled(view: TrayView)
    ensures
        ({
            let list = menu_entries(MenuId::Threshold, view);
            let custom = view.detection.threshold.custom;
            &&& list[0]->Check_command == TrayCommand::SetThreshold(ThresholdPreset::Kibibytes256)
            &&& list[0]->Check_label == "256 KB/s"@
            &&& list[1]->Check_command == TrayCommand::SetThreshold(ThresholdPreset::Mebibyte1)
            &&& list[1]->Check_label == "1 MB/s"@
            &&& list[2]->Check_command == TrayCommand::SetThreshold(ThresholdPreset::Mebibytes5)
            &&& list[2]->Check_label == "5 MB/s"@
            &&& custom is None ==> list.len() == 3
            &&& custom is Some ==> list.len() == 4 && list[3] == (EntryModel::Custom {
                id: "detection.threshold.custom",
                label: custom->0@,
            })
        }),
        ({
            let list = menu_entries(MenuId::Grace, view);
            let custom = view.detection.grace.custom;
            &&& list[0]->Check_command == TrayCommand::SetGrace(GracePreset::Seconds30)
            &&& list[0]->Check_label == "30 seconds"@
            &&& list[1]->Check_command == TrayCommand::SetGrace(GracePreset::Minutes2)
            &&& list[1]->Check_label == "2 minutes"@
            &&& list[2]->Check_command == TrayCommand::SetGrace(GracePreset::Minutes5)
            &&& list[2]->Check_label == "5 minutes"@
            &&& list[3]->Check_command == TrayCommand::SetGrace(GracePreset::Minutes15)
            &&& list[3]->Check_label == "15 minutes"@
            &&& list[4]->Check_command == TrayCommand::SetGrace(GracePreset::Minutes30)
            &&& list[4]->Check_label == "30 minutes"@
            &&& custom is None ==> list.len() == 5
            &&& custom is Some ==> list.len() == 6 && list[5] == (EntryModel::Custom {
                id: "detection.grace.custom",
                label: custom->0@,
            })
        }),
{
}

/// Whether an item gives a command of the manual session under a label.
pub open spec fn gives(entry: EntryModel, command: ManualSessionCommand, label: Seq<char>) -> bool {
    &&& entry is Command
    &&& entry->Command_command == TrayCommand::Manual(command)
    &&& entry->Command_label == label
}

/// Where no session is under way one can be started, for the time that the
/// item says.
pub proof fn a_session_can_be_started(view: TrayView)
    requires
        view.keep_awake is Inactive,
    ensures
        ({
            let list = menu_entries(MenuId::KeepAwake, view);
            &&& list.len() == 7
            &&& gives(
                list[0],
                ManualSessionCommand::Start(ManualSessionStartPreset::FifteenMinutes),
                "15 minutes"@,
            )
            &&& gives(
                list[1],
                ManualSessionCommand::Start(ManualSessionStartPreset::ThirtyMinutes),
                "30 minutes"@,
            )
            &&& gives(
                list[2],
                ManualSessionCommand::Start(ManualSessionStartPreset::OneHour),
                "1 hour"@,
            )
            &&& gives(
                list[3],
                ManualSessionCommand::Start(ManualSessionStartPreset::TwoHours),
                "2 hours"@,
            )
            &&& gives(
                list[4],
                ManualSessionCommand::Start(ManualSessionStartPreset::FourHours),
                "4 hours"@,
            )
            &&& gives(
                list[5],
                ManualSessionCommand::Start(ManualSessionStartPreset::EightHours),
                "8 hours"@,
            )
            &&& gives(
                list[6],
                ManualSessionCommand::Start(ManualSessionStartPreset::UntilDisabled),
                "Until disabled"@,
            )
        }),
{
}

/// A session with an end shows the time that is left, and can be made longer,
/// be freed of its end, or be stopped. One without an end can only be stopped.
pub proof fn a_session_can_be_changed(view: TrayView)
    ensures
        ({
            let list = menu_entries(MenuId::KeepAwake, view);
            &&& view.keep_awake is Finite ==> {
                &&& list.len() == 8
                &&& list[0] == (EntryModel::Status {
                    id: "manual.remaining",
                    label: view.keep_awake->remaining@,
                })
                &&& gives(
                    list[1],
                    ManualSessionCommand::Add(ManualSessionAddPreset::FifteenMinutes),
                    "Add 15 minutes"@,
                )
                &&& gives(
                    list[2],
                    ManualSessionCommand::Add(ManualSessionAddPreset::ThirtyMinutes),
                    "Add 30 minutes"@,
                )
                &&& gives(
                    list[3],
                    ManualSessionCommand::Add(ManualSessionAddPreset::OneHour),
                    "Add 1 hour"@,
                )
                &&& gives(
                    list[4],
                    ManualSessionCommand::Add(ManualSessionAddPreset::TwoHours),
                    "Add 2 hours"@,
                )
                &&& gives(
                    list[5],
                    ManualSessionCommand::Add(ManualSessionAddPreset::FourHours),
                    "Add 4 hours"@,
                )
                &&& gives(
                    list[6],
                    ManualSessionCommand::ConvertToUntilDisabled,
                    "Until disabled"@,
                )
                &&& gives(list[7], ManualSessionCommand::Stop, "Stop"@)
            }
            &&& view.keep_awake is UntilDisabled ==> {
                &&& list.len() == 2
                &&& list[0] == (EntryModel::Status {
                    id: "manual.remaining",
                    label: "Until disabled"@,
                })
                &&& gives(list[1], ManualSessionCommand::Stop, "Stop"@)
            }
        }),
{
}

/// The menu begins with what the program does, in a line or more, and ends with
/// the switches, the menus within it and the way out, which is always open.
pub proof fn the_menu_has_its_parts(view: TrayView)
    ensures
        ({
            let list = menu_entries(MenuId::Top, view);
            let n = list.len();
            let on = view.commands_enabled;
            &&& n == 9 + (if view.detail is Some {
                1int
            } else {
                0
            }) + (if view.warning is Some {
                1int
            } else {
                0
            })
            &&& list[0] == (EntryModel::Status {
                id: "status.primary",
                label: view.primary@,
            })
            &&& view.detail is Some ==> list[1] == (EntryModel::Status {
                id: "status.detail",
                label: view.detail->0@,
            })
            &&& view.warning is Some ==> list[n - 9] == (EntryModel::Status {
                id: "status.warning",
                label: view.warning->0@,
            })
            &&& list[n - 8] is Separator
            &&& list[n - 7] == (EntryModel::Check {
                command: TrayCommand::ToggleAutomaticProtection,
                label: "Keep awake during downloads"@,
                enabled: on,
                checked: view.automatic_checked,
            })
            &&& list[n - 6] == (EntryModel::Check {
                command: TrayCommand::ToggleProtectOnBattery,
                label: "Also on battery or limited power"@,
                enabled: on,
                checked: view.protect_on_battery_checked,
            })
            &&& list[n - 5] == (EntryModel::Submenu {
                menu: MenuId::KeepAwake,
                label: "Keep awake"@,
                enabled: on,
            })
            &&& list[n - 4] == (EntryModel::Submenu {
                menu: MenuId::Detection,
                label: "Detection"@,
                enabled: true,
            })
            &&& list[n - 3] == (EntryModel::Submenu {
                menu: MenuId::Settings,
                label: "Settings"@,
                enabled: true,
            })
            &&& list[n - 2] is Separator
            &&& list[n - 1] == (EntryModel::Command {
                command: TrayCommand::Quit,
                label: "Quit Chiù"@,
                enabled: true,
            })
        }),
{
}

/// The menu on detection tells the state of the detector, the rate where there
/// is one and the power source, and leads to the choices.
pub proof fn the_detector_is_shown(view: TrayView)
    ensures
        ({
            let list = menu_entries(MenuId::Detection, view);
            let n = list.len();
            let rate = view.detection.receive_rate;
            let on = view.commands_enabled;
            &&& n == if rate is Some {
                6int
            } else {
                5
            }
            &&& list[0] == (EntryModel::Status {
                id: "detection.state",
                label: view.detection.state@,
            })
            &&& rate is Some ==> list[1] == (EntryModel::Status {
                id: "detection.rate",
                label: "Receive rate — "@ + rate->0@,
            })
            &&& list[n - 4] == (EntryModel::Status {
                id: "detection.power",
                label: "Power source — "@ + view.detection.power_source@,
            })
            &&& list[n - 3] is Separator
            &&& list[n - 2] == (EntryModel::Submenu {
                menu: MenuId::Threshold,
                label: "Threshold"@,
                enabled: on,
            })
            &&& list[n - 1] == (EntryModel::Submenu {
                menu: MenuId::Grace,
                label: "Grace period"@,
                enabled: on,
            })
        }),
{
}

/// The menu of settings switches the start at login and the search for updates,
/// offers an update where there is one, and leads to the diagnostics.
pub proof fn the_settings_are_shown(view: TrayView)
    ensures
        ({
            let list = menu_entries(MenuId::Settings, view);
            let n = list.len();
            let result = view.updater.result;
            let install = view.updater.install;
            &&& n == 5 + (if result is Some {
                1int
            } else {
                0
            }) + (if install is Some {
                1int
            } else {
                0
            })
            &&& list[0] == (EntryModel::Check {
                command: TrayCommand::ToggleLaunchAtLogin,
                label: view.launch_at_login.label@,
                enabled: view.launch_at_login.enabled,
                checked: view.launch_at_login.checked,
            })
            &&& list[1] == (EntryModel::Check {
                command: TrayCommand::ToggleAutomaticUpdates,
                label: view.updater.automatic_label@,
                enabled: view.updater.automatic_enabled,
                checked: view.updater.automatic_checked,
            })
            &&& list[2] == (EntryModel::Command {
                command: TrayCommand::CheckUpdates,
                label: view.updater.check_label@,
                enabled: view.updater.check_enabled,
            })
            &&& result is Some ==> list[3] == (EntryModel::Status {
                id: "updater.result",
                label: result->0@,
            })
            &&& match install {
                Some((label, enabled)) => list[n - 3] == (EntryModel::Command {
                    command: TrayCommand::InstallUpdate,
                    label: label@,
                    enabled,
                }),
                None => true,
            }
            &&& list[n - 2] == (EntryModel::Command {
                command: TrayCommand::CopyDiagnostics,
                label: view.diagnostics.copy_label@,
                enabled: view.diagnostics.copy_enabled,
            })
            &&& list[n - 1] == (EntryModel::Command {
                command: TrayCommand::OpenLogs,
                label: view.diagnostics.open_logs_label@,
                enabled: view.diagnostics.open_logs_enabled,
            })
        }),
{
}

/// Two menus have the same structure exactly where they take commands alike and
/// have the same lines.
pub proof fn the_structure_is_what_lines_there_are(a: TrayView, b: TrayView)
    ensures
        MenuStructure::of(a) == MenuStructure::of(b) <==> {
            &&& a.commands_enabled == b.commands_enabled
            &&& (a.detail is Some) == (b.detail is Some)
            &&& (a.warning is Some) == (b.warning is Some)
            &&& (a.updater.result is Some) == (b.updater.result is Some)
            &&& (a.updater.install is Some) == (b.updater.install is Some)
            &&& (a.keep_awake is Inactive) == (b.keep_awake is Inactive)
            &&& (a.keep_awake is Finite) == (b.keep_awake is Finite)
            &&& (a.detection.receive_rate is Some) == (b.detection.receive_rate is Some)
            &&& (a.detection.threshold.custom is Some) == (b.detection.threshold.custom is Some)
            &&& (a.detection.grace.custom is Some) == (b.detection.grace.custom is Some)
        },
        MenuStructure::of(a).keep_awake == KeepAwakeShape::Inactive <==> a.keep_awake is Inactive,
        MenuStructure::of(a).keep_awake == KeepAwakeShape::Finite <==> a.keep_awake is Finite,
{
}

/// The menus are known by their identifiers.
pub proof fn menus_are_known_by_their_identifiers()
    ensures
        MenuId::Top.identifier() == "top",
        MenuId::KeepAwake.identifier() == "manual",
        MenuId::Detection.identifier() == "detection",
        MenuId::Threshold.identifier() == "detection.threshold",
        MenuId::Grace.identifier() == "detection.grace",
        MenuId::Settings.identifier() == "settings",
{
}

/// A request to end is handed on once, with its code, then put off until the
/// program has stopped, and only then let through.
pub proof fn an_end_is_asked_for_once(control: PresentationControl, code: i32, other: i32)
    ensures
        control.exit_answer(code) == ExitAnswer::Tell(code) <==> control.exit_phase
            == ExitPhase::Running,
        control.exit_answer(code) == ExitAnswer::PutOff <==> control.exit_phase is StopRequested,
        control.exit_answer(code) == ExitAnswer::Allow <==> control.exit_phase
            == ExitPhase::Stopped,
        control.exit_requested(code).exit_requested(other) == control.exit_requested(code),
        control.exit_requested(code).refresh_pending == control.refresh_pending,
        control.exit_phase == ExitPhase::Running ==> control.exit_requested(code).still_to_exit()
            == Some(code),
        control.still_to_exit() is Some <==> control.exit_phase is StopRequested,
{
}

/// An item that is not as it should be is told by its name, with what it is and
/// what it should be.
pub proof fn what_is_not_as_it_should_be_is_told(name: Seq<char>)
    ensures
        access_words(name, true, false) == "native menu access for "@ + name + " was "@ + "true"@
            + ", expected "@ + "false"@,
        access_words(name, false, true) == "native menu access for "@ + name + " was "@ + "false"@
            + ", expected "@ + "true"@,
{
}

/// The menu is drawn anew at least once a second.
pub proof fn the_menu_is_kept_up_to_date()
    ensures
        REFRESH_INTERVAL_SECONDS == 1,
{
}

/// The host ends exactly where the user quits, draws the menu exactly where a
/// command changed something, and shows a failure to copy exactly where there
/// is one and it can.
pub proof fn the_host_does_what_the_outcome_asks(outcome: TrayCommandOutcome, presenter: bool)
    ensures
        asked_of_host(outcome, presenter) == HostAction::RequestExit <==> outcome
            == TrayCommandOutcome::QuitRequested,
        asked_of_host(outcome, presenter) == HostAction::RequestRefresh <==> outcome
            == TrayCommandOutcome::RefreshRequested,
        asked_of_host(outcome, presenter) == HostAction::ShowCopyFailed <==> outcome
            == TrayCommandOutcome::CopyDiagnosticsFailed && presenter,
{
}

} // verus!
