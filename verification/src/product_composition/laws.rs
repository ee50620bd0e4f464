//! What the commands of the tray are for, and that the menu and the reports
//! show the parts of the program as they are.

use super::{
    captures, collects, for_the_parts, fresh_subsystem, product_plan, serves, AutomaticSubsystem,
    ProductComposition, ProductRequest,
};
use crate::application::{ApplicationSnapshot, ApplicationStatus};
use crate::automatic_download::PhaseModel;
use crate::automatic_protection::PowerSource;
use crate::diagnostics::DiagnosticInput;
use crate::power_source::PowerSourceObserverHealth;
use crate::settings::SettingsModel;
use crate::tray::{TrayInput, TrayView};
use crate::tray::command::{GracePreset, ThresholdPreset, TrayCommand};
use crate::tray::laws::{the_grace_in_force_is_marked, the_rate_in_force_is_marked};
use crate::updater::UpdaterSnapshot;
use crate::wake_coordinator::{reasons_in_order, WakeReason};
use vstd::prelude::*;

verus! {

/// The bytes per second of a choice in the menu.
pub open spec fn menu_rate(choice: ThresholdPreset) -> nat {
    match choice {
        ThresholdPreset::Kibibytes256 => 256 * 1024,
        ThresholdPreset::Mebibyte1 => 1024 * 1024,
        ThresholdPreset::Mebibytes5 => 5 * 1024 * 1024,
    }
}

/// The nanoseconds of grace of a choice in the menu.
pub open spec fn menu_grace(choice: GracePreset) -> nat {
    match choice {
        GracePreset::Seconds30 => 30_000_000_000,
        GracePreset::Minutes2 => 120_000_000_000,
        GracePreset::Minutes5 => 300_000_000_000,
        GracePreset::Minutes15 => 900_000_000_000,
        GracePreset::Minutes30 => 1_800_000_000_000,
    }
}

/// Choosing a rate in the menu asks for exactly that rate, and for nothing
/// only where it is in force already. The times stay as they are, and what is
/// saved is what the detector takes over.
pub proof fn choosing_a_rate_asks_for_it(
    request: ProductRequest,
    parts: ProductComposition,
    choice: ThresholdPreset,
)
    requires
        serves(request, parts, TrayCommand::SetThreshold(choice)),
        parts.automatic->0.monitor@.tuning.fits_milliseconds(),
    ensures
        ({
            let tuning = parts.automatic->0.monitor@.tuning;
            &&& request == ProductRequest::Nothing <==> tuning.rate == menu_rate(choice)
            &&& tuning.rate != menu_rate(choice) ==> {
                &&& request is Tuning
                &&& request->tuning@.rate == menu_rate(choice)
                &&& request->tuning@.qualification == tuning.qualification
                &&& request->tuning@.grace == tuning.grace
                &&& request->update is AutomaticDownloadTuning
                &&& request->update->meaningful_receive_rate_bytes_per_second == menu_rate(choice)
                &&& request->update->activation_qualification_milliseconds
                    == tuning.qualification / 1_000_000
                &&& request->update->grace_milliseconds == tuning.grace / 1_000_000
            }
            &&& choice == ThresholdPreset::Kibibytes256 ==> menu_rate(choice) == 262_144
            &&& choice == ThresholdPreset::Mebibyte1 ==> menu_rate(choice) == 1_048_576
            &&& choice == ThresholdPreset::Mebibytes5 ==> menu_rate(choice) == 5_242_880
        }),
{
}

/// Choosing a grace in the menu asks for exactly that grace, and for nothing
/// only where it is in force already. The rate and the qualification stay as
/// they are.
pub proof fn choosing_a_grace_asks_for_it(
    request: ProductRequest,
    parts: ProductComposition,
    choice: GracePreset,
)
    requires
        serves(request, parts, TrayCommand::SetGrace(choice)),
        parts.automatic->0.monitor@.tuning.fits_milliseconds(),
        parts.automatic->0.monitor@.tuning.rate <= u64::MAX,
    ensures
        ({
            let tuning = parts.automatic->0.monitor@.tuning;
            &&& request == ProductRequest::Nothing <==> tuning.grace == menu_grace(choice)
            &&& tuning.grace != menu_grace(choice) ==> {
                &&& request is Tuning
                &&& request->tuning@.grace == menu_grace(choice)
                &&& request->tuning@.rate == tuning.rate
                &&& request->tuning@.qualification == tuning.qualification
                &&& request->update is AutomaticDownloadTuning
                &&& request->update->meaningful_receive_rate_bytes_per_second == tuning.rate
                &&& request->update->activation_qualification_milliseconds
                    == tuning.qualification / 1_000_000
                &&& request->update->grace_milliseconds == menu_grace(choice) / 1_000_000
            }
        }),
{
}

/// A choice that was made is the one that the menu marks, and the only one:
/// once the detector has taken over what a choice asks for, the menu that is
/// made from the parts marks that choice.
pub proof fn the_choice_that_was_made_is_marked(
    request: ProductRequest,
    before: ProductComposition,
    after: ProductComposition,
    command: TrayCommand,
    input: TrayInput,
    view: TrayView,
    status: ApplicationStatus,
    now: nat,
    updater: UpdaterSnapshot,
)
    requires
        command is SetThreshold || command is SetGrace,
        serves(request, before, command),
        request is Tuning,
        after.automatic->0.monitor@.tuning == request->tuning@,
        collects(input, after, status, now, updater),
        crate::tray::shows(view, input),
    ensures
        command is SetThreshold ==> {
            let choice = command->SetThreshold_0;
            let marks = view.detection.threshold.checked;
            &&& marks[0] <==> choice == ThresholdPreset::Kibibytes256
            &&& marks[1] <==> choice == ThresholdPreset::Mebibyte1
            &&& marks[2] <==> choice == ThresholdPreset::Mebibytes5
            &&& view.detection.threshold.custom is None
        },
        command is SetGrace ==> {
            let choice = command->SetGrace_0;
            let marks = view.detection.grace.checked;
            &&& marks[0] <==> choice == GracePreset::Seconds30
            &&& marks[1] <==> choice == GracePreset::Minutes2
            &&& marks[2] <==> choice == GracePreset::Minutes5
            &&& marks[3] <==> choice == GracePreset::Minutes15
            &&& marks[4] <==> choice == GracePreset::Minutes30
            &&& view.detection.grace.custom is None
        },
{
    the_rate_in_force_is_marked(view, input);
    the_grace_in_force_is_marked(view, input);
}

/// Switching something over asks for the opposite of what is in force, and of
/// the user's saved wish where starting at login is concerned.
pub proof fn switching_over_asks_for_the_opposite(
    request: ProductRequest,
    parts: ProductComposition,
    command: TrayCommand,
)
    requires
        serves(request, parts, command),
    ensures
        ({
            let policy = parts.automatic->0.controller@.settings;
            let wish = parts.settings->0@.settings.launch;
            let blocked = parts.launch_at_login->0@.backend is Some;
            &&& command == TrayCommand::ToggleAutomaticProtection ==> request is Protection
                && request->Protection_0 is AutomaticDownloadProtectionEnabled
                && request->Protection_0->AutomaticDownloadProtectionEnabled_0
                != policy.automatic_download_protection_enabled
            &&& command == TrayCommand::ToggleProtectOnBattery ==> request is Protection
                && request->Protection_0 is ProtectOnBattery
                && request->Protection_0->ProtectOnBattery_0 != policy.protect_on_battery
            &&& command == TrayCommand::ToggleLaunchAtLogin && blocked ==> request
                == ProductRequest::Nothing
            &&& command == TrayCommand::ToggleLaunchAtLogin && !blocked ==> request is LaunchAtLogin
                && request->LaunchAtLogin_0 is LaunchAtLogin
                && request->LaunchAtLogin_0->LaunchAtLogin_0 != wish
        }),
{
}

/// Every command asks for its own kind of thing, and a command of the manual
/// session for itself.
pub proof fn commands_ask_for_their_own(
    request: ProductRequest,
    parts: ProductComposition,
    command: TrayCommand,
)
    requires
        serves(request, parts, command),
        for_the_parts(command),
    ensures
        request is Manual <==> command is Manual,
        command is Manual ==> request->Manual_0 == command->Manual_0,
        request is Protection <==> command == TrayCommand::ToggleAutomaticProtection || command
            == TrayCommand::ToggleProtectOnBattery,
        request is LaunchAtLogin ==> command == TrayCommand::ToggleLaunchAtLogin,
        request is Tuning ==> command is SetThreshold || command is SetGrace,
        request == ProductRequest::ToggleAutomaticUpdates <==> command
            == TrayCommand::ToggleAutomaticUpdates,
        request == ProductRequest::CheckUpdates <==> command == TrayCommand::CheckUpdates,
        request == ProductRequest::InstallUpdate <==> command == TrayCommand::InstallUpdate,
        request == ProductRequest::Nothing ==> command is SetThreshold || command is SetGrace
            || command == TrayCommand::ToggleLaunchAtLogin,
        command != TrayCommand::Quit && command != TrayCommand::CopyDiagnostics && command
            != TrayCommand::OpenLogs,
{
}

/// The menu shows the parts of the program as they are: the session with the
/// time it has left, the detector, the policy, the reasons and the protection.
pub proof fn the_menu_is_made_from_the_parts(
    input: TrayInput,
    parts: ProductComposition,
    status: ApplicationStatus,
    now: nat,
    updater: UpdaterSnapshot,
)
    requires
        collects(input, parts, status, now, updater),
    ensures
        input.application_status == status,
        input.tuning@ == parts.automatic->0.monitor@.tuning,
        input.receive_rate is Some <==> parts.automatic->0.monitor@.rate is Some,
        input.receive_rate is Some ==> input.receive_rate->0 == parts.automatic->0.monitor@.rate->0,
        input.detector_state is Idle <==> parts.automatic->0.monitor@.phase is Idle,
        input.detector_state is Active <==> parts.automatic->0.monitor@.phase is Active,
        input.manual_state is Inactive <==> parts.manual@.intent is Inactive,
        input.manual_state is UntilDisabled <==> parts.manual@.intent is UntilDisabled,
        parts.manual@.intent is Finite && now <= parts.manual@.intent->deadline
            ==> input.manual_state->remaining@ == parts.manual@.intent->deadline - now,
        parts.manual@.intent is Finite && now > parts.manual@.intent->deadline
            ==> input.manual_state->remaining@ == 0,
        input.wake_reasons@.contains(WakeReason::AutomaticDownload) <==> parts.wake.automatic,
        input.wake_reasons@.contains(WakeReason::ManualKeepAwake) <==> parts.wake.manual,
        input.wake_reasons@.len() == 0 <==> !parts.wake.automatic && !parts.wake.manual,
        input.protection == parts.wake.protection,
        input.power_source == parts.automatic->0.controller@.power,
        input.automatic_settings == parts.automatic->0.controller@.settings,
        input.detector_intent == parts.automatic->0.controller@.intent,
        input.manual_failure <==> parts.manual@.background_failure is Some,
        input.automatic_failure <==> parts.automatic->0.controller@.failure is Some,
        input.network_failure <==> parts.network@.failure is Some,
        input.network_status == parts.network@.status,
        input.power_failure <==> parts.automatic->0.power_source.state.latest_failure is Some,
        input.power_health == parts.automatic->0.power_source.state.health,
        input.launch_at_login_desired == parts.settings->0@.settings.launch,
        input.launch_at_login_available <==> parts.launch_at_login->0@.backend is None,
        input.launch_at_login_observed == parts.launch_at_login->0@.observed,
        input.launch_at_login_failure is Some <==> parts.launch_at_login->0@.failure is Some,
        parts.launch_at_login->0@.failure is Some ==> input.launch_at_login_failure->0
            == parts.launch_at_login->0@.failure->0.stage,
        input.updater == updater,
{
    reasons_are_listed(parts.wake.automatic, parts.wake.manual);
}

/// The reasons to stay awake are listed each once, downloads first.
pub proof fn reasons_are_listed(automatic: bool, manual: bool)
    ensures
        ({
            let list = reasons_in_order(automatic, manual);
            &&& list.contains(WakeReason::AutomaticDownload) <==> automatic
            &&& list.contains(WakeReason::ManualKeepAwake) <==> manual
            &&& list.len() == (if automatic {
                1int
            } else {
                0
            }) + if manual {
                1int
            } else {
                0
            }
            &&& automatic && manual ==> list[0] == WakeReason::AutomaticDownload && list[1]
                == WakeReason::ManualKeepAwake
        }),
{
    let list = reasons_in_order(automatic, manual);
    if automatic {
        assert(list[0] == WakeReason::AutomaticDownload);
    }
    if manual {
        assert(list[list.len() - 1] == WakeReason::ManualKeepAwake);
    }
}

/// Reports are made from the parts of the program as they are.
pub proof fn reports_are_made_from_the_parts(
    input: DiagnosticInput,
    parts: ProductComposition,
    application: ApplicationSnapshot,
    now: nat,
)
    requires
        captures(input, parts, application, now),
    ensures
        input.application.status == application.status,
        input.application.startup_failure == application.startup_failure,
        input.application.unavailable_capabilities@ == application.unavailable_capabilities@,
        input.application.cleanup_failures@ == application.cleanup_failures@,
        input.settings is Some <==> parts.settings is Some,
        parts.settings is Some ==> {
            let facts = input.settings->0;
            let saved = parts.settings->0@;
            &&& facts.automatic_download_protection == saved.settings.protection
            &&& facts.protect_on_battery == saved.settings.on_battery
            &&& facts.launch_at_login == saved.settings.launch
            &&& facts.automatic_update_checks == saved.settings.update_checks
            &&& facts.threshold_bytes_per_second == saved.settings.tuning.rate
            &&& facts.qualification@ == saved.settings.tuning.qualification
            &&& facts.grace@ == saved.settings.tuning.grace
            &&& facts.load_condition == saved.health.condition
            &&& facts.persistence == saved.health.persistence
            &&& facts.last_save_failure == saved.health.save_failure
        },
        parts.automatic is Some ==> {
            let policy = parts.automatic->0.controller@;
            let facts = input.automatic->0;
            &&& facts.preference_enabled == policy.settings.automatic_download_protection_enabled
            &&& facts.protect_on_battery == policy.settings.protect_on_battery
            &&& facts.detector_intent == policy.intent
            &&& facts.coordination_failure <==> policy.failure is Some
            &&& input.power->0.source == parts.automatic->0.power_source.state.source
            &&& input.power->0.health == parts.automatic->0.power_source.state.health
            &&& input.power->0.failure is Some
                <==> parts.automatic->0.power_source.state.latest_failure is Some
            &&& input.detector->0.latest_receive_rate_bytes_per_second is Some
                <==> parts.automatic->0.monitor@.rate is Some
            &&& input.detector->0.state is Idle <==> parts.automatic->0.monitor@.phase is Idle
            &&& input.detector->0.state is Active <==> parts.automatic->0.monitor@.phase is Active
        },
        input.wake.active_reasons@.contains(WakeReason::AutomaticDownload) <==> parts.wake.automatic,
        input.wake.active_reasons@.contains(WakeReason::ManualKeepAwake) <==> parts.wake.manual,
        input.wake.protection == parts.wake.protection,
        input.network.status == parts.network@.status,
        input.network.failure == parts.network@.failure,
        input.interfaces@.len() == parts.network@.interfaces.len(),
        forall|i: int|
            0 <= i < parts.network@.interfaces.len() ==> {
                let line = #[trigger] input.interfaces@[i];
                let shown = parts.network@.interfaces[i];
                &&& line.id == shown.id.0
                &&& line.received_bytes == shown.last_observed_receive_bytes
                &&& line.recent_delta == shown.recent_delta
                &&& line.included == shown.included_in_activity
                &&& line.continuity == shown.continuity
            },
{
    reasons_are_listed(parts.wake.automatic, parts.wake.manual);
}

/// The parts that deal with downloads begin with the restored settings, with
/// nothing seen and nothing wanted, and with the power source unknown.
pub proof fn downloads_begin_with_the_restored_settings(
    automatic: AutomaticSubsystem,
    restored: SettingsModel,
)
    requires
        fresh_subsystem(automatic, restored),
    ensures
        automatic.monitor@.tuning == restored.tuning,
        automatic.monitor@.phase == (PhaseModel::Idle { elapsed: 0 }),
        automatic.monitor@.rate is None,
        automatic.controller@.settings.automatic_download_protection_enabled
            == restored.protection,
        automatic.controller@.settings.protect_on_battery == restored.on_battery,
        !automatic.controller@.intent && !automatic.controller@.commanded,
        automatic.controller@.power == PowerSource::Unknown,
        automatic.controller@.failure is None,
        automatic.power_source.state.health == PowerSourceObserverHealth::Starting,
        automatic.power_source.state.source == PowerSource::Unknown,
{
}

/// The program has seven capabilities, of which it needs the first three, and
/// which start in this order.
pub proof fn the_plan_has_its_order()
    ensures
        product_plan().len() == 7,
        product_plan()[0].capability.0 == "wake-coordination",
        product_plan()[1].capability.0 == "manual-session",
        product_plan()[2].capability.0 == "automatic-download",
        product_plan()[3].capability.0 == "launch-at-login",
        product_plan()[4].capability.0 == "power-source",
        product_plan()[5].capability.0 == "network-activity",
        product_plan()[6].capability.0 == "updater",
        forall|i: int| 0 <= i < 7 ==> (#[trigger] product_plan()[i].required <==> i < 3),
{
}

} // verus!
