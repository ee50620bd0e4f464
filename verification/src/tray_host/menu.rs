//! The entries of the tray menu: which there are, in which order, what they
//! say, and whether they can be used.

use super::{power_source_label, receive_rate_label, MenuStructure};
use crate::manual_session::{
    text_view, ManualSessionAddPreset, ManualSessionCommand, ManualSessionStartPreset,
};
use crate::tray::command::{GracePreset, ThresholdPreset, TrayCommand};
use crate::tray::{KeepAwakeView, TrayView};
use vstd::prelude::*;
use vstd::string::*;

verus! {

/// A menu: the tray menu itself, or one within it.
#[derive(Clone, Copy, Debug, PartialEq, Eq, Structural)]
pub enum MenuId {
    Top,
    KeepAwake,
    Detection,
    Threshold,
    Grace,
    Settings,
}

impl MenuId {
    /// The identifier of a menu.
    pub open spec fn identifier(self) -> &'static str {
        match self {
            MenuId::Top => "top",
            MenuId::KeepAwake => "manual",
            MenuId::Detection => "detection",
            MenuId::Threshold => "detection.threshold",
            MenuId::Grace => "detection.grace",
            MenuId::Settings => "settings",
        }
    }

    /// The identifier of a menu.
    pub fn id(self) -> (r: &'static str)
        ensures
            r == self.identifier(),
    {
        match self {
            MenuId::Top => "top",
            MenuId::KeepAwake => "manual",
            MenuId::Detection => "detection",
            MenuId::Threshold => "detection.threshold",
            MenuId::Grace => "detection.grace",
            MenuId::Settings => "settings",
        }
    }
}

/// An entry of a menu.
#[derive(Clone, Debug, PartialEq, Eq)]
pub enum MenuEntry {
    /// A line to read.
    Status { id: &'static str, label: String },
    /// A command.
    Command { command: TrayCommand, label: String, enabled: bool },
    /// A command with a mark.
    Check { command: TrayCommand, label: String, enabled: bool, checked: bool },
    /// A marked line to read: what is in force in place of the presets.
    Custom { id: &'static str, label: String },
    /// A line between groups.
    Separator,
    /// A menu within the menu.
    Submenu { menu: MenuId, label: String, enabled: bool },
}

/// An entry of a menu as a mathematical value.
pub ghost enum EntryModel {
    Status { id: &'static str, label: Seq<char> },
    Command { command: TrayCommand, label: Seq<char>, enabled: bool },
    Check { command: TrayCommand, label: Seq<char>, enabled: bool, checked: bool },
    Custom { id: &'static str, label: Seq<char> },
    Separator,
    Submenu { menu: MenuId, label: Seq<char>, enabled: bool },
}

impl View for MenuEntry {
    type V = EntryModel;

    open spec fn view(&self) -> EntryModel {
        match *self {
            MenuEntry::Status { id, label } => EntryModel::Status { id, label: label@ },
            MenuEntry::Command { command, label, enabled } => EntryModel::Command {
                command,
                label: label@,
                enabled,
            },
            MenuEntry::Check { command, label, enabled, checked } => EntryModel::Check {
                command,
                label: label@,
                enabled,
                checked,
            },
            MenuEntry::Custom { id, label } => EntryModel::Custom { id, label: label@ },
            MenuEntry::Separator => EntryModel::Separator,
            MenuEntry::Submenu { menu, label, enabled } => EntryModel::Submenu {
                menu,
                label: label@,
                enabled,
            },
        }
    }
}

/// Entries as mathematical values.
pub open spec fn entry_models(entries: Seq<MenuEntry>) -> Seq<EntryModel> {
    entries.map_values(|entry: MenuEntry| entry@)
}

/// A line to read, where there is something to say.
pub open spec fn status_line(id: &'static str, label: Option<Seq<char>>) -> Seq<EntryModel> {
    match label {
        Some(label) => seq![EntryModel::Status { id, label }],
        None => Seq::empty(),
    }
}

/// What is in force in place of the presets, where that is something else.
pub open spec fn custom_line(id: &'static str, label: Option<Seq<char>>) -> Seq<EntryModel> {
    match label {
        Some(label) => seq![EntryModel::Custom { id, label }],
        None => Seq::empty(),
    }
}

/// The entries of the tray menu: what the program does, what it is asked to
/// do, and the way out, which is always open.
pub open spec fn top_level(view: TrayView) -> Seq<EntryModel> {
    let on = view.commands_enabled;
    seq![EntryModel::Status { id: "status.primary", label: view.primary@ }] + status_line(
        "status.detail",
        text_view(view.detail),
    ) + status_line("status.warning", text_view(view.warning)) + seq![
        EntryModel::Separator,
        EntryModel::Check {
            command: TrayCommand::ToggleAutomaticProtection,
            label: "Keep awake during downloads"@,
            enabled: on,
            checked: view.automatic_checked,
        },
        EntryModel::Check {
            command: TrayCommand::ToggleProtectOnBattery,
            label: "Also on battery or limited power"@,
            enabled: on,
            checked: view.protect_on_battery_checked,
        },
        EntryModel::Submenu { menu: MenuId::KeepAwake, label: "Keep awake"@, enabled: on },
        EntryModel::Submenu { menu: MenuId::Detection, label: "Detection"@, enabled: true },
        EntryModel::Submenu { menu: MenuId::Settings, label: "Settings"@, enabled: true },
        EntryModel::Separator,
        EntryModel::Command {
            command: TrayCommand::Quit,
            label: "Quit Chiù"@,
            enabled: true,
        },
    ]
}

/// A command of the manual session.
pub open spec fn manual_command(
    command: ManualSessionCommand,
    label: Seq<char>,
    enabled: bool,
) -> EntryModel {
    EntryModel::Command { command: TrayCommand::Manual(command), label, enabled }
}

/// The entries of the manual session: the sessions that can be started, or
/// what can be done with the one that runs.
pub open spec fn keep_awake(view: TrayView) -> Seq<EntryModel> {
    let on = view.commands_enabled;
    match view.keep_awake {
        KeepAwakeView::Inactive => seq![
            manual_command(
                ManualSessionCommand::Start(ManualSessionStartPreset::FifteenMinutes),
                "15 minutes"@,
                on,
            ),
            manual_command(
                ManualSessionCommand::Start(ManualSessionStartPreset::ThirtyMinutes),
                "30 minutes"@,
                on,
            ),
            manual_command(
                ManualSessionCommand::Start(ManualSessionStartPreset::OneHour),
                "1 hour"@,
                on,
            ),
            manual_command(
                ManualSessionCommand::Start(ManualSessionStartPreset::TwoHours),
                "2 hours"@,
                on,
            ),
            manual_command(
                ManualSessionCommand::Start(ManualSessionStartPreset::FourHours),
                "4 hours"@,
                on,
            ),
            manual_command(
                ManualSessionCommand::Start(ManualSessionStartPreset::EightHours),
                "8 hours"@,
                on,
            ),
            manual_command(
                ManualSessionCommand::Start(ManualSessionStartPreset::UntilDisabled),
                "Until disabled"@,
                on,
            ),
        ],
        KeepAwakeView::Finite { remaining } => seq![
            EntryModel::Status { id: "manual.remaining", label: remaining@ },
            manual_command(
                ManualSessionCommand::Add(ManualSessionAddPreset::FifteenMinutes),
                "Add 15 minutes"@,
                on,
            ),
            manual_command(
                ManualSessionCommand::Add(ManualSessionAddPreset::ThirtyMinutes),
                "Add 30 minutes"@,
                on,
            ),
            manual_command(
                ManualSessionCommand::Add(ManualSessionAddPreset::OneHour),
                "Add 1 hour"@,
                on,
            ),
            manual_command(
                ManualSessionCommand::Add(ManualSessionAddPreset::TwoHours),
                "Add 2 hours"@,
                on,
            ),
            manual_command(
                ManualSessionCommand::Add(ManualSessionAddPreset::FourHours),
                "Add 4 hours"@,
                on,
            ),
            manual_command(ManualSessionCommand::ConvertToUntilDisabled, "Until disabled"@, on),
            manual_command(ManualSessionCommand::Stop, "Stop"@, on),
        ],
        KeepAwakeView::UntilDisabled => seq![
            EntryModel::Status { id: "manual.remaining", label: "Until disabled"@ },
            manual_command(ManualSessionCommand::Stop, "Stop"@, on),
        ],
    }
}

/// The entries of the detector: what it sees, and how it is tuned.
pub open spec fn detection(view: TrayView) -> Seq<EntryModel> {
    let on = view.commands_enabled;
    seq![EntryModel::Status { id: "detection.state", label: view.detection.state@ }]
        + status_line(
        "detection.rate",
        match view.detection.receive_rate {
            Some(rate) => Some("Receive rate — "@ + rate@),
            None => None,
        },
    ) + seq![
        EntryModel::Status {
            id: "detection.power",
            label: "Power source — "@ + view.detection.power_source@,
        },
        EntryModel::Separator,
        EntryModel::Submenu { menu: MenuId::Threshold, label: "Threshold"@, enabled: on },
        EntryModel::Submenu { menu: MenuId::Grace, label: "Grace period"@, enabled: on },
    ]
}

/// A rate that can be chosen.
pub open spec fn threshold_choice(
    preset: ThresholdPreset,
    label: Seq<char>,
    enabled: bool,
    checked: bool,
) -> EntryModel {
    EntryModel::Check { command: TrayCommand::SetThreshold(preset), label, enabled, checked }
}

/// A time of grace that can be chosen.
pub open spec fn grace_choice(
    preset: GracePreset,
    label: Seq<char>,
    enabled: bool,
    checked: bool,
) -> EntryModel {
    EntryModel::Check { command: TrayCommand::SetGrace(preset), label, enabled, checked }
}

/// The rates that can be chosen.
pub open spec fn thresholds(view: TrayView) -> Seq<EntryModel> {
    let on = view.commands_enabled;
    let checked = view.detection.threshold.checked;
    seq![
        threshold_choice(ThresholdPreset::Kibibytes256, "256 KB/s"@, on, checked[0]),
        threshold_choice(ThresholdPreset::Mebibyte1, "1 MB/s"@, on, checked[1]),
        threshold_choice(ThresholdPreset::Mebibytes5, "5 MB/s"@, on, checked[2]),
    ] + custom_line("detection.threshold.custom", text_view(view.detection.threshold.custom))
}

/// The times of grace that can be chosen.
pub open spec fn graces(view: TrayView) -> Seq<EntryModel> {
    let on = view.commands_enabled;
    let checked = view.detection.grace.checked;
    seq![
        grace_choice(GracePreset::Seconds30, "30 seconds"@, on, checked[0]),
        grace_choice(GracePreset::Minutes2, "2 minutes"@, on, checked[1]),
        grace_choice(GracePreset::Minutes5, "5 minutes"@, on, checked[2]),
        grace_choice(GracePreset::Minutes15, "15 minutes"@, on, checked[3]),
        grace_choice(GracePreset::Minutes30, "30 minutes"@, on, checked[4]),
    ] + custom_line("detection.grace.custom", text_view(view.detection.grace.custom))
}

/// The entry that installs an update, where there is one to install.
pub open spec fn install_entry(install: Option<(String, bool)>) -> Seq<EntryModel> {
    match install {
        Some((label, enabled)) => seq![
            EntryModel::Command {
                command: TrayCommand::InstallUpdate,
                label: label@,
                enabled,
            },
        ],
        None => Seq::empty(),
    }
}

/// The entries of the settings: starting at login, updates and diagnostics.
pub open spec fn settings(view: TrayView) -> Seq<EntryModel> {
    seq![
        EntryModel::Check {
            command: TrayCommand::ToggleLaunchAtLogin,
            label: view.launch_at_login.label@,
            enabled: view.launch_at_login.enabled,
            checked: view.launch_at_login.checked,
        },
        EntryModel::Check {
            command: TrayCommand::ToggleAutomaticUpdates,
            label: view.updater.automatic_label@,
            enabled: view.updater.automatic_enabled,
            checked: view.updater.automatic_checked,
        },
        EntryModel::Command {
            command: TrayCommand::CheckUpdates,
            label: view.updater.check_label@,
            enabled: view.updater.check_enabled,
        },
    ] + status_line("updater.result", text_view(view.updater.result)) + install_entry(
        view.updater.install,
    ) + seq![
        EntryModel::Command {
            command: TrayCommand::CopyDiagnostics,
            label: view.diagnostics.copy_label@,
            enabled: view.diagnostics.copy_enabled,
        },
        EntryModel::Command {
            command: TrayCommand::OpenLogs,
            label: view.diagnostics.open_logs_label@,
            enabled: view.diagnostics.open_logs_enabled,
        },
    ]
}

/// The entries of a menu.
pub open spec fn menu_entries(menu: MenuId, view: TrayView) -> Seq<EntryModel> {
    match menu {
        MenuId::Top => top_level(view),
        MenuId::KeepAwake => keep_awake(view),
        MenuId::Detection => detection(view),
        MenuId::Threshold => thresholds(view),
        MenuId::Grace => graces(view),
        MenuId::Settings => settings(view),
    }
}

fn add_entry(entries: &mut Vec<MenuEntry>, entry: MenuEntry)
    ensures
        entry_models(final(entries)@) == entry_models(old(entries)@).push(entry@),
{
    entries.push(entry);
    assert(entry_models(entries@) =~= entry_models(old(entries)@).push(entry@));
}

fn add_status(entries: &mut Vec<MenuEntry>, id: &'static str, label: Option<&str>)
    ensures
        entry_models(final(entries)@) == entry_models(old(entries)@) + status_line(
            id,
            match label {
                Some(label) => Some(label@),
                None => None,
            },
        ),
{
    if let Some(label) = label {
        add_entry(entries, MenuEntry::Status { id, label: String::from_str(label) });
    }
    assert(entry_models(entries@) =~= entry_models(old(entries)@) + status_line(
        id,
        match label {
            Some(label) => Some(label@),
            None => None,
        },
    ));
}

fn add_custom(entries: &mut Vec<MenuEntry>, id: &'static str, label: &Option<String>)
    ensures
        entry_models(final(entries)@) == entry_models(old(entries)@) + custom_line(
            id,
            text_view(*label),
        ),
{
    if let Some(label) = label {
        add_entry(entries, MenuEntry::Custom { id, label: label.clone() });
    }
    assert(entry_models(entries@) =~= entry_models(old(entries)@) + custom_line(
        id,
        text_view(*label),
    ));
}

fn add_command(entries: &mut Vec<MenuEntry>, command: TrayCommand, label: &str, enabled: bool)
    ensures
        entry_models(final(entries)@) == entry_models(old(entries)@).push(
            EntryModel::Command { command, label: label@, enabled },
        ),
{
    add_entry(entries, MenuEntry::Command { command, label: String::from_str(label), enabled });
}

fn add_manual(
    entries: &mut Vec<MenuEntry>,
    command: ManualSessionCommand,
    label: &str,
    enabled: bool,
)
    ensures
        entry_models(final(entries)@) == entry_models(old(entries)@).push(
            manual_command(command, label@, enabled),
        ),
{
    add_command(entries, TrayCommand::Manual(command), label, enabled);
}

fn add_check(
    entries: &mut Vec<MenuEntry>,
    command: TrayCommand,
    label: &str,
    enabled: bool,
    checked: bool,
)
    ensures
        entry_models(final(entries)@) == entry_models(old(entries)@).push(
            EntryModel::Check { command, label: label@, enabled, checked },
        ),
{
    add_entry(
        entries,
        MenuEntry::Check { command, label: String::from_str(label), enabled, checked },
    );
}

fn add_submenu(entries: &mut Vec<MenuEntry>, menu: MenuId, label: &str, enabled: bool)
    ensures
        entry_models(final(entries)@) == entry_models(old(entries)@).push(
            EntryModel::Submenu { menu, label: label@, enabled },
        ),
{
    add_entry(entries, MenuEntry::Submenu { menu, label: String::from_str(label), enabled });
}

fn no_entries() -> (r: Vec<MenuEntry>)
    ensures
        entry_models(r@) == Seq::<EntryModel>::empty(),
{
    let r: Vec<MenuEntry> = Vec::new();
    assert(entry_models(r@) =~= Seq::<EntryModel>::empty());
    r
}

fn text_of(text: &Option<String>) -> (r: Option<&str>)
    ensures
        r is Some <==> text is Some,
        r is Some ==> r->0@ == text->0@,
{
    match text {
        Some(text) => Some(text.as_str()),
        None => None,
    }
}

/// The entries of the tray menu.
pub fn top_level_entries(view: &TrayView) -> (r: Vec<MenuEntry>)
    ensures
        entry_models(r@) == top_level(*view),
{
    let on = view.commands_enabled;
    let mut r = no_entries();
    add_status(&mut r, "status.primary", Some(view.primary.as_str()));
    add_status(&mut r, "status.detail", text_of(&view.detail));
    add_status(&mut r, "status.warning", text_of(&view.warning));
    add_entry(&mut r, MenuEntry::Separator);
    add_check(
        &mut r,
        TrayCommand::ToggleAutomaticProtection,
        "Keep awake during downloads",
        on,
        view.automatic_checked,
    );
    add_check(
        &mut r,
        TrayCommand::ToggleProtectOnBattery,
        "Also on battery or limited power",
        on,
        view.protect_on_battery_checked,
    );
    add_submenu(&mut r, MenuId::KeepAwake, "Keep awake", on);
    add_submenu(&mut r, MenuId::Detection, "Detection", true);
    add_submenu(&mut r, MenuId::Settings, "Settings", true);
    add_entry(&mut r, MenuEntry::Separator);
    add_command(&mut r, TrayCommand::Quit, "Quit Chiù", true);
    assert(entry_models(r@) =~= top_level(*view));
    r
}

/// The entries of the manual session.
pub fn keep_awake_entries(view: &TrayView) -> (r: Vec<MenuEntry>)
    ensures
        entry_models(r@) == keep_awake(*view),
{
    let on = view.commands_enabled;
    let mut r = no_entries();
    match &view.keep_awake {
        KeepAwakeView::Inactive => {
            add_manual(
                &mut r,
                ManualSessionCommand::Start(ManualSessionStartPreset::FifteenMinutes),
                "15 minutes",
                on,
            );
            add_manual(
                &mut r,
                ManualSessionCommand::Start(ManualSessionStartPreset::ThirtyMinutes),
                "30 minutes",
                on,
            );
            add_manual(
                &mut r,
                ManualSessionCommand::Start(ManualSessionStartPreset::OneHour),
                "1 hour",
                on,
            );
            add_manual(
                &mut r,
                ManualSessionCommand::Start(ManualSessionStartPreset::TwoHours),
                "2 hours",
                on,
            );
            add_manual(
                &mut r,
                ManualSessionCommand::Start(ManualSessionStartPreset::FourHours),
                "4 hours",
                on,
            );
            add_manual(
                &mut r,
                ManualSessionCommand::Start(ManualSessionStartPreset::EightHours),
                "8 hours",
                on,
            );
            add_manual(
                &mut r,
                ManualSessionCommand::Start(ManualSessionStartPreset::UntilDisabled),
                "Until disabled",
                on,
            );
        },
        KeepAwakeView::Finite { remaining } => {
            add_status(&mut r, "manual.remaining", Some(remaining.as_str()));
            add_manual(
                &mut r,
                ManualSessionCommand::Add(ManualSessionAddPreset::FifteenMinutes),
                "Add 15 minutes",
                on,
            );
            add_manual(
                &mut r,
                ManualSessionCommand::Add(ManualSessionAddPreset::ThirtyMinutes),
                "Add 30 minutes",
                on,
            );
            add_manual(
                &mut r,
                ManualSessionCommand::Add(ManualSessionAddPreset::OneHour),
                "Add 1 hour",
                on,
            );
            add_manual(
                &mut r,
                ManualSessionCommand::Add(ManualSessionAddPreset::TwoHours),
                "Add 2 hours",
                on,
            );
            add_manual(
                &mut r,
                ManualSessionCommand::Add(ManualSessionAddPreset::FourHours),
                "Add 4 hours",
                on,
            );
            add_manual(
                &mut r,
                ManualSessionCommand::ConvertToUntilDisabled,
                "Until disabled",
                on,
            );
            add_manual(&mut r, ManualSessionCommand::Stop, "Stop", on);
        },
        KeepAwakeView::UntilDisabled => {
            add_status(&mut r, "manual.remaining", Some("Until disabled"));
            add_manual(&mut r, ManualSessionCommand::Stop, "Stop", on);
        },
    }
    assert(entry_models(r@) =~= keep_awake(*view));
    r
}

/// The entries of the detector.
pub fn detection_entries(view: &TrayView) -> (r: Vec<MenuEntry>)
    ensures
        entry_models(r@) == detection(*view),
{
    let on = view.commands_enabled;
    let mut r = no_entries();
    add_status(&mut r, "detection.state", Some(view.detection.state.as_str()));
    if let Some(rate) = &view.detection.receive_rate {
        let label = receive_rate_label(rate.as_str());
        add_status(&mut r, "detection.rate", Some(label.as_str()));
    }
    let label = power_source_label(view.detection.power_source.as_str());
    add_status(&mut r, "detection.power", Some(label.as_str()));
    add_entry(&mut r, MenuEntry::Separator);
    add_submenu(&mut r, MenuId::Threshold, "Threshold", on);
    add_submenu(&mut r, MenuId::Grace, "Grace period", on);
    assert(entry_models(r@) =~= detection(*view));
    r
}

/// The rates that can be chosen.
pub fn threshold_entries(view: &TrayView) -> (r: Vec<MenuEntry>)
    ensures
        entry_models(r@) == thresholds(*view),
{
    let on = view.commands_enabled;
    let checked = &view.detection.threshold.checked;
    let mut r = no_entries();
    add_check(&mut r, TrayCommand::SetThreshold(ThresholdPreset::Kibibytes256), "256 KB/s", on, checked[0]);
    add_check(&mut r, TrayCommand::SetThreshold(ThresholdPreset::Mebibyte1), "1 MB/s", on, checked[1]);
    add_check(&mut r, TrayCommand::SetThreshold(ThresholdPreset::Mebibytes5), "5 MB/s", on, checked[2]);
    add_custom(&mut r, "detection.threshold.custom", &view.detection.threshold.custom);
    assert(entry_models(r@) =~= thresholds(*view));
    r
}

/// The times of grace that can be chosen.
pub fn grace_entries(view: &TrayView) -> (r: Vec<MenuEntry>)
    ensures
        entry_models(r@) == graces(*view),
{
    let on = view.commands_enabled;
    let checked = &view.detection.grace.checked;
    let mut r = no_entries();
    add_check(&mut r, TrayCommand::SetGrace(GracePreset::Seconds30), "30 seconds", on, checked[0]);
    add_check(&mut r, TrayCommand::SetGrace(GracePreset::Minutes2), "2 minutes", on, checked[1]);
    add_check(&mut r, TrayCommand::SetGrace(GracePreset::Minutes5), "5 minutes", on, checked[2]);
    add_check(&mut r, TrayCommand::SetGrace(GracePreset::Minutes15), "15 minutes", on, checked[3]);
    add_check(&mut r, TrayCommand::SetGrace(GracePreset::Minutes30), "30 minutes", on, checked[4]);
    add_custom(&mut r, "detection.grace.custom", &view.detection.grace.custom);
    assert(entry_models(r@) =~= graces(*view));
    r
}

/// The entries of the settings.
pub fn settings_entries(view: &TrayView) -> (r: Vec<MenuEntry>)
    ensures
        entry_models(r@) == settings(*view),
{
    let mut r = no_entries();
    add_check(
        &mut r,
        TrayCommand::ToggleLaunchAtLogin,
        view.launch_at_login.label.as_str(),
        view.launch_at_login.enabled,
        view.launch_at_login.checked,
    );
    add_check(
        &mut r,
        TrayCommand::ToggleAutomaticUpdates,
        view.updater.automatic_label.as_str(),
        view.updater.automatic_enabled,
        view.updater.automatic_checked,
    );
    add_command(
        &mut r,
        TrayCommand::CheckUpdates,
        view.updater.check_label.as_str(),
        view.updater.check_enabled,
    );
    add_status(&mut r, "updater.result", text_of(&view.updater.result));
    if let Some((label, enabled)) = &view.updater.install {
        add_command(&mut r, TrayCommand::InstallUpdate, label.as_str(), *enabled);
    }
    add_command(
        &mut r,
        TrayCommand::CopyDiagnostics,
        view.diagnostics.copy_label.as_str(),
        view.diagnostics.copy_enabled,
    );
    add_command(
        &mut r,
        TrayCommand::OpenLogs,
        view.diagnostics.open_logs_label.as_str(),
        view.diagnostics.open_logs_enabled,
    );
    assert(entry_models(r@) =~= settings(*view));
    r
}

/// The entries of a menu.
pub fn entries(menu: MenuId, view: &TrayView) -> (r: Vec<MenuEntry>)
    ensures
        entry_models(r@) == menu_entries(menu, *view),
{
    match menu {
        MenuId::Top => top_level_entries(view),
        MenuId::KeepAwake => keep_awake_entries(view),
        MenuId::Detection => detection_entries(view),
        MenuId::Threshold => threshold_entries(view),
        MenuId::Grace => grace_entries(view),
        MenuId::Settings => settings_entries(view),
    }
}

/// Whether two entries are the same but for what they say and whether they
/// can be used.
pub open spec fn same_entry(a: EntryModel, b: EntryModel) -> bool {
    match (a, b) {
        (EntryModel::Status { id, .. }, EntryModel::Status { id: other, .. }) => id == other,
        (
            EntryModel::Command { command, .. },
            EntryModel::Command { command: other, .. },
        ) => command == other,
        (
            EntryModel::Check { command, .. },
            EntryModel::Check { command: other, .. },
        ) => command == other,
        (EntryModel::Custom { id, .. }, EntryModel::Custom { id: other, .. }) => id == other,
        (EntryModel::Separator, EntryModel::Separator) => true,
        (
            EntryModel::Submenu { menu, .. },
            EntryModel::Submenu { menu: other, .. },
        ) => menu == other,
        _ => false,
    }
}

/// Whether two menus have the same entries, in the same order.
pub open spec fn same_entries(a: Seq<EntryModel>, b: Seq<EntryModel>) -> bool {
    &&& a.len() == b.len()
    &&& forall|i: int| 0 <= i < a.len() ==> same_entry(#[trigger] a[i], b[i])
}

proof fn joined_entries_are_the_same(
    a: Seq<EntryModel>,
    b: Seq<EntryModel>,
    a_rest: Seq<EntryModel>,
    b_rest: Seq<EntryModel>,
)
    requires
        same_entries(a, b),
        same_entries(a_rest, b_rest),
    ensures
        same_entries(a + a_rest, b + b_rest),
{
    assert forall|i: int| 0 <= i < (a + a_rest).len() implies same_entry(
        #[trigger] (a + a_rest)[i],
        (b + b_rest)[i],
    ) by {
        if i < a.len() {
            assert(same_entry(a[i], b[i]));
        } else {
            assert(same_entry(a_rest[i - a.len()], b_rest[i - a.len()]));
        }
    }
}

proof fn top_level_is_decided(a: TrayView, b: TrayView)
    requires
        MenuStructure::of(a) == MenuStructure::of(b),
    ensures
        same_entries(top_level(a), top_level(b)),
{
    let first_a = seq![EntryModel::Status { id: "status.primary", label: a.primary@ }];
    let first_b = seq![EntryModel::Status { id: "status.primary", label: b.primary@ }];
    let detail_a = status_line("status.detail", text_view(a.detail));
    let detail_b = status_line("status.detail", text_view(b.detail));
    let warning_a = status_line("status.warning", text_view(a.warning));
    let warning_b = status_line("status.warning", text_view(b.warning));
    let head_a = first_a + detail_a + warning_a;
    let head_b = first_b + detail_b + warning_b;
    joined_entries_are_the_same(first_a, first_b, detail_a, detail_b);
    joined_entries_are_the_same(first_a + detail_a, first_b + detail_b, warning_a, warning_b);
    let rest_a = top_level(a).skip(head_a.len() as int);
    let rest_b = top_level(b).skip(head_b.len() as int);
    assert(top_level(a) =~= head_a + rest_a);
    assert(top_level(b) =~= head_b + rest_b);
    assert(same_entries(rest_a, rest_b));
    joined_entries_are_the_same(head_a, head_b, rest_a, rest_b);
}

proof fn keep_awake_is_decided(a: TrayView, b: TrayView)
    requires
        MenuStructure::of(a) == MenuStructure::of(b),
    ensures
        same_entries(keep_awake(a), keep_awake(b)),
{
}

proof fn detection_is_decided(a: TrayView, b: TrayView)
    requires
        MenuStructure::of(a) == MenuStructure::of(b),
    ensures
        same_entries(detection(a), detection(b)),
{
}

proof fn settings_are_decided(a: TrayView, b: TrayView)
    requires
        MenuStructure::of(a) == MenuStructure::of(b),
    ensures
        same_entries(settings(a), settings(b)),
{
}

/// A menu whose structure has not changed has the same entries as before, in
/// the same order, so that it is enough to change their labels and marks.
pub proof fn the_structure_decides_the_entries(menu: MenuId, a: TrayView, b: TrayView)
    requires
        MenuStructure::of(a) == MenuStructure::of(b),
    ensures
        same_entries(menu_entries(menu, a), menu_entries(menu, b)),
{
    match menu {
        MenuId::Top => top_level_is_decided(a, b),
        MenuId::KeepAwake => keep_awake_is_decided(a, b),
        MenuId::Detection => detection_is_decided(a, b),
        MenuId::Threshold => {
            assert(same_entries(thresholds(a), thresholds(b)));
        },
        MenuId::Grace => {
            assert(same_entries(graces(a), graces(b)));
        },
        MenuId::Settings => settings_are_decided(a, b),
    }
}

/// The commands of the manual session and the presets are offered together,
/// exactly while the program takes commands. The way out is always open.
pub proof fn commands_are_offered_together(menu: MenuId, view: TrayView, i: int)
    requires
        0 <= i < menu_entries(menu, view).len(),
        menu == MenuId::KeepAwake || menu == MenuId::Threshold || menu == MenuId::Grace,
    ensures
        match menu_entries(menu, view)[i] {
            EntryModel::Command { enabled, .. } => enabled == view.commands_enabled,
            EntryModel::Check { enabled, .. } => enabled == view.commands_enabled,
            _ => true,
        },
        top_level(view).last() == (EntryModel::Command {
            command: TrayCommand::Quit,
            label: "Quit Chiù"@,
            enabled: true,
        }),
{
}

} // verus!
