//! The entries of the tray menu.

use chiu::application::ApplicationStatus;
use chiu::manual_session::{
    ManualSessionAddPreset, ManualSessionCommand, ManualSessionStartPreset,
};
use chiu::tray::byte_rate::format_byte_rate;
use chiu::tray::command::{all_commands, GracePreset, ThresholdPreset, TrayCommand};
use chiu::tray::{format_duration_value, lifecycle_only_view, KeepAwakeView, TrayView};
use chiu::tray_host::menu::{entries, MenuEntry, MenuId};
use chiu::tray_host::MenuStructure;

const MENUS: [MenuId; 6] = [
    MenuId::Top,
    MenuId::KeepAwake,
    MenuId::Detection,
    MenuId::Threshold,
    MenuId::Grace,
    MenuId::Settings,
];

fn running() -> TrayView {
    let mut view = lifecycle_only_view(ApplicationStatus::Starting);
    view.commands_enabled = true;
    view.automatic_checked = true;
    view.detection.threshold.checked = [false, true, false];
    view.detection.grace.checked = [false, true, false, false, false];
    view
}

fn id(entry: &MenuEntry) -> &'static str {
    match entry {
        MenuEntry::Status { id, .. } | MenuEntry::Custom { id, .. } => id,
        MenuEntry::Command { command, .. } | MenuEntry::Check { command, .. } => command.id(),
        MenuEntry::Separator => "-",
        MenuEntry::Submenu { menu, .. } => menu.id(),
    }
}

fn ids(menu: MenuId, view: &TrayView) -> Vec<&'static str> {
    entries(menu, view).iter().map(id).collect()
}

#[test]
fn the_menu_is_grouped_and_ends_with_the_way_out() {
    let mut view = running();
    assert_eq!(
        ids(MenuId::Top, &view),
        [
            "status.primary",
            "-",
            "automatic.toggle",
            "battery.toggle",
            "manual",
            "detection",
            "settings",
            "-",
            "quit"
        ]
    );

    view.detail = Some("Reason: Network activity".to_owned());
    view.warning = Some("Settings could not be saved".to_owned());
    assert_eq!(
        ids(MenuId::Top, &view)[..4],
        ["status.primary", "status.detail", "status.warning", "-"]
    );
    assert_eq!(
        entries(MenuId::Top, &view)[2],
        MenuEntry::Status {
            id: "status.warning",
            label: "Settings could not be saved".to_owned()
        }
    );
}

#[test]
fn the_detector_is_shown_with_its_choices() {
    let mut view = running();
    view.detection.receive_rate = Some("3 MB/s".to_owned());
    view.detection.grace.custom = Some("Custom — 90 seconds".to_owned());

    assert_eq!(
        ids(MenuId::Detection, &view),
        [
            "detection.state",
            "detection.rate",
            "detection.power",
            "-",
            "detection.threshold",
            "detection.grace"
        ]
    );
    assert_eq!(
        entries(MenuId::Detection, &view)[1],
        MenuEntry::Status {
            id: "detection.rate",
            label: "Receive rate — 3 MB/s".to_owned()
        }
    );
    assert_eq!(
        entries(MenuId::Threshold, &view)[1],
        MenuEntry::Check {
            command: TrayCommand::SetThreshold(ThresholdPreset::Mebibyte1),
            label: "1 MB/s".to_owned(),
            enabled: true,
            checked: true,
        }
    );
    assert_eq!(entries(MenuId::Threshold, &view).len(), 3);
    assert_eq!(
        entries(MenuId::Grace, &view).last(),
        Some(&MenuEntry::Custom {
            id: "detection.grace.custom",
            label: "Custom — 90 seconds".to_owned()
        })
    );
}

#[test]
fn presets_are_labelled_as_rates_and_times_are() {
    for entry in entries(MenuId::Threshold, &running()) {
        if let MenuEntry::Check {
            command: TrayCommand::SetThreshold(preset),
            label,
            ..
        } = entry
        {
            assert_eq!(
                label,
                format_byte_rate(u128::from(preset.bytes_per_second()))
            );
        }
    }
    for entry in entries(MenuId::Grace, &running()) {
        if let MenuEntry::Check {
            command: TrayCommand::SetGrace(preset),
            label,
            ..
        } = entry
        {
            assert_eq!(label, format_duration_value(preset.duration()));
        }
    }
    assert_eq!(
        ids(MenuId::Grace, &running())[4],
        TrayCommand::SetGrace(GracePreset::Minutes30).id()
    );
}

#[test]
fn the_session_offers_what_can_be_done_with_it() {
    let mut view = running();
    let starts = entries(MenuId::KeepAwake, &view);
    assert_eq!(starts.len(), 7);
    assert_eq!(
        starts[0],
        MenuEntry::Command {
            command: TrayCommand::Manual(ManualSessionCommand::Start(
                ManualSessionStartPreset::FifteenMinutes
            )),
            label: "15 minutes".to_owned(),
            enabled: true,
        }
    );

    view.keep_awake = KeepAwakeView::Finite {
        remaining: "5 min remaining".to_owned(),
    };
    let running = entries(MenuId::KeepAwake, &view);
    assert_eq!(running.len(), 8);
    assert_eq!(
        running[0],
        MenuEntry::Status {
            id: "manual.remaining",
            label: "5 min remaining".to_owned()
        }
    );
    assert_eq!(
        id(&running[1]),
        TrayCommand::Manual(ManualSessionCommand::Add(
            ManualSessionAddPreset::FifteenMinutes
        ))
        .id()
    );

    view.keep_awake = KeepAwakeView::UntilDisabled;
    assert_eq!(
        ids(MenuId::KeepAwake, &view),
        ["manual.remaining", "manual.stop"]
    );
}

#[test]
fn commands_are_disabled_together() {
    let mut view = running();
    view.commands_enabled = false;

    for menu in [MenuId::KeepAwake, MenuId::Threshold, MenuId::Grace] {
        for entry in entries(menu, &view) {
            assert!(matches!(
                entry,
                MenuEntry::Command { enabled: false, .. } | MenuEntry::Check { enabled: false, .. }
            ));
        }
    }
    assert_eq!(
        entries(MenuId::Top, &view).last(),
        Some(&MenuEntry::Command {
            command: TrayCommand::Quit,
            label: "Quit Chiù".to_owned(),
            enabled: true,
        })
    );
}

#[test]
fn every_command_is_in_some_menu() {
    let mut offered = Vec::new();
    let mut view = running();
    view.updater.install = Some(("Install Chiù 1.2.3…".to_owned(), true));
    view.updater.result = Some("Up to date".to_owned());
    for shape in [
        KeepAwakeView::Inactive,
        KeepAwakeView::Finite {
            remaining: "1 h remaining".to_owned(),
        },
    ] {
        view.keep_awake = shape;
        for menu in MENUS {
            offered.extend(ids(menu, &view));
        }
    }
    for command in all_commands() {
        assert!(offered.contains(&command.id()), "{}", command.id());
    }
    assert!(offered.contains(&"updater.result"));
}

#[test]
fn one_structure_has_one_list_of_entries() {
    let mut view = running();
    view.detection.receive_rate = Some("1 B/s".to_owned());
    let mut other = view.clone();
    other.detection.receive_rate = Some("2 MB/s".to_owned());
    other.primary = "Keeping awake".to_owned();
    other.detection.grace.checked = [false; 5];
    assert_eq!(
        MenuStructure::from_view(&view),
        MenuStructure::from_view(&other)
    );
    for menu in MENUS {
        assert_eq!(ids(menu, &view), ids(menu, &other));
    }

    other.detection.receive_rate = None;
    assert_ne!(
        MenuStructure::from_view(&view),
        MenuStructure::from_view(&other)
    );
    assert_ne!(ids(MenuId::Detection, &view), ids(MenuId::Detection, &other));
}
