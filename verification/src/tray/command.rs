//! The commands of the tray menu and their identifiers.

use crate::duration::{Duration, NANOS_PER_SECOND};
use crate::manual_session::{
    ManualSessionAddPreset, ManualSessionCommand, ManualSessionStartPreset,
};
use crate::text::same_text;
use vstd::prelude::*;

verus! {

/// The receive rates that the menu offers.
#[derive(Clone, Copy, Debug, PartialEq, Eq, Structural)]
pub enum ThresholdPreset {
    Kibibytes256,
    Mebibyte1,
    Mebibytes5,
}

impl ThresholdPreset {
    /// The rate in bytes per second.
    pub open spec fn rate(self) -> u64 {
        match self {
            ThresholdPreset::Kibibytes256 => 262_144,
            ThresholdPreset::Mebibyte1 => 1_048_576,
            ThresholdPreset::Mebibytes5 => 5_242_880,
        }
    }

    /// The rate in bytes per second.
    pub fn bytes_per_second(self) -> (r: u64)
        ensures
            r == self.rate(),
    {
        match self {
            ThresholdPreset::Kibibytes256 => 262_144,
            ThresholdPreset::Mebibyte1 => 1_048_576,
            ThresholdPreset::Mebibytes5 => 5_242_880,
        }
    }
}

/// The times of grace that the menu offers.
#[derive(Clone, Copy, Debug, PartialEq, Eq, Structural)]
pub enum GracePreset {
    Seconds30,
    Minutes2,
    Minutes5,
    Minutes15,
    Minutes30,
}

impl GracePreset {
    /// The time in seconds.
    pub open spec fn seconds(self) -> u64 {
        match self {
            GracePreset::Seconds30 => 30,
            GracePreset::Minutes2 => 120,
            GracePreset::Minutes5 => 300,
            GracePreset::Minutes15 => 900,
            GracePreset::Minutes30 => 1_800,
        }
    }

    /// The time.
    pub fn duration(self) -> (r: Duration)
        ensures
            r@ == self.seconds() * NANOS_PER_SECOND,
    {
        match self {
            GracePreset::Seconds30 => Duration::from_secs(30),
            GracePreset::Minutes2 => Duration::from_secs(120),
            GracePreset::Minutes5 => Duration::from_secs(300),
            GracePreset::Minutes15 => Duration::from_secs(900),
            GracePreset::Minutes30 => Duration::from_secs(1_800),
        }
    }
}

/// A command of the tray menu.
#[derive(Clone, Copy, Debug, PartialEq, Eq, Structural)]
pub enum TrayCommand {
    ToggleAutomaticProtection,
    ToggleProtectOnBattery,
    ToggleLaunchAtLogin,
    ToggleAutomaticUpdates,
    CheckUpdates,
    InstallUpdate,
    CopyDiagnostics,
    OpenLogs,
    Manual(ManualSessionCommand),
    SetThreshold(ThresholdPreset),
    SetGrace(GracePreset),
    Quit,
}

/// The identifier of a command.
pub open spec fn id_of(command: TrayCommand) -> &'static str {
    match command {
        TrayCommand::ToggleAutomaticProtection => "automatic.toggle",
        TrayCommand::ToggleProtectOnBattery => "battery.toggle",
        TrayCommand::ToggleLaunchAtLogin => "future.launch-at-login",
        TrayCommand::ToggleAutomaticUpdates => "future.automatic-updates",
        TrayCommand::CheckUpdates => "future.check-updates",
        TrayCommand::InstallUpdate => "updater.install",
        TrayCommand::CopyDiagnostics => "future.copy-diagnostics",
        TrayCommand::OpenLogs => "future.open-logs",
        TrayCommand::Manual(ManualSessionCommand::Start(ManualSessionStartPreset::FifteenMinutes)) =>
            "manual.start.15m",
        TrayCommand::Manual(ManualSessionCommand::Start(ManualSessionStartPreset::ThirtyMinutes)) =>
            "manual.start.30m",
        TrayCommand::Manual(ManualSessionCommand::Start(ManualSessionStartPreset::OneHour)) =>
            "manual.start.1h",
        TrayCommand::Manual(ManualSessionCommand::Start(ManualSessionStartPreset::TwoHours)) =>
            "manual.start.2h",
        TrayCommand::Manual(ManualSessionCommand::Start(ManualSessionStartPreset::FourHours)) =>
            "manual.start.4h",
        TrayCommand::Manual(ManualSessionCommand::Start(ManualSessionStartPreset::EightHours)) =>
            "manual.start.8h",
        TrayCommand::Manual(ManualSessionCommand::Start(ManualSessionStartPreset::UntilDisabled)) =>
            "manual.start.until-disabled",
        TrayCommand::Manual(ManualSessionCommand::Add(ManualSessionAddPreset::FifteenMinutes)) =>
            "manual.add.15m",
        TrayCommand::Manual(ManualSessionCommand::Add(ManualSessionAddPreset::ThirtyMinutes)) =>
            "manual.add.30m",
        TrayCommand::Manual(ManualSessionCommand::Add(ManualSessionAddPreset::OneHour)) =>
            "manual.add.1h",
        TrayCommand::Manual(ManualSessionCommand::Add(ManualSessionAddPreset::TwoHours)) =>
            "manual.add.2h",
        TrayCommand::Manual(ManualSessionCommand::Add(ManualSessionAddPreset::FourHours)) =>
            "manual.add.4h",
        TrayCommand::Manual(ManualSessionCommand::ConvertToUntilDisabled) =>
            "manual.convert.until-disabled",
        TrayCommand::Manual(ManualSessionCommand::Stop) => "manual.stop",
        TrayCommand::SetThreshold(ThresholdPreset::Kibibytes256) => "detection.threshold.262144",
        TrayCommand::SetThreshold(ThresholdPreset::Mebibyte1) => "detection.threshold.1048576",
        TrayCommand::SetThreshold(ThresholdPreset::Mebibytes5) => "detection.threshold.5242880",
        TrayCommand::SetGrace(GracePreset::Seconds30) => "detection.grace.30",
        TrayCommand::SetGrace(GracePreset::Minutes2) => "detection.grace.120",
        TrayCommand::SetGrace(GracePreset::Minutes5) => "detection.grace.300",
        TrayCommand::SetGrace(GracePreset::Minutes15) => "detection.grace.900",
        TrayCommand::SetGrace(GracePreset::Minutes30) => "detection.grace.1800",
        TrayCommand::Quit => "quit",
    }
}

/// The commands, in the order of the menu.
pub open spec fn every_command() -> Seq<TrayCommand> {
    seq![
        TrayCommand::ToggleAutomaticProtection,
        TrayCommand::ToggleProtectOnBattery,
        TrayCommand::ToggleLaunchAtLogin,
        TrayCommand::ToggleAutomaticUpdates,
        TrayCommand::CheckUpdates,
        TrayCommand::InstallUpdate,
        TrayCommand::CopyDiagnostics,
        TrayCommand::OpenLogs,
        TrayCommand::Manual(ManualSessionCommand::Start(ManualSessionStartPreset::FifteenMinutes)),
        TrayCommand::Manual(ManualSessionCommand::Start(ManualSessionStartPreset::ThirtyMinutes)),
        TrayCommand::Manual(ManualSessionCommand::Start(ManualSessionStartPreset::OneHour)),
        TrayCommand::Manual(ManualSessionCommand::Start(ManualSessionStartPreset::TwoHours)),
        TrayCommand::Manual(ManualSessionCommand::Start(ManualSessionStartPreset::FourHours)),
        TrayCommand::Manual(ManualSessionCommand::Start(ManualSessionStartPreset::EightHours)),
        TrayCommand::Manual(ManualSessionCommand::Start(ManualSessionStartPreset::UntilDisabled)),
        TrayCommand::Manual(ManualSessionCommand::Add(ManualSessionAddPreset::FifteenMinutes)),
        TrayCommand::Manual(ManualSessionCommand::Add(ManualSessionAddPreset::ThirtyMinutes)),
        TrayCommand::Manual(ManualSessionCommand::Add(ManualSessionAddPreset::OneHour)),
        TrayCommand::Manual(ManualSessionCommand::Add(ManualSessionAddPreset::TwoHours)),
        TrayCommand::Manual(ManualSessionCommand::Add(ManualSessionAddPreset::FourHours)),
        TrayCommand::Manual(ManualSessionCommand::ConvertToUntilDisabled),
        TrayCommand::Manual(ManualSessionCommand::Stop),
        TrayCommand::SetThreshold(ThresholdPreset::Kibibytes256),
        TrayCommand::SetThreshold(ThresholdPreset::Mebibyte1),
        TrayCommand::SetThreshold(ThresholdPreset::Mebibytes5),
        TrayCommand::SetGrace(GracePreset::Seconds30),
        TrayCommand::SetGrace(GracePreset::Minutes2),
        TrayCommand::SetGrace(GracePreset::Minutes5),
        TrayCommand::SetGrace(GracePreset::Minutes15),
        TrayCommand::SetGrace(GracePreset::Minutes30),
        TrayCommand::Quit,
    ]
}

/// The commands, in the order of the menu.
pub fn all_commands() -> (r: Vec<TrayCommand>)
    ensures
        r@ == every_command(),
{
    let r: Vec<TrayCommand> = vec![
        TrayCommand::ToggleAutomaticProtection,
        TrayCommand::ToggleProtectOnBattery,
        TrayCommand::ToggleLaunchAtLogin,
        TrayCommand::ToggleAutomaticUpdates,
        TrayCommand::CheckUpdates,
        TrayCommand::InstallUpdate,
        TrayCommand::CopyDiagnostics,
        TrayCommand::OpenLogs,
        TrayCommand::Manual(ManualSessionCommand::Start(ManualSessionStartPreset::FifteenMinutes)),
        TrayCommand::Manual(ManualSessionCommand::Start(ManualSessionStartPreset::ThirtyMinutes)),
        TrayCommand::Manual(ManualSessionCommand::Start(ManualSessionStartPreset::OneHour)),
        TrayCommand::Manual(ManualSessionCommand::Start(ManualSessionStartPreset::TwoHours)),
        TrayCommand::Manual(ManualSessionCommand::Start(ManualSessionStartPreset::FourHours)),
        TrayCommand::Manual(ManualSessionCommand::Start(ManualSessionStartPreset::EightHours)),
        TrayCommand::Manual(ManualSessionCommand::Start(ManualSessionStartPreset::UntilDisabled)),
        TrayCommand::Manual(ManualSessionCommand::Add(ManualSessionAddPreset::FifteenMinutes)),
        TrayCommand::Manual(ManualSessionCommand::Add(ManualSessionAddPreset::ThirtyMinutes)),
        TrayCommand::Manual(ManualSessionCommand::Add(ManualSessionAddPreset::OneHour)),
        TrayCommand::Manual(ManualSessionCommand::Add(ManualSessionAddPreset::TwoHours)),
        TrayCommand::Manual(ManualSessionCommand::Add(ManualSessionAddPreset::FourHours)),
        TrayCommand::Manual(ManualSessionCommand::ConvertToUntilDisabled),
        TrayCommand::Manual(ManualSessionCommand::Stop),
        TrayCommand::SetThreshold(ThresholdPreset::Kibibytes256),
        TrayCommand::SetThreshold(ThresholdPreset::Mebibyte1),
        TrayCommand::SetThreshold(ThresholdPreset::Mebibytes5),
        TrayCommand::SetGrace(GracePreset::Seconds30),
        TrayCommand::SetGrace(GracePreset::Minutes2),
        TrayCommand::SetGrace(GracePreset::Minutes5),
        TrayCommand::SetGrace(GracePreset::Minutes15),
        TrayCommand::SetGrace(GracePreset::Minutes30),
        TrayCommand::Quit,
    ];
    assert(r@ =~= every_command());
    r
}

impl TrayCommand {
    /// The identifier of the command.
    pub fn id(self) -> (r: &'static str)
        ensures
            r == id_of(self),
    {
        match self {
            TrayCommand::ToggleAutomaticProtection => "automatic.toggle",
            TrayCommand::ToggleProtectOnBattery => "battery.toggle",
            TrayCommand::ToggleLaunchAtLogin => "future.launch-at-login",
            TrayCommand::ToggleAutomaticUpdates => "future.automatic-updates",
            TrayCommand::CheckUpdates => "future.check-updates",
            TrayCommand::InstallUpdate => "updater.install",
            TrayCommand::CopyDiagnostics => "future.copy-diagnostics",
            TrayCommand::OpenLogs => "future.open-logs",
            TrayCommand::Manual(ManualSessionCommand::Start(ManualSessionStartPreset::FifteenMinutes)) =>
                "manual.start.15m",
            TrayCommand::Manual(ManualSessionCommand::Start(ManualSessionStartPreset::ThirtyMinutes)) =>
                "manual.start.30m",
            TrayCommand::Manual(ManualSessionCommand::Start(ManualSessionStartPreset::OneHour)) =>
                "manual.start.1h",
            TrayCommand::Manual(ManualSessionCommand::Start(ManualSessionStartPreset::TwoHours)) =>
                "manual.start.2h",
            TrayCommand::Manual(ManualSessionCommand::Start(ManualSessionStartPreset::FourHours)) =>
                "manual.start.4h",
            TrayCommand::Manual(ManualSessionCommand::Start(ManualSessionStartPreset::EightHours)) =>
                "manual.start.8h",
            TrayCommand::Manual(ManualSessionCommand::Start(ManualSessionStartPreset::UntilDisabled)) =>
                "manual.start.until-disabled",
            TrayCommand::Manual(ManualSessionCommand::Add(ManualSessionAddPreset::FifteenMinutes)) =>
                "manual.add.15m",
            TrayCommand::Manual(ManualSessionCommand::Add(ManualSessionAddPreset::ThirtyMinutes)) =>
                "manual.add.30m",
            TrayCommand::Manual(ManualSessionCommand::Add(ManualSessionAddPreset::OneHour)) =>
                "manual.add.1h",
            TrayCommand::Manual(ManualSessionCommand::Add(ManualSessionAddPreset::TwoHours)) =>
                "manual.add.2h",
            TrayCommand::Manual(ManualSessionCommand::Add(ManualSessionAddPreset::FourHours)) =>
                "manual.add.4h",
            TrayCommand::Manual(ManualSessionCommand::ConvertToUntilDisabled) =>
                "manual.convert.until-disabled",
            TrayCommand::Manual(ManualSessionCommand::Stop) => "manual.stop",
            TrayCommand::SetThreshold(ThresholdPreset::Kibibytes256) =>
                "detection.threshold.262144",
            TrayCommand::SetThreshold(ThresholdPreset::Mebibyte1) => "detection.threshold.1048576",
            TrayCommand::SetThreshold(ThresholdPreset::Mebibytes5) => "detection.threshold.5242880",
            TrayCommand::SetGrace(GracePreset::Seconds30) => "detection.grace.30",
            TrayCommand::SetGrace(GracePreset::Minutes2) => "detection.grace.120",
            TrayCommand::SetGrace(GracePreset::Minutes5) => "detection.grace.300",
            TrayCommand::SetGrace(GracePreset::Minutes15) => "detection.grace.900",
            TrayCommand::SetGrace(GracePreset::Minutes30) => "detection.grace.1800",
            TrayCommand::Quit => "quit",
        }
    }

    /// The command with an identifier, where there is one.
    pub fn from_id(id: &str) -> (r: Option<TrayCommand>)
        ensures
            match r {
                Some(command) => id_of(command)@ == id@,
                None => forall|command: TrayCommand| #[trigger] id_of(command)@ != id@,
            },
    {
        let commands = all_commands();
        let mut tried: usize = 0;
        while tried < commands.len()
            invariant
                tried <= commands.len(),
                commands@ == every_command(),
                forall|i: int| 0 <= i < tried ==> id_of(#[trigger] commands@[i])@ != id@,
            decreases commands.len() - tried,
        {
            let command = commands[tried];
            if same_text(command.id(), id) {
                return Some(command);
            }
            tried = tried + 1;
        }
        proof {
            assert forall|command: TrayCommand| #[trigger] id_of(command)@ != id@ by {
                every_command_is_there(command);
                let i = place_of(command);
                assert(commands@[i] == command);
            }
        }
        None
    }
}

/// The place of a command in the menu.
spec fn place_of(command: TrayCommand) -> int {
    match command {
        TrayCommand::ToggleAutomaticProtection => 0,
        TrayCommand::ToggleProtectOnBattery => 1,
        TrayCommand::ToggleLaunchAtLogin => 2,
        TrayCommand::ToggleAutomaticUpdates => 3,
        TrayCommand::CheckUpdates => 4,
        TrayCommand::InstallUpdate => 5,
        TrayCommand::CopyDiagnostics => 6,
        TrayCommand::OpenLogs => 7,
        TrayCommand::Manual(ManualSessionCommand::Start(ManualSessionStartPreset::FifteenMinutes)) =>
            8,
        TrayCommand::Manual(ManualSessionCommand::Start(ManualSessionStartPreset::ThirtyMinutes)) =>
            9,
        TrayCommand::Manual(ManualSessionCommand::Start(ManualSessionStartPreset::OneHour)) => 10,
        TrayCommand::Manual(ManualSessionCommand::Start(ManualSessionStartPreset::TwoHours)) => 11,
        TrayCommand::Manual(ManualSessionCommand::Start(ManualSessionStartPreset::FourHours)) => 12,
        TrayCommand::Manual(ManualSessionCommand::Start(ManualSessionStartPreset::EightHours)) =>
            13,
        TrayCommand::Manual(ManualSessionCommand::Start(ManualSessionStartPreset::UntilDisabled)) =>
            14,
        TrayCommand::Manual(ManualSessionCommand::Add(ManualSessionAddPreset::FifteenMinutes)) =>
            15,
        TrayCommand::Manual(ManualSessionCommand::Add(ManualSessionAddPreset::ThirtyMinutes)) => 16,
        TrayCommand::Manual(ManualSessionCommand::Add(ManualSessionAddPreset::OneHour)) => 17,
        TrayCommand::Manual(ManualSessionCommand::Add(ManualSessionAddPreset::TwoHours)) => 18,
        TrayCommand::Manual(ManualSessionCommand::Add(ManualSessionAddPreset::FourHours)) => 19,
        TrayCommand::Manual(ManualSessionCommand::ConvertToUntilDisabled) => 20,
        TrayCommand::Manual(ManualSessionCommand::Stop) => 21,
        TrayCommand::SetThreshold(ThresholdPreset::Kibibytes256) => 22,
        TrayCommand::SetThreshold(ThresholdPreset::Mebibyte1) => 23,
        TrayCommand::SetThreshold(ThresholdPreset::Mebibytes5) => 24,
        TrayCommand::SetGrace(GracePreset::Seconds30) => 25,
        TrayCommand::SetGrace(GracePreset::Minutes2) => 26,
        TrayCommand::SetGrace(GracePreset::Minutes5) => 27,
        TrayCommand::SetGrace(GracePreset::Minutes15) => 28,
        TrayCommand::SetGrace(GracePreset::Minutes30) => 29,
        TrayCommand::Quit => 30,
    }
}

proof fn every_command_is_there(command: TrayCommand)
    ensures
        0 <= place_of(command) < every_command().len(),
        every_command()[place_of(command)] == command,
{
}

/// What tells the identifiers apart: their length, and the two characters
/// before the last.
spec fn mark_of(command: TrayCommand) -> (nat, char, char) {
    match command {
        TrayCommand::ToggleAutomaticProtection => (16, 'g', 'l'),
        TrayCommand::ToggleProtectOnBattery => (14, 'g', 'l'),
        TrayCommand::ToggleLaunchAtLogin => (22, 'g', 'i'),
        TrayCommand::ToggleAutomaticUpdates => (24, 't', 'e'),
        TrayCommand::CheckUpdates => (20, 't', 'e'),
        TrayCommand::InstallUpdate => (15, 'a', 'l'),
        TrayCommand::CopyDiagnostics => (23, 'i', 'c'),
        TrayCommand::OpenLogs => (16, 'o', 'g'),
        TrayCommand::Manual(ManualSessionCommand::Start(ManualSessionStartPreset::FifteenMinutes)) =>
            (16, '1', '5'),
        TrayCommand::Manual(ManualSessionCommand::Start(ManualSessionStartPreset::ThirtyMinutes)) =>
            (16, '3', '0'),
        TrayCommand::Manual(ManualSessionCommand::Start(ManualSessionStartPreset::OneHour)) =>
            (15, '.', '1'),
        TrayCommand::Manual(ManualSessionCommand::Start(ManualSessionStartPreset::TwoHours)) =>
            (15, '.', '2'),
        TrayCommand::Manual(ManualSessionCommand::Start(ManualSessionStartPreset::FourHours)) =>
            (15, '.', '4'),
        TrayCommand::Manual(ManualSessionCommand::Start(ManualSessionStartPreset::EightHours)) =>
            (15, '.', '8'),
        TrayCommand::Manual(ManualSessionCommand::Start(ManualSessionStartPreset::UntilDisabled)) =>
            (27, 'l', 'e'),
        TrayCommand::Manual(ManualSessionCommand::Add(ManualSessionAddPreset::FifteenMinutes)) =>
            (14, '1', '5'),
        TrayCommand::Manual(ManualSessionCommand::Add(ManualSessionAddPreset::ThirtyMinutes)) =>
            (14, '3', '0'),
        TrayCommand::Manual(ManualSessionCommand::Add(ManualSessionAddPreset::OneHour)) =>
            (13, '.', '1'),
        TrayCommand::Manual(ManualSessionCommand::Add(ManualSessionAddPreset::TwoHours)) =>
            (13, '.', '2'),
        TrayCommand::Manual(ManualSessionCommand::Add(ManualSessionAddPreset::FourHours)) =>
            (13, '.', '4'),
        TrayCommand::Manual(ManualSessionCommand::ConvertToUntilDisabled) => (29, 'l', 'e'),
        TrayCommand::Manual(ManualSessionCommand::Stop) => (11, 't', 'o'),
        TrayCommand::SetThreshold(ThresholdPreset::Kibibytes256) => (26, '1', '4'),
        TrayCommand::SetThreshold(ThresholdPreset::Mebibyte1) => (27, '5', '7'),
        TrayCommand::SetThreshold(ThresholdPreset::Mebibytes5) => (27, '8', '8'),
        TrayCommand::SetGrace(GracePreset::Seconds30) => (18, '.', '3'),
        TrayCommand::SetGrace(GracePreset::Minutes2) => (19, '1', '2'),
        TrayCommand::SetGrace(GracePreset::Minutes5) => (19, '3', '0'),
        TrayCommand::SetGrace(GracePreset::Minutes15) => (19, '9', '0'),
        TrayCommand::SetGrace(GracePreset::Minutes30) => (20, '8', '0'),
        TrayCommand::Quit => (4, 'u', 'i'),
    }
}

proof fn marks_are_right(command: TrayCommand)
    ensures
        ({
            let id = id_of(command)@;
            &&& id.len() == mark_of(command).0
            &&& id.len() > 3
            &&& id[id.len() - 3] == mark_of(command).1
            &&& id[id.len() - 2] == mark_of(command).2
        }),
{
    match command {
        TrayCommand::ToggleAutomaticProtection => {
            reveal_strlit("automatic.toggle");
        },
        TrayCommand::ToggleProtectOnBattery => {
            reveal_strlit("battery.toggle");
        },
        TrayCommand::ToggleLaunchAtLogin => {
            reveal_strlit("future.launch-at-login");
        },
        TrayCommand::ToggleAutomaticUpdates => {
            reveal_strlit("future.automatic-updates");
        },
        TrayCommand::CheckUpdates => {
            reveal_strlit("future.check-updates");
        },
        TrayCommand::InstallUpdate => {
            reveal_strlit("updater.install");
        },
        TrayCommand::CopyDiagnostics => {
            reveal_strlit("future.copy-diagnostics");
        },
        TrayCommand::OpenLogs => {
            reveal_strlit("future.open-logs");
        },
        TrayCommand::Manual(ManualSessionCommand::Start(ManualSessionStartPreset::FifteenMinutes)) =>
            {
            reveal_strlit("manual.start.15m");
        },
        TrayCommand::Manual(ManualSessionCommand::Start(ManualSessionStartPreset::ThirtyMinutes)) =>
            {
            reveal_strlit("manual.start.30m");
        },
        TrayCommand::Manual(ManualSessionCommand::Start(ManualSessionStartPreset::OneHour)) => {
            reveal_strlit("manual.start.1h");
        },
        TrayCommand::Manual(ManualSessionCommand::Start(ManualSessionStartPreset::TwoHours)) => {
            reveal_strlit("manual.start.2h");
        },
        TrayCommand::Manual(ManualSessionCommand::Start(ManualSessionStartPreset::FourHours)) => {
            reveal_strlit("manual.start.4h");
        },
        TrayCommand::Manual(ManualSessionCommand::Start(ManualSessionStartPreset::EightHours)) => {
            reveal_strlit("manual.start.8h");
        },
        TrayCommand::Manual(ManualSessionCommand::Start(ManualSessionStartPreset::UntilDisabled)) =>
            {
            reveal_strlit("manual.start.until-disabled");
        },
        TrayCommand::Manual(ManualSessionCommand::Add(ManualSessionAddPreset::FifteenMinutes)) => {
            reveal_strlit("manual.add.15m");
        },
        TrayCommand::Manual(ManualSessionCommand::Add(ManualSessionAddPreset::ThirtyMinutes)) => {
            reveal_strlit("manual.add.30m");
        },
        TrayCommand::Manual(ManualSessionCommand::Add(ManualSessionAddPreset::OneHour)) => {
            reveal_strlit("manual.add.1h");
        },
        TrayCommand::Manual(ManualSessionCommand::Add(ManualSessionAddPreset::TwoHours)) => {
            reveal_strlit("manual.add.2h");
        },
        TrayCommand::Manual(ManualSessionCommand::Add(ManualSessionAddPreset::FourHours)) => {
            reveal_strlit("manual.add.4h");
        },
        TrayCommand::Manual(ManualSessionCommand::ConvertToUntilDisabled) => {
            reveal_strlit("manual.convert.until-disabled");
        },
        TrayCommand::Manual(ManualSessionCommand::Stop) => {
            reveal_strlit("manual.stop");
        },
        TrayCommand::SetThreshold(ThresholdPreset::Kibibytes256) => {
            reveal_strlit("detection.threshold.262144");
        },
        TrayCommand::SetThreshold(ThresholdPreset::Mebibyte1) => {
            reveal_strlit("detection.threshold.1048576");
        },
        TrayCommand::SetThreshold(ThresholdPreset::Mebibytes5) => {
            reveal_strlit("detection.threshold.5242880");
        },
        TrayCommand::SetGrace(GracePreset::Seconds30) => {
            reveal_strlit("detection.grace.30");
        },
        TrayCommand::SetGrace(GracePreset::Minutes2) => {
            reveal_strlit("detection.grace.120");
        },
        TrayCommand::SetGrace(GracePreset::Minutes5) => {
            reveal_strlit("detection.grace.300");
        },
        TrayCommand::SetGrace(GracePreset::Minutes15) => {
            reveal_strlit("detection.grace.900");
        },
        TrayCommand::SetGrace(GracePreset::Minutes30) => {
            reveal_strlit("detection.grace.1800");
        },
        TrayCommand::Quit => {
            reveal_strlit("quit");
        },
    }
}

/// No two commands have the same identifier, so that an identifier leads back
/// to its command.
pub proof fn identifiers_are_unique(a: TrayCommand, b: TrayCommand)
    ensures
        id_of(a)@ == id_of(b)@ ==> a == b,
{
    marks_are_right(a);
    marks_are_right(b);
}

} // verus!
