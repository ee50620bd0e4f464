//! What the host of the tray menu decides: when to draw it again, when the
//! program may end, and what a command's outcome asks of it.

use crate::text::{bool_text, bool_word};
use crate::tray::{KeepAwakeView, TrayCommandOutcome, TrayView};
use vstd::prelude::*;
use vstd::string::*;

pub mod laws;
pub mod menu;

verus! {

/// The time after which the menu is looked at again, in seconds.
pub const REFRESH_INTERVAL_SECONDS: u64 = 1;

/// Where the host is in its end. The code is that with which the program
/// ends.
#[derive(Clone, Copy, Debug, PartialEq, Eq, Structural)]
pub enum ExitPhase {
    Running,
    StopRequested(i32),
    Stopped,
}

/// What the host's worker is told.
#[derive(Clone, Copy, Debug, PartialEq, Eq, Structural)]
pub enum WorkerCommand {
    Refresh,
    Stop,
    StopAndExit(i32),
}

/// What the host's worker sees next.
#[derive(Clone, Copy, Debug, PartialEq, Eq, Structural)]
pub enum WorkerEvent {
    /// It was told something.
    Told(WorkerCommand),
    /// Nobody can tell it anything any more.
    Disconnected,
    /// It was told nothing for a while.
    Waited,
}

/// What the host's worker does next.
#[derive(Clone, Copy, Debug, PartialEq, Eq, Structural)]
pub enum WorkerStep {
    /// Look at the menu, and draw it if it has changed, or in any case.
    Draw { always: bool },
    /// End.
    End,
    /// Ask the program to end with this code, and end.
    ExitAndEnd(i32),
}

/// What a request to end the program comes to.
#[derive(Clone, Copy, Debug, PartialEq, Eq, Structural)]
pub enum ExitAnswer {
    /// The worker is to be told. If that succeeds, the program's end is to be
    /// put off until the worker asks for it again.
    Tell(i32),
    /// The program's end is to be put off: the worker has been told.
    PutOff,
    /// The program may end.
    Allow,
}

/// The host as others see it.
#[derive(Clone, Copy, Debug, PartialEq, Eq, Structural)]
pub struct PresentationControl {
    pub refresh_pending: bool,
    pub exit_phase: ExitPhase,
}

impl PresentationControl {
    /// The answer to a request to end the program with a code.
    pub open spec fn exit_answer(self, code: i32) -> ExitAnswer {
        match self.exit_phase {
            ExitPhase::Running => ExitAnswer::Tell(code),
            ExitPhase::StopRequested(_) => ExitAnswer::PutOff,
            ExitPhase::Stopped => ExitAnswer::Allow,
        }
    }

    /// The host after a request to end the program with a code.
    pub open spec fn exit_requested(self, code: i32) -> PresentationControl {
        match self.exit_phase {
            ExitPhase::Running => PresentationControl {
                exit_phase: ExitPhase::StopRequested(code),
                ..self
            },
            _ => self,
        }
    }

    /// The code with which the program is still to be asked to end.
    pub open spec fn still_to_exit(self) -> Option<i32> {
        match self.exit_phase {
            ExitPhase::StopRequested(code) => Some(code),
            _ => None,
        }
    }

    /// The host after the end of its worker.
    pub open spec fn stopped(self) -> PresentationControl {
        PresentationControl { exit_phase: ExitPhase::Stopped, ..self }
    }

    /// A host that runs.
    pub fn new() -> (r: PresentationControl)
        ensures
            r == (PresentationControl { refresh_pending: false, exit_phase: ExitPhase::Running }),
    {
        PresentationControl { refresh_pending: false, exit_phase: ExitPhase::Running }
    }

    /// Asks for the menu to be drawn again, and answers whether the worker is
    /// to be told: while it has been and has not got to it, it is not told
    /// again.
    pub fn request_refresh(&mut self) -> (r: bool)
        ensures
            r == !old(self).refresh_pending,
            *final(self) == (PresentationControl { refresh_pending: true, ..*old(self) }),
    {
        let tell = !self.refresh_pending;
        self.refresh_pending = true;
        tell
    }

    /// Takes note that the worker could not be told to draw the menu.
    pub fn refresh_failed(&mut self)
        ensures
            *final(self) == (PresentationControl { refresh_pending: false, ..*old(self) }),
    {
        self.refresh_pending = false;
    }

    /// Asks for the end of the program with a code.
    pub fn request_exit(&mut self, code: i32) -> (r: ExitAnswer)
        ensures
            r == old(self).exit_answer(code),
            *final(self) == old(self).exit_requested(code),
    {
        match self.exit_phase {
            ExitPhase::Running => {
                self.exit_phase = ExitPhase::StopRequested(code);
                ExitAnswer::Tell(code)
            },
            ExitPhase::StopRequested(_) => ExitAnswer::PutOff,
            ExitPhase::Stopped => ExitAnswer::Allow,
        }
    }

    /// Takes note of whether the worker could be told to end, and answers
    /// whether the program's end is to be put off.
    pub fn exit_told(&mut self, told: bool) -> (r: bool)
        ensures
            r == told,
            *final(self) == if told {
                *old(self)
            } else {
                old(self).stopped()
            },
    {
        if !told {
            self.exit_phase = ExitPhase::Stopped;
        }
        told
    }

    /// What the worker does next.
    pub fn run(&mut self, event: WorkerEvent) -> (r: WorkerStep)
        ensures
            match event {
                WorkerEvent::Told(WorkerCommand::Refresh) => {
                    &&& r == (WorkerStep::Draw { always: true })
                    &&& *final(self) == (PresentationControl {
                        refresh_pending: false,
                        ..*old(self)
                    })
                },
                WorkerEvent::Told(WorkerCommand::StopAndExit(code)) => {
                    &&& r == WorkerStep::ExitAndEnd(code)
                    &&& *final(self) == old(self).stopped()
                },
                WorkerEvent::Told(WorkerCommand::Stop) | WorkerEvent::Disconnected => {
                    &&& r == WorkerStep::End
                    &&& *final(self) == *old(self)
                },
                WorkerEvent::Waited => {
                    &&& r == (WorkerStep::Draw { always: false })
                    &&& *final(self) == *old(self)
                },
            },
    {
        match event {
            WorkerEvent::Told(WorkerCommand::Refresh) => {
                self.refresh_pending = false;
                WorkerStep::Draw { always: true }
            },
            WorkerEvent::Told(WorkerCommand::StopAndExit(code)) => {
                self.exit_phase = ExitPhase::Stopped;
                WorkerStep::ExitAndEnd(code)
            },
            WorkerEvent::Told(WorkerCommand::Stop) => WorkerStep::End,
            WorkerEvent::Disconnected => WorkerStep::End,
            WorkerEvent::Waited => WorkerStep::Draw { always: false },
        }
    }

    /// Whether the menu is drawn: where it has to be, and where it is not the
    /// one that was drawn last. `unchanged` says that it is.
    pub fn draws(always: bool, unchanged: bool) -> (r: bool)
        ensures
            r == (always || !unchanged),
    {
        always || !unchanged
    }

    /// Takes note of the end of the worker, however it came about, and answers
    /// the code with which the program is still to be asked to end.
    pub fn worker_ended(&mut self) -> (r: Option<i32>)
        ensures
            r == old(self).still_to_exit(),
            *final(self) == old(self).stopped(),
    {
        let code = match self.exit_phase {
            ExitPhase::StopRequested(code) => Some(code),
            _ => None,
        };
        self.exit_phase = ExitPhase::Stopped;
        code
    }
}

/// What the outcome of a command asks of the host.
#[derive(Clone, Copy, Debug, PartialEq, Eq, Structural)]
pub enum HostAction {
    RequestRefresh,
    RequestExit,
    ShowCopyFailed,
    Nothing,
}

/// What the outcome of a command asks of the host.
pub open spec fn asked_of_host(outcome: TrayCommandOutcome, presenter: bool) -> HostAction {
    match outcome {
        TrayCommandOutcome::RefreshRequested => HostAction::RequestRefresh,
        TrayCommandOutcome::QuitRequested => HostAction::RequestExit,
        TrayCommandOutcome::CopyDiagnosticsFailed => if presenter {
            HostAction::ShowCopyFailed
        } else {
            HostAction::Nothing
        },
        TrayCommandOutcome::Ignored => HostAction::Nothing,
    }
}

/// What the outcome of a command asks of the host. A failure to copy is shown
/// where there is something to show it with.
pub fn dispatch_command_outcome(outcome: TrayCommandOutcome, presenter: bool) -> (r: HostAction)
    ensures
        r == asked_of_host(outcome, presenter),
{
    match outcome {
        TrayCommandOutcome::RefreshRequested => HostAction::RequestRefresh,
        TrayCommandOutcome::QuitRequested => HostAction::RequestExit,
        TrayCommandOutcome::CopyDiagnosticsFailed => if presenter {
            HostAction::ShowCopyFailed
        } else {
            HostAction::Nothing
        },
        TrayCommandOutcome::Ignored => HostAction::Nothing,
    }
}

/// Which of its shapes the manual session's part of the menu has.
#[derive(Clone, Copy, Debug, PartialEq, Eq, Structural)]
pub enum KeepAwakeShape {
    Inactive,
    Finite,
    UntilDisabled,
}

/// What decides which items a menu has. While it stays the same, their labels
/// are changed in place; otherwise the menu is built anew.
#[derive(Clone, Copy, Debug, PartialEq, Eq, Structural)]
pub struct MenuStructure {
    pub commands_enabled: bool,
    pub detail: bool,
    pub warning: bool,
    pub update_result: bool,
    pub update_install: bool,
    pub keep_awake: KeepAwakeShape,
    pub receive_rate: bool,
    pub custom_threshold: bool,
    pub custom_grace: bool,
}

impl MenuStructure {
    /// What decides which items a menu has.
    pub open spec fn of(view: TrayView) -> MenuStructure {
        MenuStructure {
            commands_enabled: view.commands_enabled,
            detail: view.detail is Some,
            warning: view.warning is Some,
            update_result: view.updater.result is Some,
            update_install: view.updater.install is Some,
            keep_awake: match view.keep_awake {
                KeepAwakeView::Inactive => KeepAwakeShape::Inactive,
                KeepAwakeView::Finite { remaining } => KeepAwakeShape::Finite,
                KeepAwakeView::UntilDisabled => KeepAwakeShape::UntilDisabled,
            },
            receive_rate: view.detection.receive_rate is Some,
            custom_threshold: view.detection.threshold.custom is Some,
            custom_grace: view.detection.grace.custom is Some,
        }
    }

    /// What decides which items a menu has.
    pub fn from_view(view: &TrayView) -> (r: MenuStructure)
        ensures
            r == Self::of(*view),
    {
        MenuStructure {
            commands_enabled: view.commands_enabled,
            detail: view.detail.is_some(),
            warning: view.warning.is_some(),
            update_result: view.updater.result.is_some(),
            update_install: view.updater.install.is_some(),
            keep_awake: match &view.keep_awake {
                KeepAwakeView::Inactive => KeepAwakeShape::Inactive,
                KeepAwakeView::Finite { remaining } => KeepAwakeShape::Finite,
                KeepAwakeView::UntilDisabled => KeepAwakeShape::UntilDisabled,
            },
            receive_rate: view.detection.receive_rate.is_some(),
            custom_threshold: view.detection.threshold.custom.is_some(),
            custom_grace: view.detection.grace.custom.is_some(),
        }
    }
}

/// That a menu item is not as it should be, in words.
pub open spec fn access_words(name: Seq<char>, actual: bool, expected: bool) -> Seq<char> {
    "native menu access for "@ + name + " was "@ + bool_word(actual) + ", expected "@ + bool_word(
        expected,
    )
}

/// Whether a menu item is as it should be.
pub fn ensure_native_access(name: &str, actual: bool, expected: bool) -> (r: Result<(), String>)
    ensures
        r is Ok <==> actual == expected,
        r is Err ==> r->Err_0@ == access_words(name@, actual, expected),
{
    if actual == expected {
        Ok(())
    } else {
        Err(
            String::from_str("native menu access for ").concat(name).concat(" was ").concat(
                bool_text(actual),
            ).concat(", expected ").concat(bool_text(expected)),
        )
    }
}

/// The label of the line on the receive rate.
pub fn receive_rate_label(rate: &str) -> (r: String)
    ensures
        r@ == "Receive rate — "@ + rate@,
{
    String::from_str("Receive rate — ").concat(rate)
}

/// The label of the line on the power source.
pub fn power_source_label(source: &str) -> (r: String)
    ensures
        r@ == "Power source — "@ + source@,
{
    String::from_str("Power source — ").concat(source)
}

/// A program that was asked to end does end: where a request does not let it
/// end at once, the end of the worker, however it comes about, asks for it
/// again, with the code of the first request. That happens only once, and
/// after it nothing is put off any more.
pub proof fn a_put_off_end_is_asked_for_again(control: PresentationControl, code: i32, later: i32)
    requires
        control.exit_answer(code) != ExitAnswer::Allow,
    ensures
        control.exit_requested(code).still_to_exit() == Some(
            match control.still_to_exit() {
                Some(first) => first,
                None => code,
            },
        ),
        control.exit_requested(code).exit_answer(later) == ExitAnswer::PutOff,
        control.exit_requested(code).stopped().still_to_exit() is None,
        control.exit_requested(code).stopped().exit_answer(later) == ExitAnswer::Allow,
{
}

} // verus!
