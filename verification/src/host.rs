//! The beginning and the end of the process: in which order it begins, what is
//! logged of both, and that the end happens once.

pub mod laws;

use crate::application::{OperationFailure, ShutdownReport, StartError, StartupReport};
use crate::local_log::SafeEvent;
use vstd::prelude::*;
use vstd::string::*;

verus! {

/// Where the end of the process is.
#[derive(Clone, Copy, Debug, PartialEq, Eq, Structural)]
pub enum FinishState {
    Idle,
    Running,
    Complete,
}

/// What a request to finish comes to.
#[derive(Clone, Copy, Debug, PartialEq, Eq, Structural)]
pub enum FinishAnswer {
    /// The one who asked is to finish.
    Claimed,
    /// Another is finishing, and is to be waited for.
    Wait,
    /// It is finished.
    Done,
}

/// The end of the process, which several may ask for.
#[derive(Clone, Copy, Debug, PartialEq, Eq, Structural)]
pub struct ShutdownCoordinator {
    pub shutdown_logged: bool,
    pub finishing: FinishState,
}

impl ShutdownCoordinator {
    /// Nobody has asked for the end.
    pub fn new() -> (r: ShutdownCoordinator)
        ensures
            r == (ShutdownCoordinator { shutdown_logged: false, finishing: FinishState::Idle }),
    {
        ShutdownCoordinator { shutdown_logged: false, finishing: FinishState::Idle }
    }

    /// Announces the end. That is logged once.
    pub fn begin(&mut self, log: &mut Vec<SafeEvent>)
        ensures
            *final(self) == (ShutdownCoordinator { shutdown_logged: true, ..*old(self) }),
            final(log)@ == if old(self).shutdown_logged {
                old(log)@
            } else {
                old(log)@.push(SafeEvent::ShutdownRequested)
            },
    {
        if !self.shutdown_logged {
            log.push(SafeEvent::ShutdownRequested);
        }
        self.shutdown_logged = true;
    }

    /// Asks to finish. The first who asks is the one who does.
    pub fn finish(&mut self) -> (r: FinishAnswer)
        ensures
            r == finish_answer(*old(self)),
            *final(self) == after_finish(*old(self)),
    {
        match self.finishing {
            FinishState::Idle => {
                self.finishing = FinishState::Running;
                FinishAnswer::Claimed
            },
            FinishState::Running => FinishAnswer::Wait,
            FinishState::Complete => FinishAnswer::Done,
        }
    }

    /// Takes note that it is finished.
    pub fn finished(&mut self)
        ensures
            *final(self) == (ShutdownCoordinator { finishing: FinishState::Complete, ..*old(self) }),
    {
        self.finishing = FinishState::Complete;
    }
}

/// Where the tray failed.
#[derive(Clone, Copy, Debug, PartialEq, Eq, Structural)]
pub enum PresentationStage {
    /// Setting up what failures are shown with.
    DialogInitialization,
    /// Starting the tray.
    Startup,
    /// Ending the tray.
    Shutdown,
}

/// What is logged of a failure of the tray.
pub open spec fn presentation_event(stage: PresentationStage) -> SafeEvent {
    SafeEvent::PresentationFailure {
        stage: match stage {
            PresentationStage::DialogInitialization => "dialog-initialization",
            PresentationStage::Startup => "startup",
            PresentationStage::Shutdown => "shutdown",
        },
    }
}

/// Logs a failure of the tray.
pub fn log_presentation_failed(stage: PresentationStage, log: &mut Vec<SafeEvent>)
    ensures
        final(log)@ == old(log)@.push(presentation_event(stage)),
{
    let stage = match stage {
        PresentationStage::DialogInitialization => "dialog-initialization",
        PresentationStage::Startup => "startup",
        PresentationStage::Shutdown => "shutdown",
    };
    log.push(SafeEvent::PresentationFailure { stage });
}

/// The code with which a process ends that could not begin.
pub const START_FAILED_EXIT_CODE: i32 = 1;

/// How far the beginning of the process has come.
#[derive(Clone, Copy, Debug, PartialEq, Eq, Structural)]
pub enum StartStage {
    /// The host is being configured.
    Host,
    /// What failures are shown with is being set up.
    Dialogs,
    /// The tray is being started.
    Tray,
    /// The program is being started.
    Product,
    /// It is over: the process runs, or shows why the program does not.
    Running,
    /// It is over: the process ends.
    Ended,
}

/// What the beginning of the process takes next.
#[derive(Clone, Copy, Debug, PartialEq, Eq, Structural)]
pub enum StartStep {
    /// Configure the host.
    ConfigureHost,
    /// Set up what failures are shown with.
    RegisterDialogs,
    /// Start the tray.
    StartTray,
    /// Start the program.
    StartProduct,
    /// Draw the menu again: the beginning is over.
    RefreshMenu,
    /// End the process with this code.
    Exit(i32),
}

/// The beginning of the process.
#[derive(Clone, Copy, Debug, PartialEq, Eq, Structural)]
pub struct HostStart {
    pub stage: StartStage,
}

impl HostStart {
    /// What is taken next.
    pub open spec fn step(self) -> StartStep {
        match self.stage {
            StartStage::Host => StartStep::ConfigureHost,
            StartStage::Dialogs => StartStep::RegisterDialogs,
            StartStage::Tray => StartStep::StartTray,
            StartStage::Product => StartStep::StartProduct,
            StartStage::Running => StartStep::RefreshMenu,
            StartStage::Ended => StartStep::Exit(START_FAILED_EXIT_CODE),
        }
    }

    /// The beginning after a step that succeeded or failed. Nothing goes on
    /// without a host and a tray. Without dialogs, and without a program to
    /// show, the tray still is of use.
    pub open spec fn after(self, succeeded: bool) -> HostStart {
        let stage = match self.stage {
            StartStage::Host => if succeeded {
                StartStage::Dialogs
            } else {
                StartStage::Ended
            },
            StartStage::Dialogs => StartStage::Tray,
            StartStage::Tray => if succeeded {
                StartStage::Product
            } else {
                StartStage::Ended
            },
            StartStage::Product => StartStage::Running,
            StartStage::Running => StartStage::Running,
            StartStage::Ended => StartStage::Ended,
        };
        HostStart { stage }
    }

    /// What is logged of a step that succeeded or failed. What is logged of
    /// the program's own start is up to its report. Before there is a host
    /// there is no log.
    pub open spec fn events(self, succeeded: bool) -> Seq<SafeEvent> {
        match self.stage {
            StartStage::Host if succeeded => seq![SafeEvent::ProcessStarted],
            StartStage::Dialogs if !succeeded => seq![
                presentation_event(PresentationStage::DialogInitialization),
            ],
            StartStage::Tray if !succeeded => seq![presentation_event(PresentationStage::Startup)],
            _ => Seq::empty(),
        }
    }

    /// A process that has not begun.
    pub fn new() -> (r: HostStart)
        ensures
            r == (HostStart { stage: StartStage::Host }),
    {
        HostStart { stage: StartStage::Host }
    }

    /// What is taken next.
    pub fn next(&self) -> (r: StartStep)
        ensures
            r == self.step(),
    {
        match self.stage {
            StartStage::Host => StartStep::ConfigureHost,
            StartStage::Dialogs => StartStep::RegisterDialogs,
            StartStage::Tray => StartStep::StartTray,
            StartStage::Product => StartStep::StartProduct,
            StartStage::Running => StartStep::RefreshMenu,
            StartStage::Ended => StartStep::Exit(START_FAILED_EXIT_CODE),
        }
    }

    /// Takes note of whether a step succeeded.
    pub fn returned(&mut self, succeeded: bool, log: &mut Vec<SafeEvent>)
        ensures
            *final(self) == old(self).after(succeeded),
            final(log)@ == old(log)@ + old(self).events(succeeded),
    {
        let ghost start = *self;
        self.stage =
        match self.stage {
            StartStage::Host => if succeeded {
                log.push(SafeEvent::ProcessStarted);
                StartStage::Dialogs
            } else {
                StartStage::Ended
            },
            StartStage::Dialogs => {
                if !succeeded {
                    log_presentation_failed(PresentationStage::DialogInitialization, log);
                }
                StartStage::Tray
            },
            StartStage::Tray => if succeeded {
                StartStage::Product
            } else {
                log_presentation_failed(PresentationStage::Startup, log);
                StartStage::Ended
            },
            StartStage::Product => StartStage::Running,
            StartStage::Running => StartStage::Running,
            StartStage::Ended => StartStage::Ended,
        };
        assert(log@ =~= old(log)@ + start.events(succeeded));
    }
}

/// The beginning after its steps so far have succeeded or failed.
pub open spec fn begun(outcomes: Seq<bool>) -> HostStart
    decreases outcomes.len(),
{
    if outcomes.len() == 0 {
        HostStart { stage: StartStage::Host }
    } else {
        begun(outcomes.drop_last()).after(outcomes.last())
    }
}

/// The tray comes first: the program is started only once the host and the
/// tray are there, whether or not failures can be shown, and a process without
/// them ends with the code of a failure and starts no program.
pub proof fn the_tray_comes_first(outcomes: Seq<bool>)
    ensures
        begun(outcomes).step() == StartStep::StartProduct ==> outcomes.len() == 3 && outcomes[0]
            && outcomes[2],
        outcomes.len() >= 3 && (!outcomes[0] || !outcomes[2]) ==> begun(outcomes).step()
            == StartStep::Exit(START_FAILED_EXIT_CODE),
        outcomes.len() >= 4 && outcomes[0] && outcomes[2] ==> begun(outcomes).step()
            == StartStep::RefreshMenu,
    decreases outcomes.len(),
{
    if outcomes.len() > 4 {
        the_tray_comes_first(outcomes.drop_last());
    } else {
        reveal_with_fuel(begun, 5);
    }
}

/// What is logged of capabilities that could not be stopped.
pub open spec fn cleanup_log(failures: Seq<OperationFailure>) -> Seq<SafeEvent> {
    failures.map_values(
        |failure: OperationFailure| SafeEvent::CleanupFailed { capability: failure.capability.0 },
    )
}

/// What is logged of capabilities that are not to be had.
pub open spec fn unavailable_log(failures: Seq<OperationFailure>) -> Seq<SafeEvent> {
    failures.map_values(
        |failure: OperationFailure|
            SafeEvent::OptionalCapabilityUnavailable { capability: failure.capability.0 },
    )
}

fn log_cleanup_failures(failures: &Vec<OperationFailure>, log: &mut Vec<SafeEvent>)
    ensures
        final(log)@ == old(log)@ + cleanup_log(failures@),
{
    let ghost start = log@;
    let ghost all = cleanup_log(failures@);
    let mut i: usize = 0;
    assert(start + all.take(0) =~= start);
    while i < failures.len()
        invariant
            i <= failures.len(),
            all == cleanup_log(failures@),
            log@ == start + all.take(i as int),
        decreases failures.len() - i,
    {
        log.push(SafeEvent::CleanupFailed { capability: failures[i].capability.as_str() });
        i = i + 1;
        assert(log@ =~= start + all.take(i as int));
    }
    assert(all.take(i as int) =~= all);
}

/// What is logged of a start that succeeded.
pub open spec fn start_event(failures: Seq<OperationFailure>) -> SafeEvent {
    if failures.len() == 0 {
        SafeEvent::ApplicationReady
    } else {
        SafeEvent::ApplicationDegraded
    }
}

/// Logs a start that succeeded: whether the program runs in full, and what it
/// runs without.
pub fn log_started(report: &StartupReport, log: &mut Vec<SafeEvent>)
    ensures
        final(log)@ == old(log)@.push(start_event(report.optional_failures@)) + unavailable_log(
            report.optional_failures@,
        ),
{
    if report.optional_failures.len() == 0 {
        log.push(SafeEvent::ApplicationReady);
    } else {
        log.push(SafeEvent::ApplicationDegraded);
    }
    let ghost start = log@;
    let ghost all = unavailable_log(report.optional_failures@);
    let mut i: usize = 0;
    assert(start + all.take(0) =~= start);
    while i < report.optional_failures.len()
        invariant
            i <= report.optional_failures.len(),
            all == unavailable_log(report.optional_failures@),
            log@ == start + all.take(i as int),
        decreases report.optional_failures.len() - i,
    {
        log.push(
            SafeEvent::OptionalCapabilityUnavailable {
                capability: report.optional_failures[i].capability.as_str(),
            },
        );
        i = i + 1;
        assert(log@ =~= start + all.take(i as int));
    }
    assert(all.take(i as int) =~= all);
}

/// Logs a start that did not succeed, and what could not be stopped again.
pub fn log_start_failed(error: &StartError, log: &mut Vec<SafeEvent>)
    ensures
        final(log)@ == old(log)@.push(SafeEvent::ApplicationFailed) + cleanup_log(
            error.cleanup_failures@,
        ),
{
    log.push(SafeEvent::ApplicationFailed);
    log_cleanup_failures(&error.cleanup_failures, log);
}

/// Logs the end of the process: what could not be stopped, and that it has
/// ended.
pub fn log_stopped(report: &ShutdownReport, log: &mut Vec<SafeEvent>)
    ensures
        final(log)@ == (old(log)@ + cleanup_log(report.failures@)).push(SafeEvent::ProcessStopped),
{
    log_cleanup_failures(&report.failures, log);
    log.push(SafeEvent::ProcessStopped);
}

/// Whether the tray may be given to the program, which it may once.
pub fn claim_presentation(occupied: bool) -> (r: Result<(), String>)
    ensures
        r is Ok <==> !occupied,
        r is Err ==> r->Err_0@ == "tray presentation initialized more than once"@,
{
    if occupied {
        Err(String::from_str("tray presentation initialized more than once"))
    } else {
        Ok(())
    }
}

/// The answer to a request to finish.
pub open spec fn finish_answer(coordinator: ShutdownCoordinator) -> FinishAnswer {
    match coordinator.finishing {
        FinishState::Idle => FinishAnswer::Claimed,
        FinishState::Running => FinishAnswer::Wait,
        FinishState::Complete => FinishAnswer::Done,
    }
}

/// The coordinator after a request to finish.
pub open spec fn after_finish(coordinator: ShutdownCoordinator) -> ShutdownCoordinator {
    if coordinator.finishing == FinishState::Idle {
        ShutdownCoordinator { finishing: FinishState::Running, ..coordinator }
    } else {
        coordinator
    }
}

/// However often and from wherever the end is asked for, one alone finishes:
/// after a first request none is told to finish, whether or not the first is
/// done.
pub proof fn one_alone_finishes(coordinator: ShutdownCoordinator)
    ensures
        finish_answer(after_finish(coordinator)) != FinishAnswer::Claimed,
        after_finish(after_finish(coordinator)) == after_finish(coordinator),
        coordinator.finishing == FinishState::Complete ==> finish_answer(coordinator)
            == FinishAnswer::Done && after_finish(coordinator) == coordinator,
{
}

} // verus!
