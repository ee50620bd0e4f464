//! The host of the tray, and the end of the program.

use chiu::host::{
    log_presentation_failed, FinishAnswer, HostStart, PresentationStage, ShutdownCoordinator,
    StartStep,
};
use chiu::local_log::SafeEvent;
use chiu::tray::TrayCommandOutcome;
use chiu::tray_host::{
    dispatch_command_outcome, ensure_native_access, power_source_label, receive_rate_label,
    ExitAnswer, HostAction, PresentationControl, WorkerCommand, WorkerEvent, WorkerStep,
};

#[test]
fn refreshes_are_told_once_until_they_are_drawn() {
    let mut control = PresentationControl::new();

    assert!(control.request_refresh());
    assert!(!control.request_refresh());
    assert_eq!(
        control.run(WorkerEvent::Told(WorkerCommand::Refresh)),
        WorkerStep::Draw { always: true }
    );
    assert!(control.request_refresh());
    control.refresh_failed();
    assert!(control.request_refresh());
}

#[test]
fn an_end_is_put_off_until_the_worker_asks_for_it() {
    let mut control = PresentationControl::new();

    assert_eq!(control.request_exit(3), ExitAnswer::Tell(3));
    assert!(control.exit_told(true));
    assert_eq!(control.request_exit(4), ExitAnswer::PutOff);
    assert_eq!(
        control.run(WorkerEvent::Told(WorkerCommand::StopAndExit(3))),
        WorkerStep::ExitAndEnd(3)
    );
    control.worker_ended();
    assert_eq!(control.request_exit(3), ExitAnswer::Allow);
}

#[test]
fn an_end_that_cannot_be_told_is_allowed() {
    let mut control = PresentationControl::new();

    assert_eq!(control.request_exit(0), ExitAnswer::Tell(0));
    assert!(!control.exit_told(false));
    assert_eq!(control.request_exit(0), ExitAnswer::Allow);
}

#[test]
fn a_worker_that_dies_before_an_end_asks_for_it() {
    let mut control = PresentationControl::new();
    control.request_exit(7);

    assert_eq!(control.worker_ended(), Some(7));
    assert_eq!(control.worker_ended(), None);
}

#[test]
fn the_worker_draws_what_changed_and_ends_when_left_alone() {
    let mut control = PresentationControl::new();

    assert_eq!(
        control.run(WorkerEvent::Waited),
        WorkerStep::Draw { always: false }
    );
    assert!(PresentationControl::draws(true, true));
    assert!(PresentationControl::draws(false, false));
    assert!(!PresentationControl::draws(false, true));
    assert_eq!(control.run(WorkerEvent::Disconnected), WorkerStep::End);
    assert_eq!(
        control.run(WorkerEvent::Told(WorkerCommand::Stop)),
        WorkerStep::End
    );
}

#[test]
fn outcomes_ask_the_host_for_one_thing() {
    assert_eq!(
        dispatch_command_outcome(TrayCommandOutcome::RefreshRequested, true),
        HostAction::RequestRefresh
    );
    assert_eq!(
        dispatch_command_outcome(TrayCommandOutcome::QuitRequested, true),
        HostAction::RequestExit
    );
    assert_eq!(
        dispatch_command_outcome(TrayCommandOutcome::CopyDiagnosticsFailed, true),
        HostAction::ShowCopyFailed
    );
    assert_eq!(
        dispatch_command_outcome(TrayCommandOutcome::CopyDiagnosticsFailed, false),
        HostAction::Nothing
    );
    assert_eq!(
        dispatch_command_outcome(TrayCommandOutcome::Ignored, true),
        HostAction::Nothing
    );
}

#[test]
fn labels_name_what_they_show() {
    assert_eq!(receive_rate_label("3 MB/s"), "Receive rate — 3 MB/s");
    assert_eq!(power_source_label("Unknown"), "Power source — Unknown");
    assert!(ensure_native_access("menu", true, true).is_ok());
    assert!(ensure_native_access("menu", true, false).is_err());
}

#[test]
fn one_alone_finishes_the_program() {
    let mut coordinator = ShutdownCoordinator::new();

    assert_eq!(coordinator.finish(), FinishAnswer::Claimed);
    assert_ne!(coordinator.finish(), FinishAnswer::Claimed);
    coordinator.finished();
    assert_ne!(coordinator.finish(), FinishAnswer::Claimed);
}

/// The steps of a beginning with given outcomes, and the lines it logs.
fn begin(outcomes: &[bool]) -> (Vec<StartStep>, Vec<String>) {
    let mut start = HostStart::new();
    let mut log = Vec::new();
    let mut steps = vec![start.next()];
    for outcome in outcomes {
        start.returned(*outcome, &mut log);
        steps.push(start.next());
    }
    (steps, log.iter().map(SafeEvent::render).collect())
}

#[test]
fn the_tray_is_started_before_the_program() {
    let (steps, lines) = begin(&[true, true, true, true]);

    assert_eq!(
        steps,
        [
            StartStep::ConfigureHost,
            StartStep::RegisterDialogs,
            StartStep::StartTray,
            StartStep::StartProduct,
            StartStep::RefreshMenu,
        ]
    );
    assert_eq!(lines.len(), 1);
    assert!(lines[0].contains("process.started"));
    assert_eq!(begin(&[true, true, true, false]).0, steps);
}

#[test]
fn without_a_tray_the_process_ends() {
    let (steps, lines) = begin(&[true, true, false]);

    assert_eq!(steps.last(), Some(&StartStep::Exit(1)));
    assert!(!steps.contains(&StartStep::StartProduct));
    assert_eq!(lines[1], "ERROR presentation.failed stage=startup");
    assert_eq!(lines.len(), 2);

    let (steps, lines) = begin(&[false]);
    assert_eq!(steps.last(), Some(&StartStep::Exit(1)));
    assert!(lines.is_empty());
}

#[test]
fn without_dialogs_the_process_goes_on() {
    let (steps, lines) = begin(&[true, false, true, true]);

    assert_eq!(steps.last(), Some(&StartStep::RefreshMenu));
    assert_eq!(
        lines[1],
        "ERROR presentation.failed stage=dialog-initialization"
    );
    let mut log = Vec::new();
    log_presentation_failed(PresentationStage::Shutdown, &mut log);
    assert_eq!(log[0].render(), "ERROR presentation.failed stage=shutdown");
}
