//! The manual session with a scripted platform and a clock that is moved by
//! hand.

use chiu::application::{CapabilityId, LifecyclePlan, LifecycleStep};
use chiu::duration::Duration;
use chiu::local_log::{ProtectionAction, SafeEvent};
use chiu::manual_session::{
    ManualSession, ManualSessionAddPreset, ManualSessionCommand, ManualSessionError,
    ManualSessionRuntimeError, ManualSessionSnapshot, ManualSessionStartPreset,
    ManualSessionState, SchedulerStep, SessionProgress,
};
use chiu::wake_coordinator::{ProtectionState, WakeCoordinator, WakeReason};

struct Inhibitor {
    state: ProtectionState,
    fail_next_acquire: bool,
    fail_next_release: bool,
}

impl Inhibitor {
    fn perform(&mut self, action: ProtectionAction) -> Result<(), String> {
        match action {
            ProtectionAction::Acquire => {
                if std::mem::take(&mut self.fail_next_acquire) {
                    return Err("scripted acquire failure".to_owned());
                }
                self.state = ProtectionState::Active;
            }
            ProtectionAction::Release => {
                if std::mem::take(&mut self.fail_next_release) {
                    return Err("scripted release failure".to_owned());
                }
                self.state = ProtectionState::Inactive;
            }
        }
        Ok(())
    }
}

struct World {
    session: ManualSession,
    wake: WakeCoordinator,
    inhibitor: Inhibitor,
    now: Duration,
    log: Vec<SafeEvent>,
}

fn test_session(now: Duration) -> World {
    World {
        session: ManualSession::new(),
        wake: WakeCoordinator::new(),
        inhibitor: Inhibitor {
            state: ProtectionState::Inactive,
            fail_next_acquire: false,
            fail_next_release: false,
        },
        now,
        log: Vec::new(),
    }
}

impl World {
    fn command(
        &mut self,
        command: ManualSessionCommand,
    ) -> Result<ManualSessionSnapshot, ManualSessionError> {
        match self
            .session
            .command(command, self.now, &mut self.wake, &mut self.log)
        {
            SessionProgress::Finished(result) => result,
            SessionProgress::Native(action) => {
                let outcome = self.inhibitor.perform(action);
                self.session.command_returned(
                    command,
                    self.now,
                    action,
                    outcome,
                    self.inhibitor.state,
                    &mut self.wake,
                    &mut self.log,
                )
            }
        }
    }

    fn expire_due(&mut self) {
        if let Some(SessionProgress::Native(action)) =
            self.session
                .expire_due(self.now, &mut self.wake, &mut self.log)
        {
            let outcome = self.inhibitor.perform(action);
            self.session.expiry_returned(
                action,
                outcome,
                self.inhibitor.state,
                &mut self.wake,
                &mut self.log,
            );
        }
    }

    fn set_reason_active(&mut self, reason: WakeReason, active: bool) -> Result<(), String> {
        match self.wake.set_reason_active(reason, active, &mut self.log) {
            None => Ok(()),
            Some(action) => {
                let outcome = self.inhibitor.perform(action);
                self.wake.native_returned(
                    action,
                    outcome.is_ok(),
                    self.inhibitor.state,
                    &mut self.log,
                );
                outcome
            }
        }
    }

    fn snapshot(&self) -> ManualSessionSnapshot {
        self.session.snapshot(self.now)
    }

    fn advance(&mut self, duration: Duration) {
        self.now = self.now.checked_add(duration).expect("test clock overflow");
    }

    fn reasons(&self) -> Vec<WakeReason> {
        self.wake.snapshot().active_reasons().clone()
    }

    fn protection(&self) -> ProtectionState {
        self.wake.snapshot().protection_state()
    }

    fn lines(&self) -> String {
        self.log
            .iter()
            .map(SafeEvent::render)
            .collect::<Vec<_>>()
            .join("")
    }
}

fn finite(remaining: Duration) -> ManualSessionState {
    ManualSessionState::Finite { remaining }
}

#[test]
fn a_new_manual_session_is_inactive_without_requesting_wake_protection() {
    let world = test_session(Duration::zero());

    assert_eq!(
        world.snapshot(),
        ManualSessionSnapshot {
            state: ManualSessionState::Inactive,
            background_failure: None,
        }
    );
    assert!(world.reasons().is_empty());
    assert_eq!(world.protection(), ProtectionState::Inactive);
}

#[test]
fn starting_a_fifteen_minute_session_sets_a_deadline_and_manual_wake_intent() {
    let mut world = test_session(Duration::from_secs(5 * 60));

    let snapshot = world
        .command(ManualSessionCommand::Start(
            ManualSessionStartPreset::FifteenMinutes,
        ))
        .expect("start should succeed");

    assert_eq!(snapshot.state, finite(Duration::from_secs(15 * 60)));
    assert_eq!(world.reasons(), [WakeReason::ManualKeepAwake]);
    assert_eq!(world.protection(), ProtectionState::Active);
}

#[test]
fn adding_time_extends_the_existing_deadline_after_time_has_elapsed() {
    let mut world = test_session(Duration::zero());
    world
        .command(ManualSessionCommand::Start(
            ManualSessionStartPreset::OneHour,
        ))
        .expect("start should succeed");
    world.advance(Duration::from_secs(40 * 60));

    let first = world
        .command(ManualSessionCommand::Add(
            ManualSessionAddPreset::ThirtyMinutes,
        ))
        .expect("first add should succeed");
    world.advance(Duration::from_secs(5 * 60));
    let second = world
        .command(ManualSessionCommand::Add(
            ManualSessionAddPreset::FifteenMinutes,
        ))
        .expect("second add should succeed");

    assert_eq!(first.state, finite(Duration::from_secs(50 * 60)));
    assert_eq!(second.state, finite(Duration::from_secs(60 * 60)));
}

#[test]
fn stopping_a_finite_session_removes_manual_intent_and_protection() {
    let mut world = test_session(Duration::zero());
    world
        .command(ManualSessionCommand::Start(
            ManualSessionStartPreset::ThirtyMinutes,
        ))
        .expect("start should succeed");

    let snapshot = world
        .command(ManualSessionCommand::Stop)
        .expect("stop should succeed");

    assert_eq!(snapshot.state, ManualSessionState::Inactive);
    assert!(world.reasons().is_empty());
    assert_eq!(world.protection(), ProtectionState::Inactive);
}

#[test]
fn converting_a_finite_session_to_until_disabled_preserves_manual_wake_intent() {
    let mut world = test_session(Duration::zero());
    world
        .command(ManualSessionCommand::Start(
            ManualSessionStartPreset::ThirtyMinutes,
        ))
        .expect("start should succeed");

    let snapshot = world
        .command(ManualSessionCommand::ConvertToUntilDisabled)
        .expect("conversion should succeed");

    assert_eq!(snapshot.state, ManualSessionState::UntilDisabled);
    assert_eq!(world.reasons(), [WakeReason::ManualKeepAwake]);
    assert_eq!(world.protection(), ProtectionState::Active);
}

#[test]
fn a_due_finite_session_expires_and_removes_manual_wake_intent() {
    let mut world = test_session(Duration::zero());
    world
        .command(ManualSessionCommand::Start(
            ManualSessionStartPreset::FifteenMinutes,
        ))
        .expect("start should succeed");
    world.advance(Duration::from_secs(15 * 60));

    world.expire_due();

    assert_eq!(world.snapshot().state, ManualSessionState::Inactive);
    assert!(world.reasons().is_empty());
    assert_eq!(world.protection(), ProtectionState::Inactive);
    assert!(world.lines().contains("INFO manual.expired outcome=succeeded"));
}

#[test]
fn every_finite_start_preset_projects_its_exact_remaining_duration() {
    let cases = [
        (
            ManualSessionStartPreset::FifteenMinutes,
            Duration::from_secs(15 * 60),
        ),
        (
            ManualSessionStartPreset::ThirtyMinutes,
            Duration::from_secs(30 * 60),
        ),
        (
            ManualSessionStartPreset::OneHour,
            Duration::from_secs(60 * 60),
        ),
        (
            ManualSessionStartPreset::TwoHours,
            Duration::from_secs(2 * 60 * 60),
        ),
        (
            ManualSessionStartPreset::FourHours,
            Duration::from_secs(4 * 60 * 60),
        ),
        (
            ManualSessionStartPreset::EightHours,
            Duration::from_secs(8 * 60 * 60),
        ),
    ];

    for (preset, remaining) in cases {
        let mut world = test_session(Duration::from_secs(123));

        let snapshot = world
            .command(ManualSessionCommand::Start(preset))
            .expect("finite start should succeed");

        assert_eq!(
            snapshot.state,
            finite(remaining),
            "unexpected projection for {preset:?}"
        );
    }
}

#[test]
fn until_disabled_has_no_deadline_and_can_be_stopped() {
    let mut world = test_session(Duration::zero());

    let active = world
        .command(ManualSessionCommand::Start(
            ManualSessionStartPreset::UntilDisabled,
        ))
        .expect("until-disabled start should succeed");
    world.advance(Duration::from_secs(24 * 60 * 60));
    world.expire_due();

    assert_eq!(active.state, ManualSessionState::UntilDisabled);
    assert_eq!(world.snapshot().state, ManualSessionState::UntilDisabled);
    assert_eq!(world.reasons(), [WakeReason::ManualKeepAwake]);

    world
        .command(ManualSessionCommand::Stop)
        .expect("stop should succeed");
    assert_eq!(world.snapshot().state, ManualSessionState::Inactive);
}

#[test]
fn extending_a_session_neutralizes_its_original_deadline() {
    let mut world = test_session(Duration::zero());
    world
        .command(ManualSessionCommand::Start(
            ManualSessionStartPreset::FifteenMinutes,
        ))
        .expect("start should succeed");
    world.advance(Duration::from_secs(14 * 60));
    world
        .command(ManualSessionCommand::Add(
            ManualSessionAddPreset::FifteenMinutes,
        ))
        .expect("add should succeed");
    world.advance(Duration::from_secs(60));

    world.expire_due();

    assert_eq!(
        world.snapshot().state,
        finite(Duration::from_secs(15 * 60))
    );
}

#[test]
fn conversion_neutralizes_the_old_finite_deadline() {
    let mut world = test_session(Duration::zero());
    world
        .command(ManualSessionCommand::Start(
            ManualSessionStartPreset::FifteenMinutes,
        ))
        .expect("start should succeed");
    world
        .command(ManualSessionCommand::ConvertToUntilDisabled)
        .expect("conversion should succeed");
    world.advance(Duration::from_secs(60 * 60));

    world.expire_due();

    assert_eq!(world.snapshot().state, ManualSessionState::UntilDisabled);
}

#[test]
fn stopping_then_starting_again_is_not_affected_by_the_old_deadline() {
    let mut world = test_session(Duration::zero());
    world
        .command(ManualSessionCommand::Start(
            ManualSessionStartPreset::FifteenMinutes,
        ))
        .expect("first start should succeed");
    world
        .command(ManualSessionCommand::Stop)
        .expect("stop should succeed");
    world
        .command(ManualSessionCommand::Start(
            ManualSessionStartPreset::OneHour,
        ))
        .expect("second start should succeed");
    world.advance(Duration::from_secs(15 * 60));

    world.expire_due();

    assert_eq!(
        world.snapshot().state,
        finite(Duration::from_secs(45 * 60))
    );
}

#[test]
fn add_after_expiry_is_rejected_without_resurrecting_the_session() {
    let mut world = test_session(Duration::zero());
    world
        .command(ManualSessionCommand::Start(
            ManualSessionStartPreset::FifteenMinutes,
        ))
        .expect("start should succeed");
    world.advance(Duration::from_secs(15 * 60));
    world.expire_due();

    let error = world
        .command(ManualSessionCommand::Add(
            ManualSessionAddPreset::FifteenMinutes,
        ))
        .expect_err("add after expiry should fail");

    assert!(matches!(error, ManualSessionError::InvalidTransition));
    assert_eq!(world.snapshot().state, ManualSessionState::Inactive);
}

#[test]
fn invalid_commands_are_logged_as_rejected() {
    let mut world = test_session(Duration::zero());

    let error = world
        .command(ManualSessionCommand::Add(
            ManualSessionAddPreset::FifteenMinutes,
        ))
        .expect_err("adding to an inactive session should fail");

    assert!(matches!(error, ManualSessionError::InvalidTransition));
    let persisted = world.lines();
    assert!(persisted.contains("manual.command command=add outcome=rejected"));
    assert!(!persisted.contains("manual.command command=add outcome=failed"));
}

#[test]
fn active_start_and_non_finite_extensions_are_rejected_without_mutation() {
    let mut world = test_session(Duration::zero());
    let finite = world
        .command(ManualSessionCommand::Start(
            ManualSessionStartPreset::ThirtyMinutes,
        ))
        .expect("start should succeed");

    assert!(matches!(
        world.command(ManualSessionCommand::Start(
            ManualSessionStartPreset::OneHour
        )),
        Err(ManualSessionError::InvalidTransition)
    ));
    assert_eq!(world.snapshot(), finite);

    world
        .command(ManualSessionCommand::ConvertToUntilDisabled)
        .expect("conversion should succeed");
    assert!(matches!(
        world.command(ManualSessionCommand::Add(
            ManualSessionAddPreset::FifteenMinutes
        )),
        Err(ManualSessionError::InvalidTransition)
    ));
    assert!(matches!(
        world.command(ManualSessionCommand::ConvertToUntilDisabled),
        Err(ManualSessionError::InvalidTransition)
    ));
    assert_eq!(world.snapshot().state, ManualSessionState::UntilDisabled);
}

#[test]
fn deadline_overflow_is_reported_without_mutating_the_finite_session() {
    let start_time = Duration::max()
        .checked_sub(Duration::from_secs(30 * 60))
        .expect("test start time should fit");
    let mut world = test_session(start_time);
    let before = world
        .command(ManualSessionCommand::Start(
            ManualSessionStartPreset::FifteenMinutes,
        ))
        .expect("start should fit");

    let error = world
        .command(ManualSessionCommand::Add(
            ManualSessionAddPreset::ThirtyMinutes,
        ))
        .expect_err("overflow should fail");

    assert!(matches!(error, ManualSessionError::DeadlineOverflow));
    assert_eq!(world.snapshot(), before);
}

#[test]
fn failed_acquire_preserves_intent_and_a_later_add_retries_coordination() {
    let mut world = test_session(Duration::zero());
    world.inhibitor.fail_next_acquire = true;

    let error = world
        .command(ManualSessionCommand::Start(
            ManualSessionStartPreset::FifteenMinutes,
        ))
        .expect_err("first acquire should fail");
    assert_eq!(error.message(), "scripted acquire failure");
    assert_eq!(
        world.snapshot().state,
        finite(Duration::from_secs(15 * 60))
    );
    assert_eq!(world.reasons(), [WakeReason::ManualKeepAwake]);
    assert_eq!(world.protection(), ProtectionState::Inactive);

    world
        .command(ManualSessionCommand::Add(
            ManualSessionAddPreset::FifteenMinutes,
        ))
        .expect("add should retry acquisition");
    assert_eq!(world.protection(), ProtectionState::Active);
}

#[test]
fn failed_stop_release_keeps_intent_inactive_and_can_be_retried() {
    let mut world = test_session(Duration::zero());
    world.inhibitor.fail_next_release = true;
    world
        .command(ManualSessionCommand::Start(
            ManualSessionStartPreset::FifteenMinutes,
        ))
        .expect("start should succeed");

    let error = world
        .command(ManualSessionCommand::Stop)
        .expect_err("first release should fail");
    assert_eq!(error.message(), "scripted release failure");
    assert_eq!(world.snapshot().state, ManualSessionState::Inactive);
    assert!(world.reasons().is_empty());
    assert_eq!(world.protection(), ProtectionState::Active);

    world
        .command(ManualSessionCommand::Stop)
        .expect("inactive stop should retry release");
    assert_eq!(world.protection(), ProtectionState::Inactive);
}

#[test]
fn failed_expiry_release_is_projected_until_successful_reconciliation() {
    let mut world = test_session(Duration::zero());
    world.inhibitor.fail_next_release = true;
    world
        .command(ManualSessionCommand::Start(
            ManualSessionStartPreset::FifteenMinutes,
        ))
        .expect("start should succeed");
    world.advance(Duration::from_secs(15 * 60));

    world.expire_due();

    assert_eq!(
        world.snapshot(),
        ManualSessionSnapshot {
            state: ManualSessionState::Inactive,
            background_failure: Some("scripted release failure".to_owned()),
        }
    );
    assert!(world.reasons().is_empty());
    assert!(world.lines().contains("WARN manual.expired outcome=failed"));

    let recovered = world
        .command(ManualSessionCommand::Stop)
        .expect("stop should retry release");
    assert_eq!(recovered.background_failure, None);
    assert_eq!(world.protection(), ProtectionState::Inactive);
}

#[test]
fn stopping_or_expiring_manual_intent_preserves_automatic_protection() {
    for expire in [false, true] {
        let mut world = test_session(Duration::zero());
        world
            .set_reason_active(WakeReason::AutomaticDownload, true)
            .expect("automatic reason should activate");
        world
            .command(ManualSessionCommand::Start(
                ManualSessionStartPreset::FifteenMinutes,
            ))
            .expect("manual start should succeed");

        if expire {
            world.advance(Duration::from_secs(15 * 60));
            world.expire_due();
        } else {
            world
                .command(ManualSessionCommand::Stop)
                .expect("manual stop should succeed");
        }

        assert_eq!(world.snapshot().state, ManualSessionState::Inactive);
        assert_eq!(world.reasons(), [WakeReason::AutomaticDownload]);
        assert_eq!(world.protection(), ProtectionState::Active);
    }
}

#[test]
fn scheduler_shutdown_does_not_wait_for_a_pending_finite_deadline() {
    let mut world = test_session(Duration::zero());
    world
        .command(ManualSessionCommand::Start(
            ManualSessionStartPreset::EightHours,
        ))
        .expect("start should succeed");
    world
        .session
        .start_scheduler()
        .expect("scheduler should start");
    assert_eq!(
        world.session.run_scheduler(world.now),
        SchedulerStep::WaitFor(Duration::from_secs(8 * 60 * 60))
    );

    world.session.request_scheduler_shutdown();

    assert_eq!(world.session.run_scheduler(world.now), SchedulerStep::Exit);
}

#[test]
fn the_scheduler_expires_a_session_due_at_worker_start() {
    let mut world = test_session(Duration::zero());
    world
        .command(ManualSessionCommand::Start(
            ManualSessionStartPreset::FifteenMinutes,
        ))
        .expect("start should succeed");
    world.advance(Duration::from_secs(15 * 60));
    world
        .session
        .start_scheduler()
        .expect("scheduler should start");

    assert_eq!(world.session.run_scheduler(world.now), SchedulerStep::Expire);
    world.expire_due();

    assert_eq!(world.inhibitor.state, ProtectionState::Inactive);
    assert_eq!(world.snapshot().state, ManualSessionState::Inactive);
    assert_eq!(world.session.run_scheduler(world.now), SchedulerStep::Wait);
}

#[test]
fn commands_are_rejected_after_scheduler_shutdown_begins() {
    let mut world = test_session(Duration::zero());
    world
        .session
        .start_scheduler()
        .expect("scheduler should start");
    world.session.request_scheduler_shutdown();

    let error = world
        .command(ManualSessionCommand::Start(
            ManualSessionStartPreset::FifteenMinutes,
        ))
        .expect_err("commands should stop with the scheduler");

    assert!(matches!(error, ManualSessionError::Unavailable));
    assert_eq!(world.snapshot().state, ManualSessionState::Inactive);
}

#[test]
fn every_add_preset_accumulates_on_the_current_deadline() {
    let cases = [
        (
            ManualSessionAddPreset::FifteenMinutes,
            Duration::from_secs(15 * 60),
        ),
        (
            ManualSessionAddPreset::ThirtyMinutes,
            Duration::from_secs(30 * 60),
        ),
        (
            ManualSessionAddPreset::OneHour,
            Duration::from_secs(60 * 60),
        ),
        (
            ManualSessionAddPreset::TwoHours,
            Duration::from_secs(2 * 60 * 60),
        ),
        (
            ManualSessionAddPreset::FourHours,
            Duration::from_secs(4 * 60 * 60),
        ),
    ];
    let mut world = test_session(Duration::zero());
    world
        .command(ManualSessionCommand::Start(
            ManualSessionStartPreset::FifteenMinutes,
        ))
        .expect("start should succeed");
    let mut remaining = Duration::from_secs(15 * 60);

    for (preset, added) in cases {
        remaining = remaining
            .checked_add(added)
            .expect("test duration overflow");
        let snapshot = world
            .command(ManualSessionCommand::Add(preset))
            .expect("add should succeed");
        assert_eq!(
            snapshot.state,
            finite(remaining),
            "unexpected projection after {preset:?}"
        );
    }
}

#[test]
fn stop_and_expiry_racing_converge_on_one_inactive_session() {
    for expire_first in [false, true] {
        let mut world = test_session(Duration::zero());
        world
            .command(ManualSessionCommand::Start(
                ManualSessionStartPreset::FifteenMinutes,
            ))
            .expect("start should succeed");
        world.advance(Duration::from_secs(15 * 60));

        if expire_first {
            world.expire_due();
        }
        world
            .command(ManualSessionCommand::Stop)
            .expect("stop should converge successfully");
        world.expire_due();

        assert_eq!(world.snapshot().state, ManualSessionState::Inactive);
        assert!(world.reasons().is_empty());
        assert_eq!(world.protection(), ProtectionState::Inactive);
    }
}

#[test]
fn application_lifecycle_stops_the_scheduler_before_wake_cleanup() {
    let mut world = test_session(Duration::zero());
    let mut lifecycle = LifecyclePlan::new()
        .required(CapabilityId::new("wake-coordination"))
        .required(CapabilityId::new("manual-session"))
        .build();
    let mut step = lifecycle.start();
    loop {
        step = match step {
            LifecycleStep::RestoreSettings => lifecycle.restored(Ok(())),
            LifecycleStep::Start(capability) => {
                let outcome = if capability == CapabilityId::new("manual-session") {
                    world
                        .session
                        .start_scheduler()
                        .map_err(|error| error.message())
                } else {
                    Ok(())
                };
                lifecycle.participant_started(outcome)
            }
            LifecycleStep::Started(_) => break,
            other => panic!("startup should succeed: {other:?}"),
        };
    }
    world
        .command(ManualSessionCommand::Start(
            ManualSessionStartPreset::EightHours,
        ))
        .expect("start should succeed");

    let mut stopped = Vec::new();
    let mut step = lifecycle.shutdown();
    let report = loop {
        step = match step {
            LifecycleStep::Stop(capability) => {
                stopped.push(capability.as_str());
                if capability == CapabilityId::new("manual-session") {
                    world.session.request_scheduler_shutdown();
                } else if let Some(action) = world.wake.shutdown(&mut world.log) {
                    let outcome = world.inhibitor.perform(action);
                    world.wake.native_returned(
                        action,
                        outcome.is_ok(),
                        world.inhibitor.state,
                        &mut world.log,
                    );
                }
                lifecycle.participant_stopped(Ok(()))
            }
            LifecycleStep::ShutDown(report) => break report,
            other => panic!("shutdown should succeed: {other:?}"),
        };
    };

    assert_eq!(stopped, ["manual-session", "wake-coordination"]);
    assert!(report.failures().is_empty());
    assert!(world.reasons().is_empty());
    assert_eq!(world.protection(), ProtectionState::Inactive);
    assert!(matches!(
        world.command(ManualSessionCommand::Stop),
        Err(ManualSessionError::Unavailable)
    ));
}

#[test]
fn a_session_has_one_scheduler_unless_its_worker_did_not_start() {
    let mut session = ManualSession::new();
    session.start_scheduler().unwrap();
    assert_eq!(
        session.start_scheduler(),
        Err(ManualSessionRuntimeError::AlreadyStarted)
    );

    let error = session.scheduler_failed("no threads".to_owned());

    assert_eq!(
        error.message(),
        "failed to start manual session scheduler: no threads"
    );
    assert_eq!(session.start_scheduler(), Ok(()));
    assert_eq!(
        ManualSessionRuntimeError::AlreadyStarted.message(),
        "manual session scheduler already started"
    );
    assert_eq!(
        ManualSessionRuntimeError::WorkerPanicked.message(),
        "manual session scheduler panicked"
    );
}

#[test]
fn session_errors_are_worded() {
    assert_eq!(
        ManualSessionError::InvalidTransition.message(),
        "invalid manual session transition"
    );
    assert_eq!(
        ManualSessionError::DeadlineOverflow.message(),
        "manual session deadline overflow"
    );
    assert_eq!(
        ManualSessionError::Unavailable.message(),
        "manual session is shutting down"
    );
}

#[test]
fn a_session_that_cannot_fit_its_deadline_is_not_started() {
    let mut world = test_session(Duration::max());

    let error = world
        .command(ManualSessionCommand::Start(
            ManualSessionStartPreset::FifteenMinutes,
        ))
        .unwrap_err();

    assert_eq!(error, ManualSessionError::DeadlineOverflow);
    assert_eq!(world.snapshot().state, ManualSessionState::Inactive);
    assert!(world.reasons().is_empty());
}
