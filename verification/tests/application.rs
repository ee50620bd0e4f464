//! The life of the program, driven by scripted capabilities.

use chiu::application::{
    ApplicationLifecycle, ApplicationStatus, CapabilityId, LifecyclePhase, LifecyclePlan,
    LifecycleStep, OperationFailure, ShutdownReport, StartError, StartupFailurePoint,
    StartupReport,
};

/// What starting and stopping the capabilities comes to, and what was done.
#[derive(Default)]
struct Script {
    settings_failure: Option<&'static str>,
    start_failures: Vec<(&'static str, &'static str)>,
    stop_failures: Vec<(&'static str, &'static str)>,
    events: Vec<String>,
}

impl Script {
    fn outcome(list: &[(&'static str, &'static str)], name: &str) -> Result<(), String> {
        match list.iter().find(|(failing, _)| *failing == name) {
            Some((_, message)) => Err((*message).to_owned()),
            None => Ok(()),
        }
    }

    fn perform(&mut self, lifecycle: &mut ApplicationLifecycle, step: LifecycleStep) -> LifecycleStep {
        let mut step = step;
        loop {
            step = match step {
                LifecycleStep::RestoreSettings => {
                    self.events.push("settings".to_owned());
                    let outcome = match self.settings_failure {
                        Some(message) => Err(message.to_owned()),
                        None => Ok(()),
                    };
                    lifecycle.restored(outcome)
                }
                LifecycleStep::Start(capability) => {
                    let name = capability.as_str();
                    self.events.push(format!("{name}:start"));
                    lifecycle.participant_started(Self::outcome(&self.start_failures, name))
                }
                LifecycleStep::Stop(capability) => {
                    let name = capability.as_str();
                    self.events.push(format!("{name}:stop"));
                    lifecycle.participant_stopped(Self::outcome(&self.stop_failures, name))
                }
                end => return end,
            };
        }
    }

    fn start(&mut self, lifecycle: &mut ApplicationLifecycle) -> Result<StartupReport, StartError> {
        let step = lifecycle.start();
        match self.perform(lifecycle, step) {
            LifecycleStep::Started(report) => Ok(report),
            LifecycleStep::StartFailed(error) => Err(error),
            other => panic!("a start ended in {other:?}"),
        }
    }

    fn shutdown(&mut self, lifecycle: &mut ApplicationLifecycle) -> ShutdownReport {
        let step = lifecycle.shutdown();
        match self.perform(lifecycle, step) {
            LifecycleStep::ShutDown(report) => report,
            other => panic!("a shutdown ended in {other:?}"),
        }
    }
}

fn required(names: &[&'static str]) -> ApplicationLifecycle {
    let mut plan = LifecyclePlan::new();
    for name in names {
        plan = plan.required(CapabilityId::new(name));
    }
    plan.build()
}

#[test]
fn startup_without_participants_becomes_ready() {
    let mut lifecycle = LifecyclePlan::new().build();

    let report = Script::default()
        .start(&mut lifecycle)
        .expect("startup should succeed");

    assert!(report.optional_failures().is_empty());
    assert_eq!(lifecycle.state().status(), ApplicationStatus::Ready);
}

#[test]
fn settings_are_restored_before_ordered_participants_start() {
    let mut lifecycle = required(&["core"]);
    let mut script = Script::default();

    script.start(&mut lifecycle).expect("startup should succeed");

    assert_eq!(script.events, ["settings", "core:start"]);
    assert_eq!(lifecycle.state().status(), ApplicationStatus::Ready);
}

#[test]
fn optional_failure_degrades_state_and_later_required_startup_continues() {
    let mut lifecycle = LifecyclePlan::new()
        .optional(CapabilityId::new("updates"))
        .required(CapabilityId::new("core"))
        .build();
    let mut script = Script {
        start_failures: vec![("updates", "offline")],
        ..Script::default()
    };

    let report = script
        .start(&mut lifecycle)
        .expect("core startup should succeed");
    let snapshot = lifecycle.state();

    assert_eq!(script.events[1..], ["updates:start", "core:start"]);
    assert_eq!(
        report.optional_failures()[0].capability(),
        CapabilityId::new("updates")
    );
    assert_eq!(snapshot.status(), ApplicationStatus::Degraded);
    assert_eq!(
        snapshot.unavailable_capabilities().as_slice(),
        &[CapabilityId::new("updates")]
    );
}

#[test]
fn required_failure_preserves_prior_optional_unavailability() {
    let mut lifecycle = LifecyclePlan::new()
        .optional(CapabilityId::new("updates"))
        .required(CapabilityId::new("core"))
        .build();
    let mut script = Script {
        start_failures: vec![("updates", "offline"), ("core", "core failed")],
        ..Script::default()
    };

    script
        .start(&mut lifecycle)
        .expect_err("startup should fail");
    let snapshot = lifecycle.state();

    assert_eq!(snapshot.status(), ApplicationStatus::Failed);
    assert_eq!(
        snapshot.startup_failure(),
        Some(StartupFailurePoint::Required(CapabilityId::new("core")))
    );
    assert_eq!(
        snapshot.unavailable_capabilities().as_slice(),
        &[CapabilityId::new("updates")]
    );
}

#[test]
fn required_failure_stops_later_startup_and_rolls_back_owned_resources() {
    let mut lifecycle = required(&["first", "failing", "skipped"]);
    let mut script = Script {
        start_failures: vec![("failing", "required startup failed")],
        ..Script::default()
    };

    let error = script
        .start(&mut lifecycle)
        .expect_err("startup should fail");
    let snapshot = lifecycle.state();

    assert_eq!(
        script.events[1..],
        ["first:start", "failing:start", "first:stop"]
    );
    assert_eq!(error.message(), "required startup failed");
    assert_eq!(
        error.failure_point(),
        Some(StartupFailurePoint::Required(CapabilityId::new("failing")))
    );
    assert!(error.cleanup_failures().is_empty());
    assert_eq!(snapshot.status(), ApplicationStatus::Failed);
    assert_eq!(
        snapshot.startup_failure(),
        Some(StartupFailurePoint::Required(CapabilityId::new("failing")))
    );
}

#[test]
fn shutdown_publishes_shutting_down_and_releases_resources_in_reverse_order() {
    let mut lifecycle = required(&["first", "second", "third"]);
    let mut script = Script::default();
    script.start(&mut lifecycle).expect("startup should succeed");

    lifecycle.request_shutdown();
    assert_eq!(lifecycle.state().status(), ApplicationStatus::ShuttingDown);
    let report = script.shutdown(&mut lifecycle);

    assert!(report.failures().is_empty());
    assert_eq!(
        script.events[1..],
        [
            "first:start",
            "second:start",
            "third:start",
            "third:stop",
            "second:stop",
            "first:stop"
        ]
    );
    assert_eq!(lifecycle.state().status(), ApplicationStatus::Stopped);
}

#[test]
fn shutdown_reports_failures_without_skipping_remaining_cleanup() {
    let mut lifecycle = required(&["first", "second", "third"]);
    let mut script = Script {
        stop_failures: vec![("second", "second failed"), ("third", "third failed")],
        ..Script::default()
    };
    script.start(&mut lifecycle).expect("startup should succeed");

    let report = script.shutdown(&mut lifecycle);
    let snapshot = lifecycle.state();

    assert_eq!(script.events[4..], ["third:stop", "second:stop", "first:stop"]);
    assert_eq!(
        report
            .failures()
            .iter()
            .map(OperationFailure::capability)
            .collect::<Vec<_>>(),
        [CapabilityId::new("third"), CapabilityId::new("second")]
    );
    assert_eq!(report.failures()[0].message(), "third failed");
    assert_eq!(
        snapshot.cleanup_failures().as_slice(),
        &[CapabilityId::new("third"), CapabilityId::new("second")]
    );
    assert_eq!(snapshot.status(), ApplicationStatus::Stopped);
}

#[test]
fn duplicate_start_is_rejected_without_repeating_startup_work() {
    let mut lifecycle = required(&["core"]);
    let mut script = Script::default();
    script
        .start(&mut lifecycle)
        .expect("first startup should succeed");

    let error = script
        .start(&mut lifecycle)
        .expect_err("second startup should fail");

    assert_eq!(
        error.message(),
        "cannot start application lifecycle from Ready"
    );
    assert_eq!(error.failure_point(), None);
    assert_eq!(script.events, ["settings", "core:start"]);
    assert_eq!(lifecycle.state().status(), ApplicationStatus::Ready);
}

#[test]
fn repeated_shutdown_requests_and_cleanup_are_idempotent() {
    let mut lifecycle = required(&["core"]);
    let mut script = Script::default();
    script.start(&mut lifecycle).expect("startup should succeed");

    assert!(lifecycle.request_shutdown());
    assert!(!lifecycle.request_shutdown());
    assert!(script.shutdown(&mut lifecycle).failures().is_empty());
    assert!(script.shutdown(&mut lifecycle).failures().is_empty());

    assert_eq!(
        script.events.iter().filter(|event| *event == "core:stop").count(),
        1
    );
    assert_eq!(lifecycle.state().status(), ApplicationStatus::Stopped);
}

#[test]
fn settings_failure_prevents_all_participant_startup() {
    let mut lifecycle = required(&["core"]);
    let mut script = Script {
        settings_failure: Some("settings unavailable"),
        ..Script::default()
    };

    let error = script
        .start(&mut lifecycle)
        .expect_err("startup should fail");

    assert_eq!(error.failure_point(), Some(StartupFailurePoint::Settings));
    assert_eq!(error.message(), "settings unavailable");
    assert_eq!(script.events, ["settings"]);
    assert_eq!(lifecycle.state().status(), ApplicationStatus::Failed);
}

#[test]
fn startup_rollback_continues_and_reports_cleanup_failures() {
    let mut lifecycle = required(&["first", "second", "failing"]);
    let mut script = Script {
        start_failures: vec![("failing", "startup failed")],
        stop_failures: vec![("second", "second cleanup failed")],
        ..Script::default()
    };

    let error = script
        .start(&mut lifecycle)
        .expect_err("startup should fail");
    let snapshot = lifecycle.state();

    assert_eq!(script.events[4..], ["second:stop", "first:stop"]);
    assert_eq!(
        error
            .cleanup_failures()
            .iter()
            .map(OperationFailure::capability)
            .collect::<Vec<_>>(),
        [CapabilityId::new("second")]
    );
    assert_eq!(
        snapshot.cleanup_failures().as_slice(),
        &[CapabilityId::new("second")]
    );
    assert_eq!(snapshot.status(), ApplicationStatus::Failed);
}

#[test]
fn state_is_coherent_through_degraded_startup_and_shutdown() {
    let mut lifecycle = LifecyclePlan::new()
        .optional(CapabilityId::new("updates"))
        .build();
    let mut script = Script {
        start_failures: vec![("updates", "offline")],
        ..Script::default()
    };

    assert_eq!(lifecycle.state().status(), ApplicationStatus::Starting);
    script
        .start(&mut lifecycle)
        .expect("core startup should remain usable");
    assert_eq!(lifecycle.state().status(), ApplicationStatus::Degraded);
    lifecycle.request_shutdown();
    assert_eq!(lifecycle.state().status(), ApplicationStatus::ShuttingDown);
    script.shutdown(&mut lifecycle);
    assert_eq!(lifecycle.state().status(), ApplicationStatus::Stopped);
}

#[test]
fn a_start_under_way_is_not_begun_again_and_a_stopped_program_never_starts() {
    let mut lifecycle = required(&["core"]);
    let mut script = Script::default();
    assert_eq!(lifecycle.phase(), LifecyclePhase::Idle);
    script.shutdown(&mut lifecycle);

    let error = script.start(&mut lifecycle).unwrap_err();

    assert_eq!(
        error.message(),
        "cannot start application lifecycle from Stopped"
    );
    assert!(script.events.is_empty());
}
