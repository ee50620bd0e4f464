//! The power source, with scripted platforms.

use chiu::automatic_protection::{
    AutomaticProtectionController, AutomaticProtectionSettings, AutomaticProtectionSnapshot,
    PowerSource, ProtectionProgress,
};
use chiu::local_log::{ProtectionAction, SafeEvent};
use chiu::power_source::macos::{
    map_power_source_type, registration_failure, MacRuntime, ObservationStep,
};
use chiu::power_source::windows::{
    acdc_power_source_guid, guid_eq, map_power_condition, next_token, parse_notification,
    CallbackRegistry, Guid, NotificationHeader, ERROR_SUCCESS, PBT_POWERSETTINGCHANGE,
};
use chiu::power_source::{
    PendingReport, PowerSourceFailure, PowerSourceObserver, PowerSourceObserverHealth,
    PowerSourceObserverSnapshot, PowerSourceOperation,
};
use chiu::wake_coordinator::{ProtectionState, WakeCoordinator, WakeReason, WakeSnapshot};
use std::cell::RefCell;
use std::rc::Rc;

/// A platform that does what it is told.
struct RecordingInhibitor {
    state: ProtectionState,
    calls: Calls,
}

type Calls = Rc<RefCell<Vec<&'static str>>>;

impl RecordingInhibitor {
    fn new() -> (Self, Calls) {
        let calls = Rc::new(RefCell::new(Vec::new()));
        (
            Self {
                state: ProtectionState::Inactive,
                calls: calls.clone(),
            },
            calls,
        )
    }

    fn perform(&mut self, action: ProtectionAction) -> Result<(), String> {
        match action {
            ProtectionAction::Acquire => {
                self.calls.borrow_mut().push("acquire");
                self.state = ProtectionState::Active;
            }
            ProtectionAction::Release => {
                self.calls.borrow_mut().push("release");
                self.state = ProtectionState::Inactive;
            }
        }
        Ok(())
    }
}

struct Shared {
    wake: WakeCoordinator,
    inhibitor: RecordingInhibitor,
    log: Vec<SafeEvent>,
}

/// The wake coordinator together with the platform and the log.
#[derive(Clone)]
struct Coordinator(Rc<RefCell<Shared>>);

impl Coordinator {
    fn with_inhibitor(inhibitor: RecordingInhibitor) -> Self {
        Self(Rc::new(RefCell::new(Shared {
            wake: WakeCoordinator::new(),
            inhibitor,
            log: Vec::new(),
        })))
    }

    fn snapshot(&self) -> WakeSnapshot {
        self.0.borrow().wake.snapshot()
    }

    /// What was logged.
    fn lines(&self) -> String {
        self.0
            .borrow()
            .log
            .iter()
            .map(SafeEvent::render)
            .collect::<Vec<_>>()
            .join("")
    }
}

fn wake_coordinator() -> Coordinator {
    Coordinator::with_inhibitor(RecordingInhibitor::new().0)
}

/// The controller of automatic protection.
#[derive(Clone)]
struct Controller {
    coordinator: Coordinator,
    state: Rc<RefCell<AutomaticProtectionController>>,
}

impl Controller {
    fn new(settings: AutomaticProtectionSettings, coordinator: Coordinator) -> Self {
        Self {
            coordinator,
            state: Rc::new(RefCell::new(AutomaticProtectionController::new(settings))),
        }
    }

    fn snapshot(&self) -> AutomaticProtectionSnapshot {
        self.state.borrow().snapshot()
    }

    fn change(
        &self,
        change: impl FnOnce(
            &mut AutomaticProtectionController,
            &mut WakeCoordinator,
            &mut Vec<SafeEvent>,
        ) -> ProtectionProgress,
    ) -> AutomaticProtectionSnapshot {
        let shared = &mut *self.coordinator.0.borrow_mut();
        let controller = &mut *self.state.borrow_mut();
        match change(controller, &mut shared.wake, &mut shared.log) {
            ProtectionProgress::Finished(snapshot) => snapshot,
            ProtectionProgress::Native(pending) => {
                let outcome = shared.inhibitor.perform(pending.action);
                controller.returned(
                    pending,
                    outcome,
                    shared.inhibitor.state,
                    &mut shared.wake,
                    &mut shared.log,
                )
            }
        }
    }

    fn set_power_source(&self, power: PowerSource) -> AutomaticProtectionSnapshot {
        self.change(|controller, wake, log| controller.set_power_source(power, wake, log))
    }
}

impl Controller {
    fn set_detector_intent(&self, intent: bool) -> AutomaticProtectionSnapshot {
        self.change(|controller, wake, log| controller.set_detector_intent(intent, wake, log))
    }
}

/// The observer together with the controller that follows it.
struct Observer {
    controller: Controller,
    state: PowerSourceObserver,
}

impl Observer {
    fn tell(
        &mut self,
        tell: impl FnOnce(
            &mut PowerSourceObserver,
            &mut AutomaticProtectionController,
            &mut WakeCoordinator,
            &mut Vec<SafeEvent>,
        ) -> Option<PendingReport>,
    ) {
        let shared = &mut *self.controller.coordinator.0.borrow_mut();
        let controller = &mut *self.controller.state.borrow_mut();
        let told = tell(
            &mut self.state,
            controller,
            &mut shared.wake,
            &mut shared.log,
        );
        if let Some(pending) = told {
            let outcome = shared.inhibitor.perform(pending.reconciliation.action);
            self.state.report_returned(
                pending,
                outcome,
                shared.inhibitor.state,
                controller,
                &mut shared.wake,
                &mut shared.log,
            );
        }
    }

    fn publish(&mut self, result: Result<PowerSource, PowerSourceFailure>) {
        self.tell(|observer, controller, wake, log| observer.publish(result, controller, wake, log));
    }

    fn stopped(&mut self, failure: Option<PowerSourceFailure>) {
        self.tell(|observer, controller, wake, log| {
            observer.stopped(failure, controller, wake, log)
        });
    }

    fn snapshot(&self) -> PowerSourceObserverSnapshot {
        self.state.snapshot()
    }
}

fn controller(coordinator: Coordinator) -> Controller {
    Controller::new(AutomaticProtectionSettings::new(true, false), coordinator)
}

fn observer(controller: Controller) -> Observer {
    Observer {
        controller,
        state: PowerSourceObserver::new(),
    }
}

#[test]
fn sample_failure_projects_unknown_power_and_degraded_health() {
    let coordinator = wake_coordinator();
    let controller = controller(coordinator.clone());
    controller.set_detector_intent(true);
    controller.set_power_source(PowerSource::External);
    let mut observer = observer(controller);

    observer.publish(Err(PowerSourceFailure::new(
        PowerSourceOperation::Sample,
        Some(7),
    )));

    assert_eq!(observer.snapshot().source(), PowerSource::Unknown);
    assert_eq!(
        observer.snapshot().health(),
        PowerSourceObserverHealth::Degraded
    );
    assert_eq!(
        observer.snapshot().latest_failure().unwrap().code(),
        Some(7)
    );
    assert!(coordinator.snapshot().active_reasons().is_empty());
}

#[test]
fn a_valid_sample_recovers_observer_health_and_policy() {
    let coordinator = wake_coordinator();
    let controller = controller(coordinator.clone());
    controller.set_detector_intent(true);
    let mut observer = observer(controller);
    observer.publish(Err(PowerSourceFailure::new(
        PowerSourceOperation::Sample,
        None,
    )));

    observer.publish(Ok(PowerSource::External));

    assert_eq!(
        observer.snapshot().health(),
        PowerSourceObserverHealth::Observing
    );
    assert_eq!(observer.snapshot().latest_failure(), None);
    assert_eq!(
        coordinator.snapshot().active_reasons(),
        &[WakeReason::AutomaticDownload]
    );
}

#[test]
fn stopping_observation_invalidates_known_external_power() {
    let coordinator = wake_coordinator();
    let controller = controller(coordinator.clone());
    controller.set_detector_intent(true);
    let mut observer = observer(controller);
    observer.publish(Ok(PowerSource::External));

    observer.stopped(Some(PowerSourceFailure::new(
        PowerSourceOperation::Unregistration,
        Some(9),
    )));

    assert_eq!(observer.snapshot().source(), PowerSource::Unknown);
    assert_eq!(
        observer.snapshot().health(),
        PowerSourceObserverHealth::Stopped
    );
    assert_eq!(
        observer.snapshot().latest_failure().unwrap().code(),
        Some(9)
    );
    assert!(coordinator.snapshot().active_reasons().is_empty());
}

/// A platform that gives out the samples that it was given.
struct FakeMac {
    create_succeeds: bool,
    samples: Vec<Result<PowerSource, PowerSourceFailure>>,
    calls: Vec<&'static str>,
}

impl FakeMac {
    fn new(
        create_succeeds: bool,
        samples: Vec<Result<PowerSource, PowerSourceFailure>>,
    ) -> FakeMac {
        FakeMac {
            create_succeeds,
            samples: samples.into_iter().rev().collect(),
            calls: Vec::new(),
        }
    }

    fn notify(&mut self, observer: &mut Observer) {
        self.calls.push("sample");
        if let Some(sample) = self.samples.pop() {
            observer.publish(sample);
        }
    }

    fn perform(&mut self, steps: Vec<ObservationStep>, observer: &mut Observer) {
        for step in steps {
            match step {
                ObservationStep::AddSource => {
                    self.calls.push("current-run-loop");
                    self.calls.push("add");
                }
                ObservationStep::Sample => self.notify(observer),
                ObservationStep::PublishFailure => observer.publish(Err(registration_failure())),
                ObservationStep::InvalidateSource => self.calls.push("invalidate"),
                ObservationStep::RemoveSource => self.calls.push("remove"),
            }
        }
    }

    fn start(&mut self, observer: &mut Observer) -> Result<MacRuntime, PowerSourceFailure> {
        self.calls.push("create");
        let (runtime, steps) = MacRuntime::start(self.create_succeeds);
        self.perform(steps, observer);
        runtime
    }

    fn shutdown(&mut self, mut runtime: MacRuntime, observer: &mut Observer) {
        MacRuntime::shutdown(true, true).unwrap();
        let steps = runtime.cleanup();
        self.perform(steps, observer);
    }
}

#[test]
fn maps_iokit_provider_strings_conservatively() {
    assert_eq!(map_power_source_type("AC Power"), PowerSource::External);
    assert_eq!(map_power_source_type("Battery Power"), PowerSource::Limited);
    assert_eq!(map_power_source_type("UPS Power"), PowerSource::Limited);
    assert_eq!(map_power_source_type("Future Source"), PowerSource::Unknown);
}

#[test]
fn registration_precedes_initial_sample_and_callback_resamples() {
    let mut observer = observer(controller(wake_coordinator()));
    let mut api = FakeMac::new(
        true,
        vec![Ok(PowerSource::External), Ok(PowerSource::Limited)],
    );
    let runtime = api.start(&mut observer).unwrap();

    assert_eq!(observer.snapshot().source(), PowerSource::External);
    assert_eq!(api.calls, ["create", "current-run-loop", "add", "sample"]);

    api.notify(&mut observer);
    assert_eq!(observer.snapshot().source(), PowerSource::Limited);
    assert_eq!(
        api.calls,
        ["create", "current-run-loop", "add", "sample", "sample"]
    );
    api.shutdown(runtime, &mut observer);
}

#[test]
fn creation_failure_is_degraded_and_does_not_sample() {
    let mut observer = observer(controller(wake_coordinator()));
    let mut api = FakeMac::new(false, Vec::new());

    assert!(api.start(&mut observer).is_err());

    assert_eq!(
        observer.snapshot().health(),
        PowerSourceObserverHealth::Degraded
    );
    assert_eq!(api.calls, ["create"]);
}

#[test]
fn cleanup_invalidates_then_removes_exactly_once() {
    let mut observer = observer(controller(wake_coordinator()));
    let mut api = FakeMac::new(true, vec![Ok(PowerSource::Unknown)]);
    let mut runtime = api.start(&mut observer).unwrap();

    let steps = runtime.cleanup();
    api.perform(steps, &mut observer);
    assert!(runtime.cleanup().is_empty());

    assert_eq!(
        api.calls,
        [
            "create",
            "current-run-loop",
            "add",
            "sample",
            "invalidate",
            "remove"
        ]
    );
}

#[test]
fn callback_contains_panics_from_the_observation_target() {
    let mut observer = observer(controller(wake_coordinator()));
    let mut api = FakeMac::new(true, vec![Ok(PowerSource::External)]);
    let runtime = api.start(&mut observer).unwrap();

    api.notify(&mut observer);

    assert_eq!(observer.snapshot().source(), PowerSource::External);
    api.shutdown(runtime, &mut observer);
}

#[test]
fn sendable_cleanup_token_rejects_a_different_thread() {
    let result = MacRuntime::shutdown(false, true);

    assert!(result.is_err());
    assert!(MacRuntime::shutdown(true, false).is_err());
}

fn payload(value: u32) -> (Option<NotificationHeader>, u32) {
    (
        Some(NotificationHeader {
            setting: acdc_power_source_guid(),
            data_length: 4,
        }),
        value,
    )
}

#[test]
fn maps_all_documented_power_conditions_and_unknown_values() {
    assert_eq!(map_power_condition(0), PowerSource::External);
    assert_eq!(map_power_condition(1), PowerSource::Limited);
    assert_eq!(map_power_condition(2), PowerSource::Limited);
    assert_eq!(map_power_condition(3), PowerSource::Unknown);
}

#[test]
fn registration_uses_the_acdc_callback_contract() {
    let mut registry = CallbackRegistry::new();
    let context = registry.begin();

    assert!(guid_eq(
        acdc_power_source_guid(),
        Guid {
            data1: 0x5d3e9a59,
            data2: 0xe9d5,
            data3: 0x4b00,
            data4: 0xa6bdff34ff516548,
        }
    ));
    assert_ne!(context, 0);
    assert!(registry.registered(context, ERROR_SUCCESS).is_ok());
    assert!(registry.is_known(context));

    registry.unregistered(context, ERROR_SUCCESS).unwrap();
}

#[test]
fn parses_documented_and_unaligned_payloads() {
    for (value, expected) in [
        (0, PowerSource::External),
        (1, PowerSource::Limited),
        (2, PowerSource::Limited),
        (3, PowerSource::Unknown),
    ] {
        let (header, value) = payload(value);
        assert_eq!(
            parse_notification(PBT_POWERSETTINGCHANGE, header, value).unwrap(),
            expected
        );
    }
}

#[test]
fn malformed_notifications_are_rejected_conservatively() {
    assert!(parse_notification(PBT_POWERSETTINGCHANGE, None, 0).is_err());
    let (valid, value) = payload(0);
    assert!(parse_notification(0, valid, value).is_err());

    let wrong_guid = valid.map(|header| NotificationHeader {
        setting: Guid {
            data1: 0,
            data2: 0,
            data3: 0,
            data4: 1,
        },
        ..header
    });
    assert!(parse_notification(PBT_POWERSETTINGCHANGE, wrong_guid, value).is_err());
    let wrong_length = valid.map(|header| NotificationHeader {
        data_length: 1,
        ..header
    });
    assert!(parse_notification(PBT_POWERSETTINGCHANGE, wrong_length, value).is_err());
}

#[test]
fn duplicate_callbacks_are_safe_and_late_callbacks_are_no_ops() {
    let mut observer = observer(controller(wake_coordinator()));
    let mut registry = CallbackRegistry::new();
    let context = registry.begin();
    registry.registered(context, ERROR_SUCCESS).unwrap();
    let (header, external) = payload(0);

    for _ in 0..2 {
        let told = registry.received(context, PBT_POWERSETTINGCHANGE, header, external);
        observer.publish(told.expect("a callback that counts"));
    }
    assert_eq!(observer.snapshot().source(), PowerSource::External);

    registry.unregistered(context, ERROR_SUCCESS).unwrap();
    let (header, limited) = payload(1);
    assert_eq!(
        registry.received(context, PBT_POWERSETTINGCHANGE, header, limited),
        None
    );
    assert_eq!(observer.snapshot().source(), PowerSource::External);
}

#[test]
fn registration_failure_removes_the_callback_token() {
    let mut registry = CallbackRegistry::new();
    let token = registry.begin();

    let result = registry.registered(token, 5);

    assert!(result.is_err());
    assert!(!registry.is_known(token));
}

#[test]
fn unregistration_failure_still_removes_the_callback_token() {
    let mut registry = CallbackRegistry::new();
    let token = registry.begin();
    let other = registry.begin();
    registry.registered(token, ERROR_SUCCESS).unwrap();

    assert_eq!(
        registry.unregistered(token, 6),
        Err(PowerSourceFailure::new(
            PowerSourceOperation::Unregistration,
            Some(6)
        ))
    );
    assert!(!registry.is_known(token));
    assert!(registry.is_known(other));
    assert!(!registry.is_known(0));
}

#[test]
fn tokens_skip_zero() {
    assert_eq!(next_token(0), (1, 2));
    assert_eq!(next_token(7), (7, 8));
    assert_eq!(next_token(usize::MAX), (usize::MAX, 0));
}

#[test]
fn refusals_of_the_platform_are_worded() {
    assert_eq!(
        PowerSourceFailure::new(PowerSourceOperation::Registration, None).message(),
        "power source Registration failed"
    );
    assert_eq!(
        PowerSourceFailure::new(PowerSourceOperation::Unregistration, Some(1_460)).message(),
        "power source Unregistration failed with platform code 1460"
    );
}

#[test]
fn changes_of_power_are_logged_once() {
    let coordinator = wake_coordinator();
    let mut observer = observer(controller(coordinator.clone()));

    observer.publish(Ok(PowerSource::Limited));
    observer.publish(Ok(PowerSource::Limited));
    observer.publish(Err(registration_failure()));
    observer.stopped(None);

    let lines = coordinator.lines();
    assert_eq!(lines.matches("power.changed").count(), 3);
    assert!(lines.contains("source=limited health=observing"));
    assert!(lines.contains("source=unknown health=degraded"));
    assert!(lines.contains("source=unknown health=stopped"));
}
