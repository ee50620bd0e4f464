//! The platforms' inhibitors with scripted system calls.

use chiu::sleep_inhibitor::macos::{AssertionRequest, MacOsInhibitor, ASSERTION_LEVEL_ON};
use chiu::sleep_inhibitor::windows::{
    PowerCall, WindowsInhibitor, WindowsProgress, SYSTEM_REQUIRED,
};
use chiu::sleep_inhibitor::{
    IdleSleepInhibitor, InhibitorError, InhibitorState, NativeErrorCode, NativeFailure,
    NativeOperation,
};
use std::collections::VecDeque;

const ASSERTION_TYPE: &str = "PreventUserIdleSystemSleep";
const ASSERTION_NAME: &str = "Chiù idle sleep protection";
const REQUEST_REASON: &str = "Chiù idle sleep protection";

trait Native {
    fn state(&self) -> InhibitorState;
    fn acquire(&mut self) -> Result<(), InhibitorError>;
    fn release(&mut self) -> Result<(), InhibitorError>;
}

/// The inhibitor in front of a native one.
struct Guarded<N> {
    inhibitor: IdleSleepInhibitor,
    native: N,
}

impl<N: Native> Guarded<N> {
    fn with_native(native: N) -> Self {
        Self {
            inhibitor: IdleSleepInhibitor::with_native(native.state()),
            native,
        }
    }

    fn state(&self) -> InhibitorState {
        self.inhibitor.state()
    }

    fn acquire(&mut self) -> Result<(), InhibitorError> {
        match self.inhibitor.acquire() {
            None => Ok(()),
            Some(operation) => {
                assert_eq!(operation, NativeOperation::Acquire);
                let outcome = self.native.acquire();
                self.inhibitor.native_is(self.native.state());
                outcome
            }
        }
    }

    fn release(&mut self) -> Result<(), InhibitorError> {
        match self.inhibitor.release() {
            None => Ok(()),
            Some(operation) => {
                assert_eq!(operation, NativeOperation::Release);
                let outcome = self.native.release();
                self.inhibitor.native_is(self.native.state());
                outcome
            }
        }
    }
}

struct RecordingNative {
    acquire_calls: usize,
    acquire_error: Option<InhibitorError>,
    release_calls: usize,
    release_error: Option<InhibitorError>,
    state: InhibitorState,
}

impl Default for RecordingNative {
    fn default() -> Self {
        Self {
            acquire_calls: 0,
            acquire_error: None,
            release_calls: 0,
            release_error: None,
            state: InhibitorState::Inactive,
        }
    }
}

impl Native for RecordingNative {
    fn state(&self) -> InhibitorState {
        self.state
    }

    fn acquire(&mut self) -> Result<(), InhibitorError> {
        self.acquire_calls += 1;
        if let Some(error) = self.acquire_error.take() {
            return Err(error);
        }
        self.state = InhibitorState::Active;
        Ok(())
    }

    fn release(&mut self) -> Result<(), InhibitorError> {
        self.release_calls += 1;
        if let Some(error) = self.release_error.take() {
            return Err(error);
        }
        self.state = InhibitorState::Inactive;
        Ok(())
    }
}

#[test]
fn a_new_inhibitor_is_inactive() {
    let inhibitor = Guarded::with_native(RecordingNative::default());

    assert_eq!(inhibitor.state(), InhibitorState::Inactive);
    assert_eq!(IdleSleepInhibitor::new().state(), InhibitorState::Inactive);
}

#[test]
fn releasing_an_inactive_inhibitor_is_a_no_op() {
    let mut inhibitor = Guarded::with_native(RecordingNative::default());

    inhibitor.release().expect("release should succeed");

    assert_eq!(inhibitor.native.release_calls, 0);
    assert_eq!(inhibitor.state(), InhibitorState::Inactive);
}

#[test]
fn acquiring_twice_holds_one_native_inhibitor() {
    let mut inhibitor = Guarded::with_native(RecordingNative::default());

    inhibitor.acquire().expect("first acquire should succeed");
    inhibitor
        .acquire()
        .expect("duplicate acquire should succeed");

    assert_eq!(inhibitor.native.acquire_calls, 1);
    assert_eq!(inhibitor.state(), InhibitorState::Active);
}

#[test]
fn a_released_inhibitor_can_be_acquired_again() {
    let mut inhibitor = Guarded::with_native(RecordingNative::default());

    inhibitor.acquire().expect("first acquire should succeed");
    inhibitor.release().expect("release should succeed");
    inhibitor.acquire().expect("second acquire should succeed");

    assert_eq!(inhibitor.native.acquire_calls, 2);
    assert_eq!(inhibitor.native.release_calls, 1);
    assert_eq!(inhibitor.state(), InhibitorState::Active);
}

#[test]
fn failed_acquisition_is_observable_and_leaves_protection_inactive() {
    let native_failure = NativeFailure::new(
        NativeOperation::Acquire,
        NativeErrorCode::MacOs(-536_870_212),
    );
    let mut inhibitor = Guarded::with_native(RecordingNative {
        acquire_error: Some(InhibitorError::new(native_failure)),
        ..RecordingNative::default()
    });

    let error = inhibitor
        .acquire()
        .expect_err("native acquisition should fail");

    assert_eq!(error.primary(), native_failure);
    assert_eq!(error.cleanup(), None);
    assert_eq!(inhibitor.state(), InhibitorState::Inactive);
}

#[test]
fn failed_release_remains_active_and_can_be_retried() {
    let native_failure = NativeFailure::new(
        NativeOperation::Release,
        NativeErrorCode::MacOs(-536_870_206),
    );
    let mut inhibitor = Guarded::with_native(RecordingNative {
        release_error: Some(InhibitorError::new(native_failure)),
        ..RecordingNative::default()
    });
    inhibitor.acquire().expect("acquire should succeed");

    let error = inhibitor.release().expect_err("first release should fail");
    assert_eq!(error.primary(), native_failure);
    assert_eq!(inhibitor.state(), InhibitorState::Active);

    inhibitor.release().expect("release retry should succeed");
    assert_eq!(inhibitor.native.release_calls, 2);
    assert_eq!(inhibitor.state(), InhibitorState::Inactive);
}

#[test]
fn inhibitor_is_sendable_for_lifecycle_ownership() {
    fn assert_send<T: Send>() {}

    assert_send::<IdleSleepInhibitor>();
}

struct Iokit {
    inhibitor: MacOsInhibitor,
    create_calls: Vec<(&'static str, u32, &'static str)>,
    create_results: VecDeque<Result<u32, i32>>,
    release_calls: Vec<u32>,
    release_results: VecDeque<Result<(), i32>>,
}

impl Iokit {
    fn new() -> Self {
        Self {
            inhibitor: MacOsInhibitor::new(),
            create_calls: Vec::new(),
            create_results: VecDeque::new(),
            release_calls: Vec::new(),
            release_results: VecDeque::new(),
        }
    }

    fn cleanup_on_drop(&mut self) {
        if let Some(id) = self.inhibitor.cleanup_on_drop() {
            self.release_calls.push(id);
        }
    }
}

impl Native for Iokit {
    fn state(&self) -> InhibitorState {
        self.inhibitor.state()
    }

    fn acquire(&mut self) -> Result<(), InhibitorError> {
        let AssertionRequest {
            assertion_type,
            assertion_level,
            assertion_name,
        } = self.inhibitor.acquire();
        self.create_calls
            .push((assertion_type, assertion_level, assertion_name));
        let created = self.create_results.pop_front().unwrap_or(Ok(73));
        self.inhibitor.acquired(created)
    }

    fn release(&mut self) -> Result<(), InhibitorError> {
        assert_eq!(self.inhibitor.state(), InhibitorState::Active);
        self.release_calls.push(self.inhibitor.release());
        let outcome = self.release_results.pop_front().unwrap_or(Ok(()));
        self.inhibitor.released(outcome)
    }
}

#[test]
fn acquisition_uses_only_the_idle_system_sleep_assertion() {
    let mut native = Iokit::new();

    native.acquire().expect("acquisition should succeed");

    assert_eq!(
        native.create_calls,
        [(ASSERTION_TYPE, ASSERTION_LEVEL_ON, ASSERTION_NAME)]
    );
    assert_eq!(ASSERTION_LEVEL_ON, 255);
}

#[test]
fn release_uses_the_exact_owned_assertion_id() {
    let mut native = Iokit::new();
    native.acquire().expect("acquisition should succeed");

    native.release().expect("release should succeed");

    assert_eq!(native.release_calls, [73]);
}

#[test]
fn failed_release_preserves_the_assertion_for_retry() {
    let mut native = Iokit::new();
    native.release_results.push_back(Err(-536_870_206));
    native.acquire().expect("acquisition should succeed");

    let error = native.release().expect_err("first release should fail");
    native.release().expect("release retry should succeed");

    assert_eq!(
        error.primary(),
        NativeFailure::new(
            NativeOperation::Release,
            NativeErrorCode::MacOs(-536_870_206)
        )
    );
    assert_eq!(native.release_calls, [73, 73]);
}

#[test]
fn failed_creation_preserves_the_iokit_error() {
    let mut native = Iokit::new();
    native.create_results.push_back(Err(-536_870_212));

    let error = native.acquire().expect_err("creation should fail");

    assert_eq!(
        error.primary(),
        NativeFailure::new(
            NativeOperation::Acquire,
            NativeErrorCode::MacOs(-536_870_212)
        )
    );
    assert_eq!(error.cleanup(), None);
}

#[test]
fn drop_releases_only_an_active_assertion() {
    let mut inactive = Iokit::new();
    inactive.cleanup_on_drop();
    assert!(inactive.release_calls.is_empty());

    let mut active = Guarded::with_native(Iokit::new());
    active.acquire().expect("acquisition should succeed");
    active.native.cleanup_on_drop();
    active.native.cleanup_on_drop();

    assert_eq!(active.native.release_calls, [73]);
}

struct PowerApi {
    inhibitor: WindowsInhibitor,
    calls: Vec<PowerCall>,
    create_error: Option<u32>,
    set_results: VecDeque<Result<(), u32>>,
    clear_results: VecDeque<Result<(), u32>>,
    close_results: VecDeque<Result<(), u32>>,
    next_handle_id: usize,
}

impl PowerApi {
    fn new() -> Self {
        Self {
            inhibitor: WindowsInhibitor::new(),
            calls: Vec::new(),
            create_error: None,
            set_results: VecDeque::new(),
            clear_results: VecDeque::new(),
            close_results: VecDeque::new(),
            next_handle_id: 1,
        }
    }

    fn drive(&mut self, progress: WindowsProgress) -> Result<(), InhibitorError> {
        let mut progress = progress;
        loop {
            let call = match progress {
                WindowsProgress::Done(result) => return result,
                WindowsProgress::Call(call) => call,
            };
            self.calls.push(call);
            progress = match call {
                PowerCall::Create { .. } => {
                    let created = match self.create_error.take() {
                        Some(code) => Err(code),
                        None => {
                            let handle = self.next_handle_id;
                            self.next_handle_id += 1;
                            Ok(handle)
                        }
                    };
                    self.inhibitor.created(created)
                }
                PowerCall::SetRequest { .. } => {
                    let outcome = self.set_results.pop_front().unwrap_or(Ok(()));
                    self.inhibitor.returned(outcome)
                }
                PowerCall::Clear { .. } => {
                    let outcome = self.clear_results.pop_front().unwrap_or(Ok(()));
                    self.inhibitor.returned(outcome)
                }
                PowerCall::Close { .. } => {
                    let outcome = self.close_results.pop_front().unwrap_or(Ok(()));
                    self.inhibitor.returned(outcome)
                }
            };
        }
    }

    fn cleanup_on_drop(&mut self) {
        let calls = self.inhibitor.cleanup_on_drop();
        self.calls.extend(calls);
    }
}

impl Native for PowerApi {
    fn state(&self) -> InhibitorState {
        self.inhibitor.state()
    }

    fn acquire(&mut self) -> Result<(), InhibitorError> {
        let progress = self.inhibitor.acquire();
        self.drive(progress)
    }

    fn release(&mut self) -> Result<(), InhibitorError> {
        assert_eq!(self.inhibitor.state(), InhibitorState::Active);
        let progress = self.inhibitor.release();
        self.drive(progress)
    }
}

fn create() -> PowerCall {
    PowerCall::Create {
        reason: REQUEST_REASON,
    }
}

fn set(handle: usize) -> PowerCall {
    PowerCall::SetRequest {
        handle,
        request_type: SYSTEM_REQUIRED,
    }
}

fn clear(handle: usize) -> PowerCall {
    PowerCall::Clear {
        handle,
        request_type: SYSTEM_REQUIRED,
    }
}

fn close(handle: usize) -> PowerCall {
    PowerCall::Close { handle }
}

#[test]
fn acquisition_sets_only_system_required_with_a_stable_reason() {
    let mut native = PowerApi::new();

    native.acquire().expect("acquisition should succeed");

    assert_eq!(native.calls, [create(), set(1)]);
    assert_eq!(SYSTEM_REQUIRED, 1);
}

#[test]
fn request_creation_failure_stops_before_setting_a_request() {
    let mut native = PowerApi::new();
    native.create_error = Some(5);

    let error = native.acquire().expect_err("creation should fail");

    assert_eq!(
        error.primary(),
        NativeFailure::new(NativeOperation::Acquire, NativeErrorCode::Windows(5))
    );
    assert_eq!(error.cleanup(), None);
    assert_eq!(native.calls, [create()]);
}

#[test]
fn failed_set_closes_the_partial_request_and_preserves_the_error() {
    let mut native = PowerApi::new();
    native.set_results.push_back(Err(5));

    let error = native.acquire().expect_err("set should fail");

    assert_eq!(
        error.primary(),
        NativeFailure::new(NativeOperation::Acquire, NativeErrorCode::Windows(5))
    );
    assert_eq!(error.cleanup(), None);
    assert_eq!(native.calls, [create(), set(1), close(1)]);
}

#[test]
fn set_and_close_failures_are_both_preserved_before_reacquisition() {
    let mut api = PowerApi::new();
    api.set_results.extend([Err(5), Ok(())]);
    api.close_results.extend([Err(6), Ok(())]);
    let mut inhibitor = Guarded::with_native(api);

    let error = inhibitor.acquire().expect_err("set and close should fail");
    assert_eq!(
        error.primary(),
        NativeFailure::new(NativeOperation::Acquire, NativeErrorCode::Windows(5))
    );
    assert_eq!(
        error.cleanup(),
        Some(NativeFailure::new(
            NativeOperation::Cleanup,
            NativeErrorCode::Windows(6)
        ))
    );
    assert_eq!(inhibitor.state(), InhibitorState::Inactive);

    inhibitor.acquire().expect("reacquisition should recover");
    assert_eq!(inhibitor.state(), InhibitorState::Active);
    assert_eq!(
        inhibitor.native.calls,
        [create(), set(1), close(1), close(1), create(), set(2)]
    );
}

#[test]
fn reacquisition_does_not_create_a_request_while_cleanup_still_fails() {
    let mut api = PowerApi::new();
    api.set_results.push_back(Err(5));
    api.close_results.extend([Err(6), Err(7)]);
    let mut inhibitor = Guarded::with_native(api);
    inhibitor.acquire().expect_err("set and close should fail");

    let error = inhibitor.acquire().expect_err("cleanup retry should fail");

    assert_eq!(
        error.primary(),
        NativeFailure::new(NativeOperation::Cleanup, NativeErrorCode::Windows(7))
    );
    assert_eq!(inhibitor.state(), InhibitorState::Inactive);
    assert_eq!(
        inhibitor.native.calls,
        [create(), set(1), close(1), close(1)]
    );
}

#[test]
fn failed_clear_remains_active_and_retries_the_same_request() {
    let mut api = PowerApi::new();
    api.clear_results.extend([Err(8), Ok(())]);
    let mut inhibitor = Guarded::with_native(api);
    inhibitor.acquire().expect("acquisition should succeed");

    let error = inhibitor.release().expect_err("clear should fail");
    assert_eq!(
        error.primary(),
        NativeFailure::new(NativeOperation::Release, NativeErrorCode::Windows(8))
    );
    assert_eq!(inhibitor.state(), InhibitorState::Active);

    inhibitor.release().expect("clear retry should succeed");
    assert_eq!(inhibitor.state(), InhibitorState::Inactive);
    assert_eq!(
        inhibitor.native.calls,
        [create(), set(1), clear(1), clear(1), close(1)]
    );
}

#[test]
fn close_failure_after_clear_is_inactive_and_recovers_before_reacquisition() {
    let mut api = PowerApi::new();
    api.close_results.extend([Err(9), Ok(())]);
    let mut inhibitor = Guarded::with_native(api);
    inhibitor.acquire().expect("acquisition should succeed");

    let error = inhibitor.release().expect_err("close should fail");
    assert_eq!(
        error.primary(),
        NativeFailure::new(NativeOperation::Cleanup, NativeErrorCode::Windows(9))
    );
    assert_eq!(inhibitor.state(), InhibitorState::Inactive);

    inhibitor
        .release()
        .expect("duplicate release should be a no-op");
    inhibitor.acquire().expect("reacquisition should recover");
    assert_eq!(inhibitor.state(), InhibitorState::Active);
    assert_eq!(
        inhibitor.native.calls,
        [
            create(),
            set(1),
            clear(1),
            close(1),
            close(1),
            create(),
            set(2),
        ]
    );
}

#[test]
fn drop_cleans_only_owned_windows_resources() {
    let mut inactive = PowerApi::new();
    inactive.cleanup_on_drop();
    assert!(inactive.calls.is_empty());

    let mut active = Guarded::with_native(PowerApi::new());
    active.acquire().expect("acquisition should succeed");
    active.native.cleanup_on_drop();
    assert_eq!(
        active.native.calls,
        [create(), set(1), clear(1), close(1)]
    );

    let mut debt_api = PowerApi::new();
    debt_api.set_results.push_back(Err(5));
    debt_api.close_results.push_back(Err(6));
    let mut cleanup_debt = Guarded::with_native(debt_api);
    cleanup_debt
        .acquire()
        .expect_err("set and close should fail");
    cleanup_debt.native.cleanup_on_drop();
    assert_eq!(
        cleanup_debt.native.calls,
        [create(), set(1), close(1), close(1)]
    );
}

#[test]
fn inhibitor_errors_name_the_operation_the_platform_and_the_code() {
    let acquire = NativeFailure::new(
        NativeOperation::Acquire,
        NativeErrorCode::MacOs(-536_870_212),
    );
    let cleanup = NativeFailure::new(NativeOperation::Cleanup, NativeErrorCode::Windows(6));

    assert_eq!(
        InhibitorError::new(acquire).message(),
        format!(
            "idle-sleep inhibitor {:?} failed with {:?}",
            acquire.operation(),
            acquire.code()
        )
    );
    assert_eq!(
        InhibitorError::with_cleanup(acquire, cleanup).message(),
        "idle-sleep inhibitor Acquire failed with MacOs(-536870212); cleanup Cleanup failed with Windows(6)"
    );
    assert_eq!(
        InhibitorError::new(NativeFailure::new(
            NativeOperation::Release,
            NativeErrorCode::MacOs(i32::MIN)
        ))
        .message(),
        "idle-sleep inhibitor Release failed with MacOs(-2147483648)"
    );
}
