//! The life of the program: settings are restored, the capabilities are
//! started in their order, and what was started is stopped in the reverse
//! order.
//!
//! Starting and stopping are the caller's: an operation answers what to do
//! next, and is told how it went.

pub mod laws;

use vstd::prelude::*;
use vstd::string::*;

verus! {

/// A part of the program that is started and stopped by itself.
#[derive(Clone, Copy, Debug, PartialEq, Eq, Hash)]
pub struct CapabilityId(pub &'static str);

impl CapabilityId {
    /// The capability with a name.
    pub fn new(value: &'static str) -> (r: CapabilityId)
        ensures
            r == CapabilityId(value),
    {
        CapabilityId(value)
    }

    /// The name.
    pub fn as_str(self) -> (r: &'static str)
        ensures
            r == self.0,
    {
        self.0
    }
}

/// Where starting came to its end.
#[derive(Clone, Copy, Debug, PartialEq, Eq)]
pub enum StartupFailurePoint {
    Settings,
    Required(CapabilityId),
}

/// Where the program is in its life.
#[derive(Clone, Copy, Debug, PartialEq, Eq, Structural)]
pub enum ApplicationStatus {
    Starting,
    Ready,
    Degraded,
    Failed,
    ShuttingDown,
    Stopped,
}

/// The name of a status.
pub open spec fn status_word(status: ApplicationStatus) -> Seq<char> {
    match status {
        ApplicationStatus::Starting => "Starting"@,
        ApplicationStatus::Ready => "Ready"@,
        ApplicationStatus::Degraded => "Degraded"@,
        ApplicationStatus::Failed => "Failed"@,
        ApplicationStatus::ShuttingDown => "ShuttingDown"@,
        ApplicationStatus::Stopped => "Stopped"@,
    }
}

fn status_name(status: ApplicationStatus) -> (r: &'static str)
    ensures
        r@ == status_word(status),
{
    match status {
        ApplicationStatus::Starting => "Starting",
        ApplicationStatus::Ready => "Ready",
        ApplicationStatus::Degraded => "Degraded",
        ApplicationStatus::Failed => "Failed",
        ApplicationStatus::ShuttingDown => "ShuttingDown",
        ApplicationStatus::Stopped => "Stopped",
    }
}

/// What the program shows of its life.
#[derive(Clone, Debug, PartialEq, Eq)]
pub struct ApplicationSnapshot {
    pub status: ApplicationStatus,
    pub unavailable_capabilities: Vec<CapabilityId>,
    pub startup_failure: Option<StartupFailurePoint>,
    pub cleanup_failures: Vec<CapabilityId>,
}

/// What the program shows of its life, as a mathematical value.
pub ghost struct StateModel {
    pub status: ApplicationStatus,
    pub unavailable: Seq<CapabilityId>,
    pub startup_failure: Option<StartupFailurePoint>,
    pub cleanup: Seq<CapabilityId>,
}

impl View for ApplicationSnapshot {
    type V = StateModel;

    open spec fn view(&self) -> StateModel {
        StateModel {
            status: self.status,
            unavailable: self.unavailable_capabilities@,
            startup_failure: self.startup_failure,
            cleanup: self.cleanup_failures@,
        }
    }
}

fn copy_capabilities(list: &Vec<CapabilityId>) -> (r: Vec<CapabilityId>)
    ensures
        r@ == list@,
{
    let mut r: Vec<CapabilityId> = Vec::new();
    let mut i: usize = 0;
    while i < list.len()
        invariant
            i <= list.len(),
            r@ == list@.take(i as int),
        decreases list.len() - i,
    {
        r.push(list[i]);
        i = i + 1;
        assert(r@ =~= list@.take(i as int));
    }
    assert(list@.take(i as int) =~= list@);
    r
}

impl ApplicationSnapshot {
    /// A program that has not begun to start.
    pub fn new() -> (r: ApplicationSnapshot)
        ensures
            r@ == StateModel::initial(),
    {
        let r = ApplicationSnapshot {
            status: ApplicationStatus::Starting,
            unavailable_capabilities: Vec::new(),
            startup_failure: None,
            cleanup_failures: Vec::new(),
        };
        assert(r.unavailable_capabilities@ =~= Seq::empty());
        assert(r.cleanup_failures@ =~= Seq::empty());
        r
    }

    /// Where the program is in its life.
    pub fn status(&self) -> (r: ApplicationStatus)
        ensures
            r == self@.status,
    {
        self.status
    }

    /// The optional capabilities that could not be started.
    pub fn unavailable_capabilities(&self) -> (r: &Vec<CapabilityId>)
        ensures
            r@ == self@.unavailable,
    {
        &self.unavailable_capabilities
    }

    /// Where starting came to its end, if it did.
    pub fn startup_failure(&self) -> (r: Option<StartupFailurePoint>)
        ensures
            r == self@.startup_failure,
    {
        self.startup_failure
    }

    /// The capabilities that could not be stopped.
    pub fn cleanup_failures(&self) -> (r: &Vec<CapabilityId>)
        ensures
            r@ == self@.cleanup,
    {
        &self.cleanup_failures
    }

    /// The same once more.
    pub fn copy(&self) -> (r: ApplicationSnapshot)
        ensures
            r@ == self@,
    {
        ApplicationSnapshot {
            status: self.status,
            unavailable_capabilities: copy_capabilities(&self.unavailable_capabilities),
            startup_failure: self.startup_failure,
            cleanup_failures: copy_capabilities(&self.cleanup_failures),
        }
    }
}

impl StateModel {
    /// A program that has not begun to start.
    pub open spec fn initial() -> StateModel {
        StateModel {
            status: ApplicationStatus::Starting,
            unavailable: Seq::empty(),
            startup_failure: None,
            cleanup: Seq::empty(),
        }
    }
}

/// A capability that could not be started or stopped, and why.
#[derive(Clone, Debug, PartialEq, Eq)]
pub struct OperationFailure {
    pub capability: CapabilityId,
    pub message: String,
}

/// A failure as a mathematical value.
pub ghost struct FailureModel {
    pub capability: CapabilityId,
    pub message: Seq<char>,
}

impl View for OperationFailure {
    type V = FailureModel;

    open spec fn view(&self) -> FailureModel {
        FailureModel { capability: self.capability, message: self.message@ }
    }
}

impl OperationFailure {
    /// The capability.
    pub fn capability(&self) -> (r: CapabilityId)
        ensures
            r == self@.capability,
    {
        self.capability
    }

    /// Why.
    pub fn message(&self) -> (r: &str)
        ensures
            r@ == self@.message,
    {
        self.message.as_str()
    }
}

/// The views of failures.
pub open spec fn failure_views(failures: Seq<OperationFailure>) -> Seq<FailureModel> {
    failures.map_values(|failure: OperationFailure| failure@)
}

/// The capabilities of failures.
pub open spec fn failed_capabilities(failures: Seq<FailureModel>) -> Seq<CapabilityId> {
    failures.map_values(|failure: FailureModel| failure.capability)
}

/// A start that succeeded, perhaps without some optional capabilities.
#[derive(Clone, Debug, PartialEq, Eq)]
pub struct StartupReport {
    pub optional_failures: Vec<OperationFailure>,
}

impl StartupReport {
    /// The optional capabilities that could not be started.
    pub fn optional_failures(&self) -> (r: &Vec<OperationFailure>)
        ensures
            r@ == self.optional_failures@,
    {
        &self.optional_failures
    }
}

/// The end of the program.
#[derive(Clone, Debug, PartialEq, Eq)]
pub struct ShutdownReport {
    pub failures: Vec<OperationFailure>,
}

impl ShutdownReport {
    /// The capabilities that could not be stopped.
    pub fn failures(&self) -> (r: &Vec<OperationFailure>)
        ensures
            r@ == self.failures@,
    {
        &self.failures
    }
}

/// A start that did not succeed.
#[derive(Clone, Debug, PartialEq, Eq)]
pub struct StartError {
    pub failure_point: Option<StartupFailurePoint>,
    pub message: String,
    pub cleanup_failures: Vec<OperationFailure>,
}

impl StartError {
    /// Where starting came to its end, if it had begun.
    pub fn failure_point(&self) -> (r: Option<StartupFailurePoint>)
        ensures
            r == self.failure_point,
    {
        self.failure_point
    }

    /// The capabilities that could not be stopped again.
    pub fn cleanup_failures(&self) -> (r: &Vec<OperationFailure>)
        ensures
            r@ == self.cleanup_failures@,
    {
        &self.cleanup_failures
    }

    /// The error in words.
    pub fn message(&self) -> (r: &str)
        ensures
            r@ == self.message@,
    {
        self.message.as_str()
    }

    /// A start from a status from which there is none.
    fn invalid(status: ApplicationStatus) -> (r: StartError)
        ensures
            r.failure_point is None,
            r.message@ == invalid_words(status),
            failure_views(r.cleanup_failures@) == Seq::<FailureModel>::empty(),
    {
        let r = StartError {
            failure_point: None,
            message: String::from_str("cannot start application lifecycle from ").concat(
                status_name(status),
            ),
            cleanup_failures: Vec::new(),
        };
        assert(failure_views(r.cleanup_failures@) =~= Seq::<FailureModel>::empty());
        r
    }
}

/// Why there is no start from a status.
pub open spec fn invalid_words(status: ApplicationStatus) -> Seq<char> {
    "cannot start application lifecycle from "@ + status_word(status)
}

/// A capability in the plan. Without a required one the program does not run.
#[derive(Clone, Copy, Debug, PartialEq, Eq)]
pub struct Participant {
    pub capability: CapabilityId,
    pub required: bool,
}

/// The capabilities of the program in the order in which they are started.
#[derive(Clone, Debug, PartialEq, Eq)]
pub struct LifecyclePlan {
    pub participants: Vec<Participant>,
}

impl LifecyclePlan {
    /// A plan without capabilities.
    pub fn new() -> (r: LifecyclePlan)
        ensures
            r.participants@ == Seq::<Participant>::empty(),
    {
        let participants: Vec<Participant> = Vec::new();
        assert(participants@ =~= Seq::<Participant>::empty());
        LifecyclePlan { participants }
    }

    /// The plan with a required capability at its end.
    pub fn required(self, capability: CapabilityId) -> (r: LifecyclePlan)
        ensures
            r.participants@ == self.participants@.push(Participant { capability, required: true }),
    {
        let mut participants = self.participants;
        participants.push(Participant { capability, required: true });
        LifecyclePlan { participants }
    }

    /// The plan with an optional capability at its end.
    pub fn optional(self, capability: CapabilityId) -> (r: LifecyclePlan)
        ensures
            r.participants@ == self.participants@.push(Participant { capability, required: false }),
    {
        let mut participants = self.participants;
        participants.push(Participant { capability, required: false });
        LifecyclePlan { participants }
    }

    /// The life of a program with this plan.
    pub fn build(self) -> (r: ApplicationLifecycle)
        ensures
            r@ == LifecycleModel::planned(self.participants@),
    {
        let r = ApplicationLifecycle {
            participants: self.participants,
            next: 0,
            restoring: false,
            resources: Vec::new(),
            state: ApplicationSnapshot::new(),
            phase: LifecyclePhase::Idle,
            failures: Vec::new(),
            message: String::new(),
        };
        assert(r.resources@ =~= Seq::empty());
        assert(failure_views(r.failures@) =~= Seq::<FailureModel>::empty());
        assert(r@.message =~= LifecycleModel::planned(self.participants@).message);
        r
    }
}

/// What is under way.
#[derive(Clone, Copy, Debug, PartialEq, Eq, Structural)]
pub enum LifecyclePhase {
    /// Nothing.
    Idle,
    /// The settings are being restored.
    Restoring,
    /// The capabilities are being started.
    Starting,
    /// What was started is being stopped, because a required capability could
    /// not be.
    RollingBack,
    /// What was started is being stopped, because the program ends.
    Stopping,
}

/// What to do next.
#[derive(Clone, Debug, PartialEq, Eq)]
pub enum LifecycleStep {
    /// Restore the settings.
    RestoreSettings,
    /// Start a capability.
    Start(CapabilityId),
    /// Stop a capability.
    Stop(CapabilityId),
    /// Nothing: the program has started.
    Started(StartupReport),
    /// Nothing: the program has not started.
    StartFailed(StartError),
    /// Nothing: the program has ended.
    ShutDown(ShutdownReport),
}

/// What to do next, as a mathematical value.
pub ghost enum StepModel {
    RestoreSettings,
    Start(CapabilityId),
    Stop(CapabilityId),
    Started(Seq<FailureModel>),
    StartFailed {
        point: Option<StartupFailurePoint>,
        message: Seq<char>,
        cleanup: Seq<FailureModel>,
    },
    ShutDown(Seq<FailureModel>),
}

impl View for LifecycleStep {
    type V = StepModel;

    open spec fn view(&self) -> StepModel {
        match *self {
            LifecycleStep::RestoreSettings => StepModel::RestoreSettings,
            LifecycleStep::Start(capability) => StepModel::Start(capability),
            LifecycleStep::Stop(capability) => StepModel::Stop(capability),
            LifecycleStep::Started(report) => StepModel::Started(
                failure_views(report.optional_failures@),
            ),
            LifecycleStep::StartFailed(error) => StepModel::StartFailed {
                point: error.failure_point,
                message: error.message@,
                cleanup: failure_views(error.cleanup_failures@),
            },
            LifecycleStep::ShutDown(report) => StepModel::ShutDown(failure_views(report.failures@)),
        }
    }
}

/// The life of the program as a mathematical value.
pub ghost struct LifecycleModel {
    pub participants: Seq<Participant>,
    /// How many capabilities were tried.
    pub next: nat,
    /// Whether restoring the settings has begun.
    pub restoring: bool,
    /// The capabilities that run, in the order in which they were started.
    pub resources: Seq<CapabilityId>,
    pub state: StateModel,
    pub phase: LifecyclePhase,
    /// The failures of what is under way.
    pub failures: Seq<FailureModel>,
    /// Why the start is being rolled back.
    pub message: Seq<char>,
}

impl LifecycleModel {
    /// The life of a program that has not begun to start.
    pub open spec fn planned(participants: Seq<Participant>) -> LifecycleModel {
        LifecycleModel {
            participants,
            next: 0,
            restoring: false,
            resources: Seq::empty(),
            state: StateModel::initial(),
            phase: LifecyclePhase::Idle,
            failures: Seq::empty(),
            message: Seq::empty(),
        }
    }

    /// With another status.
    pub open spec fn with_status(self, status: ApplicationStatus) -> LifecycleModel {
        LifecycleModel { state: StateModel { status, ..self.state }, ..self }
    }

    /// With nothing under way.
    pub open spec fn idle(self) -> LifecycleModel {
        LifecycleModel { phase: LifecyclePhase::Idle, failures: Seq::empty(), ..self }
    }

    /// The beginning of a start: there is one, and only one.
    pub open spec fn starting(self) -> (LifecycleModel, StepModel) {
        if self.state.status == ApplicationStatus::Starting && !self.restoring {
            (
                LifecycleModel { restoring: true, phase: LifecyclePhase::Restoring, ..self },
                StepModel::RestoreSettings,
            )
        } else {
            (
                self,
                StepModel::StartFailed {
                    point: None,
                    message: invalid_words(self.state.status),
                    cleanup: Seq::empty(),
                },
            )
        }
    }

    /// The next capability, or the end of the start: the program runs in full
    /// or without some optional capabilities.
    pub open spec fn next_start(self) -> (LifecycleModel, StepModel) {
        if self.next < self.participants.len() {
            (self, StepModel::Start(self.participants[self.next as int].capability))
        } else if self.failures.len() == 0 {
            (
                self.with_status(ApplicationStatus::Ready).idle(),
                StepModel::Started(Seq::empty()),
            )
        } else {
            (
                self.with_status(ApplicationStatus::Degraded).idle(),
                StepModel::Started(self.failures),
            )
        }
    }

    /// The start failed at a point.
    pub open spec fn marked(self, point: StartupFailurePoint) -> LifecycleModel {
        LifecycleModel {
            state: StateModel {
                status: ApplicationStatus::Failed,
                startup_failure: Some(point),
                ..self.state
            },
            ..self
        }
    }

    /// After the settings were restored, or could not be: without settings no
    /// capability is started.
    pub open spec fn after_restore(self, outcome: Result<(), Seq<char>>) -> (
        LifecycleModel,
        StepModel,
    ) {
        match outcome {
            Ok(_) => LifecycleModel { phase: LifecyclePhase::Starting, ..self }.next_start(),
            Err(message) => (
                self.marked(StartupFailurePoint::Settings).idle(),
                StepModel::StartFailed {
                    point: Some(StartupFailurePoint::Settings),
                    message,
                    cleanup: Seq::empty(),
                },
            ),
        }
    }

    /// After a capability was started, or could not be. One that is required
    /// ends the start; the others do not.
    pub open spec fn after_start(self, outcome: Result<(), Seq<char>>) -> (
        LifecycleModel,
        StepModel,
    ) {
        let participant = self.participants[self.next as int];
        let capability = participant.capability;
        let tried = LifecycleModel { next: self.next + 1, ..self };
        match outcome {
            Ok(_) => LifecycleModel {
                resources: tried.resources.push(capability),
                ..tried
            }.next_start(),
            Err(message) => if participant.required {
                LifecycleModel {
                    phase: LifecyclePhase::RollingBack,
                    failures: Seq::empty(),
                    message,
                    ..tried.marked(StartupFailurePoint::Required(capability))
                }.next_stop()
            } else {
                LifecycleModel {
                    state: StateModel {
                        unavailable: tried.state.unavailable.push(capability),
                        ..tried.state
                    },
                    failures: tried.failures.push(FailureModel { capability, message }),
                    ..tried
                }.next_start()
            },
        }
    }

    /// The next capability to stop, which is the last that was started, or
    /// the end.
    pub open spec fn next_stop(self) -> (LifecycleModel, StepModel) {
        let ended = LifecycleModel {
            state: StateModel {
                cleanup: self.state.cleanup + failed_capabilities(self.failures),
                ..self.state
            },
            ..self
        }.idle();
        if self.resources.len() > 0 {
            (self, StepModel::Stop(self.resources.last()))
        } else if self.phase == LifecyclePhase::RollingBack {
            (
                ended,
                StepModel::StartFailed {
                    point: self.state.startup_failure,
                    message: self.message,
                    cleanup: self.failures,
                },
            )
        } else {
            (ended.with_status(ApplicationStatus::Stopped), StepModel::ShutDown(self.failures))
        }
    }

    /// After a capability was stopped, or could not be: either way it is no
    /// longer the program's, and the next one is stopped.
    pub open spec fn after_stop(self, outcome: Result<(), Seq<char>>) -> (
        LifecycleModel,
        StepModel,
    ) {
        LifecycleModel {
            resources: self.resources.drop_last(),
            failures: match outcome {
                Ok(_) => self.failures,
                Err(message) => self.failures.push(
                    FailureModel { capability: self.resources.last(), message },
                ),
            },
            ..self
        }.next_stop()
    }

    /// Whether the program has been told to end.
    pub open spec fn ending(self) -> bool {
        self.state.status == ApplicationStatus::ShuttingDown || self.state.status
            == ApplicationStatus::Stopped
    }

    /// The beginning of the end. A program that has ended has nothing to stop.
    pub open spec fn stopping(self) -> (LifecycleModel, StepModel) {
        if self.state.status == ApplicationStatus::Stopped {
            (self, StepModel::ShutDown(Seq::empty()))
        } else {
            LifecycleModel {
                phase: LifecyclePhase::Stopping,
                failures: Seq::empty(),
                ..self.with_status(ApplicationStatus::ShuttingDown)
            }.next_stop()
        }
    }
}

/// The outcome of an operation as a mathematical value.
pub open spec fn outcome_view(outcome: Result<(), String>) -> Result<(), Seq<char>> {
    match outcome {
        Ok(_) => Ok(()),
        Err(message) => Err(message@),
    }
}

/// The life of the program.
#[derive(Debug)]
pub struct ApplicationLifecycle {
    participants: Vec<Participant>,
    next: usize,
    restoring: bool,
    resources: Vec<CapabilityId>,
    state: ApplicationSnapshot,
    phase: LifecyclePhase,
    failures: Vec<OperationFailure>,
    message: String,
}

impl View for ApplicationLifecycle {
    type V = LifecycleModel;

    closed spec fn view(&self) -> LifecycleModel {
        LifecycleModel {
            participants: self.participants@,
            next: self.next as nat,
            restoring: self.restoring,
            resources: self.resources@,
            state: self.state@,
            phase: self.phase,
            failures: failure_views(self.failures@),
            message: self.message@,
        }
    }
}

impl ApplicationLifecycle {
    /// What the program shows of its life.
    pub fn state(&self) -> (r: ApplicationSnapshot)
        ensures
            r@ == self@.state,
    {
        self.state.copy()
    }

    /// What is under way.
    pub fn phase(&self) -> (r: LifecyclePhase)
        ensures
            r == self@.phase,
    {
        self.phase
    }

    fn take_failures(&mut self) -> (r: Vec<OperationFailure>)
        ensures
            failure_views(r@) == old(self)@.failures,
            r@.len() == old(self)@.failures.len(),
            final(self)@ == (LifecycleModel { failures: Seq::empty(), ..old(self)@ }),
    {
        let mut taken: Vec<OperationFailure> = Vec::new();
        core::mem::swap(&mut self.failures, &mut taken);
        assert(failure_views(self.failures@) =~= Seq::<FailureModel>::empty());
        taken
    }

    fn add_failure(&mut self, capability: CapabilityId, message: String)
        ensures
            final(self)@ == (LifecycleModel {
                failures: old(self)@.failures.push(FailureModel { capability, message: message@ }),
                ..old(self)@
            }),
    {
        let ghost before = self.failures@;
        self.failures.push(OperationFailure { capability, message });
        assert(failure_views(self.failures@) =~= failure_views(before).push(
            FailureModel { capability, message: message@ },
        ));
    }

    /// Begins to start the program. That is done once; any other time it is
    /// an error, and nothing is started.
    pub fn start(&mut self) -> (r: LifecycleStep)
        requires
            old(self)@.phase == LifecyclePhase::Idle,
        ensures
            (final(self)@, r@) == old(self)@.starting(),
    {
        match self.state.status {
            ApplicationStatus::Starting => {
                if self.restoring {
                    LifecycleStep::StartFailed(StartError::invalid(ApplicationStatus::Starting))
                } else {
                    self.restoring = true;
                    self.phase = LifecyclePhase::Restoring;
                    LifecycleStep::RestoreSettings
                }
            },
            status => LifecycleStep::StartFailed(StartError::invalid(status)),
        }
    }

    fn next_start(&mut self) -> (r: LifecycleStep)
        ensures
            (final(self)@, r@) == old(self)@.next_start(),
    {
        if self.next < self.participants.len() {
            return LifecycleStep::Start(self.participants[self.next].capability);
        }
        let optional_failures = self.take_failures();
        self.phase = LifecyclePhase::Idle;
        if optional_failures.len() == 0 {
            self.state.status = ApplicationStatus::Ready;
            assert(failure_views(optional_failures@) =~= Seq::<FailureModel>::empty());
        } else {
            self.state.status = ApplicationStatus::Degraded;
        }
        LifecycleStep::Started(StartupReport { optional_failures })
    }

    fn mark_startup_failed(&mut self, failure_point: StartupFailurePoint)
        ensures
            final(self)@ == old(self)@.marked(failure_point),
    {
        self.state.status = ApplicationStatus::Failed;
        self.state.startup_failure = Some(failure_point);
    }

    /// Goes on after the settings were restored, or could not be.
    pub fn restored(&mut self, outcome: Result<(), String>) -> (r: LifecycleStep)
        requires
            old(self)@.phase == LifecyclePhase::Restoring,
        ensures
            (final(self)@, r@) == old(self)@.after_restore(outcome_view(outcome)),
    {
        match outcome {
            Ok(()) => {
                self.phase = LifecyclePhase::Starting;
                self.next_start()
            },
            Err(message) => {
                let failure_point = StartupFailurePoint::Settings;
                self.mark_startup_failed(failure_point);
                self.phase = LifecyclePhase::Idle;
                let dropped = self.take_failures();
                let cleanup_failures: Vec<OperationFailure> = Vec::new();
                assert(failure_views(cleanup_failures@) =~= Seq::<FailureModel>::empty());
                LifecycleStep::StartFailed(
                    StartError { failure_point: Some(failure_point), message, cleanup_failures },
                )
            },
        }
    }

    /// Goes on after the capability that was to be started was, or could not
    /// be. One that could not has nothing left to stop.
    pub fn participant_started(&mut self, outcome: Result<(), String>) -> (r: LifecycleStep)
        requires
            old(self)@.phase == LifecyclePhase::Starting,
            old(self)@.next < old(self)@.participants.len(),
        ensures
            (final(self)@, r@) == old(self)@.after_start(outcome_view(outcome)),
    {
        let participant = self.participants[self.next];
        let capability = participant.capability;
        assert(self.next < self.participants.len());
        self.next = self.next + 1;
        match outcome {
            Ok(()) => {
                self.resources.push(capability);
                self.next_start()
            },
            Err(message) => {
                if participant.required {
                    self.mark_startup_failed(StartupFailurePoint::Required(capability));
                    let dropped = self.take_failures();
                    self.phase = LifecyclePhase::RollingBack;
                    self.message = message;
                    self.next_stop()
                } else {
                    self.state.unavailable_capabilities.push(capability);
                    self.add_failure(capability, message);
                    self.next_start()
                }
            },
        }
    }

    fn record_cleanup_failures(&mut self, failures: &Vec<OperationFailure>)
        ensures
            final(self)@ == (LifecycleModel {
                state: StateModel {
                    cleanup: old(self)@.state.cleanup + failed_capabilities(
                        failure_views(failures@),
                    ),
                    ..old(self)@.state
                },
                ..old(self)@
            }),
    {
        let ghost start = self.state.cleanup_failures@;
        let ghost all = failed_capabilities(failure_views(failures@));
        let mut i: usize = 0;
        assert(start + all.take(0) =~= start);
        while i < failures.len()
            invariant
                i <= failures.len(),
                all == failed_capabilities(failure_views(failures@)),
                self.state.cleanup_failures@ == start + all.take(i as int),
                self@ == (LifecycleModel {
                    state: StateModel { cleanup: start + all.take(i as int), ..old(self)@.state },
                    ..old(self)@
                }),
            decreases failures.len() - i,
        {
            self.state.cleanup_failures.push(failures[i].capability);
            i = i + 1;
            assert(self.state.cleanup_failures@ =~= start + all.take(i as int));
        }
        assert(all.take(i as int) =~= all);
    }

    fn next_stop(&mut self) -> (r: LifecycleStep)
        ensures
            (final(self)@, r@) == old(self)@.next_stop(),
    {
        if self.resources.len() > 0 {
            return LifecycleStep::Stop(self.resources[self.resources.len() - 1]);
        }
        let failures = self.take_failures();
        self.record_cleanup_failures(&failures);
        match self.phase {
            LifecyclePhase::RollingBack => {
                self.phase = LifecyclePhase::Idle;
                LifecycleStep::StartFailed(
                    StartError {
                        failure_point: self.state.startup_failure,
                        message: self.message.clone(),
                        cleanup_failures: failures,
                    },
                )
            },
            _ => {
                self.phase = LifecyclePhase::Idle;
                self.state.status = ApplicationStatus::Stopped;
                LifecycleStep::ShutDown(ShutdownReport { failures })
            },
        }
    }

    /// Goes on after the capability that was to be stopped was, or could not
    /// be.
    pub fn participant_stopped(&mut self, outcome: Result<(), String>) -> (r: LifecycleStep)
        requires
            old(self)@.phase == LifecyclePhase::RollingBack || old(self)@.phase
                == LifecyclePhase::Stopping,
            old(self)@.resources.len() > 0,
        ensures
            (final(self)@, r@) == old(self)@.after_stop(outcome_view(outcome)),
    {
        match self.resources.pop() {
            Some(capability) => match outcome {
                Ok(()) => {},
                Err(message) => {
                    self.add_failure(capability, message);
                },
            },
            None => {},
        }
        self.next_stop()
    }

    /// Announces the end of the program, and answers whether that is news.
    pub fn request_shutdown(&mut self) -> (r: bool)
        ensures
            r == !old(self)@.ending(),
            final(self)@ == if old(self)@.ending() {
                old(self)@
            } else {
                old(self)@.with_status(ApplicationStatus::ShuttingDown)
            },
    {
        match self.state.status {
            ApplicationStatus::ShuttingDown => false,
            ApplicationStatus::Stopped => false,
            _ => {
                self.state.status = ApplicationStatus::ShuttingDown;
                true
            },
        }
    }

    /// Begins to stop what was started.
    pub fn shutdown(&mut self) -> (r: LifecycleStep)
        requires
            old(self)@.phase == LifecyclePhase::Idle,
        ensures
            (final(self)@, r@) == old(self)@.stopping(),
    {
        match self.state.status {
            ApplicationStatus::Stopped => {
                let failures: Vec<OperationFailure> = Vec::new();
                assert(failure_views(failures@) =~= Seq::<FailureModel>::empty());
                return LifecycleStep::ShutDown(ShutdownReport { failures });
            },
            _ => {},
        }
        let requested = self.request_shutdown();
        let dropped = self.take_failures();
        self.phase = LifecyclePhase::Stopping;
        self.next_stop()
    }
}

/// What is done from a point on where what was started is being stopped, and
/// in which state the program ends, given how stopping each would go.
pub open spec fn stop_run(
    model: LifecycleModel,
    outcomes: spec_fn(CapabilityId) -> Result<(), Seq<char>>,
) -> (
    LifecycleModel,
    Seq<CapabilityId>,
)
    decreases model.resources.len(),
{
    if model.resources.len() == 0 {
        (model.next_stop().0, Seq::empty())
    } else {
        let last = model.resources.last();
        let next = LifecycleModel {
            resources: model.resources.drop_last(),
            failures: match outcomes(last) {
                Ok(_) => model.failures,
                Err(message) => model.failures.push(FailureModel { capability: last, message }),
            },
            ..model
        };
        let rest = stop_run(next, outcomes);
        (rest.0, seq![last] + rest.1)
    }
}

/// Everything that was started is stopped, once, in the reverse order,
/// whatever becomes of it: a failure to stop one does not keep the others
/// running. Afterwards nothing runs.
pub proof fn everything_is_stopped_in_reverse(
    model: LifecycleModel,
    outcomes: spec_fn(CapabilityId) -> Result<(), Seq<char>>,
)
    ensures
        stop_run(model, outcomes).1 == model.resources.reverse(),
        stop_run(model, outcomes).0.resources.len() == 0,
        model.phase != LifecyclePhase::RollingBack ==> stop_run(model, outcomes).0.state.status
            == ApplicationStatus::Stopped,
    decreases model.resources.len(),
{
    if model.resources.len() > 0 {
        let last = model.resources.last();
        let next = LifecycleModel {
            resources: model.resources.drop_last(),
            failures: match outcomes(last) {
                Ok(_) => model.failures,
                Err(message) => model.failures.push(FailureModel { capability: last, message }),
            },
            ..model
        };
        everything_is_stopped_in_reverse(next, outcomes);
        assert(model.resources.reverse() =~= seq![last] + model.resources.drop_last().reverse());
    } else {
        assert(model.resources.reverse() =~= Seq::<CapabilityId>::empty());
    }
}

/// A program that has ended stays ended: ending it again stops nothing and
/// reports nothing, and it cannot be started.
pub proof fn the_end_is_final(model: LifecycleModel)
    requires
        model.state.status == ApplicationStatus::Stopped,
    ensures
        model.stopping() == (model, StepModel::ShutDown(Seq::empty())),
        model.starting().0 == model,
        model.starting().1 is StartFailed,
        model.ending(),
{
}

/// A program is started once: once it has begun to start, another start is
/// refused and changes nothing.
pub proof fn a_program_is_started_once(model: LifecycleModel)
    requires
        model.restoring || model.state.status != ApplicationStatus::Starting,
    ensures
        model.starting().0 == model,
        model.starting().1 is StartFailed,
        model.starting().1->point is None,
{
}

/// Whether an optional capability starts decides how the program is said to
/// run, and nothing else: the capabilities after it are started all the same.
pub proof fn an_optional_failure_stops_nothing(
    model: LifecycleModel,
    message: Seq<char>,
)
    requires
        model.next + 1 < model.participants.len(),
        !model.participants[model.next as int].required,
    ensures
        model.after_start(Err(message)).1 == model.after_start(Ok(())).1,
        model.after_start(Err(message)).0.resources == model.resources,
{
}

/// After the failure of a required capability no other is started: what
/// follows stops capabilities, or ends the start.
pub proof fn a_required_failure_starts_nothing(model: LifecycleModel, message: Seq<char>)
    requires
        model.next < model.participants.len(),
        model.participants[model.next as int].required,
    ensures
        ({
            let after = model.after_start(Err(message));
            &&& after.1 is Stop || after.1 is StartFailed
            &&& after.0.state.status == ApplicationStatus::Failed
            &&& after.0.state.startup_failure == Some(
                StartupFailurePoint::Required(model.participants[model.next as int].capability),
            )
            &&& after.0.state.unavailable == model.state.unavailable
        }),
{
}

} // verus!
