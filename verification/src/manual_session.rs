//! The manual session: the user's own request to keep the computer awake, for
//! a time or until it is stopped.
//!
//! Times are read from a monotonic clock and given as arguments. A command or
//! an expiry goes through the wake coordinator, and where the platform has to
//! be asked, the caller asks it and reports what came back.

pub mod laws;

use crate::duration::{Duration, MAX_NANOS, NANOS_PER_SECOND};
use crate::local_log::{EventOutcome, ManualCommandEvent, ProtectionAction, SafeEvent};
use crate::wake_coordinator::{ProtectionState, WakeCoordinator, WakeReason};
use vstd::prelude::*;
use vstd::string::*;

verus! {

/// The session as it is shown.
#[derive(Clone, Copy, Debug, PartialEq, Eq, Structural)]
pub enum ManualSessionState {
    Inactive,
    Finite { remaining: Duration },
    UntilDisabled,
}

/// The session as it is shown, with the failure of an expiry that no later
/// command has mended.
#[derive(Clone, Debug, PartialEq, Eq)]
pub struct ManualSessionSnapshot {
    pub state: ManualSessionState,
    pub background_failure: Option<String>,
}

/// What the user wants.
#[derive(Clone, Copy, Debug, PartialEq, Eq, Structural)]
pub enum ManualSessionIntent {
    Inactive,
    Finite { deadline: Duration },
    UntilDisabled,
}

/// How long a session is started for.
#[derive(Clone, Copy, Debug, PartialEq, Eq, Structural)]
pub enum ManualSessionStartPreset {
    FifteenMinutes,
    ThirtyMinutes,
    OneHour,
    TwoHours,
    FourHours,
    EightHours,
    UntilDisabled,
}

/// The number of nanoseconds in a number of minutes.
pub open spec fn minutes(count: nat) -> nat {
    count * 60 * NANOS_PER_SECOND as nat
}

impl ManualSessionStartPreset {
    /// The length of the session in nanoseconds, where it has one.
    pub open spec fn length(self) -> Option<nat> {
        match self {
            ManualSessionStartPreset::FifteenMinutes => Some(minutes(15)),
            ManualSessionStartPreset::ThirtyMinutes => Some(minutes(30)),
            ManualSessionStartPreset::OneHour => Some(minutes(60)),
            ManualSessionStartPreset::TwoHours => Some(minutes(120)),
            ManualSessionStartPreset::FourHours => Some(minutes(240)),
            ManualSessionStartPreset::EightHours => Some(minutes(480)),
            ManualSessionStartPreset::UntilDisabled => None,
        }
    }

    /// The length of the session, where it has one.
    pub fn duration(self) -> (r: Option<Duration>)
        ensures
            r is Some <==> self.length() is Some,
            r is Some ==> r->0@ == self.length()->0,
    {
        match self {
            ManualSessionStartPreset::FifteenMinutes => Some(Duration::from_secs(15 * 60)),
            ManualSessionStartPreset::ThirtyMinutes => Some(Duration::from_secs(30 * 60)),
            ManualSessionStartPreset::OneHour => Some(Duration::from_secs(60 * 60)),
            ManualSessionStartPreset::TwoHours => Some(Duration::from_secs(2 * 60 * 60)),
            ManualSessionStartPreset::FourHours => Some(Duration::from_secs(4 * 60 * 60)),
            ManualSessionStartPreset::EightHours => Some(Duration::from_secs(8 * 60 * 60)),
            ManualSessionStartPreset::UntilDisabled => None,
        }
    }
}

/// How much time is added to a session.
#[derive(Clone, Copy, Debug, PartialEq, Eq, Structural)]
pub enum ManualSessionAddPreset {
    FifteenMinutes,
    ThirtyMinutes,
    OneHour,
    TwoHours,
    FourHours,
}

impl ManualSessionAddPreset {
    /// The time that is added, in nanoseconds.
    pub open spec fn length(self) -> nat {
        match self {
            ManualSessionAddPreset::FifteenMinutes => minutes(15),
            ManualSessionAddPreset::ThirtyMinutes => minutes(30),
            ManualSessionAddPreset::OneHour => minutes(60),
            ManualSessionAddPreset::TwoHours => minutes(120),
            ManualSessionAddPreset::FourHours => minutes(240),
        }
    }

    /// The time that is added.
    pub fn duration(self) -> (r: Duration)
        ensures
            r@ == self.length(),
    {
        match self {
            ManualSessionAddPreset::FifteenMinutes => Duration::from_secs(15 * 60),
            ManualSessionAddPreset::ThirtyMinutes => Duration::from_secs(30 * 60),
            ManualSessionAddPreset::OneHour => Duration::from_secs(60 * 60),
            ManualSessionAddPreset::TwoHours => Duration::from_secs(2 * 60 * 60),
            ManualSessionAddPreset::FourHours => Duration::from_secs(4 * 60 * 60),
        }
    }
}

/// What the user can do with the session.
#[derive(Clone, Copy, Debug, PartialEq, Eq, Structural)]
pub enum ManualSessionCommand {
    Start(ManualSessionStartPreset),
    Add(ManualSessionAddPreset),
    ConvertToUntilDisabled,
    Stop,
}

/// Why a command did not succeed. A wake failure is given in the words of
/// the platform's inhibitor.
#[derive(Clone, Debug, PartialEq, Eq)]
pub enum ManualSessionError {
    InvalidTransition,
    DeadlineOverflow,
    Unavailable,
    WakeCoordination(String),
}

impl ManualSessionError {
    /// The error in words.
    pub open spec fn words(self) -> Seq<char> {
        match self {
            ManualSessionError::InvalidTransition => "invalid manual session transition"@,
            ManualSessionError::DeadlineOverflow => "manual session deadline overflow"@,
            ManualSessionError::Unavailable => "manual session is shutting down"@,
            ManualSessionError::WakeCoordination(error) => error@,
        }
    }

    /// The error in words.
    pub fn message(&self) -> (r: String)
        ensures
            r@ == self.words(),
    {
        match self {
            ManualSessionError::InvalidTransition => String::from_str(
                "invalid manual session transition",
            ),
            ManualSessionError::DeadlineOverflow => String::from_str(
                "manual session deadline overflow",
            ),
            ManualSessionError::Unavailable => String::from_str("manual session is shutting down"),
            ManualSessionError::WakeCoordination(error) => error.clone(),
        }
    }
}

/// Why the scheduler did not start or did not end well. A failure to start
/// its worker is given in the words of the platform.
#[derive(Clone, Debug, PartialEq, Eq)]
pub enum ManualSessionRuntimeError {
    AlreadyStarted,
    Spawn(String),
    WorkerPanicked,
}

impl ManualSessionRuntimeError {
    /// The error in words.
    pub open spec fn words(self) -> Seq<char> {
        match self {
            ManualSessionRuntimeError::AlreadyStarted =>
                "manual session scheduler already started"@,
            ManualSessionRuntimeError::Spawn(error) =>
                "failed to start manual session scheduler: "@ + error@,
            ManualSessionRuntimeError::WorkerPanicked => "manual session scheduler panicked"@,
        }
    }

    /// The error in words.
    pub fn message(&self) -> (r: String)
        ensures
            r@ == self.words(),
    {
        match self {
            ManualSessionRuntimeError::AlreadyStarted => String::from_str(
                "manual session scheduler already started",
            ),
            ManualSessionRuntimeError::Spawn(error) => String::from_str(
                "failed to start manual session scheduler: ",
            ).concat(error.as_str()),
            ManualSessionRuntimeError::WorkerPanicked => String::from_str(
                "manual session scheduler panicked",
            ),
        }
    }
}

/// What the scheduler does next.
#[derive(Clone, Copy, Debug, PartialEq, Eq, Structural)]
pub enum SchedulerStep {
    /// End the session: its deadline has passed.
    Expire,
    /// Wait until the session changes, but no longer than this.
    WaitFor(Duration),
    /// Wait until the session changes.
    Wait,
    /// End.
    Exit,
}

/// How far a command or an expiry has come.
#[derive(Clone, Debug, PartialEq, Eq)]
pub enum SessionProgress<T> {
    /// It is over, with this result.
    Finished(T),
    /// The platform has to be asked, and the answer reported.
    Native(ProtectionAction),
}

/// The session as a mathematical value.
pub ghost struct SessionModel {
    pub intent: IntentModel,
    pub background_failure: Option<Seq<char>>,
    pub accepting: bool,
    pub scheduler_started: bool,
}

/// What the user wants, with the deadline in nanoseconds.
pub ghost enum IntentModel {
    Inactive,
    Finite { deadline: nat },
    UntilDisabled,
}

/// What a command makes of the user's intent, or why it is refused, at a time
/// `now` in nanoseconds.
pub open spec fn commanded(
    intent: IntentModel,
    command: ManualSessionCommand,
    now: nat,
) -> Result<IntentModel, ManualSessionError> {
    match (command, intent) {
        (ManualSessionCommand::Stop, _) => Ok(IntentModel::Inactive),
        (ManualSessionCommand::Start(preset), IntentModel::Inactive) => match preset.length() {
            None => Ok(IntentModel::UntilDisabled),
            Some(length) => if now + length <= MAX_NANOS {
                Ok(IntentModel::Finite { deadline: now + length })
            } else {
                Err(ManualSessionError::DeadlineOverflow)
            },
        },
        (ManualSessionCommand::Add(preset), IntentModel::Finite { deadline }) => if deadline
            + preset.length() <= MAX_NANOS {
            Ok(IntentModel::Finite { deadline: deadline + preset.length() })
        } else {
            Err(ManualSessionError::DeadlineOverflow)
        },
        (
            ManualSessionCommand::ConvertToUntilDisabled,
            IntentModel::Finite { deadline: _ },
        ) => Ok(IntentModel::UntilDisabled),
        _ => Err(ManualSessionError::InvalidTransition),
    }
}

/// What a command makes of the user's intent, or why it is refused, in a
/// session that may have stopped accepting commands.
pub open spec fn accepted(
    session: SessionModel,
    command: ManualSessionCommand,
    now: nat,
) -> Result<IntentModel, ManualSessionError> {
    if session.accepting {
        commanded(session.intent, command, now)
    } else {
        Err(ManualSessionError::Unavailable)
    }
}

/// Whether the user's intent is a reason to keep the computer awake.
pub open spec fn keeps_awake(intent: IntentModel) -> bool {
    !(intent is Inactive)
}

/// Whether a shown state is that of an intent at a time.
pub open spec fn shows(state: ManualSessionState, intent: IntentModel, now: nat) -> bool {
    match intent {
        IntentModel::Inactive => state is Inactive,
        IntentModel::Finite { deadline } => state is Finite && state->remaining@ == if now
            <= deadline {
            (deadline - now) as nat
        } else {
            0
        },
        IntentModel::UntilDisabled => state is UntilDisabled,
    }
}

/// Whether a snapshot is that of a session at a time.
pub open spec fn shows_session(
    snapshot: ManualSessionSnapshot,
    session: SessionModel,
    now: nat,
) -> bool {
    &&& shows(snapshot.state, session.intent, now)
    &&& text_view(snapshot.background_failure) == session.background_failure
}

/// The view of an optional text.
pub open spec fn text_view(text: Option<String>) -> Option<Seq<char>> {
    match text {
        Some(text) => Some(text@),
        None => None,
    }
}

/// The command without its preset.
pub open spec fn command_event(command: ManualSessionCommand) -> ManualCommandEvent {
    match command {
        ManualSessionCommand::Start(_) => ManualCommandEvent::Start,
        ManualSessionCommand::Add(_) => ManualCommandEvent::Add,
        ManualSessionCommand::ConvertToUntilDisabled => ManualCommandEvent::Convert,
        ManualSessionCommand::Stop => ManualCommandEvent::Stop,
    }
}

/// What is logged of a command.
pub open spec fn command_log(
    command: ManualSessionCommand,
    outcome: EventOutcome,
) -> SafeEvent {
    SafeEvent::ManualCommand { command: command_event(command), outcome }
}

/// The manual session.
#[derive(Clone, Debug)]
pub struct ManualSession {
    intent: ManualSessionIntent,
    background_failure: Option<String>,
    accepting_commands: bool,
    scheduler_started: bool,
}

impl View for ManualSession {
    type V = SessionModel;

    closed spec fn view(&self) -> SessionModel {
        SessionModel {
            intent: match self.intent {
                ManualSessionIntent::Inactive => IntentModel::Inactive,
                ManualSessionIntent::Finite { deadline } => IntentModel::Finite {
                    deadline: deadline@,
                },
                ManualSessionIntent::UntilDisabled => IntentModel::UntilDisabled,
            },
            background_failure: text_view(self.background_failure),
            accepting: self.accepting_commands,
            scheduler_started: self.scheduler_started,
        }
    }
}

/// Whether a step of the scheduler is the one that a session asks for.
pub open spec fn schedules(step: SchedulerStep, session: SessionModel, now: nat) -> bool {
    &&& !session.accepting ==> step is Exit
    &&& session.accepting && is_due(session.intent, now) ==> step is Expire
    &&& session.accepting && !is_due(session.intent, now) ==> match session.intent {
        IntentModel::Finite { deadline } => step is WaitFor && now + step->WaitFor_0@ == deadline,
        _ => step is Wait,
    }
}

impl ManualSession {
    /// A session that is not running.
    pub fn new() -> (r: ManualSession)
        ensures
            r@ == (SessionModel {
                intent: IntentModel::Inactive,
                background_failure: None,
                accepting: true,
                scheduler_started: false,
            }),
    {
        ManualSession {
            intent: ManualSessionIntent::Inactive,
            background_failure: None,
            accepting_commands: true,
            scheduler_started: false,
        }
    }

    /// The session as it is shown at a time.
    pub fn snapshot(&self, now: Duration) -> (r: ManualSessionSnapshot)
        ensures
            shows_session(r, self@, now@),
    {
        self.snapshot_from(now)
    }

    fn snapshot_from(&self, now: Duration) -> (r: ManualSessionSnapshot)
        ensures
            shows_session(r, self@, now@),
    {
        let state = match self.intent {
            ManualSessionIntent::Inactive => ManualSessionState::Inactive,
            ManualSessionIntent::Finite { deadline } => ManualSessionState::Finite {
                remaining: deadline.saturating_sub(now),
            },
            ManualSessionIntent::UntilDisabled => ManualSessionState::UntilDisabled,
        };
        let background_failure = match &self.background_failure {
            Some(failure) => Some(failure.clone()),
            None => None,
        };
        ManualSessionSnapshot { state, background_failure }
    }

    /// Carries a command out as far as the user's intent goes, and answers
    /// whether the manual reason is now in force.
    pub fn command_inner(&mut self, command: ManualSessionCommand, now: Duration) -> (r: Result<
        bool,
        ManualSessionError,
    >)
        ensures
            match accepted(old(self)@, command, now@) {
                Ok(intent) => {
                    &&& r == Ok::<bool, ManualSessionError>(keeps_awake(intent))
                    &&& final(self)@ == (SessionModel { intent, ..old(self)@ })
                },
                Err(error) => {
                    &&& r == Err::<bool, ManualSessionError>(error)
                    &&& final(self)@ == old(self)@
                },
            },
    {
        if !self.accepting_commands {
            return Err(ManualSessionError::Unavailable);
        }
        match command {
            ManualSessionCommand::Start(preset) => {
                match self.intent {
                    ManualSessionIntent::Inactive => {},
                    _ => return Err(ManualSessionError::InvalidTransition),
                }
                match preset.duration() {
                    Some(length) => match now.checked_add(length) {
                        Some(deadline) => {
                            self.intent = ManualSessionIntent::Finite { deadline };
                        },
                        None => return Err(ManualSessionError::DeadlineOverflow),
                    },
                    None => {
                        self.intent = ManualSessionIntent::UntilDisabled;
                    },
                }
                Ok(true)
            },
            ManualSessionCommand::Add(preset) => match self.intent {
                ManualSessionIntent::Finite { deadline } => match deadline.checked_add(
                    preset.duration(),
                ) {
                    Some(deadline) => {
                        self.intent = ManualSessionIntent::Finite { deadline };
                        Ok(true)
                    },
                    None => Err(ManualSessionError::DeadlineOverflow),
                },
                _ => Err(ManualSessionError::InvalidTransition),
            },
            ManualSessionCommand::ConvertToUntilDisabled => match self.intent {
                ManualSessionIntent::Finite { .. } => {
                    self.intent = ManualSessionIntent::UntilDisabled;
                    Ok(true)
                },
                _ => Err(ManualSessionError::InvalidTransition),
            },
            ManualSessionCommand::Stop => {
                self.intent = ManualSessionIntent::Inactive;
                Ok(false)
            },
        }
    }

    fn event_of(command: ManualSessionCommand) -> (r: ManualCommandEvent)
        ensures
            r == command_event(command),
    {
        match command {
            ManualSessionCommand::Start(_) => ManualCommandEvent::Start,
            ManualSessionCommand::Add(_) => ManualCommandEvent::Add,
            ManualSessionCommand::ConvertToUntilDisabled => ManualCommandEvent::Convert,
            ManualSessionCommand::Stop => ManualCommandEvent::Stop,
        }
    }

    /// Carries a command out at a time. A refused command changes nothing. An
    /// accepted one changes the intent and the manual reason; where the
    /// platform has to be asked after that, `command_returned` ends it.
    pub fn command(
        &mut self,
        command: ManualSessionCommand,
        now: Duration,
        wake: &mut WakeCoordinator,
        log: &mut Vec<SafeEvent>,
    ) -> (r: SessionProgress<Result<ManualSessionSnapshot, ManualSessionError>>)
        ensures
            match accepted(old(self)@, command, now@) {
                Err(error) => {
                    &&& r is Finished
                    &&& r->Finished_0 == Err::<ManualSessionSnapshot, ManualSessionError>(error)
                    &&& final(self)@ == old(self)@
                    &&& *final(wake) == *old(wake)
                    &&& final(log)@ == old(log)@.push(command_log(command, EventOutcome::Rejected))
                },
                Ok(intent) => {
                    let woken = old(wake).with_reason(
                        WakeReason::ManualKeepAwake,
                        keeps_awake(intent),
                    );
                    let events = old(wake).change_events(woken);
                    &&& *final(wake) == woken
                    &&& match woken.needed() {
                        Some(action) => {
                            &&& r == SessionProgress::<
                                Result<ManualSessionSnapshot, ManualSessionError>,
                            >::Native(action)
                            &&& final(self)@ == (SessionModel { intent, ..old(self)@ })
                            &&& final(log)@ == old(log)@ + events
                        },
                        None => {
                            &&& r is Finished
                            &&& r->Finished_0 is Ok
                            &&& shows_session(r->Finished_0->Ok_0, final(self)@, now@)
                            &&& final(self)@ == (SessionModel {
                                intent,
                                background_failure: None,
                                ..old(self)@
                            })
                            &&& final(log)@ == (old(log)@ + events).push(
                                command_log(command, EventOutcome::Succeeded),
                            )
                        },
                    }
                },
            },
    {
        match self.command_inner(command, now) {
            Err(error) => {
                log.push(
                    SafeEvent::ManualCommand {
                        command: Self::event_of(command),
                        outcome: EventOutcome::Rejected,
                    },
                );
                SessionProgress::Finished(Err(error))
            },
            Ok(reason_active) => match wake.set_reason_active(
                WakeReason::ManualKeepAwake,
                reason_active,
                log,
            ) {
                Some(action) => SessionProgress::Native(action),
                None => SessionProgress::Finished(self.coordinated(command, now, Ok(()), log)),
            },
        }
    }

    fn coordinated(
        &mut self,
        command: ManualSessionCommand,
        now: Duration,
        outcome: Result<(), String>,
        log: &mut Vec<SafeEvent>,
    ) -> (r: Result<ManualSessionSnapshot, ManualSessionError>)
        ensures
            match outcome {
                Ok(_) => {
                    &&& r is Ok
                    &&& shows_session(r->Ok_0, final(self)@, now@)
                    &&& final(self)@ == (SessionModel { background_failure: None, ..old(self)@ })
                    &&& final(log)@ == old(log)@.push(command_log(command, EventOutcome::Succeeded))
                },
                Err(error) => {
                    &&& r == Err::<ManualSessionSnapshot, ManualSessionError>(
                        ManualSessionError::WakeCoordination(error),
                    )
                    &&& final(self)@ == old(self)@
                    &&& final(log)@ == old(log)@.push(command_log(command, EventOutcome::Failed))
                },
            },
    {
        let command = Self::event_of(command);
        match outcome {
            Ok(()) => {
                log.push(SafeEvent::ManualCommand { command, outcome: EventOutcome::Succeeded });
                self.background_failure = None;
                Ok(self.snapshot_from(now))
            },
            Err(error) => {
                log.push(SafeEvent::ManualCommand { command, outcome: EventOutcome::Failed });
                Err(ManualSessionError::WakeCoordination(error))
            },
        }
    }

    /// Ends a command for which the platform was asked `action`: `outcome` is
    /// its answer, and `state` the state in which the inhibitor is now. The
    /// intent stays as the command left it, whatever the answer.
    pub fn command_returned(
        &mut self,
        command: ManualSessionCommand,
        now: Duration,
        action: ProtectionAction,
        outcome: Result<(), String>,
        state: ProtectionState,
        wake: &mut WakeCoordinator,
        log: &mut Vec<SafeEvent>,
    ) -> (r: Result<ManualSessionSnapshot, ManualSessionError>)
        ensures
            *final(wake) == (WakeCoordinator { protection: state, ..*old(wake) }),
            match outcome {
                Ok(_) => {
                    &&& r is Ok
                    &&& shows_session(r->Ok_0, final(self)@, now@)
                    &&& final(self)@ == (SessionModel { background_failure: None, ..old(self)@ })
                    &&& final(log)@ == old(log)@.push(
                        SafeEvent::NativeProtection { action, outcome: EventOutcome::Succeeded },
                    ).push(command_log(command, EventOutcome::Succeeded))
                },
                Err(error) => {
                    &&& r == Err::<ManualSessionSnapshot, ManualSessionError>(
                        ManualSessionError::WakeCoordination(error),
                    )
                    &&& final(self)@ == old(self)@
                    &&& final(log)@ == old(log)@.push(
                        SafeEvent::NativeProtection { action, outcome: EventOutcome::Failed },
                    ).push(command_log(command, EventOutcome::Failed))
                },
            },
    {
        wake.native_returned(action, outcome.is_ok(), state, log);
        self.coordinated(command, now, outcome, log)
    }

    /// Ends a session whose deadline has passed, and answers what the platform
    /// has to be asked. `None` in the result means that nothing was due.
    pub fn expire_due(
        &mut self,
        now: Duration,
        wake: &mut WakeCoordinator,
        log: &mut Vec<SafeEvent>,
    ) -> (r: Option<SessionProgress<()>>)
        ensures
            is_due(old(self)@.intent, now@) ==> {
                let woken = old(wake).with_reason(WakeReason::ManualKeepAwake, false);
                let events = old(wake).change_events(woken);
                &&& *final(wake) == woken
                &&& match woken.needed() {
                    Some(action) => {
                        &&& r == Some(SessionProgress::<()>::Native(action))
                        &&& final(self)@ == (SessionModel {
                            intent: IntentModel::Inactive,
                            ..old(self)@
                        })
                        &&& final(log)@ == old(log)@ + events
                    },
                    None => {
                        &&& r == Some(SessionProgress::<()>::Finished(()))
                        &&& final(self)@ == (SessionModel {
                            intent: IntentModel::Inactive,
                            background_failure: None,
                            ..old(self)@
                        })
                        &&& final(log)@ == (old(log)@ + events).push(
                            SafeEvent::ManualExpired { outcome: EventOutcome::Succeeded },
                        )
                    },
                }
            },
            !is_due(old(self)@.intent, now@) ==> {
                &&& r is None
                &&& final(self)@ == old(self)@
                &&& *final(wake) == *old(wake)
                &&& final(log)@ == old(log)@
            },
    {
        match self.intent {
            ManualSessionIntent::Finite { deadline } => {
                if deadline.as_nanos() > now.as_nanos() {
                    return None;
                }
            },
            _ => return None,
        }
        self.intent = ManualSessionIntent::Inactive;
        match wake.set_reason_active(WakeReason::ManualKeepAwake, false, log) {
            Some(action) => Some(SessionProgress::Native(action)),
            None => {
                self.background_failure = None;
                log.push(SafeEvent::ManualExpired { outcome: EventOutcome::Succeeded });
                Some(SessionProgress::Finished(()))
            },
        }
    }

    /// Ends an expiry for which the platform was asked `action`. A failure is
    /// kept, to be shown until a later command or expiry succeeds.
    pub fn expiry_returned(
        &mut self,
        action: ProtectionAction,
        outcome: Result<(), String>,
        state: ProtectionState,
        wake: &mut WakeCoordinator,
        log: &mut Vec<SafeEvent>,
    )
        ensures
            *final(wake) == (WakeCoordinator { protection: state, ..*old(wake) }),
            final(self)@ == (SessionModel {
                background_failure: match outcome {
                    Ok(_) => None,
                    Err(error) => Some(error@),
                },
                ..old(self)@
            }),
            ({
                let end = if outcome is Ok {
                    EventOutcome::Succeeded
                } else {
                    EventOutcome::Failed
                };
                final(log)@ == old(log)@.push(
                    SafeEvent::NativeProtection { action, outcome: end },
                ).push(SafeEvent::ManualExpired { outcome: end })
            }),
    {
        wake.native_returned(action, outcome.is_ok(), state, log);
        match outcome {
            Ok(()) => {
                self.background_failure = None;
                log.push(SafeEvent::ManualExpired { outcome: EventOutcome::Succeeded });
            },
            Err(error) => {
                self.background_failure = Some(error);
                log.push(SafeEvent::ManualExpired { outcome: EventOutcome::Failed });
            },
        }
    }

    /// Claims the one scheduler that a session may have.
    pub fn start_scheduler(&mut self) -> (r: Result<(), ManualSessionRuntimeError>)
        ensures
            r is Ok <==> !old(self)@.scheduler_started && old(self)@.accepting,
            r is Ok ==> final(self)@ == (SessionModel { scheduler_started: true, ..old(self)@ }),
            r is Err ==> r->Err_0 is AlreadyStarted && final(self)@ == old(self)@,
    {
        if self.scheduler_started || !self.accepting_commands {
            return Err(ManualSessionRuntimeError::AlreadyStarted);
        }
        self.scheduler_started = true;
        Ok(())
    }

    /// Gives the claim back: the scheduler's worker could not be started.
    pub fn scheduler_failed(&mut self, error: String) -> (r: ManualSessionRuntimeError)
        ensures
            final(self)@ == (SessionModel { scheduler_started: false, ..old(self)@ }),
            r == ManualSessionRuntimeError::Spawn(error),
    {
        self.scheduler_started = false;
        ManualSessionRuntimeError::Spawn(error)
    }

    /// What the scheduler does next, at a time.
    pub fn run_scheduler(&self, now: Duration) -> (r: SchedulerStep)
        ensures
            schedules(r, self@, now@),
    {
        if !self.accepting_commands {
            return SchedulerStep::Exit;
        }
        match self.intent {
            ManualSessionIntent::Finite { deadline } => {
                if deadline.as_nanos() <= now.as_nanos() {
                    SchedulerStep::Expire
                } else {
                    SchedulerStep::WaitFor(deadline.saturating_sub(now))
                }
            },
            _ => SchedulerStep::Wait,
        }
    }

    /// Stops accepting commands, which ends the scheduler.
    pub fn request_scheduler_shutdown(&mut self)
        ensures
            final(self)@ == (SessionModel { accepting: false, ..old(self)@ }),
    {
        self.accepting_commands = false;
    }
}

/// Whether a session has a deadline that has passed.
pub open spec fn is_due(intent: IntentModel, now: nat) -> bool {
    intent is Finite && intent->deadline <= now
}

/// Stopping succeeds in every state, and leaves nothing to expire.
pub proof fn stop_always_ends_the_session(intent: IntentModel, now: nat, later: nat)
    ensures
        commanded(intent, ManualSessionCommand::Stop, now) == Ok::<IntentModel, ManualSessionError>(
            IntentModel::Inactive,
        ),
        !is_due(IntentModel::Inactive, later),
{
}

/// A session started for a time lasts exactly that time: it is due at its
/// deadline and not before.
pub proof fn a_finite_session_lasts_its_length(
    preset: ManualSessionStartPreset,
    now: nat,
    later: nat,
)
    requires
        preset.length() is Some,
        now + preset.length()->0 <= MAX_NANOS,
    ensures
        ({
            let started = commanded(IntentModel::Inactive, ManualSessionCommand::Start(preset), now);
            &&& started is Ok
            &&& is_due(started->Ok_0, later) <==> later >= now + preset.length()->0
        }),
{
}

/// Time is added to the deadline, not to the time that is left: it does not
/// matter when it is added, and the old deadline no longer ends the session.
pub proof fn added_time_moves_the_deadline(
    deadline: nat,
    preset: ManualSessionAddPreset,
    now: nat,
    other: nat,
    later: nat,
)
    requires
        deadline + preset.length() <= MAX_NANOS,
    ensures
        ({
            let intent = IntentModel::Finite { deadline };
            let added = commanded(intent, ManualSessionCommand::Add(preset), now);
            &&& added == commanded(intent, ManualSessionCommand::Add(preset), other)
            &&& added is Ok
            &&& is_due(added->Ok_0, later) <==> later >= deadline + preset.length()
        }),
{
}

/// Adding two times in either order gives the same session.
pub proof fn added_times_commute(
    deadline: nat,
    first: ManualSessionAddPreset,
    second: ManualSessionAddPreset,
    now: nat,
)
    requires
        deadline + first.length() + second.length() <= MAX_NANOS,
    ensures
        ({
            let intent = IntentModel::Finite { deadline };
            let one = commanded(intent, ManualSessionCommand::Add(first), now);
            let two = commanded(intent, ManualSessionCommand::Add(second), now);
            &&& one is Ok
            &&& two is Ok
            &&& commanded(one->Ok_0, ManualSessionCommand::Add(second), now) == commanded(
                two->Ok_0,
                ManualSessionCommand::Add(first),
                now,
            )
        }),
{
}

/// A session without a deadline never expires, whether it was started so or
/// converted.
pub proof fn until_disabled_never_expires(deadline: nat, now: nat, later: nat)
    ensures
        ({
            let started = commanded(
                IntentModel::Inactive,
                ManualSessionCommand::Start(ManualSessionStartPreset::UntilDisabled),
                now,
            );
            let converted = commanded(
                IntentModel::Finite { deadline },
                ManualSessionCommand::ConvertToUntilDisabled,
                now,
            );
            &&& started is Ok && !is_due(started->Ok_0, later)
            &&& converted is Ok && !is_due(converted->Ok_0, later)
        }),
{
}

/// Time can be added to a running session with a deadline only: an ended
/// session is not brought back, and one without a deadline gets none.
pub proof fn only_a_deadline_can_move(intent: IntentModel, preset: ManualSessionAddPreset, now: nat)
    requires
        !(intent is Finite),
    ensures
        commanded(intent, ManualSessionCommand::Add(preset), now) == Err::<
            IntentModel,
            ManualSessionError,
        >(ManualSessionError::InvalidTransition),
        commanded(intent, ManualSessionCommand::ConvertToUntilDisabled, now) == Err::<
            IntentModel,
            ManualSessionError,
        >(ManualSessionError::InvalidTransition),
{
}

/// A session that has begun to shut down refuses every command.
pub proof fn shutdown_refuses_every_command(
    session: SessionModel,
    command: ManualSessionCommand,
    now: nat,
)
    requires
        !session.accepting,
    ensures
        accepted(session, command, now) == Err::<IntentModel, ManualSessionError>(
            ManualSessionError::Unavailable,
        ),
{
}

} // verus!
