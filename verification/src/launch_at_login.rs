//! Starting the program when the user logs in: the user's wish is saved, and
//! the platform's registration is made to agree with it.
//!
//! Asking the platform is the caller's: an operation answers what to ask, and
//! is told what came back.

pub mod laws;

use crate::local_log::{EventOutcome, SafeEvent};
use crate::settings::{PersistenceCondition, Settings, SettingsUpdate, SettingsUpdateError};
use vstd::prelude::*;
use vstd::string::*;

verus! {

/// What is known of the platform's registration.
#[derive(Clone, Copy, Debug, PartialEq, Eq, Structural)]
pub enum Registration {
    Enabled,
    Disabled,
    Unknown,
}

/// The step at which agreeing failed.
#[derive(Clone, Copy, Debug, PartialEq, Eq, Structural)]
pub enum LaunchAtLoginFailureStage {
    Initialize,
    Enable,
    Disable,
    Verify,
}

/// The name of a step.
pub open spec fn stage_name_word(stage: LaunchAtLoginFailureStage) -> Seq<char> {
    match stage {
        LaunchAtLoginFailureStage::Initialize => "Initialize"@,
        LaunchAtLoginFailureStage::Enable => "Enable"@,
        LaunchAtLoginFailureStage::Disable => "Disable"@,
        LaunchAtLoginFailureStage::Verify => "Verify"@,
    }
}

fn stage_name(stage: LaunchAtLoginFailureStage) -> (r: &'static str)
    ensures
        r@ == stage_name_word(stage),
{
    match stage {
        LaunchAtLoginFailureStage::Initialize => "Initialize",
        LaunchAtLoginFailureStage::Enable => "Enable",
        LaunchAtLoginFailureStage::Disable => "Disable",
        LaunchAtLoginFailureStage::Verify => "Verify",
    }
}

/// The word for a step in a log line.
pub open spec fn stage_word(stage: LaunchAtLoginFailureStage) -> &'static str {
    match stage {
        LaunchAtLoginFailureStage::Initialize => "initialize",
        LaunchAtLoginFailureStage::Enable => "enable",
        LaunchAtLoginFailureStage::Disable => "disable",
        LaunchAtLoginFailureStage::Verify => "verify",
    }
}

/// The word for a step in a log line.
pub fn launch_failure_stage(stage: LaunchAtLoginFailureStage) -> (r: &'static str)
    ensures
        r == stage_word(stage),
{
    match stage {
        LaunchAtLoginFailureStage::Initialize => "initialize",
        LaunchAtLoginFailureStage::Enable => "enable",
        LaunchAtLoginFailureStage::Disable => "disable",
        LaunchAtLoginFailureStage::Verify => "verify",
    }
}

/// Why the registration does not agree, in words of the platform where it has
/// any.
#[derive(Clone, Debug, PartialEq, Eq)]
pub struct LaunchAtLoginFailure {
    pub stage: LaunchAtLoginFailureStage,
    pub message: String,
}

/// A failure as a mathematical value.
pub ghost struct LaunchFailureModel {
    pub stage: LaunchAtLoginFailureStage,
    pub message: Seq<char>,
}

impl View for LaunchAtLoginFailure {
    type V = LaunchFailureModel;

    open spec fn view(&self) -> LaunchFailureModel {
        LaunchFailureModel { stage: self.stage, message: self.message@ }
    }
}

impl LaunchAtLoginFailure {
    /// A failure at a step.
    pub fn new(stage: LaunchAtLoginFailureStage, message: String) -> (r: LaunchAtLoginFailure)
        ensures
            r@ == (LaunchFailureModel { stage, message: message@ }),
    {
        LaunchAtLoginFailure { stage, message }
    }

    /// The platform's part could not be set up.
    pub fn initialize(message: String) -> (r: LaunchAtLoginFailure)
        ensures
            r@ == (LaunchFailureModel {
                stage: LaunchAtLoginFailureStage::Initialize,
                message: message@,
            }),
    {
        Self::new(LaunchAtLoginFailureStage::Initialize, message)
    }

    /// The step.
    pub fn stage(&self) -> (r: LaunchAtLoginFailureStage)
        ensures
            r == self@.stage,
    {
        self.stage
    }

    /// The failure in words.
    pub fn message(&self) -> (r: String)
        ensures
            r@ == self@.words(),
    {
        String::from_str("launch-at-login ").concat(stage_name(self.stage)).concat(
            " failed: ",
        ).concat(self.message.as_str())
    }

    /// The same once more.
    pub fn copy(&self) -> (r: LaunchAtLoginFailure)
        ensures
            r@ == self@,
    {
        LaunchAtLoginFailure { stage: self.stage, message: self.message.clone() }
    }
}

impl LaunchFailureModel {
    /// The failure in words.
    pub open spec fn words(self) -> Seq<char> {
        "launch-at-login "@ + stage_name_word(self.stage) + " failed: "@ + self.message
    }
}

/// Why the user's wish was not carried out.
#[derive(Clone, Debug, PartialEq, Eq)]
pub enum LaunchAtLoginCommandError {
    Unavailable,
    Settings(SettingsUpdateError),
    Native(LaunchAtLoginFailure),
}

impl LaunchAtLoginCommandError {
    /// The error in words.
    pub open spec fn words(self) -> Seq<char> {
        match self {
            LaunchAtLoginCommandError::Unavailable => "launch at login is unavailable"@,
            LaunchAtLoginCommandError::Settings(error) => error.words(),
            LaunchAtLoginCommandError::Native(failure) => failure@.words(),
        }
    }

    /// The error in words.
    pub fn message(&self) -> (r: String)
        ensures
            r@ == self.words(),
    {
        match self {
            LaunchAtLoginCommandError::Unavailable => String::from_str(
                "launch at login is unavailable",
            ),
            LaunchAtLoginCommandError::Settings(error) => error.message(),
            LaunchAtLoginCommandError::Native(failure) => failure.message(),
        }
    }
}

/// What is shown of the registration.
#[derive(Clone, Debug, PartialEq, Eq)]
pub struct LaunchAtLoginSnapshot {
    pub desired: bool,
    pub observed: Registration,
    pub available: bool,
    pub latest_failure: Option<LaunchAtLoginFailure>,
}

impl LaunchAtLoginSnapshot {
    /// What the user wants.
    pub fn desired(&self) -> (r: bool)
        ensures
            r == self.desired,
    {
        self.desired
    }

    /// What is known of the platform's registration.
    pub fn observed(&self) -> (r: Registration)
        ensures
            r == self.observed,
    {
        self.observed
    }

    /// Whether the platform can be asked.
    pub fn available(&self) -> (r: bool)
        ensures
            r == self.available,
    {
        self.available
    }

    /// Why the registration does not agree, while it does not.
    pub fn latest_failure(&self) -> (r: Option<&LaunchAtLoginFailure>)
        ensures
            r is Some <==> self.latest_failure is Some,
            r is Some ==> *r->0 == self.latest_failure->0,
    {
        self.latest_failure.as_ref()
    }
}

/// The registration that an answer of the platform means.
pub open spec fn registered(enabled: bool) -> Registration {
    if enabled {
        Registration::Enabled
    } else {
        Registration::Disabled
    }
}

/// The registration that an answer of the platform means.
pub fn registration(enabled: bool) -> (r: Registration)
    ensures
        r == registered(enabled),
{
    if enabled {
        Registration::Enabled
    } else {
        Registration::Disabled
    }
}

/// The registration as a mathematical value. `backend` is why the platform
/// cannot be asked, where it cannot.
pub ghost struct LaunchModel {
    pub backend: Option<LaunchFailureModel>,
    pub observed: Registration,
    pub failure: Option<LaunchFailureModel>,
}

/// The view of an optional failure.
pub open spec fn failure_view(failure: Option<LaunchAtLoginFailure>) -> Option<LaunchFailureModel> {
    match failure {
        Some(failure) => Some(failure@),
        None => None,
    }
}

impl LaunchModel {
    /// The registration agrees.
    pub open spec fn agreed(self, desired: bool) -> LaunchModel {
        LaunchModel { observed: registered(desired), failure: None, ..self }
    }

    /// The registration does not agree, or that is not known.
    pub open spec fn failed(self, observed: Registration, failure: LaunchFailureModel) -> LaunchModel {
        LaunchModel { observed, failure: Some(failure), ..self }
    }
}

/// Whether a snapshot is that of a registration, with the user's wish.
pub open spec fn shows_launch(
    snapshot: LaunchAtLoginSnapshot,
    model: LaunchModel,
    desired: bool,
) -> bool {
    &&& snapshot.desired == desired
    &&& snapshot.observed == model.observed
    &&& snapshot.available == (model.backend is None)
    &&& failure_view(snapshot.latest_failure) == model.failure
}

/// What is logged where the registration agrees.
pub open spec fn agreement_log() -> SafeEvent {
    SafeEvent::LaunchAtLogin {
        action: "reconcile",
        outcome: EventOutcome::Succeeded,
        stage: "verified",
    }
}

/// What is logged where it does not: the step, and no word of the platform.
pub open spec fn failure_log(stage: LaunchAtLoginFailureStage) -> SafeEvent {
    SafeEvent::LaunchAtLogin {
        action: "reconcile",
        outcome: EventOutcome::Failed,
        stage: stage_word(stage),
    }
}

/// The failure that the platform's answers to a change and to a look at it
/// mean, if any. That a change was refused matters more than what the look
/// showed.
pub open spec fn verdict(
    desired: bool,
    applied: Result<(), Seq<char>>,
    verification: Result<bool, Seq<char>>,
) -> Option<LaunchFailureModel> {
    match (applied, verification) {
        (Err(message), _) => Some(
            LaunchFailureModel {
                stage: if desired {
                    LaunchAtLoginFailureStage::Enable
                } else {
                    LaunchAtLoginFailureStage::Disable
                },
                message,
            },
        ),
        (Ok(_), Err(message)) => Some(
            LaunchFailureModel { stage: LaunchAtLoginFailureStage::Verify, message },
        ),
        (Ok(_), Ok(observed)) => if observed == desired {
            None
        } else {
            Some(
                LaunchFailureModel {
                    stage: LaunchAtLoginFailureStage::Verify,
                    message: "observed registration did not match the saved preference"@,
                },
            )
        },
    }
}

/// What a look at the registration shows.
pub open spec fn seen(verification: Result<bool, Seq<char>>) -> Registration {
    match verification {
        Ok(enabled) => registered(enabled),
        Err(_) => Registration::Unknown,
    }
}

/// The answer of the platform to a change, as a mathematical value.
pub open spec fn applied_view(applied: Result<(), String>) -> Result<(), Seq<char>> {
    match applied {
        Ok(_) => Ok(()),
        Err(message) => Err(message@),
    }
}

/// The answer of the platform to a look, as a mathematical value.
pub open spec fn verification_view(verification: Result<bool, String>) -> Result<bool, Seq<char>> {
    match verification {
        Ok(enabled) => Ok(enabled),
        Err(message) => Err(message@),
    }
}

/// What agreeing takes.
#[derive(Debug, PartialEq, Eq)]
pub enum ReconcileStep {
    /// It is over.
    Finished(Result<LaunchAtLoginSnapshot, LaunchAtLoginFailure>),
    /// Look at the registration, and report it.
    Observe,
    /// Change the registration to this, then look at it, and report both.
    Apply(bool),
}

/// The registration of the program for the user's login.
#[derive(Clone, Debug)]
pub struct LaunchAtLoginService {
    backend_failure: Option<LaunchAtLoginFailure>,
    observed: Registration,
    latest_failure: Option<LaunchAtLoginFailure>,
}

impl View for LaunchAtLoginService {
    type V = LaunchModel;

    closed spec fn view(&self) -> LaunchModel {
        LaunchModel {
            backend: failure_view(self.backend_failure),
            observed: self.observed,
            failure: failure_view(self.latest_failure),
        }
    }
}

impl LaunchAtLoginService {
    /// A registration that can be asked for, and that nothing is known of.
    pub fn available() -> (r: LaunchAtLoginService)
        ensures
            r@ == (LaunchModel { backend: None, observed: Registration::Unknown, failure: None }),
    {
        LaunchAtLoginService {
            backend_failure: None,
            observed: Registration::Unknown,
            latest_failure: None,
        }
    }

    /// A registration that cannot be asked for.
    pub fn unavailable(failure: LaunchAtLoginFailure) -> (r: LaunchAtLoginService)
        ensures
            r@ == (LaunchModel {
                backend: Some(failure@),
                observed: Registration::Unknown,
                failure: Some(failure@),
            }),
    {
        LaunchAtLoginService {
            backend_failure: Some(failure.copy()),
            observed: Registration::Unknown,
            latest_failure: Some(failure),
        }
    }

    /// What is shown of the registration, with the user's wish as it is saved.
    pub fn snapshot(&self, desired: bool) -> (r: LaunchAtLoginSnapshot)
        ensures
            shows_launch(r, self@, desired),
    {
        let latest_failure = match &self.latest_failure {
            Some(failure) => Some(failure.copy()),
            None => None,
        };
        LaunchAtLoginSnapshot {
            desired,
            observed: self.observed,
            available: self.backend_failure.is_none(),
            latest_failure,
        }
    }

    /// Begins to make the registration agree with the user's wish. A wish that
    /// is not safely saved is not carried out.
    pub fn reconcile(&mut self, persistence: PersistenceCondition, log: &mut Vec<SafeEvent>) -> (r:
        ReconcileStep)
        ensures
            match old(self)@.backend {
                Some(failure) => {
                    &&& r is Finished && r->Finished_0 is Err
                    &&& r->Finished_0->Err_0@ == failure
                    &&& final(self)@ == old(self)@
                    &&& final(log)@ == old(log)@
                },
                None => if persistence == PersistenceCondition::Writable {
                    &&& r is Observe
                    &&& final(self)@ == old(self)@
                    &&& final(log)@ == old(log)@
                } else {
                    let failure = LaunchFailureModel {
                        stage: LaunchAtLoginFailureStage::Verify,
                        message: "saved launch-at-login preference is unavailable"@,
                    };
                    &&& r is Finished && r->Finished_0 is Err
                    &&& r->Finished_0->Err_0@ == failure
                    &&& final(self)@ == old(self)@.failed(Registration::Unknown, failure)
                    &&& final(log)@ == old(log)@.push(
                        failure_log(LaunchAtLoginFailureStage::Verify),
                    )
                },
            },
    {
        match &self.backend_failure {
            Some(failure) => {
                return ReconcileStep::Finished(Err(failure.copy()));
            },
            None => {},
        }
        match persistence {
            PersistenceCondition::Writable => ReconcileStep::Observe,
            _ => ReconcileStep::Finished(
                Err(
                    self.record_failure(
                        Registration::Unknown,
                        LaunchAtLoginFailureStage::Verify,
                        String::from_str("saved launch-at-login preference is unavailable"),
                        log,
                    ),
                ),
            ),
        }
    }

    /// Goes on after a look at the registration. One that agrees is left
    /// alone; any other, and one that could not be looked at, is changed.
    pub fn reconcile_locked(
        &mut self,
        desired: bool,
        observed: Result<bool, String>,
        log: &mut Vec<SafeEvent>,
    ) -> (r: ReconcileStep)
        ensures
            verification_view(observed) == Ok::<bool, Seq<char>>(desired) ==> {
                &&& r is Finished && r->Finished_0 is Ok
                &&& shows_launch(r->Finished_0->Ok_0, final(self)@, desired)
                &&& final(self)@ == old(self)@.agreed(desired)
                &&& final(log)@ == old(log)@.push(agreement_log())
            },
            verification_view(observed) != Ok::<bool, Seq<char>>(desired) ==> {
                &&& r == ReconcileStep::Apply(desired)
                &&& final(self)@ == old(self)@
                &&& final(log)@ == old(log)@
            },
    {
        match observed {
            Ok(enabled) => {
                if enabled == desired {
                    return ReconcileStep::Finished(Ok(self.record_success(desired, log)));
                }
            },
            Err(_) => {},
        }
        ReconcileStep::Apply(desired)
    }

    /// Ends a change of the registration to what is desired: `applied` is the
    /// platform's answer to it, and `verification` what a look at it showed.
    pub fn apply_and_verify(
        &mut self,
        desired: bool,
        applied: Result<(), String>,
        verification: Result<bool, String>,
        log: &mut Vec<SafeEvent>,
    ) -> (r: Result<LaunchAtLoginSnapshot, LaunchAtLoginFailure>)
        ensures
            match verdict(desired, applied_view(applied), verification_view(verification)) {
                None => {
                    &&& r is Ok
                    &&& shows_launch(r->Ok_0, final(self)@, desired)
                    &&& final(self)@ == old(self)@.agreed(desired)
                    &&& final(log)@ == old(log)@.push(agreement_log())
                },
                Some(failure) => {
                    &&& r is Err
                    &&& r->Err_0@ == failure
                    &&& final(self)@ == old(self)@.failed(
                        seen(verification_view(verification)),
                        failure,
                    )
                    &&& final(log)@ == old(log)@.push(failure_log(failure.stage))
                },
            },
    {
        match applied {
            Err(message) => {
                let observed = match verification {
                    Ok(enabled) => registration(enabled),
                    Err(_) => Registration::Unknown,
                };
                let stage = if desired {
                    LaunchAtLoginFailureStage::Enable
                } else {
                    LaunchAtLoginFailureStage::Disable
                };
                Err(self.record_failure(observed, stage, message, log))
            },
            Ok(()) => match verification {
                Err(message) => Err(
                    self.record_failure(
                        Registration::Unknown,
                        LaunchAtLoginFailureStage::Verify,
                        message,
                        log,
                    ),
                ),
                Ok(observed) => {
                    if observed != desired {
                        Err(
                            self.record_failure(
                                registration(observed),
                                LaunchAtLoginFailureStage::Verify,
                                String::from_str(
                                    "observed registration did not match the saved preference",
                                ),
                                log,
                            ),
                        )
                    } else {
                        Ok(self.record_success(desired, log))
                    }
                },
            },
        }
    }

    fn record_success(&mut self, desired: bool, log: &mut Vec<SafeEvent>) -> (r:
        LaunchAtLoginSnapshot)
        ensures
            final(self)@ == old(self)@.agreed(desired),
            shows_launch(r, final(self)@, desired),
            final(log)@ == old(log)@.push(agreement_log()),
    {
        self.observed = registration(desired);
        self.latest_failure = None;
        log.push(
            SafeEvent::LaunchAtLogin {
                action: "reconcile",
                outcome: EventOutcome::Succeeded,
                stage: "verified",
            },
        );
        self.snapshot(desired)
    }

    fn record_failure(
        &mut self,
        observed: Registration,
        stage: LaunchAtLoginFailureStage,
        message: String,
        log: &mut Vec<SafeEvent>,
    ) -> (r: LaunchAtLoginFailure)
        ensures
            r@ == (LaunchFailureModel { stage, message: message@ }),
            final(self)@ == old(self)@.failed(observed, r@),
            final(log)@ == old(log)@.push(failure_log(stage)),
    {
        let failure = LaunchAtLoginFailure::new(stage, message);
        self.observed = observed;
        self.latest_failure = Some(failure.copy());
        log.push(
            SafeEvent::LaunchAtLogin {
                action: "reconcile",
                outcome: EventOutcome::Failed,
                stage: launch_failure_stage(stage),
            },
        );
        failure
    }

    /// The change that turns the user's wish over, from what is saved. It is
    /// saved before the platform is asked.
    pub fn toggle(&self, launch_at_login: bool) -> (r: Result<
        SettingsUpdate,
        LaunchAtLoginCommandError,
    >)
        ensures
            self@.backend is Some ==> r == Err::<SettingsUpdate, LaunchAtLoginCommandError>(
                LaunchAtLoginCommandError::Unavailable,
            ),
            self@.backend is None ==> r == Ok::<SettingsUpdate, LaunchAtLoginCommandError>(
                SettingsUpdate::LaunchAtLogin(!launch_at_login),
            ),
    {
        if self.backend_failure.is_some() {
            return Err(LaunchAtLoginCommandError::Unavailable);
        }
        Ok(SettingsUpdate::LaunchAtLogin(!launch_at_login))
    }

    /// What the registration is to be changed to, once the wish is saved.
    /// Where it could not be, the platform is not asked.
    pub fn toggle_saved(saved: Result<Settings, SettingsUpdateError>) -> (r: Result<
        bool,
        LaunchAtLoginCommandError,
    >)
        ensures
            match saved {
                Ok(settings) => r == Ok::<bool, LaunchAtLoginCommandError>(settings@.launch),
                Err(error) => r == Err::<bool, LaunchAtLoginCommandError>(
                    LaunchAtLoginCommandError::Settings(error),
                ),
            },
    {
        match saved {
            Ok(settings) => Ok(settings.launch_at_login()),
            Err(error) => Err(LaunchAtLoginCommandError::Settings(error)),
        }
    }
}

/// Success is claimed only of a registration that was seen to agree, and what
/// is shown is what was last seen.
pub proof fn success_is_seen(
    desired: bool,
    applied: Result<(), Seq<char>>,
    verification: Result<bool, Seq<char>>,
)
    ensures
        verdict(desired, applied, verification) is None ==> seen(verification) == registered(desired),
        verdict(desired, applied, verification) is None <==> applied is Ok && verification == Ok::<
            bool,
            Seq<char>,
        >(desired),
{
}

/// A later agreement clears an earlier failure.
pub proof fn agreement_clears_failures(model: LaunchModel, desired: bool)
    ensures
        model.agreed(desired).failure is None,
        model.agreed(desired).observed == registered(desired),
        model.agreed(desired).backend == model.backend,
{
}

} // verus!
