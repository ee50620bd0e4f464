//! What the registration for the login is for: it is what the user wants, or it
//! is known why it is not.

use super::{
    agreement_log, failure_log, seen, shows_launch, verdict, LaunchAtLoginCommandError,
    LaunchAtLoginFailureStage, LaunchAtLoginSnapshot, LaunchFailureModel, LaunchModel, Registration,
};
use crate::local_log::{EventOutcome, SafeEvent};
use vstd::prelude::*;
use vstd::string::*;

verus! {

/// A registration is right exactly where it could be changed, and was seen
/// afterwards to be what the user wants. Else the step that failed is named,
/// with what it said.
pub proof fn a_failure_names_its_step(
    desired: bool,
    applied: Result<(), Seq<char>>,
    verification: Result<bool, Seq<char>>,
)
    ensures
        ({
            let failure = verdict(desired, applied, verification);
            &&& failure is None <==> applied is Ok && verification is Ok && verification->Ok_0
                == desired
            &&& applied is Err ==> failure is Some && failure->0.message == applied->Err_0 && (
            desired ==> failure->0.stage == LaunchAtLoginFailureStage::Enable) && (!desired
                ==> failure->0.stage == LaunchAtLoginFailureStage::Disable)
            &&& applied is Ok && verification is Err ==> failure is Some && failure->0.stage
                == LaunchAtLoginFailureStage::Verify && failure->0.message == verification->Err_0
            &&& applied is Ok && verification is Ok && verification->Ok_0 != desired
                ==> failure is Some && failure->0.stage == LaunchAtLoginFailureStage::Verify
                && failure->0.message
                == "observed registration did not match the saved preference"@
        }),
{
}

/// What was seen is what is shown, and what could not be seen is unknown.
pub proof fn what_was_seen_is_shown(
    verification: Result<bool, Seq<char>>,
    model: LaunchModel,
    desired: bool,
    failure: LaunchFailureModel,
    snapshot: LaunchAtLoginSnapshot,
    failed: LaunchAtLoginSnapshot,
)
    requires
        shows_launch(snapshot, model.agreed(desired), desired),
        shows_launch(failed, model.failed(seen(verification), failure), desired),
    ensures
        seen(verification) == Registration::Enabled <==> verification is Ok
            && verification->Ok_0,
        seen(verification) == Registration::Disabled <==> verification is Ok
            && !verification->Ok_0,
        seen(verification) == Registration::Unknown <==> verification is Err,
        snapshot.desired == desired,
        snapshot.observed == Registration::Enabled <==> desired,
        snapshot.observed == Registration::Disabled <==> !desired,
        snapshot.latest_failure is None,
        snapshot.available <==> model.backend is None,
        failed.desired == desired,
        failed.observed == seen(verification),
        failed.available <==> model.backend is None,
        failed.latest_failure is Some,
        failed.latest_failure->0@ == failure,
{
}

/// An agreement is logged as verified, and a failure under the step that
/// failed.
pub proof fn agreements_and_failures_are_logged(stage: LaunchAtLoginFailureStage)
    ensures
        agreement_log() == (SafeEvent::LaunchAtLogin {
            action: "reconcile",
            outcome: EventOutcome::Succeeded,
            stage: "verified",
        }),
        ({
            let event = failure_log(stage);
            &&& event is LaunchAtLogin
            &&& event->LaunchAtLogin_action == "reconcile"
            &&& event->LaunchAtLogin_outcome == EventOutcome::Failed
            &&& stage == LaunchAtLoginFailureStage::Initialize ==> event->LaunchAtLogin_stage
                == "initialize"
            &&& stage == LaunchAtLoginFailureStage::Enable ==> event->LaunchAtLogin_stage
                == "enable"
            &&& stage == LaunchAtLoginFailureStage::Disable ==> event->LaunchAtLogin_stage
                == "disable"
            &&& stage == LaunchAtLoginFailureStage::Verify ==> event->LaunchAtLogin_stage
                == "verify"
        }),
{
}

/// A failure says at which step it came and what was said there.
pub proof fn failures_say_what_was_said(message: Seq<char>)
    ensures
        (LaunchFailureModel { stage: LaunchAtLoginFailureStage::Initialize, message }).words()
            == "launch-at-login "@ + "Initialize"@ + " failed: "@ + message,
        (LaunchFailureModel { stage: LaunchAtLoginFailureStage::Enable, message }).words()
            == "launch-at-login "@ + "Enable"@ + " failed: "@ + message,
        (LaunchFailureModel { stage: LaunchAtLoginFailureStage::Disable, message }).words()
            == "launch-at-login "@ + "Disable"@ + " failed: "@ + message,
        (LaunchFailureModel { stage: LaunchAtLoginFailureStage::Verify, message }).words()
            == "launch-at-login "@ + "Verify"@ + " failed: "@ + message,
        LaunchAtLoginCommandError::Unavailable.words() == "launch at login is unavailable"@,
{
}

} // verus!
