//! What a manual session is for: how long it lasts, what it shows of the time
//! that is left, and what a command does to it.

use super::{
    accepted, command_log, commanded, is_due, keeps_awake, schedules, shows, shows_session,
    IntentModel, ManualSessionAddPreset, ManualSessionCommand, ManualSessionError,
    ManualSessionRuntimeError, ManualSessionSnapshot, ManualSessionStartPreset,
    ManualSessionState, SchedulerStep, SessionModel,
};
use crate::duration::MAX_NANOS;
use crate::local_log::{EventOutcome, ManualCommandEvent, SafeEvent};
use vstd::prelude::*;
use vstd::string::*;

verus! {

/// The minutes that a session is started for.
pub open spec fn start_minutes(preset: ManualSessionStartPreset) -> nat {
    match preset {
        ManualSessionStartPreset::FifteenMinutes => 15,
        ManualSessionStartPreset::ThirtyMinutes => 30,
        ManualSessionStartPreset::OneHour => 60,
        ManualSessionStartPreset::TwoHours => 2 * 60,
        ManualSessionStartPreset::FourHours => 4 * 60,
        ManualSessionStartPreset::EightHours => 8 * 60,
        ManualSessionStartPreset::UntilDisabled => 0,
    }
}

/// The minutes that are added to a session.
pub open spec fn added_minutes(preset: ManualSessionAddPreset) -> nat {
    match preset {
        ManualSessionAddPreset::FifteenMinutes => 15,
        ManualSessionAddPreset::ThirtyMinutes => 30,
        ManualSessionAddPreset::OneHour => 60,
        ManualSessionAddPreset::TwoHours => 2 * 60,
        ManualSessionAddPreset::FourHours => 4 * 60,
    }
}

/// A session that was started for so many minutes, to which so many were
/// added, shows at each moment until its end the sum of both less the time
/// since its start, keeps the computer awake, and is due exactly at the end.
pub proof fn a_session_lasts_as_long_as_was_asked_for(
    preset: ManualSessionStartPreset,
    added: ManualSessionAddPreset,
    start: nat,
    then: nat,
    now: nat,
    state: ManualSessionState,
)
    requires
        preset != ManualSessionStartPreset::UntilDisabled,
        start + (start_minutes(preset) + added_minutes(added)) * 60_000_000_000 <= MAX_NANOS,
        start <= now,
    ensures
        ({
            let started = commanded(
                IntentModel::Inactive,
                ManualSessionCommand::Start(preset),
                start,
            );
            let whole = start_minutes(preset) * 60_000_000_000;
            &&& started is Ok
            &&& keeps_awake(started->Ok_0)
            &&& is_due(started->Ok_0, now) <==> now - start >= whole
            &&& shows(state, started->Ok_0, now) && now - start < whole ==> state is Finite
                && state->remaining@ == whole - (now - start)
            &&& shows(state, started->Ok_0, now) && now - start >= whole ==> state is Finite
                && state->remaining@ == 0
        }),
        ({
            let started = commanded(
                IntentModel::Inactive,
                ManualSessionCommand::Start(preset),
                start,
            );
            let longer = commanded(started->Ok_0, ManualSessionCommand::Add(added), then);
            let whole = (start_minutes(preset) + added_minutes(added)) * 60_000_000_000;
            &&& longer is Ok
            &&& keeps_awake(longer->Ok_0)
            &&& is_due(longer->Ok_0, now) <==> now - start >= whole
            &&& shows(state, longer->Ok_0, now) && now - start < whole ==> state is Finite
                && state->remaining@ == whole - (now - start)
        }),
{
}

/// A session without an end keeps the computer awake until it is stopped, and
/// is shown as one.
pub proof fn a_session_without_an_end_goes_on(
    start: nat,
    now: nat,
    deadline: nat,
    state: ManualSessionState,
)
    ensures
        ({
            let started = commanded(
                IntentModel::Inactive,
                ManualSessionCommand::Start(ManualSessionStartPreset::UntilDisabled),
                start,
            );
            let converted = commanded(
                IntentModel::Finite { deadline },
                ManualSessionCommand::ConvertToUntilDisabled,
                start,
            );
            &&& started is Ok
            &&& converted == started
            &&& keeps_awake(started->Ok_0)
            &&& !is_due(started->Ok_0, now)
            &&& shows(state, started->Ok_0, now) <==> state is UntilDisabled
        }),
        ({
            let stopped = commanded(
                IntentModel::Finite { deadline },
                ManualSessionCommand::Stop,
                start,
            );
            &&& stopped is Ok
            &&& !keeps_awake(stopped->Ok_0)
            &&& shows(state, stopped->Ok_0, now) <==> state is Inactive
        }),
{
}

/// A command is refused exactly where it is out of place, where the end would
/// be out of range, or where the session takes no commands any more.
pub proof fn commands_are_refused_for_a_reason(
    session: SessionModel,
    start: ManualSessionStartPreset,
    add: ManualSessionAddPreset,
    now: nat,
)
    ensures
        ({
            let r = accepted(session, ManualSessionCommand::Start(start), now);
            let endless = start == ManualSessionStartPreset::UntilDisabled;
            let end = now + start_minutes(start) * 60_000_000_000;
            &&& !session.accepting <==> r == Err::<IntentModel, ManualSessionError>(
                ManualSessionError::Unavailable,
            )
            &&& session.accepting && !(session.intent is Inactive) <==> r == Err::<
                IntentModel,
                ManualSessionError,
            >(ManualSessionError::InvalidTransition)
            &&& session.accepting && session.intent is Inactive && !endless && end > MAX_NANOS
                <==> r == Err::<IntentModel, ManualSessionError>(
                ManualSessionError::DeadlineOverflow,
            )
            &&& r is Err ==> !(r->Err_0 is WakeCoordination)
        }),
        ({
            let r = accepted(session, ManualSessionCommand::Add(add), now);
            &&& !session.accepting <==> r == Err::<IntentModel, ManualSessionError>(
                ManualSessionError::Unavailable,
            )
            &&& session.accepting && !(session.intent is Finite) <==> r == Err::<
                IntentModel,
                ManualSessionError,
            >(ManualSessionError::InvalidTransition)
            &&& session.accepting && session.intent is Finite && session.intent->deadline
                + added_minutes(add) * 60_000_000_000 > MAX_NANOS <==> r == Err::<
                IntentModel,
                ManualSessionError,
            >(ManualSessionError::DeadlineOverflow)
            &&& r is Err ==> !(r->Err_0 is WakeCoordination)
        }),
        accepted(session, ManualSessionCommand::ConvertToUntilDisabled, now) is Ok
            <==> session.accepting && session.intent is Finite,
        accepted(session, ManualSessionCommand::Stop, now) is Ok <==> session.accepting,
{
}

/// A failure in the background is shown with the session, word for word.
pub proof fn failures_in_the_background_are_shown(
    snapshot: ManualSessionSnapshot,
    session: SessionModel,
    now: nat,
)
    requires
        shows_session(snapshot, session, now),
    ensures
        snapshot.background_failure is Some <==> session.background_failure is Some,
        snapshot.background_failure is Some ==> snapshot.background_failure->0@
            == session.background_failure->0,
        snapshot.state is Inactive <==> session.intent is Inactive,
        snapshot.state is UntilDisabled <==> session.intent is UntilDisabled,
        snapshot.state is Finite <==> session.intent is Finite,
{
}

/// Each command is logged under its own name, with how it went.
pub proof fn commands_are_logged_as_what_they_are(
    start: ManualSessionStartPreset,
    add: ManualSessionAddPreset,
    outcome: EventOutcome,
)
    ensures
        command_log(ManualSessionCommand::Start(start), outcome) == (SafeEvent::ManualCommand {
            command: ManualCommandEvent::Start,
            outcome,
        }),
        command_log(ManualSessionCommand::Add(add), outcome) == (SafeEvent::ManualCommand {
            command: ManualCommandEvent::Add,
            outcome,
        }),
        command_log(ManualSessionCommand::ConvertToUntilDisabled, outcome) == (
        SafeEvent::ManualCommand { command: ManualCommandEvent::Convert, outcome }),
        command_log(ManualSessionCommand::Stop, outcome) == (SafeEvent::ManualCommand {
            command: ManualCommandEvent::Stop,
            outcome,
        }),
{
}

/// Each refusal says what is wrong.
pub proof fn refusals_say_what_is_wrong(text: String)
    ensures
        ManualSessionError::InvalidTransition.words() == "invalid manual session transition"@,
        ManualSessionError::DeadlineOverflow.words() == "manual session deadline overflow"@,
        ManualSessionError::Unavailable.words() == "manual session is shutting down"@,
        ManualSessionError::WakeCoordination(text).words() == text@,
        ManualSessionRuntimeError::AlreadyStarted.words()
            == "manual session scheduler already started"@,
        ManualSessionRuntimeError::Spawn(text).words()
            == "failed to start manual session scheduler: "@ + text@,
        ManualSessionRuntimeError::WorkerPanicked.words() == "manual session scheduler panicked"@,
{
}

/// The scheduler waits for exactly the time that is shown as left, and ends the
/// session once nothing is left. It waits for a command where there is no end,
/// and exits where no command is taken any more.
pub proof fn the_scheduler_waits_for_the_time_that_is_left(
    step: SchedulerStep,
    session: SessionModel,
    now: nat,
    snapshot: ManualSessionSnapshot,
)
    requires
        schedules(step, session, now),
        shows_session(snapshot, session, now),
    ensures
        step is Exit <==> !session.accepting,
        session.accepting ==> (step is Wait <==> !(snapshot.state is Finite)),
        session.accepting && snapshot.state is Finite ==> (step is Expire
            <==> snapshot.state->remaining@ == 0),
        step is WaitFor ==> snapshot.state is Finite && step->WaitFor_0@
            == snapshot.state->remaining@,
{
}

} // verus!
