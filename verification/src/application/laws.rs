//! What the lifecycle is for: everything is started in turn, what was started is
//! stopped in reverse, and the status says how it went.

use super::{
    failed_capabilities, ApplicationStatus, CapabilityId, FailureModel, LifecycleModel,
    LifecyclePhase, Participant, StartupFailurePoint, StateModel, StepModel,
};
use vstd::prelude::*;
use vstd::string::*;

verus! {

/// The capabilities of which the attempt to start them went as told.
pub open spec fn those_that(
    participants: Seq<Participant>,
    outcomes: Seq<Result<(), Seq<char>>>,
    started: bool,
) -> Seq<CapabilityId>
    decreases outcomes.len(),
{
    if outcomes.len() == 0 {
        Seq::empty()
    } else {
        let before = those_that(participants, outcomes.drop_last(), started);
        if outcomes.last() is Ok == started {
            before.push(participants[outcomes.len() - 1].capability)
        } else {
            before
        }
    }
}

/// The failures among the attempts to start capabilities.
pub open spec fn failures_of(
    participants: Seq<Participant>,
    outcomes: Seq<Result<(), Seq<char>>>,
) -> Seq<FailureModel>
    decreases outcomes.len(),
{
    if outcomes.len() == 0 {
        Seq::empty()
    } else {
        let before = failures_of(participants, outcomes.drop_last());
        match outcomes.last() {
            Ok(_) => before,
            Err(message) => before.push(
                FailureModel {
                    capability: participants[outcomes.len() - 1].capability,
                    message,
                },
            ),
        }
    }
}

/// The lifecycle after a whole start of which the attempts so far went as told.
pub open spec fn after_starts(
    participants: Seq<Participant>,
    outcomes: Seq<Result<(), Seq<char>>>,
) -> (LifecycleModel, StepModel)
    decreases outcomes.len(),
{
    if outcomes.len() == 0 {
        LifecycleModel::planned(participants).starting().0.after_restore(Ok(()))
    } else {
        after_starts(participants, outcomes.drop_last()).0.after_start(outcomes.last())
    }
}

/// Whether nothing went wrong that the program cannot do without.
pub open spec fn nothing_required_failed(
    participants: Seq<Participant>,
    outcomes: Seq<Result<(), Seq<char>>>,
) -> bool {
    forall|i: int|
        0 <= i < outcomes.len() && #[trigger] outcomes[i] is Err ==> !participants[i].required
}

/// A start begins with the settings. Then the capabilities are started one
/// after the other, in their order. At the end the program is ready where all
/// of them run, and degraded where one does not that it can do without; what
/// runs and what does not is known all the time.
pub proof fn everything_is_started_in_turn(
    participants: Seq<Participant>,
    outcomes: Seq<Result<(), Seq<char>>>,
)
    requires
        outcomes.len() <= participants.len(),
        nothing_required_failed(participants, outcomes),
    ensures
        LifecycleModel::planned(participants).starting().1 == StepModel::RestoreSettings,
        ({
            let (model, step) = after_starts(participants, outcomes);
            let k = outcomes.len();
            let failed = those_that(participants, outcomes, false);
            &&& model.resources == those_that(participants, outcomes, true)
            &&& model.state.unavailable == failed
            &&& model.state.cleanup.len() == 0
            &&& model.state.startup_failure is None
            &&& k < participants.len() ==> step == StepModel::Start(
                participants[k as int].capability,
            ) && model.state.status == ApplicationStatus::Starting && model.phase
                == LifecyclePhase::Starting
            &&& k == participants.len() ==> step == StepModel::Started(
                failures_of(participants, outcomes),
            ) && model.phase == LifecyclePhase::Idle && model.state.status == (if failed.len()
                == 0 {
                ApplicationStatus::Ready
            } else {
                ApplicationStatus::Degraded
            })
        }),
{
    the_start_so_far(participants, outcomes);
}

proof fn the_start_so_far(
    participants: Seq<Participant>,
    outcomes: Seq<Result<(), Seq<char>>>,
)
    requires
        outcomes.len() <= participants.len(),
        nothing_required_failed(participants, outcomes),
    ensures
        ({
            let (model, step) = after_starts(participants, outcomes);
            let k = outcomes.len();
            let failed = those_that(participants, outcomes, false);
            let failures = failures_of(participants, outcomes);
            &&& failures.len() == failed.len()
            &&& model.participants == participants
            &&& model.next == k
            &&& model.resources == those_that(participants, outcomes, true)
            &&& model.state.unavailable == failed
            &&& model.state.cleanup.len() == 0
            &&& model.state.startup_failure is None
            &&& k < participants.len() ==> step == StepModel::Start(
                participants[k as int].capability,
            ) && model.state.status == ApplicationStatus::Starting && model.phase
                == LifecyclePhase::Starting && model.failures == failures
            &&& k == participants.len() ==> step == StepModel::Started(failures) && model.phase
                == LifecyclePhase::Idle && model.state.status == (if failed.len() == 0 {
                ApplicationStatus::Ready
            } else {
                ApplicationStatus::Degraded
            })
        }),
    decreases outcomes.len(),
{
    if outcomes.len() > 0 {
        let before = outcomes.drop_last();
        assert forall|i: int| 0 <= i < before.len() && #[trigger] before[i] is Err implies
            !participants[i].required by {
            assert(outcomes[i] is Err);
        }
        the_start_so_far(participants, before);
        assert(outcomes.last() == outcomes[outcomes.len() - 1]);
    }
    if outcomes.len() == participants.len() && failures_of(participants, outcomes).len() == 0 {
        assert(failures_of(participants, outcomes) =~= Seq::empty());
    }
}

/// Settings that cannot be restored end the start before anything runs.
pub proof fn nothing_starts_without_settings(participants: Seq<Participant>, message: Seq<char>)
    ensures
        ({
            let (model, step) = LifecycleModel::planned(participants).starting().0.after_restore(
                Err(message),
            );
            &&& model.state.status == ApplicationStatus::Failed
            &&& model.state.startup_failure == Some(StartupFailurePoint::Settings)
            &&& model.resources.len() == 0
            &&& model.phase == LifecyclePhase::Idle
            &&& step is StartFailed
            &&& step->point == Some(StartupFailurePoint::Settings)
            &&& step->message == message
            &&& step->cleanup.len() == 0
        }),
{
}

/// A start that is out of place is refused with the status that the program
/// has, and touches nothing.
pub proof fn a_start_out_of_place_is_refused(model: LifecycleModel, word: Seq<char>)
    requires
        model.restoring || model.state.status != ApplicationStatus::Starting,
        model.state.status == ApplicationStatus::Starting ==> word == "Starting"@,
        model.state.status == ApplicationStatus::Ready ==> word == "Ready"@,
        model.state.status == ApplicationStatus::Degraded ==> word == "Degraded"@,
        model.state.status == ApplicationStatus::Failed ==> word == "Failed"@,
        model.state.status == ApplicationStatus::ShuttingDown ==> word == "ShuttingDown"@,
        model.state.status == ApplicationStatus::Stopped ==> word == "Stopped"@,
    ensures
        model.starting().0 == model,
        model.starting().1 == (StepModel::StartFailed {
            point: None,
            message: "cannot start application lifecycle from "@ + word,
            cleanup: Seq::empty(),
        }),
{
}

/// The failures among the attempts to stop capabilities, of which the last one
/// is stopped first.
pub open spec fn stop_failures(
    resources: Seq<CapabilityId>,
    outcomes: Seq<Result<(), Seq<char>>>,
) -> Seq<FailureModel>
    decreases outcomes.len(),
{
    if outcomes.len() == 0 {
        Seq::empty()
    } else {
        let before = stop_failures(resources, outcomes.drop_last());
        match outcomes.last() {
            Ok(_) => before,
            Err(message) => before.push(
                FailureModel {
                    capability: resources[resources.len() - outcomes.len()],
                    message,
                },
            ),
        }
    }
}

/// The lifecycle after a first step of stopping and attempts that went as told.
pub open spec fn after_stops(
    first: (LifecycleModel, StepModel),
    outcomes: Seq<Result<(), Seq<char>>>,
) -> (LifecycleModel, StepModel)
    decreases outcomes.len(),
{
    if outcomes.len() == 0 {
        first
    } else {
        after_stops(first, outcomes.drop_last()).0.after_stop(outcomes.last())
    }
}

/// What runs is stopped from the last to the first, whatever fails to stop.
/// The program is shutting down until nothing runs, and then it has stopped;
/// every failure is told, and is kept among those of cleaning up.
pub proof fn everything_is_stopped_whatever_fails(
    model: LifecycleModel,
    outcomes: Seq<Result<(), Seq<char>>>,
)
    requires
        model.state.status != ApplicationStatus::Stopped,
        outcomes.len() <= model.resources.len(),
    ensures
        ({
            let (after, step) = after_stops(model.stopping(), outcomes);
            let left = model.resources.len() - outcomes.len();
            let failures = stop_failures(model.resources, outcomes);
            &&& after.resources == model.resources.take(left)
            &&& after.state.unavailable == model.state.unavailable
            &&& after.state.startup_failure == model.state.startup_failure
            &&& left > 0 ==> step == StepModel::Stop(model.resources[left - 1])
                && after.state.status == ApplicationStatus::ShuttingDown && after.phase
                == LifecyclePhase::Stopping && after.state.cleanup == model.state.cleanup
            &&& left == 0 ==> step == StepModel::ShutDown(failures) && after.state.status
                == ApplicationStatus::Stopped && after.phase == LifecyclePhase::Idle
                && after.state.cleanup == model.state.cleanup + Seq::new(
                failures.len(),
                |i: int| failures[i].capability,
            )
        }),
{
    let first = model.stopping();
    let begun = LifecycleModel {
        phase: LifecyclePhase::Stopping,
        failures: Seq::empty(),
        state: StateModel { status: ApplicationStatus::ShuttingDown, ..model.state },
        ..model
    };
    assert(first == begun.next_stop());
    the_stop_so_far(begun, outcomes);
}

/// A capability that the program cannot do without ends the start where it
/// fails: what runs is stopped from the last to the first, and then the
/// failure is told with what failed to stop.
pub proof fn a_failed_start_is_undone(
    model: LifecycleModel,
    message: Seq<char>,
    outcomes: Seq<Result<(), Seq<char>>>,
)
    requires
        model.next < model.participants.len(),
        model.participants[model.next as int].required,
        outcomes.len() <= model.resources.len(),
    ensures
        ({
            let (after, step) = after_stops(model.after_start(Err(message)), outcomes);
            let left = model.resources.len() - outcomes.len();
            let failures = stop_failures(model.resources, outcomes);
            let point = StartupFailurePoint::Required(
                model.participants[model.next as int].capability,
            );
            &&& after.resources == model.resources.take(left)
            &&& after.state.status == ApplicationStatus::Failed
            &&& after.state.startup_failure == Some(point)
            &&& left > 0 ==> step == StepModel::Stop(model.resources[left - 1])
            &&& left == 0 ==> step is StartFailed && step->point == Some(point) && step->message
                == message && step->cleanup == failures && after.state.cleanup
                == model.state.cleanup + Seq::new(failures.len(), |i: int| failures[i].capability)
        }),
{
    let point = StartupFailurePoint::Required(model.participants[model.next as int].capability);
    let begun = LifecycleModel {
        next: model.next + 1,
        phase: LifecyclePhase::RollingBack,
        failures: Seq::empty(),
        message,
        state: StateModel {
            status: ApplicationStatus::Failed,
            startup_failure: Some(point),
            ..model.state
        },
        ..model
    };
    assert(model.after_start(Err(message)) == begun.next_stop());
    the_stop_so_far(begun, outcomes);
}

proof fn the_stop_so_far(begun: LifecycleModel, outcomes: Seq<Result<(), Seq<char>>>)
    requires
        outcomes.len() <= begun.resources.len(),
        begun.failures.len() == 0,
        begun.phase == LifecyclePhase::RollingBack || begun.phase == LifecyclePhase::Stopping,
    ensures
        ({
            let (after, step) = after_stops(begun.next_stop(), outcomes);
            let left = begun.resources.len() - outcomes.len();
            let failures = stop_failures(begun.resources, outcomes);
            let back = begun.phase == LifecyclePhase::RollingBack;
            &&& after.resources == begun.resources.take(left)
            &&& left > 0 ==> step == StepModel::Stop(begun.resources[left - 1]) && after
                == (LifecycleModel { resources: after.resources, failures, ..begun })
            &&& left == 0 ==> after.phase == LifecyclePhase::Idle && after.state == (StateModel {
                status: if back {
                    begun.state.status
                } else {
                    ApplicationStatus::Stopped
                },
                cleanup: begun.state.cleanup + Seq::new(
                    failures.len(),
                    |i: int| failures[i].capability,
                ),
                ..begun.state
            })
            &&& left == 0 && back ==> step == (StepModel::StartFailed {
                point: begun.state.startup_failure,
                message: begun.message,
                cleanup: failures,
            })
            &&& left == 0 && !back ==> step == StepModel::ShutDown(failures)
        }),
    decreases outcomes.len(),
{
    let left = begun.resources.len() - outcomes.len();
    let failures = stop_failures(begun.resources, outcomes);
    assert(failed_capabilities(failures) =~= Seq::new(
        failures.len(),
        |i: int| failures[i].capability,
    ));
    if outcomes.len() > 0 {
        let before = outcomes.drop_last();
        the_stop_so_far(begun, before);
        let earlier = after_stops(begun.next_stop(), before).0;
        assert(earlier.resources == begun.resources.take(left + 1));
        assert(earlier.resources.drop_last() =~= begun.resources.take(left));
        assert(earlier.resources.last() == begun.resources[left]);
    } else {
        assert(begun.failures =~= Seq::empty());
        assert(begun.resources.take(left) =~= begun.resources);
    }
}

} // verus!
