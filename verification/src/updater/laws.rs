//! What is told of a failed update, and to whom.

use super::{PendingUpdateView, UpdateTrigger, UpdaterSnapshot};
use vstd::prelude::*;
use vstd::string::*;

verus! {

/// A failure is told to the one who asked for the update and to no other,
/// with the step at which it came.
pub proof fn failures_are_told_to_who_asked(snapshot: UpdaterSnapshot)
    ensures
        ({
            let user = snapshot.failure_for(UpdateTrigger::Manual);
            let background = snapshot.failure_for(UpdateTrigger::Automatic);
            &&& user is Some <==> snapshot.status is Failed && snapshot.status->trigger
                == UpdateTrigger::Manual
            &&& background is Some <==> snapshot.status is Failed && snapshot.status->trigger
                == UpdateTrigger::Automatic
            &&& user is Some ==> user->0 == snapshot.status->stage
            &&& background is Some ==> background->0 == snapshot.status->stage
        }),
{
}

/// An update that waits is known by its version, where it has one.
pub proof fn waiting_updates_have_their_version(version: String)
    ensures
        PendingUpdateView::Version(version).version_view() == Some(version@),
        PendingUpdateView::Unnamed.version_view() is None,
{
}

} // verus!
