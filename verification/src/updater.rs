//! What the program knows of updates of itself.

pub mod laws;

use vstd::prelude::*;

verus! {

/// Whether updates can be looked for.
#[derive(Clone, Copy, Debug, PartialEq, Eq, Structural)]
pub enum UpdateAvailability {
    Available,
    Unconfigured,
    InitializationFailed,
}

/// Who asked for an update.
#[derive(Clone, Copy, Debug, PartialEq, Eq, Structural)]
pub enum UpdateTrigger {
    Automatic,
    Manual,
}

/// The step at which an update failed.
#[derive(Clone, Copy, Debug, PartialEq, Eq, Structural)]
pub enum UpdateFailureStage {
    Scheduling,
    Check,
    Download,
    Verification,
    Install,
    Restart,
}

/// An update that was found and can still be installed.
#[derive(Clone, Debug, PartialEq, Eq)]
pub enum PendingUpdateView {
    Version(String),
    Unnamed,
}

impl PendingUpdateView {
    /// Its version, where that is known.
    pub open spec fn version_view(self) -> Option<Seq<char>> {
        match self {
            PendingUpdateView::Version(version) => Some(version@),
            PendingUpdateView::Unnamed => None,
        }
    }

    /// Its version, where that is known.
    pub fn version(&self) -> (r: Option<&str>)
        ensures
            r is Some <==> self.version_view() is Some,
            r is Some ==> r->0@ == self.version_view()->0,
    {
        match self {
            PendingUpdateView::Version(version) => Some(version.as_str()),
            PendingUpdateView::Unnamed => None,
        }
    }
}

/// Where an update is.
#[derive(Clone, Debug, PartialEq, Eq)]
pub enum UpdateStatus {
    Idle,
    Checking(UpdateTrigger),
    UpToDate,
    UpdateAvailable { version: Option<String> },
    AwaitingConfirmation { version: Option<String> },
    Downloading { version: Option<String>, percent: Option<u8> },
    Installing { version: Option<String> },
    Failed { stage: UpdateFailureStage, trigger: UpdateTrigger, pending: Option<PendingUpdateView> },
}

/// What the updater shows of itself.
#[derive(Clone, Debug, PartialEq, Eq)]
pub struct UpdaterSnapshot {
    pub availability: UpdateAvailability,
    pub automatic_checks_enabled: bool,
    pub status: UpdateStatus,
}

impl UpdaterSnapshot {
    /// The failure of an update, where this party asked for it.
    pub open spec fn failure_for(self, asked: UpdateTrigger) -> Option<UpdateFailureStage> {
        match self.status {
            UpdateStatus::Failed { stage, trigger, pending } => if trigger == asked {
                Some(stage)
            } else {
                None
            },
            _ => None,
        }
    }

    /// The failure of an update that the user asked for.
    pub fn user_failure(&self) -> (r: Option<UpdateFailureStage>)
        ensures
            r == self.failure_for(UpdateTrigger::Manual),
    {
        match &self.status {
            UpdateStatus::Failed { stage, trigger, pending } => match trigger {
                UpdateTrigger::Manual => Some(*stage),
                UpdateTrigger::Automatic => None,
            },
            _ => None,
        }
    }

    /// The failure of an update that nobody asked for.
    pub fn background_failure(&self) -> (r: Option<UpdateFailureStage>)
        ensures
            r == self.failure_for(UpdateTrigger::Automatic),
    {
        match &self.status {
            UpdateStatus::Failed { stage, trigger, pending } => match trigger {
                UpdateTrigger::Automatic => Some(*stage),
                UpdateTrigger::Manual => None,
            },
            _ => None,
        }
    }
}

} // verus!
