//! The power source on macOS.

use super::{PowerSourceFailure, PowerSourceOperation};
use crate::automatic_protection::PowerSource;
use crate::text::same_text;
use vstd::prelude::*;

verus! {

/// What the name of a kind of power source means.
pub open spec fn kind_source(kind: Seq<char>) -> PowerSource {
    if kind == "AC Power"@ {
        PowerSource::External
    } else if kind == "Battery Power"@ || kind == "UPS Power"@ {
        PowerSource::Limited
    } else {
        PowerSource::Unknown
    }
}

/// What the name that the system gives the power source means. Every name but
/// the known ones leaves the power unknown.
pub fn map_power_source_type(kind: &str) -> (r: PowerSource)
    ensures
        r == kind_source(kind@),
{
    if same_text(kind, "AC Power") {
        PowerSource::External
    } else if same_text(kind, "Battery Power") || same_text(kind, "UPS Power") {
        PowerSource::Limited
    } else {
        PowerSource::Unknown
    }
}

/// A step of the observation.
#[derive(Clone, Copy, Debug, PartialEq, Eq, Structural)]
pub enum ObservationStep {
    /// Add the notification source to the run loop.
    AddSource,
    /// Look at the power source, and publish what it is.
    Sample,
    /// Publish that the registration failed.
    PublishFailure,
    /// Invalidate the notification source.
    InvalidateSource,
    /// Remove the notification source from the run loop.
    RemoveSource,
}

/// An observation, which holds a notification source until it is cleaned up.
#[derive(Clone, Copy, Debug, PartialEq, Eq, Structural)]
pub struct MacRuntime {
    pub holds_source: bool,
}

/// The failure to register for notifications.
pub fn registration_failure() -> (r: PowerSourceFailure)
    ensures
        r == (PowerSourceFailure { operation: PowerSourceOperation::Registration, code: None }),
{
    PowerSourceFailure::new(PowerSourceOperation::Registration, None)
}

impl MacRuntime {
    /// Begins an observation, from whether a notification source could be
    /// made. The power source is looked at once notifications can arrive, so
    /// that no change is missed in between, and not at all where they cannot.
    pub fn start(created: bool) -> (r: (Result<MacRuntime, PowerSourceFailure>, Vec<
        ObservationStep,
    >))
        ensures
            created ==> {
                &&& r.0 == Ok::<MacRuntime, PowerSourceFailure>(MacRuntime { holds_source: true })
                &&& r.1@ == seq![ObservationStep::AddSource, ObservationStep::Sample]
            },
            !created ==> {
                &&& r.0 == Err::<MacRuntime, PowerSourceFailure>(
                    PowerSourceFailure {
                        operation: PowerSourceOperation::Registration,
                        code: None,
                    },
                )
                &&& r.1@ == seq![ObservationStep::PublishFailure]
            },
    {
        let mut steps: Vec<ObservationStep> = Vec::new();
        if created {
            steps.push(ObservationStep::AddSource);
            steps.push(ObservationStep::Sample);
            assert(steps@ =~= seq![ObservationStep::AddSource, ObservationStep::Sample]);
            (Ok(MacRuntime { holds_source: true }), steps)
        } else {
            steps.push(ObservationStep::PublishFailure);
            assert(steps@ =~= seq![ObservationStep::PublishFailure]);
            (Err(registration_failure()), steps)
        }
    }

    /// Ends an observation: the notification source is invalidated, then
    /// removed, and that once.
    pub fn cleanup(&mut self) -> (r: Vec<ObservationStep>)
        ensures
            !final(self).holds_source,
            r@ == if old(self).holds_source {
                seq![ObservationStep::InvalidateSource, ObservationStep::RemoveSource]
            } else {
                Seq::empty()
            },
    {
        let mut steps: Vec<ObservationStep> = Vec::new();
        if self.holds_source {
            steps.push(ObservationStep::InvalidateSource);
            steps.push(ObservationStep::RemoveSource);
        }
        self.holds_source = false;
        assert(steps@ =~= if old(self).holds_source {
            seq![ObservationStep::InvalidateSource, ObservationStep::RemoveSource]
        } else {
            Seq::empty()
        });
        steps
    }

    /// Whether an observation may be ended: only in the thread that began it,
    /// and while it is known there.
    pub fn shutdown(same_thread: bool, known: bool) -> (r: Result<(), PowerSourceFailure>)
        ensures
            r is Ok <==> same_thread && known,
            r is Err ==> r->Err_0 == (PowerSourceFailure {
                operation: PowerSourceOperation::Unregistration,
                code: None,
            }),
    {
        if same_thread && known {
            Ok(())
        } else {
            Err(PowerSourceFailure::new(PowerSourceOperation::Unregistration, None))
        }
    }
}

} // verus!
