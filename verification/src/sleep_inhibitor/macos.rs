//! The inhibitor of macOS: a power assertion, held by its identifier.

use super::{InhibitorError, InhibitorState, NativeErrorCode, NativeFailure, NativeOperation};
use vstd::prelude::*;

verus! {

/// The level at which an assertion is in force.
pub const ASSERTION_LEVEL_ON: u32 = 255;

/// The type of the assertion: it keeps the system, but not the display, from
/// idle sleep.
pub open spec fn assertion_type() -> &'static str {
    "PreventUserIdleSystemSleep"
}

/// The name under which the system lists the assertion.
pub open spec fn assertion_name() -> &'static str {
    "Chiù idle sleep protection"
}

/// What an assertion is created with.
#[derive(Clone, Copy, Debug, PartialEq, Eq)]
pub struct AssertionRequest {
    pub assertion_type: &'static str,
    pub assertion_level: u32,
    pub assertion_name: &'static str,
}

/// The assertion that this program holds, if any.
#[derive(Clone, Copy, Debug, PartialEq, Eq, Structural)]
pub struct MacOsInhibitor {
    pub assertion_id: Option<u32>,
}

/// The error of an operation that the system refused with a code.
pub open spec fn refused(operation: NativeOperation, code: i32) -> InhibitorError {
    InhibitorError {
        primary: NativeFailure { operation, code: NativeErrorCode::MacOs(code) },
        cleanup: None,
    }
}

impl MacOsInhibitor {
    /// No assertion.
    pub fn new() -> (r: MacOsInhibitor)
        ensures
            r == (MacOsInhibitor { assertion_id: None }),
    {
        MacOsInhibitor { assertion_id: None }
    }

    /// Active while an assertion is held.
    pub fn state(&self) -> (r: InhibitorState)
        ensures
            r == if self.assertion_id is Some {
                InhibitorState::Active
            } else {
                InhibitorState::Inactive
            },
    {
        match self.assertion_id {
            Some(_) => InhibitorState::Active,
            None => InhibitorState::Inactive,
        }
    }

    /// What the assertion is to be created with.
    pub fn acquire(&self) -> (r: AssertionRequest)
        ensures
            r == (AssertionRequest {
                assertion_type: assertion_type(),
                assertion_level: ASSERTION_LEVEL_ON,
                assertion_name: assertion_name(),
            }),
    {
        AssertionRequest {
            assertion_type: "PreventUserIdleSystemSleep",
            assertion_level: ASSERTION_LEVEL_ON,
            assertion_name: "Chiù idle sleep protection",
        }
    }

    /// Takes note of how creating the assertion went.
    pub fn acquired(&mut self, created: Result<u32, i32>) -> (r: Result<(), InhibitorError>)
        ensures
            match created {
                Ok(id) => r is Ok && final(self).assertion_id == Some(id),
                Err(code) => {
                    &&& r == Err::<(), InhibitorError>(refused(NativeOperation::Acquire, code))
                    &&& *final(self) == *old(self)
                },
            },
    {
        match created {
            Ok(assertion_id) => {
                self.assertion_id = Some(assertion_id);
                Ok(())
            },
            Err(code) => Err(
                InhibitorError::new(
                    NativeFailure::new(NativeOperation::Acquire, NativeErrorCode::MacOs(code)),
                ),
            ),
        }
    }

    /// The assertion that is to be released: exactly the one that is held.
    pub fn release(&self) -> (r: u32)
        requires
            self.assertion_id is Some,
        ensures
            r == self.assertion_id->0,
    {
        match self.assertion_id {
            Some(assertion_id) => assertion_id,
            None => 0,
        }
    }

    /// Takes note of how releasing the assertion went. After a failure it is
    /// still held, so that releasing it can be tried again.
    pub fn released(&mut self, outcome: Result<(), i32>) -> (r: Result<(), InhibitorError>)
        ensures
            match outcome {
                Ok(_) => r is Ok && final(self).assertion_id is None,
                Err(code) => {
                    &&& r == Err::<(), InhibitorError>(refused(NativeOperation::Release, code))
                    &&& *final(self) == *old(self)
                },
            },
    {
        match outcome {
            Ok(()) => {
                self.assertion_id = None;
                Ok(())
            },
            Err(code) => Err(
                InhibitorError::new(
                    NativeFailure::new(NativeOperation::Release, NativeErrorCode::MacOs(code)),
                ),
            ),
        }
    }

    /// Gives the assertion up, and answers which one is to be released, once
    /// and whatever comes of it.
    pub fn cleanup_on_drop(&mut self) -> (r: Option<u32>)
        ensures
            r == old(self).assertion_id,
            final(self).assertion_id is None,
    {
        let held = self.assertion_id;
        self.assertion_id = None;
        held
    }
}

} // verus!
