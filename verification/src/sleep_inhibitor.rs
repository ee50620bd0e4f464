//! The platform's idle-sleep inhibitor: what to ask of it, and what its
//! failures mean.

use crate::text::{decimal, decimal_text};
use vstd::prelude::*;
use vstd::string::*;

pub mod laws;
pub mod macos;
pub mod windows;

verus! {

/// Whether the native inhibitor holds the computer awake.
#[derive(Clone, Copy, Debug, PartialEq, Eq, Structural)]
pub enum InhibitorState {
    Inactive,
    Active,
}

/// What a native call was for.
#[derive(Clone, Copy, Debug, PartialEq, Eq, Structural)]
pub enum NativeOperation {
    Acquire,
    Release,
    Cleanup,
}

/// The code with which a platform reports a failure.
#[derive(Clone, Copy, Debug, PartialEq, Eq, Structural)]
pub enum NativeErrorCode {
    Windows(u32),
    MacOs(i32),
}

/// A native call that failed.
#[derive(Clone, Copy, Debug, PartialEq, Eq, Structural)]
pub struct NativeFailure {
    pub operation: NativeOperation,
    pub code: NativeErrorCode,
}

impl NativeFailure {
    /// A failure of an operation, with the platform's code for it.
    pub fn new(operation: NativeOperation, code: NativeErrorCode) -> (r: NativeFailure)
        ensures
            r == (NativeFailure { operation, code }),
    {
        NativeFailure { operation, code }
    }

    /// What the call was for.
    pub fn operation(&self) -> (r: NativeOperation)
        ensures
            r == self.operation,
    {
        self.operation
    }

    /// The platform's code.
    pub fn code(&self) -> (r: NativeErrorCode)
        ensures
            r == self.code,
    {
        self.code
    }
}

/// Why the inhibitor did not do what it was asked, and what went wrong while
/// a partial acquisition was undone.
#[derive(Clone, Copy, Debug, PartialEq, Eq, Structural)]
pub struct InhibitorError {
    pub primary: NativeFailure,
    pub cleanup: Option<NativeFailure>,
}

/// The name of an operation.
pub open spec fn operation_word(operation: NativeOperation) -> Seq<char> {
    match operation {
        NativeOperation::Acquire => "Acquire"@,
        NativeOperation::Release => "Release"@,
        NativeOperation::Cleanup => "Cleanup"@,
    }
}

fn operation_name(operation: NativeOperation) -> (r: &'static str)
    ensures
        r@ == operation_word(operation),
{
    match operation {
        NativeOperation::Acquire => "Acquire",
        NativeOperation::Release => "Release",
        NativeOperation::Cleanup => "Cleanup",
    }
}

/// A code with the name of its platform.
pub open spec fn code_words(code: NativeErrorCode) -> Seq<char> {
    match code {
        NativeErrorCode::Windows(code) => "Windows("@ + decimal(code as nat) + ")"@,
        NativeErrorCode::MacOs(code) => if code < 0 {
            "MacOs(-"@ + decimal((-code) as nat) + ")"@
        } else {
            "MacOs("@ + decimal(code as nat) + ")"@
        },
    }
}

fn code_name(code: NativeErrorCode) -> (r: String)
    ensures
        r@ == code_words(code),
{
    match code {
        NativeErrorCode::Windows(code) => String::from_str("Windows(").concat(
            decimal_text(code as u128).as_str(),
        ).concat(")"),
        NativeErrorCode::MacOs(code) => if code < 0 {
            let magnitude: i64 = -(code as i64);
            String::from_str("MacOs(-").concat(decimal_text(magnitude as u128).as_str()).concat(")")
        } else {
            String::from_str("MacOs(").concat(decimal_text(code as u128).as_str()).concat(")")
        },
    }
}

impl InhibitorError {
    /// An error with nothing left to undo.
    pub fn new(primary: NativeFailure) -> (r: InhibitorError)
        ensures
            r == (InhibitorError { primary, cleanup: None }),
    {
        InhibitorError { primary, cleanup: None }
    }

    /// An error after which undoing failed too.
    pub fn with_cleanup(primary: NativeFailure, cleanup: NativeFailure) -> (r: InhibitorError)
        ensures
            r == (InhibitorError { primary, cleanup: Some(cleanup) }),
    {
        InhibitorError { primary, cleanup: Some(cleanup) }
    }

    /// What went wrong first.
    pub fn primary(&self) -> (r: NativeFailure)
        ensures
            r == self.primary,
    {
        self.primary
    }

    /// What went wrong while a partial acquisition was undone.
    pub fn cleanup(&self) -> (r: Option<NativeFailure>)
        ensures
            r == self.cleanup,
    {
        self.cleanup
    }

    /// The error in words.
    pub open spec fn words(self) -> Seq<char> {
        let first = "idle-sleep inhibitor "@ + operation_word(self.primary.operation)
            + " failed with "@ + code_words(self.primary.code);
        match self.cleanup {
            None => first,
            Some(cleanup) => first + "; cleanup "@ + operation_word(cleanup.operation)
                + " failed with "@ + code_words(cleanup.code),
        }
    }

    /// The error in words.
    pub fn message(&self) -> (r: String)
        ensures
            r@ == self.words(),
    {
        let first = String::from_str("idle-sleep inhibitor ").concat(
            operation_name(self.primary.operation),
        ).concat(" failed with ").concat(code_name(self.primary.code).as_str());
        match self.cleanup {
            None => first,
            Some(cleanup) => first.concat("; cleanup ").concat(
                operation_name(cleanup.operation),
            ).concat(" failed with ").concat(code_name(cleanup.code).as_str()),
        }
    }
}

/// The inhibitor as the program uses it: a native inhibitor, in the state that
/// it last reported.
#[derive(Clone, Copy, Debug, PartialEq, Eq, Structural)]
pub struct IdleSleepInhibitor {
    pub native: InhibitorState,
}

impl IdleSleepInhibitor {
    /// An inhibitor that holds nothing.
    pub fn new() -> (r: IdleSleepInhibitor)
        ensures
            r == (IdleSleepInhibitor { native: InhibitorState::Inactive }),
    {
        IdleSleepInhibitor { native: InhibitorState::Inactive }
    }

    /// An inhibitor whose native part is in a known state.
    pub fn with_native(native: InhibitorState) -> (r: IdleSleepInhibitor)
        ensures
            r == (IdleSleepInhibitor { native }),
    {
        IdleSleepInhibitor { native }
    }

    /// The state of the native inhibitor.
    pub fn state(&self) -> (r: InhibitorState)
        ensures
            r == self.native,
    {
        self.native
    }

    /// What to ask of the native inhibitor so that it holds the computer
    /// awake: nothing where it already does.
    pub fn acquire(&self) -> (r: Option<NativeOperation>)
        ensures
            r == if self.native == InhibitorState::Active {
                None
            } else {
                Some(NativeOperation::Acquire)
            },
    {
        match self.native {
            InhibitorState::Active => None,
            InhibitorState::Inactive => Some(NativeOperation::Acquire),
        }
    }

    /// What to ask of the native inhibitor so that it lets the computer
    /// sleep: nothing where it already does.
    pub fn release(&self) -> (r: Option<NativeOperation>)
        ensures
            r == if self.native == InhibitorState::Inactive {
                None
            } else {
                Some(NativeOperation::Release)
            },
    {
        match self.native {
            InhibitorState::Inactive => None,
            InhibitorState::Active => Some(NativeOperation::Release),
        }
    }

    /// Takes note of the state that the native inhibitor reports after a call.
    pub fn native_is(&mut self, native: InhibitorState)
        ensures
            *final(self) == (IdleSleepInhibitor { native }),
    {
        self.native = native;
    }
}

} // verus!
