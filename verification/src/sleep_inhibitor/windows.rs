//! The inhibitor of Windows: a power request, held by its handle.
//!
//! Acquiring and releasing take several system calls. The inhibitor answers
//! which call to make, and is told what the call returned, until it is done.

use super::{InhibitorError, InhibitorState, NativeErrorCode, NativeFailure, NativeOperation};
use vstd::prelude::*;

verus! {

/// The type of the request: it keeps the system, but not the display, awake.
pub const SYSTEM_REQUIRED: i32 = 1;

/// The reason that the system shows for the request.
pub open spec fn request_reason() -> &'static str {
    "Chiù idle sleep protection"
}

/// A call to make.
#[derive(Clone, Copy, Debug, PartialEq, Eq)]
pub enum PowerCall {
    Create { reason: &'static str },
    SetRequest { handle: usize, request_type: i32 },
    Clear { handle: usize, request_type: i32 },
    Close { handle: usize },
}

/// What this program holds between operations.
#[derive(Clone, Copy, Debug, PartialEq, Eq, Structural)]
pub enum WindowsOwnership {
    /// Nothing.
    Inactive,
    /// A request that is in force.
    Active(usize),
    /// A request that is not in force, and that could not be closed.
    CleanupDebt(usize),
}

/// Which call of an operation is under way.
#[derive(Clone, Copy, Debug, PartialEq, Eq, Structural)]
pub enum WindowsStage {
    /// None.
    Idle,
    /// Acquiring: closing the request that an earlier operation left.
    Settling { handle: usize },
    /// Acquiring: creating the request.
    Creating,
    /// Acquiring: putting the request in force.
    Setting { handle: usize },
    /// Acquiring: closing the request that could not be put in force, because
    /// of the failure with this code.
    Undoing { handle: usize, code: u32 },
    /// Releasing: taking the request out of force.
    Clearing { handle: usize },
    /// Releasing: closing the request.
    Closing { handle: usize },
}

/// How far an operation has come.
#[derive(Clone, Copy, Debug, PartialEq, Eq)]
pub enum WindowsProgress {
    /// The call to make next.
    Call(PowerCall),
    /// The end of the operation.
    Done(Result<(), InhibitorError>),
}

/// The power request that this program holds, if any.
#[derive(Clone, Copy, Debug, PartialEq, Eq, Structural)]
pub struct WindowsInhibitor {
    pub ownership: WindowsOwnership,
    pub stage: WindowsStage,
}

/// A failed call of an operation.
pub open spec fn failed(operation: NativeOperation, code: u32) -> NativeFailure {
    NativeFailure { operation, code: NativeErrorCode::Windows(code) }
}

/// The end of an operation with an error.
pub open spec fn ends_with(
    primary: NativeFailure,
    cleanup: Option<NativeFailure>,
) -> WindowsProgress {
    WindowsProgress::Done(Err(InhibitorError { primary, cleanup }))
}

/// The creation of the request.
pub open spec fn creation() -> (WindowsInhibitor, WindowsProgress) {
    (
        WindowsInhibitor {
            ownership: WindowsOwnership::Inactive,
            stage: WindowsStage::Creating,
        },
        WindowsProgress::Call(PowerCall::Create { reason: request_reason() }),
    )
}

/// What is held when an operation is over, and how it ended.
pub open spec fn over(ownership: WindowsOwnership, end: WindowsProgress) -> (
    WindowsInhibitor,
    WindowsProgress,
) {
    (WindowsInhibitor { ownership, stage: WindowsStage::Idle }, end)
}

/// The first call of an acquisition: what an earlier operation left is closed
/// before a request is created.
pub open spec fn acquiring(ownership: WindowsOwnership) -> (WindowsInhibitor, WindowsProgress) {
    match ownership {
        WindowsOwnership::Active(_) => over(ownership, WindowsProgress::Done(Ok(()))),
        WindowsOwnership::CleanupDebt(handle) => (
            WindowsInhibitor { ownership, stage: WindowsStage::Settling { handle } },
            WindowsProgress::Call(PowerCall::Close { handle }),
        ),
        WindowsOwnership::Inactive => creation(),
    }
}

/// What follows the answer to the creation of a request.
pub open spec fn after_creation(
    inhibitor: WindowsInhibitor,
    created: Result<usize, u32>,
) -> (WindowsInhibitor, WindowsProgress) {
    match created {
        Ok(handle) => (
            WindowsInhibitor { stage: WindowsStage::Setting { handle }, ..inhibitor },
            WindowsProgress::Call(PowerCall::SetRequest { handle, request_type: SYSTEM_REQUIRED }),
        ),
        Err(code) => over(
            inhibitor.ownership,
            ends_with(failed(NativeOperation::Acquire, code), None),
        ),
    }
}

/// What follows the answer to any other call.
pub open spec fn after_call(inhibitor: WindowsInhibitor, outcome: Result<(), u32>) -> (
    WindowsInhibitor,
    WindowsProgress,
) {
    match (inhibitor.stage, outcome) {
        (WindowsStage::Settling { handle }, Ok(_)) => creation(),
        (WindowsStage::Settling { handle }, Err(code)) => over(
            WindowsOwnership::CleanupDebt(handle),
            ends_with(failed(NativeOperation::Cleanup, code), None),
        ),
        (WindowsStage::Setting { handle }, Ok(_)) => over(
            WindowsOwnership::Active(handle),
            WindowsProgress::Done(Ok(())),
        ),
        (WindowsStage::Setting { handle }, Err(code)) => (
            WindowsInhibitor { stage: WindowsStage::Undoing { handle, code }, ..inhibitor },
            WindowsProgress::Call(PowerCall::Close { handle }),
        ),
        (WindowsStage::Undoing { handle, code }, Ok(_)) => over(
            WindowsOwnership::Inactive,
            ends_with(failed(NativeOperation::Acquire, code), None),
        ),
        (WindowsStage::Undoing { handle, code }, Err(close)) => over(
            WindowsOwnership::CleanupDebt(handle),
            ends_with(
                failed(NativeOperation::Acquire, code),
                Some(failed(NativeOperation::Cleanup, close)),
            ),
        ),
        (WindowsStage::Clearing { handle }, Ok(_)) => (
            WindowsInhibitor { stage: WindowsStage::Closing { handle }, ..inhibitor },
            WindowsProgress::Call(PowerCall::Close { handle }),
        ),
        (WindowsStage::Clearing { handle }, Err(code)) => over(
            WindowsOwnership::Active(handle),
            ends_with(failed(NativeOperation::Release, code), None),
        ),
        (WindowsStage::Closing { handle }, Ok(_)) => over(
            WindowsOwnership::Inactive,
            WindowsProgress::Done(Ok(())),
        ),
        (WindowsStage::Closing { handle }, Err(code)) => over(
            WindowsOwnership::CleanupDebt(handle),
            ends_with(failed(NativeOperation::Cleanup, code), None),
        ),
        _ => (inhibitor, WindowsProgress::Done(Ok(()))),
    }
}

impl WindowsInhibitor {
    /// Whether a call other than the creation of a request is under way.
    pub open spec fn awaits_answer(self) -> bool {
        !(self.stage is Idle) && !(self.stage is Creating)
    }

    /// No request.
    pub fn new() -> (r: WindowsInhibitor)
        ensures
            r == (WindowsInhibitor {
                ownership: WindowsOwnership::Inactive,
                stage: WindowsStage::Idle,
            }),
    {
        WindowsInhibitor { ownership: WindowsOwnership::Inactive, stage: WindowsStage::Idle }
    }

    /// Active while a request is in force.
    pub fn state(&self) -> (r: InhibitorState)
        ensures
            r == if self.ownership is Active {
                InhibitorState::Active
            } else {
                InhibitorState::Inactive
            },
    {
        match self.ownership {
            WindowsOwnership::Active(_) => InhibitorState::Active,
            _ => InhibitorState::Inactive,
        }
    }

    fn finish(&mut self, ownership: WindowsOwnership, end: Result<(), InhibitorError>) -> (r:
        WindowsProgress)
        ensures
            (*final(self), r) == over(ownership, WindowsProgress::Done(end)),
    {
        self.ownership = ownership;
        self.stage = WindowsStage::Idle;
        WindowsProgress::Done(end)
    }

    fn fail(
        &mut self,
        ownership: WindowsOwnership,
        operation: NativeOperation,
        code: u32,
    ) -> (r: WindowsProgress)
        ensures
            (*final(self), r) == over(ownership, ends_with(failed(operation, code), None)),
    {
        let failure = NativeFailure::new(operation, NativeErrorCode::Windows(code));
        self.finish(ownership, Err(InhibitorError::new(failure)))
    }

    fn create(&mut self) -> (r: WindowsProgress)
        ensures
            (*final(self), r) == creation(),
    {
        self.ownership = WindowsOwnership::Inactive;
        self.stage = WindowsStage::Creating;
        WindowsProgress::Call(PowerCall::Create { reason: "Chiù idle sleep protection" })
    }

    /// Begins an acquisition.
    pub fn acquire(&mut self) -> (r: WindowsProgress)
        ensures
            (*final(self), r) == acquiring(old(self).ownership),
    {
        match self.ownership {
            WindowsOwnership::Active(handle) => self.finish(
                WindowsOwnership::Active(handle),
                Ok(()),
            ),
            WindowsOwnership::CleanupDebt(handle) => {
                self.stage = WindowsStage::Settling { handle };
                WindowsProgress::Call(PowerCall::Close { handle })
            },
            WindowsOwnership::Inactive => self.create(),
        }
    }

    /// Goes on with an acquisition after the creation of the request.
    pub fn created(&mut self, created: Result<usize, u32>) -> (r: WindowsProgress)
        requires
            old(self).stage is Creating,
        ensures
            (*final(self), r) == after_creation(*old(self), created),
    {
        match created {
            Ok(handle) => {
                self.stage = WindowsStage::Setting { handle };
                WindowsProgress::Call(PowerCall::SetRequest { handle, request_type: SYSTEM_REQUIRED })
            },
            Err(code) => self.fail(self.ownership, NativeOperation::Acquire, code),
        }
    }

    /// Begins a release.
    pub fn release(&mut self) -> (r: WindowsProgress)
        requires
            old(self).ownership is Active,
        ensures
            *final(self) == (WindowsInhibitor {
                stage: WindowsStage::Clearing { handle: old(self).ownership->Active_0 },
                ..*old(self)
            }),
            r == WindowsProgress::Call(
                PowerCall::Clear {
                    handle: old(self).ownership->Active_0,
                    request_type: SYSTEM_REQUIRED,
                },
            ),
    {
        let handle: usize = match self.ownership {
            WindowsOwnership::Active(handle) => handle,
            _ => 0,
        };
        self.stage = WindowsStage::Clearing { handle };
        WindowsProgress::Call(PowerCall::Clear { handle, request_type: SYSTEM_REQUIRED })
    }

    /// Goes on with an operation after any call but a creation.
    pub fn returned(&mut self, outcome: Result<(), u32>) -> (r: WindowsProgress)
        requires
            old(self).awaits_answer(),
        ensures
            (*final(self), r) == after_call(*old(self), outcome),
    {
        match self.stage {
            WindowsStage::Settling { handle } => match outcome {
                Ok(()) => self.create(),
                Err(code) => self.fail(
                    WindowsOwnership::CleanupDebt(handle),
                    NativeOperation::Cleanup,
                    code,
                ),
            },
            WindowsStage::Setting { handle } => match outcome {
                Ok(()) => self.finish(WindowsOwnership::Active(handle), Ok(())),
                Err(code) => {
                    self.stage = WindowsStage::Undoing { handle, code };
                    WindowsProgress::Call(PowerCall::Close { handle })
                },
            },
            WindowsStage::Undoing { handle, code } => match outcome {
                Ok(()) => self.fail(WindowsOwnership::Inactive, NativeOperation::Acquire, code),
                Err(close) => {
                    let primary = NativeFailure::new(
                        NativeOperation::Acquire,
                        NativeErrorCode::Windows(code),
                    );
                    let cleanup = NativeFailure::new(
                        NativeOperation::Cleanup,
                        NativeErrorCode::Windows(close),
                    );
                    self.finish(
                        WindowsOwnership::CleanupDebt(handle),
                        Err(InhibitorError::with_cleanup(primary, cleanup)),
                    )
                },
            },
            WindowsStage::Clearing { handle } => match outcome {
                Ok(()) => {
                    self.stage = WindowsStage::Closing { handle };
                    WindowsProgress::Call(PowerCall::Close { handle })
                },
                Err(code) => self.fail(
                    WindowsOwnership::Active(handle),
                    NativeOperation::Release,
                    code,
                ),
            },
            WindowsStage::Closing { handle } => match outcome {
                Ok(()) => self.finish(WindowsOwnership::Inactive, Ok(())),
                Err(code) => self.fail(
                    WindowsOwnership::CleanupDebt(handle),
                    NativeOperation::Cleanup,
                    code,
                ),
            },
            _ => WindowsProgress::Done(Ok(())),
        }
    }

    /// Gives everything up, and answers the calls to make, once and whatever
    /// comes of them.
    pub fn cleanup_on_drop(&mut self) -> (r: Vec<PowerCall>)
        ensures
            *final(self) == (WindowsInhibitor {
                ownership: WindowsOwnership::Inactive,
                stage: WindowsStage::Idle,
            }),
            r@ == match old(self).ownership {
                WindowsOwnership::Active(handle) => seq![
                    PowerCall::Clear { handle, request_type: SYSTEM_REQUIRED },
                    PowerCall::Close { handle },
                ],
                WindowsOwnership::CleanupDebt(handle) => seq![PowerCall::Close { handle }],
                WindowsOwnership::Inactive => Seq::empty(),
            },
    {
        let mut calls: Vec<PowerCall> = Vec::new();
        match self.ownership {
            WindowsOwnership::Active(handle) => {
                calls.push(PowerCall::Clear { handle, request_type: SYSTEM_REQUIRED });
                calls.push(PowerCall::Close { handle });
            },
            WindowsOwnership::CleanupDebt(handle) => {
                calls.push(PowerCall::Close { handle });
            },
            WindowsOwnership::Inactive => {},
        }
        self.ownership = WindowsOwnership::Inactive;
        self.stage = WindowsStage::Idle;
        assert(calls@ =~= match old(self).ownership {
            WindowsOwnership::Active(handle) => seq![
                PowerCall::Clear { handle, request_type: SYSTEM_REQUIRED },
                PowerCall::Close { handle },
            ],
            WindowsOwnership::CleanupDebt(handle) => seq![PowerCall::Close { handle }],
            WindowsOwnership::Inactive => Seq::empty(),
        });
        calls
    }
}

/// A whole acquisition, given what each call would answer.
pub open spec fn acquisition(
    ownership: WindowsOwnership,
    settle: Result<(), u32>,
    create: Result<usize, u32>,
    set: Result<(), u32>,
    undo: Result<(), u32>,
) -> (WindowsInhibitor, WindowsProgress) {
    let first = acquiring(ownership);
    let second = if first.0.stage is Settling {
        after_call(first.0, settle)
    } else {
        first
    };
    let third = if second.0.stage is Creating {
        after_creation(second.0, create)
    } else {
        second
    };
    let fourth = if third.0.stage is Setting {
        after_call(third.0, set)
    } else {
        third
    };
    if fourth.0.stage is Undoing {
        after_call(fourth.0, undo)
    } else {
        fourth
    }
}

/// An acquisition always comes to an end. It succeeds exactly where a request
/// is in force afterwards, and no handle is lost: the one that was created is
/// in force, closed or kept to be closed later, and while an earlier one
/// cannot be closed none is created.
pub proof fn an_acquisition_loses_no_handle(
    ownership: WindowsOwnership,
    settle: Result<(), u32>,
    create: Result<usize, u32>,
    set: Result<(), u32>,
    undo: Result<(), u32>,
)
    ensures
        ({
            let end = acquisition(ownership, settle, create, set, undo);
            &&& end.0.stage is Idle
            &&& end.1 is Done
            &&& end.1->Done_0 is Ok <==> end.0.ownership is Active
            &&& ownership is Active ==> end.0.ownership == ownership
            &&& ownership is CleanupDebt && settle is Err ==> end.0.ownership == ownership
            &&& !(ownership is Active) && !(ownership is CleanupDebt && settle is Err) ==> end.0.ownership
                == match (create, set, undo) {
                (Err(_), _, _) => WindowsOwnership::Inactive,
                (Ok(handle), Ok(_), _) => WindowsOwnership::Active(handle),
                (Ok(handle), Err(_), Ok(_)) => WindowsOwnership::Inactive,
                (Ok(handle), Err(_), Err(_)) => WindowsOwnership::CleanupDebt(handle),
            }
        }),
{
}

/// A whole release, given what each call would answer.
pub open spec fn releasing(handle: usize, clear: Result<(), u32>, close: Result<(), u32>) -> (
    WindowsInhibitor,
    WindowsProgress,
) {
    let first = after_call(
        WindowsInhibitor {
            ownership: WindowsOwnership::Active(handle),
            stage: WindowsStage::Clearing { handle },
        },
        clear,
    );
    if first.0.stage is Closing {
        after_call(first.0, close)
    } else {
        first
    }
}

/// A release always comes to an end. Where the request cannot be taken out of
/// force it stays in force, and where it cannot be closed it is kept to be
/// closed later.
pub proof fn a_release_loses_no_handle(
    handle: usize,
    clear: Result<(), u32>,
    close: Result<(), u32>,
)
    ensures
        ({
            let end = releasing(handle, clear, close);
            &&& end.0.stage is Idle
            &&& end.1 is Done
            &&& end.1->Done_0 is Ok <==> clear is Ok && close is Ok
            &&& end.0.ownership == match (clear, close) {
                (Err(_), _) => WindowsOwnership::Active(handle),
                (Ok(_), Err(_)) => WindowsOwnership::CleanupDebt(handle),
                (Ok(_), Ok(_)) => WindowsOwnership::Inactive,
            }
        }),
{
}

} // verus!
