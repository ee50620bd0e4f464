//! What the inhibitors are for: what they ask of the system, and what they say
//! where the system refuses.

use super::windows::{
    acquiring, acquisition, after_call, after_creation, releasing, PowerCall, WindowsInhibitor,
    WindowsOwnership, WindowsProgress, WindowsStage,
};
use super::{macos, windows, InhibitorError, NativeErrorCode, NativeFailure, NativeOperation};
use crate::text::decimal;
use vstd::prelude::*;
use vstd::string::*;

verus! {

/// A failure says what failed with which code of which system, and what failed
/// in cleaning up after it.
pub proof fn failures_say_what_failed(code: u32, other: i32, word: Seq<char>)
    requires
        other >= 0 ==> word == "MacOs("@ + decimal(other as nat) + ")"@,
        other < 0 ==> word == "MacOs(-"@ + decimal((-other) as nat) + ")"@,
    ensures
        ({
            let acquire = NativeFailure {
                operation: NativeOperation::Acquire,
                code: NativeErrorCode::Windows(code),
            };
            let release = NativeFailure {
                operation: NativeOperation::Release,
                code: NativeErrorCode::MacOs(other),
            };
            let cleanup = NativeFailure {
                operation: NativeOperation::Cleanup,
                code: NativeErrorCode::Windows(code),
            };
            let number = "Windows("@ + decimal(code as nat) + ")"@;
            &&& (InhibitorError { primary: acquire, cleanup: None }).words()
                == "idle-sleep inhibitor "@ + "Acquire"@ + " failed with "@ + number
            &&& (InhibitorError { primary: release, cleanup: None }).words()
                == "idle-sleep inhibitor "@ + "Release"@ + " failed with "@ + word
            &&& (InhibitorError { primary: cleanup, cleanup: None }).words()
                == "idle-sleep inhibitor "@ + "Cleanup"@ + " failed with "@ + number
            &&& (InhibitorError { primary: acquire, cleanup: Some(cleanup) }).words()
                == "idle-sleep inhibitor "@ + "Acquire"@ + " failed with "@ + number
                + "; cleanup "@ + "Cleanup"@ + " failed with "@ + number
        }),
{
}

/// On macOS the system is asked not to sleep while nobody uses it, in the name
/// of the program, and a refusal is kept with its code.
pub proof fn the_system_is_asked_by_name(operation: NativeOperation, code: i32)
    ensures
        macos::assertion_type() == "PreventUserIdleSystemSleep",
        macos::assertion_name() == "Chiù idle sleep protection",
        macos::refused(operation, code).primary.operation == operation,
        macos::refused(operation, code).primary.code == NativeErrorCode::MacOs(code),
        macos::refused(operation, code).cleanup is None,
{
}

/// On Windows every call is about the handle that the system gave: a request is
/// made on the handle that was just created, and that handle is closed where
/// the request is refused.
pub proof fn calls_are_about_the_handle_that_was_given(
    inhibitor: WindowsInhibitor,
    given: usize,
    code: u32,
    old_handle: usize,
)
    ensures
        acquiring(WindowsOwnership::Inactive).1 == WindowsProgress::Call(
            PowerCall::Create { reason: "Chiù idle sleep protection" },
        ),
        acquiring(WindowsOwnership::CleanupDebt(old_handle)).1 == WindowsProgress::Call(
            PowerCall::Close { handle: old_handle },
        ),
        acquiring(WindowsOwnership::Active(old_handle)).1 == WindowsProgress::Done(Ok(())),
        ({
            let (created, asks) = after_creation(inhibitor, Ok(given));
            let (refused, undoes) = after_call(created, Err(code));
            let (granted, ends) = after_call(created, Ok(()));
            &&& asks == WindowsProgress::Call(
                PowerCall::SetRequest { handle: given, request_type: 1 },
            )
            &&& undoes == WindowsProgress::Call(PowerCall::Close { handle: given })
            &&& granted.ownership == WindowsOwnership::Active(given)
            &&& ends == WindowsProgress::Done(Ok(()))
        }),
        ({
            let clearing = WindowsInhibitor {
                ownership: WindowsOwnership::Active(given),
                stage: WindowsStage::Clearing { handle: given },
            };
            after_call(clearing, Ok(())).1 == WindowsProgress::Call(
                PowerCall::Close { handle: given },
            )
        }),
{
}

/// On Windows a refusal ends an acquisition with the code of the call that was
/// refused, and with that of cleaning up where that was refused too.
pub proof fn refused_acquisitions_tell_the_code(
    ownership: WindowsOwnership,
    settle: Result<(), u32>,
    create: Result<usize, u32>,
    set: Result<(), u32>,
    undo: Result<(), u32>,
)
    requires
        !(ownership is Active),
    ensures
        ({
            let end = acquisition(ownership, settle, create, set, undo).1;
            let error = end->Done_0->Err_0;
            let settled = ownership is Inactive || settle is Ok;
            &&& end is Done
            &&& end->Done_0 is Ok <==> settled && create is Ok && set is Ok
            &&& !settled ==> error.primary.operation == NativeOperation::Cleanup
                && error.primary.code == NativeErrorCode::Windows(settle->Err_0)
                && error.cleanup is None
            &&& settled && create is Err ==> error.primary.operation == NativeOperation::Acquire
                && error.primary.code == NativeErrorCode::Windows(create->Err_0)
                && error.cleanup is None
            &&& settled && create is Ok && set is Err ==> error.primary.operation
                == NativeOperation::Acquire && error.primary.code == NativeErrorCode::Windows(
                set->Err_0,
            ) && (undo is Ok <==> error.cleanup is None)
            &&& settled && create is Ok && set is Err && undo is Err ==> error.cleanup->0.operation
                == NativeOperation::Cleanup && error.cleanup->0.code == NativeErrorCode::Windows(
                undo->Err_0,
            )
        }),
{
}

/// On Windows a refusal ends a release with the code of the call that was
/// refused.
pub proof fn refused_releases_tell_the_code(
    handle: usize,
    clear: Result<(), u32>,
    close: Result<(), u32>,
)
    ensures
        ({
            let end = releasing(handle, clear, close).1;
            let error = end->Done_0->Err_0;
            &&& end is Done
            &&& clear is Err ==> end->Done_0 is Err && error.primary.operation
                == NativeOperation::Release && error.primary.code == NativeErrorCode::Windows(
                clear->Err_0,
            ) && error.cleanup is None
            &&& clear is Ok && close is Err ==> end->Done_0 is Err && error.primary.operation
                == NativeOperation::Cleanup && error.primary.code == NativeErrorCode::Windows(
                close->Err_0,
            ) && error.cleanup is None
        }),
{
}

/// The numbers by which the systems know a request that is in force: an
/// assertion that is on, and a system that is required.
pub proof fn requests_are_known_by_their_numbers()
    ensures
        macos::ASSERTION_LEVEL_ON == 255,
        windows::SYSTEM_REQUIRED == 1,
{
}

} // verus!
