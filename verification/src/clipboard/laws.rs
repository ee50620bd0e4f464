//! In which order a text is put on the clipboard.

use super::{after_calls, ClipboardCall, ClipboardStage, ClipboardStep, ClipboardWrite};
use vstd::prelude::*;

verus! {

/// While all goes well the clipboard is opened and emptied, memory for the
/// whole text is allocated, locked and filled, the memory is handed over, and
/// the clipboard is closed.
pub proof fn writing_has_its_order(bytes: usize, outcomes: Seq<bool>)
    requires
        forall|i: int| 0 <= i < outcomes.len() ==> #[trigger] outcomes[i],
    ensures
        ({
            let start = ClipboardWrite { bytes, stage: ClipboardStage::Opening };
            let step = after_calls(start, outcomes).step();
            &&& outcomes.len() == 0 ==> step == ClipboardStep::Call(ClipboardCall::Open)
            &&& outcomes.len() == 1 ==> step == ClipboardStep::Call(ClipboardCall::Empty)
            &&& outcomes.len() == 2 ==> step == ClipboardStep::Call(
                ClipboardCall::Allocate { bytes },
            )
            &&& outcomes.len() == 3 ==> step == ClipboardStep::Call(ClipboardCall::Lock)
            &&& outcomes.len() == 4 ==> step == ClipboardStep::Call(ClipboardCall::Fill)
            &&& outcomes.len() == 5 ==> step == ClipboardStep::Call(ClipboardCall::Hand)
            &&& outcomes.len() == 6 ==> step == ClipboardStep::Call(ClipboardCall::Close)
            &&& outcomes.len() >= 7 ==> step == ClipboardStep::Done(true)
        }),
{
    the_writing_so_far(bytes, outcomes);
}

proof fn the_writing_so_far(bytes: usize, outcomes: Seq<bool>)
    requires
        forall|i: int| 0 <= i < outcomes.len() ==> #[trigger] outcomes[i],
    ensures
        ({
            let start = ClipboardWrite { bytes, stage: ClipboardStage::Opening };
            let now = after_calls(start, outcomes);
            &&& now.bytes == bytes
            &&& outcomes.len() == 0 ==> now.stage is Opening
            &&& outcomes.len() == 1 ==> now.stage is Emptying
            &&& outcomes.len() == 2 ==> now.stage is Allocating
            &&& outcomes.len() == 3 ==> now.stage is Locking
            &&& outcomes.len() == 4 ==> now.stage is Filling
            &&& outcomes.len() == 5 ==> now.stage is Handing
            &&& outcomes.len() == 6 ==> now.stage == (ClipboardStage::Closing { written: true })
            &&& outcomes.len() >= 7 ==> now.stage == (ClipboardStage::Done { written: true })
        }),
    decreases outcomes.len(),
{
    if outcomes.len() > 0 {
        let before = outcomes.drop_last();
        assert forall|i: int| 0 <= i < before.len() implies #[trigger] before[i] by {
            assert(outcomes[i]);
        }
        the_writing_so_far(bytes, before);
        assert(outcomes[outcomes.len() - 1]);
    }
}

/// A text counts as written exactly where its memory was handed over: every
/// call that fails before that leads to the end without it, and none after it
/// does.
pub proof fn only_what_was_handed_over_is_written(write: ClipboardWrite, succeeded: bool)
    ensures
        write.after(succeeded).stage == (ClipboardStage::Closing { written: true })
            <==> write.stage is Handing && succeeded,
        write.after(succeeded).stage == (ClipboardStage::Done { written: true }) <==> write.stage
            == (ClipboardStage::Closing { written: true }) || write.stage == (
        ClipboardStage::Done { written: true }),
        write.after(succeeded).bytes == write.bytes,
{
}

} // verus!
