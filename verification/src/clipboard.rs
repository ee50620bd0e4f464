//! Putting a text on the Windows clipboard, call by call.
//!
//! The clipboard takes over a piece of memory only when it accepts it. Until
//! then the memory has to be given back, and the clipboard has to be closed
//! whenever it was opened.

pub mod laws;

use vstd::prelude::*;

verus! {

/// A call that the platform is asked to make.
#[derive(Clone, Copy, Debug, PartialEq, Eq, Structural)]
pub enum ClipboardCall {
    /// Open the clipboard.
    Open,
    /// Empty the clipboard.
    Empty,
    /// Allocate memory of a size in bytes.
    Allocate { bytes: usize },
    /// Lock the memory.
    Lock,
    /// Copy the text into the memory and unlock it.
    Fill,
    /// Hand the memory over to the clipboard.
    Hand,
    /// Give the memory back.
    Free,
    /// Close the clipboard.
    Close,
}

/// What comes next.
#[derive(Clone, Copy, Debug, PartialEq, Eq, Structural)]
pub enum ClipboardStep {
    /// The call to make, whose outcome is to be reported.
    Call(ClipboardCall),
    /// The end: whether the text is on the clipboard.
    Done(bool),
}

/// How far writing a text has come: the call that is under way, and, where the
/// end is near, how it will end.
#[derive(Clone, Copy, Debug, PartialEq, Eq, Structural)]
pub enum ClipboardStage {
    Opening,
    Emptying,
    Allocating,
    Locking,
    Filling,
    Handing,
    Freeing,
    Closing { written: bool },
    Done { written: bool },
}

/// A text on its way to the clipboard, by its size in bytes.
#[derive(Clone, Copy, Debug, PartialEq, Eq, Structural)]
pub struct ClipboardWrite {
    pub bytes: usize,
    pub stage: ClipboardStage,
}

/// The bytes of a text in UTF-16 with its closing zero, from the number of
/// its units, where they can be counted.
pub fn encoded_bytes(units: usize) -> (r: Option<usize>)
    ensures
        r is Some <==> units * 2 <= usize::MAX,
        r is Some ==> r->0 == units * 2,
{
    if units <= usize::MAX / 2 {
        Some(units * 2)
    } else {
        None
    }
}

impl ClipboardWrite {
    /// What comes next in a stage.
    pub open spec fn step(self) -> ClipboardStep {
        match self.stage {
            ClipboardStage::Opening => ClipboardStep::Call(ClipboardCall::Open),
            ClipboardStage::Emptying => ClipboardStep::Call(ClipboardCall::Empty),
            ClipboardStage::Allocating => ClipboardStep::Call(
                ClipboardCall::Allocate { bytes: self.bytes },
            ),
            ClipboardStage::Locking => ClipboardStep::Call(ClipboardCall::Lock),
            ClipboardStage::Filling => ClipboardStep::Call(ClipboardCall::Fill),
            ClipboardStage::Handing => ClipboardStep::Call(ClipboardCall::Hand),
            ClipboardStage::Freeing => ClipboardStep::Call(ClipboardCall::Free),
            ClipboardStage::Closing { .. } => ClipboardStep::Call(ClipboardCall::Close),
            ClipboardStage::Done { written } => ClipboardStep::Done(written),
        }
    }

    /// The stage after a call has succeeded or failed. Giving memory back,
    /// filling it and closing the clipboard are not asked for their outcome.
    pub open spec fn after(self, succeeded: bool) -> ClipboardWrite {
        let stage = match self.stage {
            ClipboardStage::Opening => if succeeded {
                ClipboardStage::Emptying
            } else {
                ClipboardStage::Done { written: false }
            },
            ClipboardStage::Emptying => if succeeded {
                ClipboardStage::Allocating
            } else {
                ClipboardStage::Closing { written: false }
            },
            ClipboardStage::Allocating => if succeeded {
                ClipboardStage::Locking
            } else {
                ClipboardStage::Closing { written: false }
            },
            ClipboardStage::Locking => if succeeded {
                ClipboardStage::Filling
            } else {
                ClipboardStage::Freeing
            },
            ClipboardStage::Filling => ClipboardStage::Handing,
            ClipboardStage::Handing => if succeeded {
                ClipboardStage::Closing { written: true }
            } else {
                ClipboardStage::Freeing
            },
            ClipboardStage::Freeing => ClipboardStage::Closing { written: false },
            ClipboardStage::Closing { written } => ClipboardStage::Done { written },
            ClipboardStage::Done { written } => ClipboardStage::Done { written },
        };
        ClipboardWrite { stage, ..self }
    }

    /// Whether the program has the clipboard open.
    pub open spec fn holds_clipboard(self) -> bool {
        !(self.stage is Opening) && !(self.stage is Done)
    }

    /// Whether the program has memory that it has to give back or hand over.
    pub open spec fn holds_memory(self) -> bool {
        self.stage is Locking || self.stage is Filling || self.stage is Handing
            || self.stage is Freeing
    }

    /// Begins to write a text of so many bytes.
    pub fn new(bytes: usize) -> (r: ClipboardWrite)
        ensures
            r == (ClipboardWrite { bytes, stage: ClipboardStage::Opening }),
    {
        ClipboardWrite { bytes, stage: ClipboardStage::Opening }
    }

    /// What comes next.
    pub fn next(&self) -> (r: ClipboardStep)
        ensures
            r == self.step(),
    {
        match self.stage {
            ClipboardStage::Opening => ClipboardStep::Call(ClipboardCall::Open),
            ClipboardStage::Emptying => ClipboardStep::Call(ClipboardCall::Empty),
            ClipboardStage::Allocating => ClipboardStep::Call(
                ClipboardCall::Allocate { bytes: self.bytes },
            ),
            ClipboardStage::Locking => ClipboardStep::Call(ClipboardCall::Lock),
            ClipboardStage::Filling => ClipboardStep::Call(ClipboardCall::Fill),
            ClipboardStage::Handing => ClipboardStep::Call(ClipboardCall::Hand),
            ClipboardStage::Freeing => ClipboardStep::Call(ClipboardCall::Free),
            ClipboardStage::Closing { .. } => ClipboardStep::Call(ClipboardCall::Close),
            ClipboardStage::Done { written } => ClipboardStep::Done(written),
        }
    }

    /// Takes note of the outcome of the call.
    pub fn returned(&mut self, succeeded: bool)
        ensures
            *final(self) == old(self).after(succeeded),
    {
        let stage = match self.stage {
            ClipboardStage::Opening => if succeeded {
                ClipboardStage::Emptying
            } else {
                ClipboardStage::Done { written: false }
            },
            ClipboardStage::Emptying => if succeeded {
                ClipboardStage::Allocating
            } else {
                ClipboardStage::Closing { written: false }
            },
            ClipboardStage::Allocating => if succeeded {
                ClipboardStage::Locking
            } else {
                ClipboardStage::Closing { written: false }
            },
            ClipboardStage::Locking => if succeeded {
                ClipboardStage::Filling
            } else {
                ClipboardStage::Freeing
            },
            ClipboardStage::Filling => ClipboardStage::Handing,
            ClipboardStage::Handing => if succeeded {
                ClipboardStage::Closing { written: true }
            } else {
                ClipboardStage::Freeing
            },
            ClipboardStage::Freeing => ClipboardStage::Closing { written: false },
            ClipboardStage::Closing { written } => ClipboardStage::Done { written },
            ClipboardStage::Done { written } => ClipboardStage::Done { written },
        };
        self.stage = stage;
    }
}

/// The state of a text on its way after a number of calls with given outcomes.
pub open spec fn after_calls(write: ClipboardWrite, outcomes: Seq<bool>) -> ClipboardWrite
    decreases outcomes.len(),
{
    if outcomes.len() == 0 {
        write
    } else {
        after_calls(write, outcomes.drop_last()).after(outcomes.last())
    }
}

/// Memory and clipboard are accounted for at every call: memory is there from
/// its allocation on until it is given back or handed over, the clipboard is
/// open from its opening on until it is closed, and at the end the program has
/// neither.
pub proof fn nothing_is_kept(write: ClipboardWrite, succeeded: bool)
    requires
        !(write.stage is Done),
    ensures
        ({
            let call = write.step()->Call_0;
            let after = write.after(succeeded);
            &&& write.step() is Call
            &&& after.holds_memory() == if call is Allocate {
                succeeded
            } else if call is Free || call is Hand && succeeded {
                false
            } else {
                write.holds_memory()
            }
            &&& after.holds_clipboard() == if call is Open {
                succeeded
            } else if call is Close {
                false
            } else {
                write.holds_clipboard()
            }
            &&& call is Free || call is Hand || call is Lock ==> write.holds_memory()
            &&& call is Allocate ==> !write.holds_memory()
            &&& call is Close ==> write.holds_clipboard() && !write.holds_memory()
            &&& after.stage is Done ==> !after.holds_memory() && !after.holds_clipboard()
        }),
{
}

/// Writing comes to its end after at most eight calls, whatever their
/// outcomes, and the text is on the clipboard if all of them succeed.
pub proof fn writing_ends(bytes: usize, outcomes: Seq<bool>)
    requires
        outcomes.len() >= 8,
    ensures
        ({
            let start = ClipboardWrite { bytes, stage: ClipboardStage::Opening };
            let end = after_calls(start, outcomes);
            &&& end.stage is Done
            &&& (forall|i: int| 0 <= i < outcomes.len() ==> #[trigger] outcomes[i])
                ==> end.step() == ClipboardStep::Done(true)
        }),
    decreases outcomes.len(),
{
    let start = ClipboardWrite { bytes, stage: ClipboardStage::Opening };
    let rest = outcomes.drop_last();
    assert(forall|i: int| 0 <= i < rest.len() ==> #[trigger] rest[i] == outcomes[i]);
    if outcomes.len() > 8 {
        writing_ends(bytes, rest);
    } else {
        reveal_with_fuel(after_calls, 9);
    }
}

} // verus!
