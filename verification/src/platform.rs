//! What all platforms have in common.

use vstd::prelude::*;

verus! {

/// A register that is particular to a processor.
#[derive(Clone, Copy, Debug, PartialEq, Eq, Structural)]
pub enum ArchSpecificRegister {
    /// The thread pointer on AArch64.
    TpidrEl0,
    /// The bases of two segments on x86-64.
    FsBase,
    GsBase,
}

/// Why such a register cannot be read or set.
#[derive(Clone, Copy, Debug, PartialEq, Eq, Structural)]
pub enum ArchSpecificError {
    RegisterUnsupported,
    /// The host has the register for itself.
    RegisterReserved,
    RegisterUnpermittedValue,
}

/// A thread that was to wait was woken up at once.
#[derive(Clone, Copy, Debug, PartialEq, Eq, Structural)]
pub struct ImmediatelyWokenUp;

/// How a wait ended.
#[derive(Clone, Copy, Debug, PartialEq, Eq, Structural)]
pub enum UnblockedOrTimedOut {
    Unblocked,
    TimedOut,
}

/// Which of the threads that wait are woken up.
#[derive(Clone, Copy, Debug, PartialEq, Eq, Structural)]
pub enum WakePlan {
    /// All.
    All,
    /// One after the other, so many.
    Each(usize),
}

impl WakePlan {
    /// How many threads are said to have been woken up: none, as the host does
    /// not tell how many there were.
    pub fn reported(self) -> (count: usize)
        ensures
            count == 0,
    {
        0
    }
}

} // verus!
