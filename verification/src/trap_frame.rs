//! The registers saved when an exception is taken.

use vstd::prelude::*;

verus! {

/// The register state of a process at the moment it was suspended, as the
/// exception entry saves it and the exception return loads it again.
#[derive(Clone, Copy, Debug, PartialEq, Eq)]
pub struct TrapFrame {
    /// Exception link register: where user code resumes.
    pub elr: u64,
    /// Saved program status.
    pub spsr: u64,
    /// User stack pointer.
    pub sp: u64,
    /// Thread-pointer register, which holds the ID of the owning process.
    pub tpidr: u64,
    /// Base of the user page table.
    pub ttbr0: u64,
    /// General-purpose registers `x0` to `x30`.
    pub x: [u64; 31],
}

impl TrapFrame {
    /// Holds when every register of the frame is zero.
    pub open spec fn is_zeroed(&self) -> bool {
        &&& self.elr == 0
        &&& self.spsr == 0
        &&& self.sp == 0
        &&& self.tpidr == 0
        &&& self.ttbr0 == 0
        &&& forall|i: int| 0 <= i < 31 ==> self.x[i] == 0
    }

    /// The frame with every register zero.
    pub fn zeroed() -> (frame: TrapFrame)
        ensures
            frame.is_zeroed(),
    {
        TrapFrame { elr: 0, spsr: 0, sp: 0, tpidr: 0, ttbr0: 0, x: [0u64; 31] }
    }
}

impl Default for TrapFrame {
    fn default() -> (frame: TrapFrame)
        ensures
            frame.is_zeroed(),
    {
        TrapFrame::zeroed()
    }
}

} // verus!
