//! The core of a small preemptive kernel for a single AArch64 CPU: the saved
//! register state of a process, the process itself with its scheduling state,
//! the round-robin scheduler, and the routing of exceptions.
//!
//! What touches the machine (the interrupt controller, the timer, the page
//! tables, the return to user mode) is left to the caller, who hands this
//! library plain values and acts on what it answers.
//!
//! - `trap_frame`: the registers saved on an exception.
//! - `process`: a process, its states, and the predicates that waiting
//!   processes are blocked on; `poll` holds one such predicate.
//! - `scheduler`: the queue of processes and the context switch; `model`
//!   says what its operations do, `laws` what holds of them.
//! - `global`: the one scheduler of the machine and its start.
//! - `traps`: where an exception goes, and the view of the heap while it is
//!   handled; `syndrome` decodes its cause.
//! - `irq`, `syscall`: the handlers that change what the scheduler holds.
//! - `memory`: copying bytes, and mapping the head of a segment into its page.

pub mod trap_frame;
pub mod process;
pub mod poll;
pub mod model;
pub mod laws;
pub mod scheduler;
pub mod global;
pub mod syndrome;
pub mod traps;
pub mod irq;
pub mod syscall;
pub mod memory;
