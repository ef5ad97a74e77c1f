//! A process: its saved registers, its stack, its scheduling state and the
//! allocator that serves its pages.

use vstd::prelude::*;
use crate::trap_frame::TrapFrame;

verus! {

/// The type of a process ID.
pub type Id = u64;

/// Size of a page, in bytes.
pub const PAGE_SIZE: u64 = 4096;

/// The region of memory that serves as the user stack of one process. It
/// starts on a page boundary and ends at or below the top of the address
/// space.
#[derive(Clone, Copy, Debug, PartialEq, Eq)]
pub struct Stack {
    bottom: u64,
    size: u64,
}

impl Stack {
    /// Holds when a region of `size` bytes at `bottom` can serve as a stack.
    pub open spec fn fits(bottom: u64, size: u64) -> bool {
        &&& bottom % PAGE_SIZE == 0
        &&& size > 0
        &&& bottom + size <= u64::MAX
    }

    /// Lowest address of the stack.
    pub closed spec fn spec_bottom(&self) -> u64 {
        self.bottom
    }

    /// Number of bytes in the stack.
    pub closed spec fn spec_size(&self) -> u64 {
        self.size
    }

    /// Every stack is a region that fits.
    #[verifier::type_invariant]
    spec fn well_formed(&self) -> bool {
        Self::fits(self.bottom, self.size)
    }

    /// Takes the region of `size` bytes at `bottom` as a stack, if it fits.
    pub fn new(bottom: u64, size: u64) -> (stack: Option<Stack>)
        ensures
            stack is Some <==> Self::fits(bottom, size),
            stack matches Some(s) ==> s.bottom() == bottom && s.size() == size,
    {
        if bottom % PAGE_SIZE == 0 && size > 0 && size <= u64::MAX - bottom {
            Some(Stack { bottom, size })
        } else {
            None
        }
    }

    /// Lowest address of the stack.
    #[verifier::when_used_as_spec(spec_bottom)]
    pub fn bottom(&self) -> (address: u64)
        ensures
            address == self.spec_bottom(),
            address % PAGE_SIZE == 0,
    {
        proof {
            use_type_invariant(self);
        }
        self.bottom
    }

    /// Number of bytes in the stack.
    #[verifier::when_used_as_spec(spec_size)]
    pub fn size(&self) -> (bytes: u64)
        ensures
            bytes == self.spec_size(),
            bytes > 0,
    {
        proof {
            use_type_invariant(self);
        }
        self.size
    }

    /// The address just past the stack, where an empty stack's pointer stands.
    pub fn top(&self) -> (address: u64)
        ensures
            address == self.bottom() + self.size(),
    {
        proof {
            use_type_invariant(self);
        }
        self.bottom + self.size
    }
}

/// Names the page allocator of one address space by the physical address at
/// which its pages start.
#[derive(Clone, Copy, Debug, PartialEq, Eq)]
pub struct AllocatorHandle {
    pub base: u64,
}

/// What loading a user image leaves for the process to start from.
#[derive(Clone, Copy, Debug, PartialEq, Eq)]
pub struct LoadedImage {
    /// Base of the page table the image was mapped into.
    pub ttbr0: u64,
    /// Initial user stack pointer.
    pub sp: u64,
    /// Entry point of the image.
    pub elr: u64,
}

/// The scheduling state of a process. `P` is the type of the predicates that
/// waiting processes are blocked on.
pub enum State<P> {
    /// Eligible to run.
    Ready,
    /// Blocked until the predicate, asked at selection time, says "ready now".
    Waiting(P),
    /// On the CPU.
    Running,
    /// Blocked until the process with this ID is a zombie.
    WaitProc(Id),
    /// Terminated, and kept for a waiting parent to observe.
    Zombie,
}

/// A structure that represents the complete state of a process.
pub struct Process<P> {
    /// The saved trap frame of the process.
    pub trap_frame: Box<TrapFrame>,
    /// The memory used for the process's stack.
    pub stack: Stack,
    /// The scheduling state of the process.
    pub state: State<P>,
    /// The allocator that serves the process's pages.
    pub allocator: AllocatorHandle,
}

/// A predicate that a waiting process is blocked on.
///
/// The scheduler asks it each time the process comes up for selection. The
/// predicate is handed the process itself, whose state is `Ready` for the
/// duration of the call, and may change it, for instance to leave a result in
/// its registers.
pub trait EventPoll: Sized {
    /// Relates one call of `poll` to its outcome: `self` and `process` as they
    /// were when the call was made, `next` and `seen` as the call left them,
    /// and the answer it gave. A predicate that does not say otherwise admits
    /// every outcome.
    open spec fn polled(
        &self,
        process: Process<Self>,
        next: Self,
        seen: Process<Self>,
        ready: bool,
    ) -> bool {
        true
    }

    /// Says whether the event that `process` waits for has arrived.
    fn poll(&mut self, process: &mut Process<Self>) -> (ready: bool)
        ensures
            old(self).polled(*old(process), *final(self), *final(process), ready),
    ;
}

impl<P: EventPoll> Process<P> {
    /// The ID of the process, which its trap frame holds.
    pub open spec fn id(&self) -> Id {
        self.trap_frame.tpidr
    }

    /// This process in another scheduling state.
    pub open spec fn with_state(self, state: State<P>) -> Process<P> {
        Process { state, ..self }
    }

    /// This process under another ID.
    pub open spec fn with_id(self, id: Id) -> Process<P> {
        Process { trap_frame: Box::new(TrapFrame { tpidr: id, ..*self.trap_frame }), ..self }
    }

    /// This process taken off the CPU: its registers are those of `frame`, its
    /// state is `state`.
    pub open spec fn suspended(self, frame: TrapFrame, state: State<P>) -> Process<P> {
        Process { trap_frame: Box::new(frame), state, ..self }
    }

    /// This process after it took over what loading `image` produced.
    pub open spec fn loaded(self, image: LoadedImage) -> Process<P> {
        Process {
            trap_frame: Box::new(
                TrapFrame { ttbr0: image.ttbr0, sp: image.sp, elr: image.elr, ..*self.trap_frame },
            ),
            ..self
        }
    }

    /// This process after a predicate's call left `poll` of the predicate and
    /// answered `ready`: ready to run, or waiting on what is left of the
    /// predicate.
    pub open spec fn settled(self, poll: P, ready: bool) -> Process<P> {
        if ready {
            self.with_state(State::Ready)
        } else {
            self.with_state(State::Waiting(poll))
        }
    }

    /// Holds when this process waits and `picked` is what a call of its
    /// predicate left of it, made ready: the predicate was asked about this
    /// very process, in state `Ready`, and answered that it is ready.
    pub open spec fn woken(self, picked: Process<P>) -> bool {
        self.state is Waiting && exists|next: P, seen: Process<P>|
            #[trigger] self.state->Waiting_0.polled(self.with_state(State::Ready), next, seen, true)
                && picked == seen.with_state(State::Ready)
    }

    /// Relates a process to what `is_ready` may leave of it and answer.
    ///
    /// A ready process is ready and stays as it is. A waiting process had its
    /// predicate asked, on the process in state `Ready`, and is settled by the
    /// answer. A process in any other state is not ready and stays as it is.
    pub open spec fn checked(self, after: Process<P>, ready: bool) -> bool {
        match self.state {
            State::Ready => ready && after == self,
            State::Waiting(poll) => exists|next: P, seen: Process<P>|
                #[trigger] poll.polled(self.with_state(State::Ready), next, seen, ready)
                    && after == seen.settled(next, ready),
            _ => !ready && after == self,
        }
    }

    /// Creates a new process on the given stack, with a zeroed trap frame and
    /// a state of `Ready`. `stack` is what the stack allocator returned: with
    /// no stack there is no process.
    pub fn new(stack: Option<Stack>, allocator: AllocatorHandle) -> (process: Option<Process<P>>)
        ensures
            process is Some <==> stack is Some,
            process matches Some(p) ==> {
                &&& p.trap_frame.is_zeroed()
                &&& Some(p.stack) == stack
                &&& p.state is Ready
                &&& p.allocator == allocator
            },
    {
        match stack {
            Some(stack) => Some(
                Process {
                    trap_frame: Box::new(TrapFrame::zeroed()),
                    stack,
                    state: State::Ready,
                    allocator,
                },
            ),
            None => None,
        }
    }

    /// The ID of the process.
    pub fn get_id(&self) -> (id: Id)
        ensures
            id == self.id(),
    {
        self.trap_frame.tpidr
    }

    /// Takes over what loading the user image produced: the page table, the
    /// stack pointer and the entry point become those of the image.
    pub fn load_icode(&mut self, image: LoadedImage)
        ensures
            *final(self) == old(self).loaded(image),
    {
        self.trap_frame.ttbr0 = image.ttbr0;
        self.trap_frame.sp = image.sp;
        self.trap_frame.elr = image.elr;
    }

    /// Concludes one call of a waiting process's predicate, which left `poll`
    /// of itself and answered `ready`: on `true` the process becomes `Ready`,
    /// on `false` it waits on `poll` again. Returns the answer.
    pub fn settle(&mut self, poll: P, ready: bool) -> (answer: bool)
        ensures
            answer == ready,
            *final(self) == old(self).settled(poll, ready),
    {
        if ready {
            self.state = State::Ready;
        } else {
            self.state = State::Waiting(poll);
        }
        ready
    }

    /// Returns `true` if this process is ready to be scheduled.
    ///
    /// A process in state `Ready` is. A process in state `Waiting` has its
    /// predicate taken out and asked, the process being `Ready` meanwhile; if
    /// the event has arrived the process stays `Ready` and this function
    /// returns `true`, otherwise the predicate is put back. In every other
    /// state the process is not ready.
    pub fn is_ready(&mut self) -> (ready: bool)
        ensures
            old(self).checked(*final(self), ready),
    {
        let mut state = State::Ready;
        core::mem::swap(&mut self.state, &mut state);
        match state {
            State::Ready => true,
            State::Waiting(mut poll) => {
                let ready = poll.poll(self);
                self.settle(poll, ready)
            },
            other => {
                self.state = other;
                false
            },
        }
    }

    /// Returns `true` unless this process has terminated.
    pub fn not_zombie(&self) -> (alive: bool)
        ensures
            alive == !(self.state is Zombie),
    {
        match self.state {
            State::Zombie => false,
            _ => true,
        }
    }
}

} // verus!
