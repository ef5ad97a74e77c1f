//! The scheduler of the machine, which exists once and is set up when the
//! kernel starts the first user process.

use vstd::prelude::*;
use crate::process::{AllocatorHandle, EventPoll, Id, LoadedImage, Process, Stack, State};
use crate::model::{next_id, polls_keep_ids, SchedulerView};
use crate::scheduler::Scheduler;
use crate::trap_frame::TrapFrame;

verus! {

/// Address at which the first process enters user mode before its image is
/// loaded.
pub const USER_ENTRY: u64 = 4;

/// Program status of the first process: exception level 0, interrupts
/// unmasked.
pub const USER_STATUS: u64 = 0;

/// Process scheduler for the entire machine.
pub struct GlobalScheduler<P>(Option<Scheduler<P>>);

impl<P> View for GlobalScheduler<P> {
    type V = Option<SchedulerView<P>>;

    closed spec fn view(&self) -> Option<SchedulerView<P>> {
        match self.0 {
            Some(scheduler) => Some(scheduler@),
            None => None,
        }
    }
}

/// The trap frame that the first process starts from: zero in every register
/// but those that loading the image set.
pub open spec fn boot_frame(frame: TrapFrame, image: LoadedImage) -> bool {
    &&& frame.elr == image.elr
    &&& frame.sp == image.sp
    &&& frame.ttbr0 == image.ttbr0
    &&& frame.spsr == USER_STATUS
    &&& frame.tpidr == 0
    &&& forall|i: int| 0 <= i < 31 ==> frame.x[i] == 0
}

impl<P: EventPoll> GlobalScheduler<P> {
    /// Holds once `start` has set the scheduler up.
    pub open spec fn is_initialized(&self) -> bool {
        self@ is Some
    }

    /// Returns an uninitialized wrapper around a local scheduler.
    pub fn uninitialized() -> (global: GlobalScheduler<P>)
        ensures
            global@ is None,
    {
        GlobalScheduler(None)
    }

    /// Returns `true` once `start` has set the scheduler up.
    pub fn initialized(&self) -> (yes: bool)
        ensures
            yes == self.is_initialized(),
    {
        self.0.is_some()
    }

    /// Adds a process to the scheduler's queue and returns that process's ID.
    /// For more details, see the documentation on `Scheduler::add()`.
    pub fn add(&mut self, process: Process<P>) -> (id: Option<Id>)
        requires
            old(self).is_initialized(),
        ensures
            final(self).is_initialized(),
            id == next_id(old(self)@->0.last_id),
            match id {
                Some(id) => final(self)@->0 == old(self)@->0.added(process, id),
                None => final(self)@ == old(self)@,
            },
            old(self)@->0.wf() && !(process.state is Running) ==> final(self)@->0.wf(),
    {
        self.0.as_mut().unwrap().add(process)
    }

    /// Drops the scheduler with all its processes: the wrapper is
    /// uninitialized again.
    pub fn clear(&mut self)
        ensures
            final(self)@ is None,
    {
        self.0 = None;
    }

    /// Performs a context switch using `tf` by setting the state of the current
    /// process to `new_state`, saving `tf` into the current process, and
    /// restoring the next process's trap frame into `tf`. For more details, see
    /// the documentation on `Scheduler::switch()`.
    #[must_use]
    pub fn switch(&mut self, new_state: State<P>, tf: &mut TrapFrame) -> (selected: Option<Id>)
        requires
            old(self).is_initialized(),
        ensures
            final(self).is_initialized(),
            old(self)@->0.switches(new_state, *old(tf), final(self)@->0, *final(tf), selected),
            old(self)@->0.queue.len() == 0 ==> selected is None,
            old(self)@->0.queue.len() > 0 && new_state is Ready ==> selected is Some,
            selected matches Some(id) ==> (old(self)@->0.only_front_runs()
                && !(new_state is Running) ==> final(self)@->0.runs_alone(id)),
            old(self)@->0.wf() && !(new_state is Running) && polls_keep_ids::<P>()
                && (old(self)@->0.queue.len() > 0 ==> old(tf).tpidr == old(self)@->0.queue[0].id())
                ==> final(self)@->0.wf(),
    {
        self.0.as_mut().unwrap().switch(new_state, tf)
    }

    /// Selects the next process to run, without a process leaving the CPU.
    /// For more details, see the documentation on `Scheduler::select()`.
    #[must_use]
    pub fn select(&mut self, tf: &mut TrapFrame) -> (selected: Option<Id>)
        requires
            old(self).is_initialized(),
        ensures
            final(self).is_initialized(),
            old(self)@->0.selects(*old(tf), final(self)@->0, *final(tf), selected),
            selected matches Some(id) ==> (old(self)@->0.none_running()
                ==> final(self)@->0.runs_alone(id)),
            old(self)@->0.wf() && old(self)@->0.none_running() && polls_keep_ids::<P>()
                ==> final(self)@->0.wf(),
    {
        self.0.as_mut().unwrap().select(tf)
    }

    /// Returns `true` if the queue holds no process.
    pub fn is_empty(&self) -> (empty: bool)
        requires
            self.is_initialized(),
        ensures
            empty == (self@->0.queue.len() == 0),
    {
        self.0.as_ref().unwrap().is_empty()
    }

    /// Takes the current process out of the scheduler.
    pub fn pop_current(&mut self) -> (process: Process<P>)
        requires
            old(self).is_initialized(),
            old(self)@->0.queue.len() > 0,
        ensures
            final(self).is_initialized(),
            process == old(self)@->0.queue[0],
            final(self)@->0 == old(self)@->0.popped(),
            old(self)@->0.current_present() ==> final(self)@->0.current_present(),
            old(self)@->0.wf() ==> final(self)@->0.wf(),
    {
        self.0.as_mut().unwrap().pop_current()
    }

    /// Puts `process` at the front of the queue, as the current process.
    pub fn push_current_front(&mut self, process: Process<P>)
        requires
            old(self).is_initialized(),
        ensures
            final(self).is_initialized(),
            final(self)@->0 == old(self)@->0.pushed_front(process),
            old(self)@->0.current_present() ==> final(self)@->0.current_present(),
    {
        self.0.as_mut().unwrap().push_current_front(process)
    }

    /// Takes the first zombie whose ID is `child` out of the queue. For more
    /// details, see the documentation on `Scheduler::reap()`.
    pub fn reap(&mut self, child: Id) -> (zombie: Option<Process<P>>)
        requires
            old(self).is_initialized(),
        ensures
            final(self).is_initialized(),
            old(self)@->0.reaps(child, zombie, final(self)@->0),
            old(self)@->0.wf() ==> final(self)@->0.wf(),
    {
        self.0.as_mut().unwrap().reap(child)
    }

    /// Returns `true` if an ID was allocated, so that there is a last one.
    pub fn allocated(&self) -> (any: bool)
        requires
            self.is_initialized(),
        ensures
            any == (self@->0.last_id is Some),
    {
        self.0.as_ref().unwrap().allocated()
    }

    /// The ID that was allocated last.
    pub fn last_id(&self) -> (id: Id)
        requires
            self.is_initialized(),
            self@->0.last_id is Some,
        ensures
            Some(id) == self@->0.last_id,
    {
        self.0.as_ref().unwrap().last_id()
    }

    /// The ID of the current process.
    pub fn current(&self) -> (id: Option<Id>)
        requires
            self.is_initialized(),
        ensures
            id == self@->0.current,
    {
        self.0.as_ref().unwrap().current()
    }

    /// The allocator of the process that was last put on the CPU.
    pub fn user_allocator(&self) -> (allocator: Option<AllocatorHandle>)
        requires
            self.is_initialized(),
        ensures
            allocator == self@->0.user_allocator,
    {
        self.0.as_ref().unwrap().user_allocator()
    }

    /// Initializes the scheduler with the first user process and returns the
    /// trap frame from which that process enters user mode.
    ///
    /// `stack` is what the stack allocator returned, `allocator` the first
    /// process's own allocator, and `image` what loading the user image
    /// produced. The process starts from a zeroed trap frame with the entry
    /// address and status of a user process, takes over the image, and is
    /// registered as the current process, with its allocator in use. Without
    /// a stack the scheduler is left empty and `None` is returned.
    pub fn start(
        &mut self,
        stack: Option<Stack>,
        allocator: AllocatorHandle,
        image: LoadedImage,
    ) -> (frame: Option<TrapFrame>)
        ensures
            final(self).is_initialized(),
            frame is Some <==> stack is Some,
            match frame {
                Some(frame) => {
                    &&& boot_frame(frame, image)
                    &&& final(self)@->0.queue.len() == 1
                    &&& *final(self)@->0.queue[0].trap_frame == frame
                    &&& Some(final(self)@->0.queue[0].stack) == stack
                    &&& final(self)@->0.queue[0].state is Ready
                    &&& final(self)@->0.queue[0].allocator == allocator
                    &&& final(self)@->0.current == Some(0u64)
                    &&& final(self)@->0.last_id == Some(0u64)
                    &&& final(self)@->0.user_allocator == Some(allocator)
                    &&& final(self)@->0.wf()
                },
                None => {
                    &&& final(self)@->0.queue.len() == 0
                    &&& final(self)@->0.current is None
                    &&& final(self)@->0.last_id is None
                    &&& final(self)@->0.user_allocator is None
                },
            },
    {
        let mut scheduler = Scheduler::new();
        let mut process = match Process::new(stack, allocator) {
            Some(process) => process,
            None => {
                self.0 = Some(scheduler);
                return None;
            },
        };
        process.trap_frame.elr = USER_ENTRY;
        process.trap_frame.spsr = USER_STATUS;
        process.load_icode(image);
        let frame = *process.trap_frame;
        let allocator = process.allocator;
        let _ = scheduler.add(process);
        scheduler.use_allocator(allocator);
        self.0 = Some(scheduler);
        Some(frame)
    }
}

} // verus!
