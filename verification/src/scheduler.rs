//! The round-robin scheduler: a queue of processes whose front is the
//! process on the CPU.

use vstd::prelude::*;
use std::collections::VecDeque;
use crate::laws::{
    lemma_add_keeps_current, lemma_add_keeps_wf, lemma_all_zombies_idle, lemma_idle_starts_none,
    lemma_parked_none_running, lemma_passed_keeps_kind, lemma_pop_keeps_current,
    lemma_pop_keeps_wf, lemma_push_keeps_current, lemma_push_keeps_wf, lemma_reap_keeps_wf,
    lemma_runnable_is_served, lemma_selected_runs_alone, lemma_selection_keeps_current,
    lemma_selection_keeps_wf, lemma_switch_keeps_current, lemma_switch_keeps_wf,
    lemma_switched_runs_alone,
};
use crate::model::{has_zombie, next_id, polls_keep_ids, SchedulerView};
use crate::process::{AllocatorHandle, EventPoll, Id, Process, State};
use crate::trap_frame::TrapFrame;

verus! {

/// The `tick` time: how long a process runs before the timer preempts it.
pub const TICK: u32 = 10 * 1000 * 1000;

/// Process scheduler for one CPU.
pub struct Scheduler<P> {
    processes: VecDeque<Process<P>>,
    current: Option<Id>,
    last_id: Option<Id>,
    user_allocator: Option<AllocatorHandle>,
}

impl<P> View for Scheduler<P> {
    type V = SchedulerView<P>;

    closed spec fn view(&self) -> SchedulerView<P> {
        SchedulerView {
            queue: self.processes@,
            current: self.current,
            last_id: self.last_id,
            user_allocator: self.user_allocator,
        }
    }
}

/// While selection runs, the processes other than the one under examination
/// hold the same zombies as the queue it started from.
proof fn lemma_zombies_kept<P: EventPoll>(
    pre: SchedulerView<P>,
    queue: Seq<Process<P>>,
    passed: int,
    child: Id,
)
    requires
        0 <= passed < pre.queue.len(),
        queue.len() == pre.queue.len(),
        forall|j: int|
            0 <= j < queue.len() - passed ==> #[trigger] queue[j] == pre.queue[j + passed],
        forall|j: int|
            queue.len() - passed <= j < queue.len() ==> pre.examined(
                j - (queue.len() - passed),
                #[trigger] queue[j],
                false,
            ),
        !(pre.queue[passed].state is Zombie),
    ensures
        has_zombie(queue.subrange(1, queue.len() as int), child) == has_zombie(pre.queue, child),
{
    let n = queue.len() as int;
    let rest = queue.subrange(1, n);
    if has_zombie(rest, child) {
        let j = choose|j: int|
            0 <= j < rest.len() && (#[trigger] rest[j]).state is Zombie && rest[j].id() == child;
        assert(rest[j] == queue[j + 1]);
        if j + 1 < n - passed {
            assert(queue[j + 1] == pre.queue[j + 1 + passed]);
        } else {
            lemma_passed_keeps_kind(pre, j + 1 - (n - passed), queue[j + 1]);
            assert(pre.queue[j + 1 - (n - passed)].state is Zombie);
        }
    }
    if has_zombie(pre.queue, child) {
        let i = choose|i: int|
            0 <= i < n && (#[trigger] pre.queue[i]).state is Zombie && pre.queue[i].id() == child;
        if i > passed {
            assert(queue[i - passed] == pre.queue[i]);
            assert(rest[i - passed - 1] == queue[i - passed]);
        } else {
            let j = n - passed + i;
            lemma_passed_keeps_kind(pre, i, queue[j]);
            assert(rest[j - 1] == queue[j]);
        }
    }
}

impl<P: EventPoll> Scheduler<P> {
    /// Returns a new `Scheduler` with an empty queue.
    pub fn new() -> (scheduler: Scheduler<P>)
        ensures
            scheduler@.queue.len() == 0,
            scheduler@.current is None,
            scheduler@.last_id is None,
            scheduler@.user_allocator is None,
            scheduler@.wf(),
    {
        Scheduler {
            processes: VecDeque::new(),
            current: None,
            last_id: None,
            user_allocator: None,
        }
    }

    /// Returns a new `Scheduler` with an empty queue whose IDs go on after
    /// `last`, as if `last` had been allocated before.
    pub fn continuing(last: Id) -> (scheduler: Scheduler<P>)
        ensures
            scheduler@.queue.len() == 0,
            scheduler@.current is None,
            scheduler@.last_id == Some(last),
            scheduler@.user_allocator is None,
            scheduler@.wf(),
    {
        Scheduler {
            processes: VecDeque::new(),
            current: None,
            last_id: Some(last),
            user_allocator: None,
        }
    }

    /// Adds a process to the back of the queue and returns its ID, which is
    /// newly allocated and saved in the process's trap frame. Returns `None`,
    /// and changes nothing, when the IDs are used up.
    ///
    /// If there is no current process, this one becomes current.
    pub fn add(&mut self, process: Process<P>) -> (id: Option<Id>)
        ensures
            id == next_id(old(self)@.last_id),
            match id {
                Some(id) => final(self)@ == old(self)@.added(process, id),
                None => final(self)@ == old(self)@,
            },
            id is None <==> old(self)@.last_id == Some(u64::MAX),
            id matches Some(new) ==> (old(self)@.last_id matches Some(last) ==> new > last),
            id matches Some(new) ==> (old(self)@.ids_allocated() ==> forall|i: int|
                0 <= i < old(self)@.queue.len() ==> (#[trigger] old(self)@.queue[i]).id() < new),
            old(self)@.current_present() ==> final(self)@.current_present(),
            old(self)@.wf() && !(process.state is Running) ==> final(self)@.wf(),
    {
        proof {
            if next_id(old(self)@.last_id) is Some && old(self)@.current_present() {
                lemma_add_keeps_current(old(self)@, process, next_id(old(self)@.last_id)->0);
            }
            if next_id(old(self)@.last_id) is Some && old(self)@.wf()
                && !(process.state is Running) {
                lemma_add_keeps_wf(old(self)@, process, next_id(old(self)@.last_id)->0);
            }
        }
        let id: u64 = match self.last_id {
            Some(last_id) => match last_id.checked_add(1) {
                Some(id) => id,
                None => {
                    return None;
                },
            },
            None => 0,
        };
        let mut process = process;
        process.trap_frame.tpidr = id;
        self.processes.push_back(process);
        if self.current.is_none() {
            self.current = Some(id);
        }
        self.last_id = Some(id);
        self.last_id
    }

    /// Returns `true` if an ID was allocated, so that there is a last one.
    pub fn allocated(&self) -> (any: bool)
        ensures
            any == (self@.last_id is Some),
    {
        self.last_id.is_some()
    }

    /// The ID that was allocated last.
    pub fn last_id(&self) -> (id: Id)
        requires
            self@.last_id is Some,
        ensures
            Some(id) == self@.last_id,
    {
        self.last_id.unwrap()
    }

    /// The ID of the current process: the one that was last put on the CPU,
    /// or the first that was added if none was yet.
    pub fn current(&self) -> (id: Option<Id>)
        ensures
            id == self@.current,
    {
        self.current
    }

    /// The allocator of the process that was last put on the CPU.
    pub fn user_allocator(&self) -> (allocator: Option<AllocatorHandle>)
        ensures
            allocator == self@.user_allocator,
    {
        self.user_allocator
    }

    /// Takes `allocator` into use as the user allocator.
    pub fn use_allocator(&mut self, allocator: AllocatorHandle)
        ensures
            final(self)@ == (SchedulerView { user_allocator: Some(allocator), ..old(self)@ }),
    {
        self.user_allocator = Some(allocator);
    }

    /// Returns `true` if the queue holds no process.
    pub fn is_empty(&self) -> (empty: bool)
        ensures
            empty == (self@.queue.len() == 0),
    {
        self.processes.len() == 0
    }

    /// Takes the process at the front of the queue out of the scheduler. If
    /// it was the current process, there is no current process afterwards.
    pub fn pop_current(&mut self) -> (process: Process<P>)
        requires
            old(self)@.queue.len() > 0,
        ensures
            process == old(self)@.queue[0],
            final(self)@ == old(self)@.popped(),
            old(self)@.current_present() ==> final(self)@.current_present(),
            old(self)@.wf() ==> final(self)@.wf() && final(self)@.none_running()
                && final(self)@.id_free(process.id()),
    {
        let process = self.processes.pop_front().unwrap();
        if self.current == Some(process.get_id()) {
            self.current = None;
        }
        proof {
            if old(self)@.current_present() {
                lemma_pop_keeps_current(old(self)@);
            }
            if old(self)@.wf() {
                lemma_pop_keeps_wf(old(self)@);
            }
        }
        process
    }

    /// Returns `true` if the queue holds a zombie whose ID is `child`.
    fn zombie_in_queue(&self, child: Id) -> (found: bool)
        ensures
            found == has_zombie(self@.queue, child),
    {
        let n = self.processes.len();
        let mut j: usize = 0;
        while j < n
            invariant
                n == self.processes@.len(),
                j <= n,
                forall|i: int|
                    0 <= i < j ==> !((#[trigger] self.processes@[i]).state is Zombie
                        && self.processes@[i].id() == child),
            decreases n - j,
        {
            let candidate = &self.processes[j];
            if !candidate.not_zombie() && candidate.get_id() == child {
                return true;
            }
            j += 1;
        }
        false
    }

    /// Examines the processes in queue order, each at most once, and puts the
    /// first that is runnable on the CPU.
    fn scan(&mut self, tf: &mut TrapFrame) -> (selected: Option<Id>)
        ensures
            old(self)@.selects(*old(tf), final(self)@, *final(tf), selected),
    {
        let ghost pre = self@;
        let n = self.processes.len();
        let mut passed: usize = 0;
        while passed < n
            invariant
                pre == old(self)@,
                passed <= n,
                n == pre.queue.len(),
                self.processes@.len() == n,
                forall|j: int|
                    0 <= j < n - passed ==> #[trigger] self.processes@[j] == pre.queue[j + passed],
                forall|j: int|
                    n - passed <= j < n ==> pre.examined(
                        j - (n - passed),
                        #[trigger] self.processes@[j],
                        false,
                    ),
                self.current == pre.current,
                self.last_id == pre.last_id,
                self.user_allocator == pre.user_allocator,
                *tf == *old(tf),
            decreases n - passed,
        {
            let ghost queue = self.processes@;
            let mut process = self.processes.pop_front().unwrap();
            let awaited: Option<Id> = match process.state {
                State::WaitProc(child) => Some(child),
                _ => None,
            };
            let runnable = match awaited {
                Some(child) => {
                    let found = self.zombie_in_queue(child);
                    proof {
                        lemma_zombies_kept(pre, queue, passed as int, child);
                    }
                    found
                },
                None => process.is_ready(),
            };
            if runnable {
                let ghost picked = process;
                let id = process.get_id();
                self.current = Some(id);
                *tf = *process.trap_frame;
                self.user_allocator = Some(process.allocator);
                process.state = State::Running;
                self.processes.push_front(process);
                assert(pre.selected_at(passed as int, picked, self@, *tf, id));
                return Some(id);
            }
            self.processes.push_back(process);
            passed += 1;
        }
        None
    }

    /// Selects the next process to run and puts it on the CPU.
    ///
    /// The processes are examined in queue order, each at most once. A
    /// process that waits for a child is runnable when the queue holds that
    /// child as a zombie; any other process is runnable when it is ready,
    /// which asks the predicate of a waiting process. A process that is not
    /// runnable goes to the back of the queue. The first runnable process
    /// becomes current: `tf` receives its saved registers, its state is
    /// `Running`, it stands at the front of the queue, its allocator is the
    /// user allocator, and its ID is returned.
    ///
    /// When no process is runnable the queue is back in its order, `tf` is
    /// untouched and `None` is returned: the CPU has nothing to run until
    /// the next interrupt, after which the caller selects again.
    pub fn select(&mut self, tf: &mut TrapFrame) -> (selected: Option<Id>)
        ensures
            old(self)@.selects(*old(tf), final(self)@, *final(tf), selected),
            selected matches Some(id) ==> (old(self)@.none_running()
                ==> final(self)@.runs_alone(id)),
            (selected is None ==> old(self)@.current_present() && polls_keep_ids::<P>())
                ==> final(self)@.current_present(),
            old(self)@.all_zombies() ==> selected is None && final(self)@ == old(self)@,
            selected is None ==> (old(self)@.none_running() ==> final(self)@.none_running()),
            selected is None ==> forall|i: int|
                0 <= i < old(self)@.queue.len() ==> !old(self)@.surely_runnable(i),
            old(self)@.wf() && old(self)@.none_running() && polls_keep_ids::<P>()
                ==> final(self)@.wf(),
    {
        let selected = self.scan(tf);
        proof {
            let pre = old(self)@;
            if pre.wf() && pre.none_running() && polls_keep_ids::<P>() {
                lemma_selection_keeps_wf(pre, *old(tf), self@, *tf, selected);
            }
            if selected is None {
                if pre.none_running() {
                    lemma_idle_starts_none(pre, self@);
                }
                assert forall|i: int| 0 <= i < pre.queue.len() implies !pre.surely_runnable(i) by {
                    if pre.surely_runnable(i) {
                        lemma_runnable_is_served(pre, *old(tf), self@, *tf, selected, i);
                    }
                }
            }
            if selected is Some && pre.none_running() {
                lemma_selected_runs_alone(pre, *old(tf), self@, *tf, selected->0);
            }
            if selected is None ==> pre.current_present() && polls_keep_ids::<P>() {
                lemma_selection_keeps_current(pre, *old(tf), self@, *tf, selected);
            }
            if pre.all_zombies() {
                lemma_all_zombies_idle(pre, *old(tf), self@, *tf, selected);
            }
        }
        selected
    }

    /// Performs a context switch: takes the current process off the CPU and
    /// puts the next runnable one on it.
    ///
    /// The process at the front of the queue has its registers saved from
    /// `tf`, gets the state `new_state` and goes to the back of the queue.
    /// Then the next process is selected, as `select` does it. Returns `None`
    /// and changes nothing if the queue is empty.
    ///
    /// After a switch that returns an ID, the process with that ID is the
    /// only one that runs, if before it only the current process ran and
    /// `new_state` is not `Running`. The current process stays in the queue;
    /// where no process is selected this needs `tf` to hold the ID of the
    /// process it is saved to, and predicates that keep the ID of the process
    /// they are asked about. When every process is a zombie once the current
    /// one is parked, none is selected.
    pub fn switch(&mut self, new_state: State<P>, tf: &mut TrapFrame) -> (selected: Option<Id>)
        ensures
            old(self)@.switches(new_state, *old(tf), final(self)@, *final(tf), selected),
            old(self)@.queue.len() == 0 ==> selected is None,
            selected matches Some(id) ==> (old(self)@.only_front_runs() && !(new_state is Running)
                ==> final(self)@.runs_alone(id)),
            old(self)@.current_present() && (selected is None && old(self)@.queue.len() > 0
                ==> old(tf).tpidr == old(self)@.queue[0].id() && polls_keep_ids::<P>())
                ==> final(self)@.current_present(),
            old(self)@.queue.len() > 0 && old(self)@.parked(new_state, *old(tf)).all_zombies()
                ==> selected is None && final(self)@ == old(self)@.parked(new_state, *old(tf)),
            old(self)@.queue.len() > 0 && new_state is Ready ==> selected is Some,
            selected is None ==> (old(self)@.only_front_runs() && !(new_state is Running)
                ==> final(self)@.none_running()),
            old(self)@.wf() && !(new_state is Running) && polls_keep_ids::<P>()
                && (old(self)@.queue.len() > 0 ==> old(tf).tpidr == old(self)@.queue[0].id())
                ==> final(self)@.wf(),
    {
        let mut current = match self.processes.pop_front() {
            Some(current) => current,
            None => {
                return None;
            },
        };
        current.trap_frame = Box::new(*tf);
        current.state = new_state;
        self.processes.push_back(current);
        let selected = self.scan(tf);
        proof {
            let pre = old(self)@;
            if selected is Some && pre.only_front_runs() && !(new_state is Running) {
                lemma_switched_runs_alone(pre, new_state, *old(tf), self@, *tf, selected->0);
            }
            if pre.current_present() && (selected is None ==> old(tf).tpidr == pre.queue[0].id()
                && polls_keep_ids::<P>()) {
                lemma_switch_keeps_current(pre, new_state, *old(tf), self@, *tf, selected);
            }
            if pre.wf() && !(new_state is Running) && old(tf).tpidr == pre.queue[0].id()
                && polls_keep_ids::<P>() {
                lemma_switch_keeps_wf(pre, new_state, *old(tf), self@, *tf, selected);
            }
            let parked = pre.parked(new_state, *old(tf));
            if parked.all_zombies() {
                lemma_all_zombies_idle(parked, *old(tf), self@, *tf, selected);
            }
            if new_state is Ready {
                let last = pre.queue.len() - 1;
                lemma_runnable_is_served(parked, *old(tf), self@, *tf, selected, last);
            }
            if selected is None && pre.only_front_runs() && !(new_state is Running) {
                lemma_parked_none_running(pre, new_state, *old(tf));
                lemma_idle_starts_none(parked, self@);
            }
        }
        selected
    }

    /// Takes the first zombie whose ID is `child` out of the queue and
    /// returns it, for its owner to free what it held. Returns `None`, and
    /// changes nothing, if the queue holds no such zombie.
    ///
    /// This is how a zombie leaves the scheduler: a process stays in the
    /// queue after it exited until the parent that waited for it, once it
    /// runs again, reaps it. If the zombie is the current process, there is
    /// no current process afterwards.
    pub fn reap(&mut self, child: Id) -> (zombie: Option<Process<P>>)
        ensures
            old(self)@.reaps(child, zombie, final(self)@),
            zombie is Some <==> has_zombie(old(self)@.queue, child),
            old(self)@.wf() ==> final(self)@.wf(),
    {
        let n = self.processes.len();
        let mut j: usize = 0;
        while j < n
            invariant
                n == self.processes@.len(),
                j <= n,
                *self == *old(self),
                forall|i: int|
                    0 <= i < j ==> !((#[trigger] self.processes@[i]).state is Zombie
                        && self.processes@[i].id() == child),
            decreases n - j,
        {
            let candidate = &self.processes[j];
            if !candidate.not_zombie() && candidate.get_id() == child {
                let zombie = self.processes.remove(j);
                if self.current == Some(child) {
                    self.current = None;
                }
                assert(old(self)@.first_zombie_at(child, j as int));
                proof {
                    if old(self)@.wf() {
                        lemma_reap_keeps_wf(old(self)@, j as int);
                    }
                }
                return zombie;
            }
            j += 1;
        }
        None
    }

    /// Puts `process` at the front of the queue. If there is no current
    /// process, this one becomes current.
    pub fn push_current_front(&mut self, process: Process<P>)
        ensures
            final(self)@ == old(self)@.pushed_front(process),
            old(self)@.current_present() ==> final(self)@.current_present(),
            old(self)@.wf() && old(self)@.none_running() && old(self)@.id_free(process.id())
                && old(self)@.allocated(process.id()) && (process.state is Running
                ==> old(self)@.current is None) ==> final(self)@.wf(),
    {
        if self.current.is_none() {
            self.current = Some(process.get_id());
        }
        proof {
            if old(self)@.current_present() {
                lemma_push_keeps_current(old(self)@, process);
            }
            if old(self)@.wf() && old(self)@.none_running() && old(self)@.id_free(process.id())
                && old(self)@.allocated(process.id()) && (process.state is Running
                ==> old(self)@.current is None) {
                lemma_push_keeps_wf(old(self)@, process);
            }
        }
        self.processes.push_front(process);
    }
}

} // verus!
