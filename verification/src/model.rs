//! What a scheduler holds and what its operations do to it, as the contracts
//! of the scheduler speak of it.

use vstd::prelude::*;
use crate::process::{AllocatorHandle, EventPoll, Id, Process, State};
use crate::trap_frame::TrapFrame;

verus! {

/// What a scheduler holds, as contracts speak of it.
pub struct SchedulerView<P> {
    /// The processes in queue order, front first.
    pub queue: Seq<Process<P>>,
    /// The ID of the process that was last put on the CPU.
    pub current: Option<Id>,
    /// The ID that was allocated last.
    pub last_id: Option<Id>,
    /// The allocator of the process that was last put on the CPU.
    pub user_allocator: Option<AllocatorHandle>,
}

/// The ID that is allocated after `last`, unless the IDs are used up.
pub open spec fn next_id(last: Option<Id>) -> Option<Id> {
    match last {
        None => Some(0),
        Some(id) => if id < u64::MAX {
            Some((id + 1) as u64)
        } else {
            None
        },
    }
}

/// Holds when `queue` has a zombie whose ID is `child`.
pub open spec fn has_zombie<P: EventPoll>(queue: Seq<Process<P>>, child: Id) -> bool {
    exists|j: int|
        0 <= j < queue.len() && (#[trigger] queue[j]).state is Zombie && queue[j].id() == child
}

/// Holds when no predicate of type `P` changes the ID of the process it is
/// asked about.
pub open spec fn polls_keep_ids<P: EventPoll>() -> bool {
    forall|poll: P, process: Process<P>, next: P, seen: Process<P>, ready: bool|
        #[trigger] poll.polled(process, next, seen, ready) ==> seen.id() == process.id()
}

impl<P: EventPoll> SchedulerView<P> {
    /// The scheduler after `process` joined the queue under `id`.
    pub open spec fn added(self, process: Process<P>, id: Id) -> Self {
        SchedulerView {
            queue: self.queue.push(process.with_id(id)),
            current: if self.current is None {
                Some(id)
            } else {
                self.current
            },
            last_id: Some(id),
            ..self
        }
    }

    /// The scheduler without the front of its queue, and without a current
    /// process if the current ID was that of the front.
    pub open spec fn popped(self) -> Self
        recommends
            self.queue.len() > 0,
    {
        SchedulerView {
            queue: self.queue.drop_first(),
            current: if self.current == Some(self.queue[0].id()) {
                None
            } else {
                self.current
            },
            ..self
        }
    }

    /// The scheduler with `process` put before the front of its queue, as
    /// the current process if there was none.
    pub open spec fn pushed_front(self, process: Process<P>) -> Self {
        SchedulerView {
            queue: seq![process] + self.queue,
            current: if self.current is None {
                Some(process.id())
            } else {
                self.current
            },
            ..self
        }
    }

    /// Holds when no process in the queue has the ID `id`.
    pub open spec fn id_free(self, id: Id) -> bool {
        forall|i: int| 0 <= i < self.queue.len() ==> (#[trigger] self.queue[i]).id() != id
    }

    /// The scheduler after the process at the front left the CPU: that
    /// process holds the registers of `frame`, is in state `new_state`, and
    /// stands at the back of the queue.
    pub open spec fn parked(self, new_state: State<P>, frame: TrapFrame) -> Self
        recommends
            self.queue.len() > 0,
    {
        SchedulerView {
            queue: self.queue.drop_first().push(self.queue[0].suspended(frame, new_state)),
            ..self
        }
    }

    /// The scheduler without the process at position `j`, and without a
    /// current process if the current ID was that process's.
    pub open spec fn reaped_at(self, j: int) -> Self
        recommends
            0 <= j < self.queue.len(),
    {
        SchedulerView {
            queue: self.queue.remove(j),
            current: if self.current == Some(self.queue[j].id()) {
                None
            } else {
                self.current
            },
            ..self
        }
    }

    /// Holds when the process at position `i` is runnable whatever a
    /// predicate may answer: it is ready, or it waits for a child that the
    /// queue holds as a zombie.
    pub open spec fn surely_runnable(self, i: int) -> bool
        recommends
            0 <= i < self.queue.len(),
    {
        match self.queue[i].state {
            State::Ready => true,
            State::WaitProc(child) => has_zombie(self.queue, child),
            _ => false,
        }
    }

    /// Relates the process at position `i` to what examining it for selection
    /// leaves of it, and to whether it was found runnable.
    ///
    /// A process that waits for a child is runnable exactly when the queue
    /// has a zombie with the child's ID, and stays as it is. Every other
    /// process is runnable when it is ready, and is left as that check leaves
    /// it.
    pub open spec fn examined(self, i: int, after: Process<P>, runnable: bool) -> bool
        recommends
            0 <= i < self.queue.len(),
    {
        match self.queue[i].state {
            State::WaitProc(child) => runnable == has_zombie(self.queue, child) && after
                == self.queue[i],
            _ => self.queue[i].checked(after, runnable),
        }
    }

    /// Holds when selection picked the process at position `k` of this queue.
    ///
    /// Every process before it was examined and not runnable; the one at `k`
    /// was, and `picked` is what examining it left. In `post` it stands at the
    /// front in state `Running`, followed by the processes that were behind
    /// it and then by those that were passed over, each as examining it left
    /// it. `frame` holds the registers of the picked process, `id` is its ID,
    /// and it is the current process, with its allocator in use.
    pub open spec fn selected_at(
        self,
        k: int,
        picked: Process<P>,
        post: Self,
        frame: TrapFrame,
        id: Id,
    ) -> bool {
        let n = self.queue.len();
        &&& 0 <= k < n
        &&& self.examined(k, picked, true)
        &&& post.queue.len() == n
        &&& post.queue[0] == picked.with_state(State::Running)
        &&& forall|j: int| 1 <= j < n - k ==> #[trigger] post.queue[j] == self.queue[j + k]
        &&& forall|j: int|
            n - k <= j < n ==> self.examined(j - (n - k), #[trigger] post.queue[j], false)
        &&& id == picked.id()
        &&& frame == *picked.trap_frame
        &&& post.current == Some(id)
        &&& post.last_id == self.last_id
        &&& post.user_allocator == Some(picked.allocator)
    }

    /// Holds when selection picked some process of this queue.
    pub open spec fn picks(self, post: Self, frame: TrapFrame, id: Id) -> bool {
        exists|k: int, picked: Process<P>| #[trigger] self.selected_at(k, picked, post, frame, id)
    }

    /// Holds when selection went once round this queue and found no process
    /// runnable: in `post` every process stands where it stood, as examining
    /// it left it, and nothing else changed.
    pub open spec fn idled(self, post: Self) -> bool {
        &&& post.queue.len() == self.queue.len()
        &&& forall|j: int|
            0 <= j < self.queue.len() ==> self.examined(j, #[trigger] post.queue[j], false)
        &&& post.current == self.current
        &&& post.last_id == self.last_id
        &&& post.user_allocator == self.user_allocator
    }

    /// Relates a scheduler and the caller's trap frame `tf` to what selection
    /// leaves of them and returns: the first process in queue order that is
    /// found runnable is picked, and `None` is returned when one pass over
    /// the queue finds none.
    pub open spec fn selects(
        self,
        tf: TrapFrame,
        post: Self,
        frame: TrapFrame,
        selected: Option<Id>,
    ) -> bool {
        match selected {
            Some(id) => self.picks(post, frame, id),
            None => self.idled(post) && frame == tf,
        }
    }

    /// Relates a scheduler, a state and the caller's trap frame `tf` to what
    /// a context switch leaves of them and returns. On an empty queue nothing
    /// changes and `None` is returned. Otherwise the process at the front is
    /// parked and the next one selected.
    pub open spec fn switches(
        self,
        new_state: State<P>,
        tf: TrapFrame,
        post: Self,
        frame: TrapFrame,
        selected: Option<Id>,
    ) -> bool {
        if self.queue.len() == 0 {
            selected is None && post == self && frame == tf
        } else {
            self.parked(new_state, tf).selects(tf, post, frame, selected)
        }
    }

    /// The position in this queue of the process that stands at position `j`
    /// once the process at position `k` was selected.
    pub open spec fn origin(self, k: int, j: int) -> int {
        if j < self.queue.len() - k {
            j + k
        } else {
            j + k - self.queue.len()
        }
    }

    /// Holds when position `j` holds the first zombie whose ID is `child`.
    pub open spec fn first_zombie_at(self, child: Id, j: int) -> bool {
        &&& 0 <= j < self.queue.len()
        &&& self.queue[j].state is Zombie
        &&& self.queue[j].id() == child
        &&& forall|i: int|
            0 <= i < j ==> !((#[trigger] self.queue[i]).state is Zombie
                && self.queue[i].id() == child)
    }

    /// Holds when reaping the child `child` took `zombie` out of this
    /// scheduler and left `post`: the first zombie with that ID, or nothing
    /// when the queue holds none.
    pub open spec fn reaps(self, child: Id, zombie: Option<Process<P>>, post: Self) -> bool {
        if has_zombie(self.queue, child) {
            exists|j: int|
                #![trigger self.first_zombie_at(child, j)]
                self.first_zombie_at(child, j) && zombie == Some(self.queue[j]) && post
                    == self.reaped_at(j)
        } else {
            zombie is None && post == self
        }
    }

    /// Holds when the queue holds `process`.
    pub open spec fn holds(self, process: Process<P>) -> bool {
        exists|j: int| 0 <= j < self.queue.len() && #[trigger] self.queue[j] == process
    }

    /// Holds when the current ID, if there is one, names a process in the
    /// queue.
    pub open spec fn current_present(self) -> bool {
        self.current matches Some(id) ==> exists|i: int|
            0 <= i < self.queue.len() && (#[trigger] self.queue[i]).id() == id
    }

    /// Holds when no process is in state `Running`.
    pub open spec fn none_running(self) -> bool {
        forall|i: int| 0 <= i < self.queue.len() ==> !((#[trigger] self.queue[i]).state is Running)
    }

    /// Holds when no process but the one at the front of the queue is in
    /// state `Running`.
    pub open spec fn only_front_runs(self) -> bool {
        forall|i: int| 1 <= i < self.queue.len() ==> !((#[trigger] self.queue[i]).state is Running)
    }

    /// Holds when exactly one process is in state `Running`: the one at the
    /// front of the queue, whose ID is `id`.
    pub open spec fn runs_alone(self, id: Id) -> bool {
        &&& self.queue.len() > 0
        &&& self.queue[0].state is Running
        &&& self.queue[0].id() == id
        &&& self.only_front_runs()
    }

    /// Holds when every process in the queue is a zombie.
    pub open spec fn all_zombies(self) -> bool {
        forall|i: int| 0 <= i < self.queue.len() ==> (#[trigger] self.queue[i]).state is Zombie
    }

    /// Holds when no two processes in the queue have the same ID.
    pub open spec fn ids_distinct(self) -> bool {
        forall|i: int, j: int|
            #![trigger self.queue[i], self.queue[j]]
            0 <= i < j < self.queue.len() ==> self.queue[i].id() != self.queue[j].id()
    }

    /// Holds when `id` was allocated: it is not greater than the ID that was
    /// allocated last.
    pub open spec fn allocated(self, id: Id) -> bool {
        self.last_id matches Some(last) && id <= last
    }

    /// Holds when every ID in the queue was allocated.
    pub open spec fn ids_allocated(self) -> bool {
        forall|i: int| 0 <= i < self.queue.len() ==> self.allocated((#[trigger] self.queue[i]).id())
    }

    /// Holds when the process at the front, if it runs, is the current one.
    pub open spec fn runner_is_current(self) -> bool {
        self.queue.len() > 0 && self.queue[0].state is Running ==> self.current == Some(
            self.queue[0].id(),
        )
    }

    /// What holds of a scheduler before and after each of its operations,
    /// under the conditions that the operation names: every process has
    /// an ID of its own, which was allocated; the current ID names a process
    /// in the queue; no process but the one at the front runs, and if that
    /// one runs it is the current process.
    pub open spec fn wf(self) -> bool {
        &&& self.ids_distinct()
        &&& self.ids_allocated()
        &&& self.current_present()
        &&& self.only_front_runs()
        &&& self.runner_is_current()
    }
}

} // verus!
