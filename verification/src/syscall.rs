//! System calls that change what the scheduler holds.

use vstd::prelude::*;
use crate::global::GlobalScheduler;
use crate::laws::lemma_exited_stays;
use crate::model::{has_zombie, polls_keep_ids};
use crate::process::{EventPoll, Id, State};
use crate::trap_frame::TrapFrame;

verus! {

/// Ends the current process and puts the next runnable one on the CPU.
///
/// The current process leaves the CPU as a zombie. It stays in the queue, at
/// the back, where a parent that waits for it finds it; `Scheduler::reap`
/// takes it out. `tf` receives the registers of the process that runs next, whose ID is
/// returned. `None` is returned when no process is runnable.
pub fn do_exit<P: EventPoll>(
    scheduler: &mut GlobalScheduler<P>,
    tf: &mut TrapFrame,
) -> (selected: Option<Id>)
    requires
        old(scheduler).is_initialized(),
        old(scheduler)@->0.queue.len() > 0,
    ensures
        final(scheduler).is_initialized(),
        old(scheduler)@->0.parked(State::Zombie, *old(tf)).selects(
            *old(tf),
            final(scheduler)@->0,
            *final(tf),
            selected,
        ),
        final(scheduler)@->0.holds(old(scheduler)@->0.queue[0].suspended(*old(tf), State::Zombie)),
        has_zombie(final(scheduler)@->0.queue, old(tf).tpidr),
        old(scheduler)@->0.wf() && old(tf).tpidr == old(scheduler)@->0.queue[0].id()
            && polls_keep_ids::<P>() ==> final(scheduler)@->0.wf(),
{
    let selected = scheduler.switch(State::Zombie, tf);
    proof {
        lemma_exited_stays(old(scheduler)@->0, *old(tf), scheduler@->0, *tf, selected);
    }
    selected
}

} // verus!
