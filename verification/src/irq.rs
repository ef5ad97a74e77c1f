//! Handlers of interrupts that change what the scheduler holds.

use vstd::prelude::*;
use crate::global::GlobalScheduler;
use crate::model::polls_keep_ids;
use crate::process::{EventPoll, Id, State};
use crate::scheduler::TICK;
use crate::trap_frame::TrapFrame;

verus! {

/// Handles the timer interrupt: the current process is preempted and stays
/// ready, and the next runnable process is put on the CPU.
///
/// Returns the ID of that process, as `GlobalScheduler::switch` does, and the
/// time after which the timer is to fire again, for the caller to arm it.
pub fn handle_timer<P: EventPoll>(
    scheduler: &mut GlobalScheduler<P>,
    tf: &mut TrapFrame,
) -> (served: (Option<Id>, u32))
    requires
        old(scheduler).is_initialized(),
    ensures
        final(scheduler).is_initialized(),
        old(scheduler)@->0.switches(
            State::Ready,
            *old(tf),
            final(scheduler)@->0,
            *final(tf),
            served.0,
        ),
        served.0 is None <==> old(scheduler)@->0.queue.len() == 0,
        served.0 matches Some(id) ==> (old(scheduler)@->0.only_front_runs()
            ==> final(scheduler)@->0.runs_alone(id)),
        old(scheduler)@->0.wf() && polls_keep_ids::<P>() && (old(scheduler)@->0.queue.len() > 0
            ==> old(tf).tpidr == old(scheduler)@->0.queue[0].id()) ==> final(scheduler)@->0.wf(),
        served.1 == TICK,
{
    let selected = scheduler.switch(State::Ready, tf);
    (selected, TICK)
}

} // verus!
