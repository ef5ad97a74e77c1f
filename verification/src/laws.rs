//! What holds of the scheduler's operations, proved from what they do.

use vstd::prelude::*;
use crate::model::{has_zombie, next_id, polls_keep_ids, SchedulerView};
use crate::process::{EventPoll, Id, Process, State};
use crate::trap_frame::TrapFrame;

verus! {

/// Each ID that is allocated is greater than the one allocated before it,
/// and so than every ID allocated earlier.
pub proof fn lemma_ids_increase(last: Id)
    ensures
        next_id(None) == Some(0u64),
        next_id(Some(last)) matches Some(id) ==> id > last,
        next_id(Some(last)) is None <==> last == u64::MAX,
{
}

/// Taking the process at the front out and putting it back restores the
/// order of the queue, and with a current process the whole scheduler.
pub proof fn lemma_pop_push_round_trip<P: EventPoll>(pre: SchedulerView<P>)
    requires
        pre.queue.len() > 0,
    ensures
        pre.popped().pushed_front(pre.queue[0]).queue == pre.queue,
        pre.current is Some ==> pre.popped().pushed_front(pre.queue[0]) == pre,
{
    assert(pre.popped().pushed_front(pre.queue[0]).queue =~= pre.queue);
}

/// Taking the process at the front out keeps the current process in the
/// queue: if the one taken out was current, none is.
pub proof fn lemma_pop_keeps_current<P: EventPoll>(pre: SchedulerView<P>)
    requires
        pre.queue.len() > 0,
        pre.current_present(),
    ensures
        pre.popped().current_present(),
{
    let post = pre.popped();
    if let Some(current) = post.current {
        let i = choose|i: int|
            0 <= i < pre.queue.len() && (#[trigger] pre.queue[i]).id() == current;
        assert(post.queue[i - 1].id() == current);
    }
}

/// Taking the process at the front out keeps what holds of a scheduler;
/// afterwards no process runs, and none has the ID of the one taken out.
pub proof fn lemma_pop_keeps_wf<P: EventPoll>(pre: SchedulerView<P>)
    requires
        pre.queue.len() > 0,
        pre.wf(),
    ensures
        pre.popped().wf(),
        pre.popped().none_running(),
        pre.popped().id_free(pre.queue[0].id()),
{
    let post = pre.popped();
    lemma_pop_keeps_current(pre);
    assert forall|i: int| 0 <= i < post.queue.len() implies
        #[trigger] post.queue[i] == pre.queue[i + 1] by {}
    assert forall|i: int, j: int|
        #![trigger post.queue[i], post.queue[j]]
        0 <= i < j < post.queue.len() implies post.queue[i].id() != post.queue[j].id() by {
        assert(pre.queue[i + 1].id() != pre.queue[j + 1].id());
    }
    assert forall|i: int| 0 <= i < post.queue.len() implies
        post.allocated((#[trigger] post.queue[i]).id()) by {
        assert(pre.allocated(pre.queue[i + 1].id()));
    }
    assert forall|i: int| 0 <= i < post.queue.len() implies
        !((#[trigger] post.queue[i]).state is Running) by {
        assert(!(pre.queue[i + 1].state is Running));
    }
    assert forall|i: int| 0 <= i < post.queue.len() implies
        (#[trigger] post.queue[i]).id() != pre.queue[0].id() by {
        assert(pre.queue[0].id() != pre.queue[i + 1].id());
    }
}

/// Putting a process at the front keeps what holds of a scheduler, if no
/// process runs, the ID of the new one was allocated and is in no other
/// process's use, and the new one runs only where there is no current
/// process, so that it becomes current.
pub proof fn lemma_push_keeps_wf<P: EventPoll>(pre: SchedulerView<P>, process: Process<P>)
    requires
        pre.wf(),
        pre.none_running(),
        pre.id_free(process.id()),
        pre.allocated(process.id()),
        process.state is Running ==> pre.current is None,
    ensures
        pre.pushed_front(process).wf(),
{
    let post = pre.pushed_front(process);
    lemma_push_keeps_current(pre, process);
    assert forall|i: int| 1 <= i < post.queue.len() implies
        #[trigger] post.queue[i] == pre.queue[i - 1] by {}
    assert forall|i: int, j: int|
        #![trigger post.queue[i], post.queue[j]]
        0 <= i < j < post.queue.len() implies post.queue[i].id() != post.queue[j].id() by {
        if i == 0 {
            assert(pre.queue[j - 1].id() != process.id());
        } else {
            assert(pre.queue[i - 1].id() != pre.queue[j - 1].id());
        }
    }
    assert forall|i: int| 0 <= i < post.queue.len() implies
        post.allocated((#[trigger] post.queue[i]).id()) by {
        if i > 0 {
            assert(pre.allocated(pre.queue[i - 1].id()));
        }
    }
    assert forall|i: int| 1 <= i < post.queue.len() implies
        !((#[trigger] post.queue[i]).state is Running) by {
        assert(!(pre.queue[i - 1].state is Running));
    }
}

/// Examining a process that is not runnable neither makes nor unmakes a
/// zombie or a running process, and changes a waiting process only.
pub proof fn lemma_passed_keeps_kind<P: EventPoll>(pre: SchedulerView<P>, i: int, after: Process<P>)
    requires
        0 <= i < pre.queue.len(),
        pre.examined(i, after, false),
    ensures
        after.state is Zombie <==> pre.queue[i].state is Zombie,
        after.state is Running <==> pre.queue[i].state is Running,
        pre.queue[i].state is Waiting || after == pre.queue[i],
{
}

/// Examining a process keeps its ID, as long as no predicate changes the ID
/// of the process it is asked about.
pub proof fn lemma_examined_keeps_id<P: EventPoll>(
    pre: SchedulerView<P>,
    i: int,
    after: Process<P>,
    runnable: bool,
)
    requires
        0 <= i < pre.queue.len(),
        pre.examined(i, after, runnable),
        polls_keep_ids::<P>(),
    ensures
        after.id() == pre.queue[i].id(),
{
}

/// Selection serves a process that is runnable whatever a predicate may
/// answer: with such a process in the queue some process is selected, and it
/// stood at or before the first such process.
pub proof fn lemma_runnable_is_served<P: EventPoll>(
    pre: SchedulerView<P>,
    tf: TrapFrame,
    post: SchedulerView<P>,
    frame: TrapFrame,
    selected: Option<Id>,
    i: int,
)
    requires
        pre.selects(tf, post, frame, selected),
        0 <= i < pre.queue.len(),
        pre.surely_runnable(i),
    ensures
        selected is Some,
        forall|k: int, picked: Process<P>| #[trigger]
            pre.selected_at(k, picked, post, frame, selected->0) ==> k <= i,
{
    if selected is None {
        assert(pre.examined(i, post.queue[i], false));
    }
    assert forall|k: int, picked: Process<P>| #[trigger]
        pre.selected_at(k, picked, post, frame, selected->0) implies k <= i by {
        if k > i {
            let n = pre.queue.len() as int;
            assert(pre.examined(i, post.queue[n - k + i], false));
        }
    }
}

/// A waiting process is selected only after its predicate was asked about
/// that very process, in state `Ready`, and answered that it is ready: the
/// process that selection picked, if it was waiting, is what such a call
/// left, made ready.
pub proof fn lemma_waiter_selected_when_asked<P: EventPoll>(
    pre: SchedulerView<P>,
    tf: TrapFrame,
    post: SchedulerView<P>,
    frame: TrapFrame,
    id: Id,
)
    requires
        pre.selects(tf, post, frame, Some(id)),
    ensures
        exists|k: int, picked: Process<P>|
            #![trigger pre.selected_at(k, picked, post, frame, id)]
            pre.selected_at(k, picked, post, frame, id) && (pre.queue[k].state is Waiting
                ==> pre.queue[k].woken(picked)),
{
    let (k, picked) = choose|k: int, picked: Process<P>| #[trigger]
        pre.selected_at(k, picked, post, frame, id);
    assert(pre.selected_at(k, picked, post, frame, id) && (pre.queue[k].state is Waiting
        ==> pre.queue[k].woken(picked)));
}

/// When every process is a zombie, selection goes once round the queue,
/// selects none and leaves everything as it was.
pub proof fn lemma_all_zombies_idle<P: EventPoll>(
    pre: SchedulerView<P>,
    tf: TrapFrame,
    post: SchedulerView<P>,
    frame: TrapFrame,
    selected: Option<Id>,
)
    requires
        pre.selects(tf, post, frame, selected),
        pre.all_zombies(),
    ensures
        selected is None,
        post == pre,
        frame == tf,
{
    if let Some(id) = selected {
        let (k, picked) = choose|k: int, picked: Process<P>| #[trigger]
            pre.selected_at(k, picked, post, frame, id);
        assert(pre.queue[k].state is Zombie);
    }
    assert forall|j: int| 0 <= j < pre.queue.len() implies post.queue[j] == pre.queue[j] by {
        assert(pre.queue[j].state is Zombie);
        lemma_passed_keeps_kind(pre, j, post.queue[j]);
    }
    assert(post.queue =~= pre.queue);
}

/// Selection that selects no process starts none: if no process was running
/// before, none is afterwards.
pub proof fn lemma_idle_starts_none<P: EventPoll>(pre: SchedulerView<P>, post: SchedulerView<P>)
    requires
        pre.idled(post),
        pre.none_running(),
    ensures
        post.none_running(),
{
    assert forall|j: int| 0 <= j < post.queue.len() implies
        !((#[trigger] post.queue[j]).state is Running) by {
        lemma_passed_keeps_kind(pre, j, post.queue[j]);
    }
}

/// A process that was selected is the only one that runs: if no process was
/// running when selection began, afterwards exactly one is, and its ID is the
/// one returned.
pub proof fn lemma_selected_runs_alone<P: EventPoll>(
    pre: SchedulerView<P>,
    tf: TrapFrame,
    post: SchedulerView<P>,
    frame: TrapFrame,
    id: Id,
)
    requires
        pre.selects(tf, post, frame, Some(id)),
        pre.none_running(),
    ensures
        post.runs_alone(id),
{
    let (k, picked) = choose|k: int, picked: Process<P>| #[trigger]
        pre.selected_at(k, picked, post, frame, id);
    let n = pre.queue.len() as int;
    assert forall|j: int| 1 <= j < n implies !((#[trigger] post.queue[j]).state is Running) by {
        if j < n - k {
            assert(post.queue[j] == pre.queue[j + k]);
        } else {
            lemma_passed_keeps_kind(pre, j - (n - k), post.queue[j]);
        }
    }
}

/// Once the current process is parked in a state other than `Running`, no
/// process runs, if none but the current one ran before.
pub proof fn lemma_parked_none_running<P: EventPoll>(
    pre: SchedulerView<P>,
    new_state: State<P>,
    tf: TrapFrame,
)
    requires
        pre.queue.len() > 0,
        pre.only_front_runs(),
        !(new_state is Running),
    ensures
        pre.parked(new_state, tf).none_running(),
{
    let parked = pre.parked(new_state, tf);
    assert forall|i: int| 0 <= i < parked.queue.len() implies
        !((#[trigger] parked.queue[i]).state is Running) by {
        if i < parked.queue.len() - 1 {
            assert(parked.queue[i] == pre.queue[i + 1]);
        }
    }
}

/// After a context switch that returns an ID exactly one process runs, the
/// one with that ID, provided that before it no process but the current one
/// was running and that the current one is not parked as `Running`.
pub proof fn lemma_switched_runs_alone<P: EventPoll>(
    pre: SchedulerView<P>,
    new_state: State<P>,
    tf: TrapFrame,
    post: SchedulerView<P>,
    frame: TrapFrame,
    id: Id,
)
    requires
        pre.switches(new_state, tf, post, frame, Some(id)),
        pre.only_front_runs(),
        !(new_state is Running),
    ensures
        post.runs_alone(id),
{
    let parked = pre.parked(new_state, tf);
    lemma_parked_none_running(pre, new_state, tf);
    lemma_selected_runs_alone(parked, tf, post, frame, id);
}

/// Selection moves processes without changing their IDs: the process at
/// position `j` afterwards is the one that stood `k` positions further on,
/// round the end of the queue, when the process at position `k` was
/// selected. This needs predicates that keep the ID of the process they are
/// asked about.
pub proof fn lemma_selected_keeps_ids<P: EventPoll>(
    pre: SchedulerView<P>,
    k: int,
    picked: Process<P>,
    post: SchedulerView<P>,
    frame: TrapFrame,
    id: Id,
)
    requires
        pre.selected_at(k, picked, post, frame, id),
        polls_keep_ids::<P>(),
    ensures
        id == pre.queue[k].id(),
        forall|j: int|
            0 <= j < post.queue.len() ==> (#[trigger] post.queue[j]).id()
                == pre.queue[pre.origin(k, j)].id(),
{
    let n = pre.queue.len() as int;
    lemma_examined_keeps_id(pre, k, picked, true);
    assert forall|j: int| 0 <= j < n implies
        (#[trigger] post.queue[j]).id() == pre.queue[pre.origin(k, j)].id() by {
        if 0 < j < n - k {
            assert(post.queue[j] == pre.queue[j + k]);
        } else if n - k <= j {
            lemma_examined_keeps_id(pre, j - (n - k), post.queue[j], false);
        }
    }
}

/// A process that is parked as a zombie stays in the queue as it was parked,
/// whatever selection does next: it is there for a waiting parent to find.
pub proof fn lemma_exited_stays<P: EventPoll>(
    pre: SchedulerView<P>,
    tf: TrapFrame,
    post: SchedulerView<P>,
    frame: TrapFrame,
    selected: Option<Id>,
)
    requires
        pre.queue.len() > 0,
        pre.switches(State::Zombie, tf, post, frame, selected),
    ensures
        post.holds(pre.queue[0].suspended(tf, State::Zombie)),
        has_zombie(post.queue, tf.tpidr),
{
    let parked = pre.parked(State::Zombie, tf);
    let n = pre.queue.len() as int;
    let zombie = pre.queue[0].suspended(tf, State::Zombie);
    assert(parked.queue[n - 1] == zombie);
    match selected {
        Some(id) => {
            let (k, picked) = choose|k: int, picked: Process<P>| #[trigger]
                parked.selected_at(k, picked, post, frame, id);
            assert(post.queue[n - 1 - k] == zombie);
        },
        None => {
            lemma_passed_keeps_kind(parked, n - 1, post.queue[n - 1]);
            assert(post.queue[n - 1] == zombie);
        },
    }
}

/// Selection keeps the current process in the queue. When a process is
/// selected it is the current one and stands at the front. When none is, the
/// current process is where it was, as long as no predicate changes the ID
/// of the process it is asked about.
pub proof fn lemma_selection_keeps_current<P: EventPoll>(
    pre: SchedulerView<P>,
    tf: TrapFrame,
    post: SchedulerView<P>,
    frame: TrapFrame,
    selected: Option<Id>,
)
    requires
        pre.selects(tf, post, frame, selected),
        selected is None ==> pre.current_present() && polls_keep_ids::<P>(),
    ensures
        post.current_present(),
{
    match selected {
        Some(id) => {
            let (k, picked) = choose|k: int, picked: Process<P>| #[trigger]
                pre.selected_at(k, picked, post, frame, id);
            assert(post.queue[0].id() == id);
        },
        None => {
            if let Some(id) = pre.current {
                let i = choose|i: int|
                    0 <= i < pre.queue.len() && (#[trigger] pre.queue[i]).id() == id;
                lemma_examined_keeps_id(pre, i, post.queue[i], false);
                assert(post.queue[i].id() == id);
            }
        },
    }
}

/// A context switch keeps the current process in the queue, provided that
/// the trap frame that is saved holds the ID of the process it is saved to
/// and, when no process is selected, that no predicate changes the ID of the
/// process it is asked about.
pub proof fn lemma_switch_keeps_current<P: EventPoll>(
    pre: SchedulerView<P>,
    new_state: State<P>,
    tf: TrapFrame,
    post: SchedulerView<P>,
    frame: TrapFrame,
    selected: Option<Id>,
)
    requires
        pre.switches(new_state, tf, post, frame, selected),
        pre.current_present(),
        selected is None && pre.queue.len() > 0 ==> tf.tpidr == pre.queue[0].id()
            && polls_keep_ids::<P>(),
    ensures
        post.current_present(),
{
    if pre.queue.len() > 0 {
        let parked = pre.parked(new_state, tf);
        if selected is None {
            if let Some(id) = pre.current {
                let i = choose|i: int|
                    0 <= i < pre.queue.len() && (#[trigger] pre.queue[i]).id() == id;
                if i == 0 {
                    assert(parked.queue[pre.queue.len() - 1].id() == id);
                } else {
                    assert(parked.queue[i - 1] == pre.queue[i]);
                    assert(parked.queue[i - 1].id() == id);
                }
            }
        }
        lemma_selection_keeps_current(parked, tf, post, frame, selected);
    }
}

/// Adding a process keeps the current process in the queue.
pub proof fn lemma_add_keeps_current<P: EventPoll>(
    pre: SchedulerView<P>,
    process: Process<P>,
    id: Id,
)
    requires
        pre.current_present(),
    ensures
        pre.added(process, id).current_present(),
{
    let post = pre.added(process, id);
    match pre.current {
        Some(current) => {
            let i = choose|i: int|
                0 <= i < pre.queue.len() && (#[trigger] pre.queue[i]).id() == current;
            assert(post.queue[i].id() == current);
        },
        None => {
            assert(post.queue[pre.queue.len() as int].id() == id);
        },
    }
}

/// Putting a process at the front keeps the current process in the queue.
pub proof fn lemma_push_keeps_current<P: EventPoll>(pre: SchedulerView<P>, process: Process<P>)
    requires
        pre.current_present(),
    ensures
        pre.pushed_front(process).current_present(),
{
    let post = pre.pushed_front(process);
    match pre.current {
        Some(current) => {
            let i = choose|i: int|
                0 <= i < pre.queue.len() && (#[trigger] pre.queue[i]).id() == current;
            assert(post.queue[i + 1].id() == current);
        },
        None => {
            assert(post.queue[0].id() == process.id());
        },
    }
}

/// Selection keeps what holds of a scheduler between its operations, if no
/// process runs when it begins and no predicate changes the ID of the
/// process it is asked about.
pub proof fn lemma_selection_keeps_wf<P: EventPoll>(
    pre: SchedulerView<P>,
    tf: TrapFrame,
    post: SchedulerView<P>,
    frame: TrapFrame,
    selected: Option<Id>,
)
    requires
        pre.selects(tf, post, frame, selected),
        pre.ids_distinct(),
        pre.ids_allocated(),
        pre.current_present(),
        pre.none_running(),
        polls_keep_ids::<P>(),
    ensures
        post.wf(),
        selected is None ==> post.none_running(),
{
    let n = pre.queue.len() as int;
    match selected {
        Some(id) => {
            let (k, picked) = choose|k: int, picked: Process<P>| #[trigger]
                pre.selected_at(k, picked, post, frame, id);
            lemma_selected_keeps_ids(pre, k, picked, post, frame, id);
            lemma_selected_runs_alone(pre, tf, post, frame, id);
            lemma_selection_keeps_current(pre, tf, post, frame, selected);
            assert(post.current == Some(post.queue[0].id()));
            assert forall|i: int, j: int|
                #![trigger post.queue[i], post.queue[j]]
                0 <= i < j < n implies post.queue[i].id() != post.queue[j].id() by {
                let a = pre.origin(k, i);
                let b = pre.origin(k, j);
                assert(post.queue[i].id() == pre.queue[a].id());
                assert(post.queue[j].id() == pre.queue[b].id());
                if a < b {
                    assert(pre.queue[a].id() != pre.queue[b].id());
                } else {
                    assert(pre.queue[b].id() != pre.queue[a].id());
                }
            }
            assert forall|i: int| 0 <= i < n implies
                post.allocated((#[trigger] post.queue[i]).id()) by {
                let a = pre.origin(k, i);
                assert(post.queue[i].id() == pre.queue[a].id());
                assert(pre.allocated(pre.queue[a].id()));
            }
        },
        None => {
            lemma_idle_starts_none(pre, post);
            lemma_selection_keeps_current(pre, tf, post, frame, selected);
            assert forall|i: int| 0 <= i < n implies
                (#[trigger] post.queue[i]).id() == pre.queue[i].id() by {
                lemma_examined_keeps_id(pre, i, post.queue[i], false);
            }
            assert forall|i: int, j: int|
                #![trigger post.queue[i], post.queue[j]]
                0 <= i < j < n implies post.queue[i].id() != post.queue[j].id() by {
                assert(pre.queue[i].id() != pre.queue[j].id());
            }
            assert forall|i: int| 0 <= i < n implies
                post.allocated((#[trigger] post.queue[i]).id()) by {
                assert(pre.allocated(pre.queue[i].id()));
            }
        },
    }
}

/// Parking the current process keeps the IDs in the queue, provided that the
/// trap frame that is saved holds the ID of the process it is saved to:
/// every process still has an ID of its own, which was allocated, and the
/// current ID still names one of them.
pub proof fn lemma_parked_keeps_ids<P: EventPoll>(
    pre: SchedulerView<P>,
    new_state: State<P>,
    tf: TrapFrame,
)
    requires
        pre.queue.len() > 0,
        pre.ids_distinct(),
        pre.ids_allocated(),
        pre.current_present(),
        tf.tpidr == pre.queue[0].id(),
    ensures
        pre.parked(new_state, tf).ids_distinct(),
        pre.parked(new_state, tf).ids_allocated(),
        pre.parked(new_state, tf).current_present(),
{
    let n = pre.queue.len() as int;
    let parked = pre.parked(new_state, tf);
    assert forall|i: int| 0 <= i < n - 1 implies
        #[trigger] parked.queue[i] == pre.queue[i + 1] by {}
    assert(parked.queue[n - 1].id() == pre.queue[0].id());
    assert forall|i: int, j: int|
        #![trigger parked.queue[i], parked.queue[j]]
        0 <= i < j < n implies parked.queue[i].id() != parked.queue[j].id() by {
        if j < n - 1 {
            assert(pre.queue[i + 1].id() != pre.queue[j + 1].id());
        } else {
            assert(pre.queue[0].id() != pre.queue[i + 1].id());
        }
    }
    assert forall|i: int| 0 <= i < n implies
        parked.allocated((#[trigger] parked.queue[i]).id()) by {
        if i < n - 1 {
            assert(pre.allocated(pre.queue[i + 1].id()));
        } else {
            assert(pre.allocated(pre.queue[0].id()));
        }
    }
    if let Some(current) = pre.current {
        let i = choose|i: int| 0 <= i < n && (#[trigger] pre.queue[i]).id() == current;
        if i == 0 {
            assert(parked.queue[n - 1].id() == current);
        } else {
            assert(parked.queue[i - 1].id() == current);
        }
    }
}

/// A context switch keeps what holds of a scheduler between its operations,
/// provided that the current process is not parked as `Running`, that the
/// trap frame that is saved holds the ID of the process it is saved to, and
/// that no predicate changes the ID of the process it is asked about.
pub proof fn lemma_switch_keeps_wf<P: EventPoll>(
    pre: SchedulerView<P>,
    new_state: State<P>,
    tf: TrapFrame,
    post: SchedulerView<P>,
    frame: TrapFrame,
    selected: Option<Id>,
)
    requires
        pre.switches(new_state, tf, post, frame, selected),
        pre.wf(),
        !(new_state is Running),
        pre.queue.len() > 0 ==> tf.tpidr == pre.queue[0].id(),
        polls_keep_ids::<P>(),
    ensures
        post.wf(),
        selected matches Some(id) ==> post.runs_alone(id) && post.current == Some(id),
        selected is None ==> post.none_running(),
{
    if pre.queue.len() > 0 {
        let parked = pre.parked(new_state, tf);
        lemma_parked_keeps_ids(pre, new_state, tf);
        lemma_parked_none_running(pre, new_state, tf);
        lemma_selection_keeps_wf(parked, tf, post, frame, selected);
        if let Some(id) = selected {
            lemma_selected_runs_alone(parked, tf, post, frame, id);
        }
    } else {
        assert(post.none_running());
    }
}

/// Adding a process that does not run keeps what holds of a scheduler
/// between its operations.
pub proof fn lemma_add_keeps_wf<P: EventPoll>(pre: SchedulerView<P>, process: Process<P>, id: Id)
    requires
        pre.wf(),
        next_id(pre.last_id) == Some(id),
        !(process.state is Running),
    ensures
        pre.added(process, id).wf(),
{
    let post = pre.added(process, id);
    let n = pre.queue.len() as int;
    lemma_add_keeps_current(pre, process, id);
    assert forall|i: int, j: int|
        #![trigger post.queue[i], post.queue[j]]
        0 <= i < j < post.queue.len() implies post.queue[i].id() != post.queue[j].id() by {
        assert(pre.allocated(pre.queue[i].id()));
        if j < n {
            assert(pre.queue[i].id() != pre.queue[j].id());
        }
    }
    assert forall|i: int| 0 <= i < post.queue.len() implies
        post.allocated((#[trigger] post.queue[i]).id()) by {
        if i < n {
            assert(pre.allocated(pre.queue[i].id()));
        }
    }
    assert forall|i: int| 1 <= i < post.queue.len() implies
        !((#[trigger] post.queue[i]).state is Running) by {
        if i < n {
            assert(post.queue[i] == pre.queue[i]);
        }
    }
    if n > 0 {
        assert(post.queue[0] == pre.queue[0]);
    }
}

/// Reaping a zombie keeps what holds of a scheduler between its operations.
pub proof fn lemma_reap_keeps_wf<P: EventPoll>(pre: SchedulerView<P>, j: int)
    requires
        pre.wf(),
        0 <= j < pre.queue.len(),
        pre.queue[j].state is Zombie,
    ensures
        pre.reaped_at(j).wf(),
{
    let post = pre.reaped_at(j);
    assert forall|i: int| 0 <= i < j implies #[trigger] post.queue[i] == pre.queue[i] by {}
    assert forall|i: int| j <= i < post.queue.len() implies
        #[trigger] post.queue[i] == pre.queue[i + 1] by {}
    if let Some(id) = post.current {
        let i = choose|i: int| 0 <= i < pre.queue.len() && (#[trigger] pre.queue[i]).id() == id;
        if i < j {
            assert(post.queue[i].id() == id);
        } else {
            assert(post.queue[i - 1].id() == id);
        }
    }
    assert forall|a: int, b: int|
        #![trigger post.queue[a], post.queue[b]]
        0 <= a < b < post.queue.len() implies post.queue[a].id() != post.queue[b].id() by {
        let x = if a < j { a } else { a + 1 };
        let y = if b < j { b } else { b + 1 };
        assert(pre.queue[x].id() != pre.queue[y].id());
    }
    assert forall|i: int| 0 <= i < post.queue.len() implies
        post.allocated((#[trigger] post.queue[i]).id()) by {
        let x = if i < j { i } else { i + 1 };
        assert(pre.allocated(pre.queue[x].id()));
    }
    assert forall|i: int| 1 <= i < post.queue.len() implies
        !((#[trigger] post.queue[i]).state is Running) by {
        let x = if i < j { i } else { i + 1 };
        assert(!(pre.queue[x].state is Running));
    }
    if post.queue.len() > 0 && post.queue[0].state is Running {
        assert(j > 0);
        assert(post.queue[0] == pre.queue[0]);
        assert(pre.queue[0].id() != pre.queue[j].id());
    }
}

/// Taking the process at the front out and putting it back, with whatever
/// was changed in it but its ID, keeps what holds of a scheduler, if it was
/// not made a running process.
pub proof fn lemma_put_back_keeps_wf<P: EventPoll>(pre: SchedulerView<P>, process: Process<P>)
    requires
        pre.wf(),
        pre.queue.len() > 0,
        process.id() == pre.queue[0].id(),
        process.state is Running ==> pre.queue[0].state is Running,
    ensures
        pre.popped().pushed_front(process).wf(),
{
    lemma_pop_keeps_wf(pre);
    assert(pre.allocated(pre.queue[0].id()));
    lemma_push_keeps_wf(pre.popped(), process);
}

} // verus!
