use kernel::poll::Countdown;
use kernel::process::{AllocatorHandle, EventPoll, Id, Process, Stack, State};
use kernel::scheduler::{Scheduler, TICK};
use kernel::trap_frame::TrapFrame;

/// A predicate that answers what it is told to, and counts in `x0` of the
/// process how often it was asked.
struct Scripted(Vec<bool>);

impl EventPoll for Scripted {
    fn poll(&mut self, process: &mut Process<Scripted>) -> bool {
        process.trap_frame.x[0] += 1;
        if self.0.is_empty() {
            true
        } else {
            self.0.remove(0)
        }
    }
}

/// A process whose allocator and whose saved `elr` tell it apart.
fn process<P: EventPoll>(mark: u64) -> Process<P> {
    let mut process =
        Process::new(Stack::new(mark * 4096, 4096), AllocatorHandle { base: mark }).unwrap();
    process.trap_frame.elr = mark;
    process
}

/// A trap frame as the process with ID `id` leaves it behind.
fn frame(id: Id, elr: u64) -> TrapFrame {
    let mut tf = TrapFrame::default();
    tf.tpidr = id;
    tf.elr = elr;
    tf
}

/// Takes every process out of the scheduler, front first.
fn drain<P: EventPoll>(scheduler: &mut Scheduler<P>) -> Vec<Process<P>> {
    let mut queue = Vec::new();
    while !scheduler.is_empty() {
        queue.push(scheduler.pop_current());
    }
    queue
}

fn ids<P: EventPoll>(queue: &[Process<P>]) -> Vec<Id> {
    queue.iter().map(|process| process.get_id()).collect()
}

fn running<P: EventPoll>(queue: &[Process<P>]) -> Vec<Id> {
    queue
        .iter()
        .filter(|process| matches!(process.state, State::Running))
        .map(|process| process.get_id())
        .collect()
}

#[test]
fn the_tick_is_ten_million() {
    assert_eq!(TICK, 10_000_000);
}

#[test]
fn a_new_scheduler_is_empty() {
    let scheduler: Scheduler<Countdown> = Scheduler::new();
    assert!(scheduler.is_empty());
    assert_eq!(scheduler.current(), None);
    assert_eq!(scheduler.user_allocator(), None);
}

#[test]
fn add_allocates_ids_from_zero_and_appends() {
    let mut scheduler: Scheduler<Countdown> = Scheduler::new();
    assert_eq!(scheduler.add(process(10)), Some(0));
    assert_eq!(scheduler.last_id(), 0);
    assert_eq!(scheduler.add(process(11)), Some(1));
    assert_eq!(scheduler.add(process(12)), Some(2));
    assert_eq!(scheduler.last_id(), 2);
    assert!(!scheduler.is_empty());
    let queue = drain(&mut scheduler);
    assert_eq!(ids(&queue), vec![0, 1, 2]);
    let marks: Vec<u64> = queue.iter().map(|process| process.allocator.base).collect();
    assert_eq!(marks, vec![10, 11, 12]);
    assert_eq!(queue[1].trap_frame.elr, 11);
}

#[test]
fn the_first_process_added_becomes_current() {
    let mut scheduler: Scheduler<Countdown> = Scheduler::new();
    assert_eq!(scheduler.current(), None);
    scheduler.add(process(10));
    assert_eq!(scheduler.current(), Some(0));
    scheduler.add(process(11));
    assert_eq!(scheduler.current(), Some(0));
}

#[test]
fn add_overwrites_the_id_the_process_came_with() {
    let mut scheduler: Scheduler<Countdown> = Scheduler::new();
    let mut stranger = process(10);
    stranger.trap_frame.tpidr = 77;
    assert_eq!(scheduler.add(stranger), Some(0));
    assert_eq!(scheduler.pop_current().get_id(), 0);
}

#[test]
fn every_id_is_greater_than_the_ones_before() {
    let mut scheduler: Scheduler<Countdown> = Scheduler::continuing(40);
    let mut tf = frame(41, 0);
    let mut last = 40;
    for round in 0..20 {
        let id = scheduler.add(process(round)).unwrap();
        assert!(id > last);
        assert_eq!(id, last + 1);
        last = id;
        let _ = scheduler.switch(State::Ready, &mut tf);
    }
    assert_eq!(scheduler.last_id(), 60);
}

#[test]
fn add_with_the_ids_used_up_returns_none_and_changes_nothing() {
    let mut scheduler: Scheduler<Countdown> = Scheduler::continuing(u64::MAX);
    assert_eq!(scheduler.add(process(10)), None);
    assert!(scheduler.is_empty());
    assert_eq!(scheduler.current(), None);
    assert_eq!(scheduler.last_id(), u64::MAX);
}

#[test]
fn the_last_id_before_the_end_is_still_allocated() {
    let mut scheduler: Scheduler<Countdown> = Scheduler::continuing(u64::MAX - 1);
    assert_eq!(scheduler.add(process(10)), Some(u64::MAX));
    assert_eq!(scheduler.add(process(11)), None);
    assert_eq!(ids(&drain(&mut scheduler)), vec![u64::MAX]);
}

#[test]
fn pop_then_push_front_restores_the_queue() {
    let mut scheduler: Scheduler<Countdown> = Scheduler::new();
    scheduler.add(process(10));
    scheduler.add(process(11));
    scheduler.add(process(12));
    let current = scheduler.pop_current();
    assert_eq!(current.get_id(), 0);
    scheduler.push_current_front(current);
    assert_eq!(scheduler.current(), Some(0));
    assert_eq!(scheduler.last_id(), 2);
    assert_eq!(ids(&drain(&mut scheduler)), vec![0, 1, 2]);
}

#[test]
fn popping_the_current_process_leaves_no_current_process() {
    let mut scheduler: Scheduler<Countdown> = Scheduler::new();
    scheduler.add(process(10));
    scheduler.add(process(11));
    assert_eq!(scheduler.current(), Some(0));
    assert_eq!(scheduler.pop_current().get_id(), 0);
    assert_eq!(scheduler.current(), None);
    assert_eq!(ids_of(&mut scheduler), vec![1]);
}

#[test]
fn popping_another_process_keeps_the_current_one() {
    let mut scheduler: Scheduler<Countdown> = Scheduler::new();
    scheduler.add(process(10));
    scheduler.add(process(11));
    let mut tf = frame(0, 0);
    assert_eq!(scheduler.switch(State::Zombie, &mut tf), Some(1));
    assert_eq!(scheduler.switch(State::Zombie, &mut tf), None);
    assert_eq!(scheduler.current(), Some(1));
    assert_eq!(scheduler.pop_current().get_id(), 0);
    assert_eq!(scheduler.current(), Some(1));
    assert_eq!(scheduler.pop_current().get_id(), 1);
    assert_eq!(scheduler.current(), None);
}

#[test]
fn a_process_pushed_in_front_becomes_current_if_none_is() {
    let mut scheduler: Scheduler<Countdown> = Scheduler::continuing(9);
    let mut stranger = process(10);
    stranger.trap_frame.tpidr = 4;
    scheduler.push_current_front(stranger);
    assert_eq!(scheduler.current(), Some(4));
    let mut other = process(11);
    other.trap_frame.tpidr = 5;
    scheduler.push_current_front(other);
    assert_eq!(scheduler.current(), Some(4));
    assert_eq!(ids(&drain(&mut scheduler)), vec![5, 4]);
}

#[test]
fn switch_on_an_empty_queue_returns_none() {
    let mut scheduler: Scheduler<Countdown> = Scheduler::new();
    let mut tf = frame(3, 0x1000);
    assert_eq!(scheduler.switch(State::Ready, &mut tf), None);
    assert!(scheduler.is_empty());
    assert_eq!(scheduler.current(), None);
    assert_eq!(tf, frame(3, 0x1000));
}

#[test]
fn select_on_an_empty_queue_returns_none() {
    let mut scheduler: Scheduler<Countdown> = Scheduler::new();
    let mut tf = frame(3, 0x1000);
    assert_eq!(scheduler.select(&mut tf), None);
    assert_eq!(tf, frame(3, 0x1000));
}

#[test]
fn switch_saves_the_frame_and_the_state_of_the_current_process() {
    let mut scheduler: Scheduler<Countdown> = Scheduler::new();
    scheduler.add(process(10));
    scheduler.add(process(11));
    let mut tf = frame(0, 0xabc);
    tf.x[5] = 55;
    assert_eq!(scheduler.switch(State::WaitProc(9), &mut tf), Some(1));
    let queue = drain(&mut scheduler);
    assert_eq!(ids(&queue), vec![1, 0]);
    assert!(matches!(queue[1].state, State::WaitProc(9)));
    let mut saved = frame(0, 0xabc);
    saved.x[5] = 55;
    assert_eq!(*queue[1].trap_frame, saved);
}

#[test]
fn switch_loads_the_frame_and_the_allocator_of_the_selected_process() {
    let mut scheduler: Scheduler<Countdown> = Scheduler::new();
    scheduler.add(process(10));
    scheduler.add(process(11));
    let mut tf = frame(0, 0xabc);
    assert_eq!(scheduler.switch(State::Ready, &mut tf), Some(1));
    assert_eq!(tf, frame(1, 11));
    assert_eq!(scheduler.current(), Some(1));
    assert_eq!(scheduler.user_allocator(), Some(AllocatorHandle { base: 11 }));
}

#[test]
fn after_a_switch_exactly_one_process_runs() {
    let mut scheduler: Scheduler<Countdown> = Scheduler::new();
    for mark in 0..4 {
        scheduler.add(process(mark));
    }
    let mut tf = frame(0, 0);
    for _ in 0..9 {
        let id = scheduler.switch(State::Ready, &mut tf).unwrap();
        assert_eq!(tf.tpidr, id);
        assert_eq!(scheduler.current(), Some(id));
        let queue = drain(&mut scheduler);
        assert_eq!(running(&queue), vec![id]);
        assert_eq!(queue[0].get_id(), id);
        for process in queue.into_iter().rev() {
            scheduler.push_current_front(process);
        }
    }
}

#[test]
fn the_current_process_is_always_in_the_queue() {
    let mut scheduler: Scheduler<Countdown> = Scheduler::new();
    let mut tf = frame(0, 0);
    for round in 0..12u64 {
        if round % 3 == 0 {
            scheduler.add(process(round));
        }
        let state = match round % 4 {
            0 => State::Ready,
            1 => State::Waiting(Countdown { remaining: 2 }),
            2 => State::WaitProc(0),
            _ => State::Zombie,
        };
        if let Some(id) = scheduler.switch(state, &mut tf) {
            assert_eq!(tf.tpidr, id);
        }
        let current = scheduler.current().unwrap();
        let queue = drain(&mut scheduler);
        assert!(ids(&queue).contains(&current));
        for process in queue.into_iter().rev() {
            scheduler.push_current_front(process);
        }
    }
}

#[test]
fn switch_with_only_zombies_returns_none() {
    let mut scheduler: Scheduler<Countdown> = Scheduler::new();
    for mark in 0..3 {
        let mut zombie = process(mark);
        zombie.state = State::Zombie;
        scheduler.add(zombie);
    }
    let mut tf = frame(0, 0x500);
    assert_eq!(scheduler.switch(State::Zombie, &mut tf), None);
    assert_eq!(tf, frame(0, 0x500));
    assert_eq!(scheduler.current(), Some(0));
    let queue = drain(&mut scheduler);
    assert_eq!(ids(&queue), vec![1, 2, 0]);
    assert!(queue.iter().all(|process| matches!(process.state, State::Zombie)));
    assert_eq!(queue[2].trap_frame.elr, 0x500);
}

#[test]
fn a_zombie_that_is_switched_to_ready_runs_again() {
    let mut scheduler: Scheduler<Countdown> = Scheduler::new();
    let mut zombie = process(10);
    zombie.state = State::Zombie;
    scheduler.add(zombie);
    let mut tf = frame(0, 0x500);
    assert_eq!(scheduler.switch(State::Ready, &mut tf), Some(0));
}

#[test]
fn a_single_process_is_switched_to_itself() {
    let mut scheduler: Scheduler<Countdown> = Scheduler::new();
    scheduler.add(process(10));
    let mut tf = frame(0, 0x777);
    assert_eq!(scheduler.switch(State::Ready, &mut tf), Some(0));
    assert_eq!(tf, frame(0, 0x777));
    let queue = drain(&mut scheduler);
    assert_eq!(running(&queue), vec![0]);
}

#[test]
fn selection_is_first_in_first_out() {
    let mut scheduler: Scheduler<Countdown> = Scheduler::new();
    for mark in 0..3 {
        scheduler.add(process(mark));
    }
    let mut tf = frame(0, 0);
    let mut order = Vec::new();
    for _ in 0..7 {
        order.push(scheduler.switch(State::Ready, &mut tf).unwrap());
    }
    assert_eq!(order, vec![1, 2, 0, 1, 2, 0, 1]);
}

#[test]
fn a_process_behind_a_ready_one_is_not_asked() {
    let mut scheduler: Scheduler<Scripted> = Scheduler::new();
    scheduler.add(process(10));
    scheduler.add(process(11));
    let mut waiter = process(12);
    waiter.state = State::Waiting(Scripted(vec![true]));
    scheduler.add(waiter);
    let mut tf = frame(0, 0);
    assert_eq!(scheduler.switch(State::Ready, &mut tf), Some(1));
    let queue = drain(&mut scheduler);
    assert_eq!(ids(&queue), vec![1, 2, 0]);
    assert_eq!(queue[1].trap_frame.x[0], 0);
    assert!(matches!(queue[1].state, State::Waiting(_)));
}

#[test]
fn a_waiting_process_is_selected_only_after_its_predicate_was_asked() {
    let mut scheduler: Scheduler<Scripted> = Scheduler::new();
    let mut waiter = process(10);
    waiter.state = State::Waiting(Scripted(vec![false, false, true]));
    scheduler.add(process(11));
    scheduler.add(waiter);
    let mut tf = frame(0, 0);
    let mut asked_before = 0;
    for _ in 0..8 {
        let id = scheduler.switch(State::Ready, &mut tf).unwrap();
        let queue = drain(&mut scheduler);
        let asked = queue.iter().find(|process| process.get_id() == 1).unwrap().trap_frame.x[0];
        if id == 1 && asked_before < 3 {
            assert_eq!(asked, asked_before + 1);
        }
        if asked < 3 {
            assert_eq!(id, 0);
        }
        asked_before = asked;
        for process in queue.into_iter().rev() {
            scheduler.push_current_front(process);
        }
    }
    assert_eq!(asked_before, 3);
}

#[test]
fn what_the_predicate_left_in_the_registers_is_loaded() {
    let mut scheduler: Scheduler<Scripted> = Scheduler::new();
    scheduler.add(process(10));
    let mut tf = frame(0, 0x40);
    assert_eq!(scheduler.switch(State::Waiting(Scripted(vec![true])), &mut tf), Some(0));
    let mut expected = frame(0, 0x40);
    expected.x[0] = 1;
    assert_eq!(tf, expected);
}

#[test]
fn switch_gives_up_after_one_pass_and_select_tries_again() {
    let mut scheduler: Scheduler<Countdown> = Scheduler::new();
    scheduler.add(process(10));
    let mut sleeper = process(11);
    sleeper.state = State::Waiting(Countdown { remaining: 2 });
    scheduler.add(sleeper);
    let mut tf = frame(0, 0x40);
    assert_eq!(scheduler.switch(State::Waiting(Countdown { remaining: 2 }), &mut tf), None);
    assert_eq!(tf, frame(0, 0x40));
    assert_eq!(scheduler.current(), Some(0));
    assert_eq!(scheduler.user_allocator(), None);
    assert_eq!(ids_of(&mut scheduler), vec![1, 0]);
    assert_eq!(scheduler.select(&mut tf), None);
    assert_eq!(ids_of(&mut scheduler), vec![1, 0]);
    assert_eq!(scheduler.select(&mut tf), Some(1));
    assert_eq!(tf, frame(1, 11));
    assert_eq!(scheduler.current(), Some(1));
    let queue = drain(&mut scheduler);
    assert_eq!(ids(&queue), vec![1, 0]);
    assert!(matches!(queue[0].state, State::Running));
    assert!(matches!(queue[1].state, State::Waiting(Countdown { remaining: 0 })));
    assert_eq!(*queue[1].trap_frame, frame(0, 0x40));
}

#[test]
fn a_process_that_waits_for_a_child_runs_once_the_child_is_a_zombie() {
    let mut scheduler: Scheduler<Countdown> = Scheduler::new();
    scheduler.add(process(10));
    scheduler.add(process(11));
    scheduler.add(process(12));
    let mut tf = frame(0, 0x40);
    assert_eq!(scheduler.switch(State::WaitProc(2), &mut tf), Some(1));
    assert_eq!(scheduler.switch(State::Ready, &mut tf), Some(2));
    assert_eq!(scheduler.switch(State::Ready, &mut tf), Some(1));
    assert_eq!(scheduler.switch(State::Ready, &mut tf), Some(2));
    assert_eq!(scheduler.switch(State::Zombie, &mut tf), Some(0));
    assert_eq!(tf, frame(0, 0x40));
    let queue = drain(&mut scheduler);
    assert_eq!(ids(&queue), vec![0, 1, 2]);
    assert!(matches!(queue[0].state, State::Running));
    assert!(matches!(queue[2].state, State::Zombie));
}

#[test]
fn a_zombie_with_another_id_does_not_end_the_wait() {
    let mut scheduler: Scheduler<Countdown> = Scheduler::new();
    scheduler.add(process(10));
    let mut zombie = process(11);
    zombie.state = State::Zombie;
    scheduler.add(zombie);
    let mut tf = frame(0, 0x40);
    assert_eq!(scheduler.switch(State::WaitProc(5), &mut tf), None);
    assert_eq!(ids_of(&mut scheduler), vec![1, 0]);
}

#[test]
fn a_child_that_is_no_zombie_does_not_end_the_wait() {
    let mut scheduler: Scheduler<Countdown> = Scheduler::new();
    scheduler.add(process(10));
    let mut child = process(11);
    child.state = State::WaitProc(0);
    scheduler.add(child);
    let mut tf = frame(0, 0x40);
    assert_eq!(scheduler.switch(State::WaitProc(1), &mut tf), None);
    assert_eq!(tf, frame(0, 0x40));
}

#[test]
fn reap_takes_the_zombie_out() {
    let mut scheduler: Scheduler<Countdown> = Scheduler::new();
    scheduler.add(process(10));
    scheduler.add(process(11));
    scheduler.add(process(12));
    let mut tf = frame(0, 0x40);
    assert_eq!(scheduler.switch(State::Ready, &mut tf), Some(1));
    assert_eq!(scheduler.switch(State::Zombie, &mut tf), Some(2));
    let zombie = scheduler.reap(1).unwrap();
    assert_eq!(zombie.get_id(), 1);
    assert!(matches!(zombie.state, State::Zombie));
    assert_eq!(zombie.allocator, AllocatorHandle { base: 11 });
    assert_eq!(scheduler.current(), Some(2));
    assert_eq!(ids_of(&mut scheduler), vec![2, 0]);
    assert!(scheduler.reap(1).is_none());
}

#[test]
fn reap_leaves_a_process_that_is_no_zombie() {
    let mut scheduler: Scheduler<Countdown> = Scheduler::new();
    scheduler.add(process(10));
    scheduler.add(process(11));
    assert!(scheduler.reap(0).is_none());
    assert!(scheduler.reap(1).is_none());
    assert!(scheduler.reap(9).is_none());
    assert_eq!(scheduler.current(), Some(0));
    assert_eq!(ids_of(&mut scheduler), vec![0, 1]);
}

#[test]
fn reaping_the_current_process_leaves_no_current_process() {
    let mut scheduler: Scheduler<Countdown> = Scheduler::new();
    scheduler.add(process(10));
    let mut tf = frame(0, 0x40);
    assert_eq!(scheduler.switch(State::Zombie, &mut tf), None);
    assert_eq!(scheduler.current(), Some(0));
    assert_eq!(scheduler.reap(0).unwrap().get_id(), 0);
    assert_eq!(scheduler.current(), None);
    assert!(scheduler.is_empty());
    assert_eq!(scheduler.add(process(11)), Some(1));
    assert_eq!(scheduler.current(), Some(1));
}

#[test]
fn a_scheduler_that_continues_has_a_last_id_and_a_new_one_has_none() {
    let fresh: Scheduler<Countdown> = Scheduler::new();
    assert!(!fresh.allocated());
    let continuing: Scheduler<Countdown> = Scheduler::continuing(7);
    assert!(continuing.allocated());
    assert_eq!(continuing.last_id(), 7);
    assert!(continuing.is_empty());
    assert_eq!(continuing.current(), None);
}

#[test]
fn use_allocator_sets_the_user_allocator() {
    let mut scheduler: Scheduler<Countdown> = Scheduler::new();
    scheduler.add(process(10));
    scheduler.use_allocator(AllocatorHandle { base: 99 });
    assert_eq!(scheduler.user_allocator(), Some(AllocatorHandle { base: 99 }));
    assert_eq!(scheduler.current(), Some(0));
    assert_eq!(ids_of(&mut scheduler), vec![0]);
}

/// The IDs in queue order; the queue is left as it was.
fn ids_of<P: EventPoll>(scheduler: &mut Scheduler<P>) -> Vec<Id> {
    let queue = drain(scheduler);
    let ids = ids(&queue);
    for process in queue.into_iter().rev() {
        scheduler.push_current_front(process);
    }
    ids
}
