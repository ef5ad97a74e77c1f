use kernel::global::{GlobalScheduler, USER_ENTRY, USER_STATUS};
use kernel::irq::handle_timer;
use kernel::scheduler::TICK;
use kernel::poll::Countdown;
use kernel::process::{AllocatorHandle, Id, LoadedImage, Process, Stack, State};
use kernel::syscall::do_exit;
use kernel::trap_frame::TrapFrame;

const IMAGE: LoadedImage = LoadedImage { ttbr0: 0x100_0000, sp: 0x7fff_f000, elr: 0x40_0000 };

fn process(mark: u64) -> Process<Countdown> {
    let mut process =
        Process::new(Stack::new(mark * 4096, 4096), AllocatorHandle { base: mark }).unwrap();
    process.trap_frame.elr = mark;
    process
}

fn frame(id: Id, elr: u64) -> TrapFrame {
    let mut tf = TrapFrame::default();
    tf.tpidr = id;
    tf.elr = elr;
    tf
}

fn started() -> GlobalScheduler<Countdown> {
    let mut global = GlobalScheduler::uninitialized();
    global.start(Stack::new(0x8000, 4096), AllocatorHandle { base: 1 }, IMAGE).unwrap();
    global
}

fn drain(global: &mut GlobalScheduler<Countdown>) -> Vec<Process<Countdown>> {
    let mut queue = Vec::new();
    while !global.is_empty() {
        queue.push(global.pop_current());
    }
    queue
}

#[test]
fn the_user_entry_constants() {
    assert_eq!(USER_ENTRY, 4);
    assert_eq!(USER_STATUS, 0);
}

#[test]
fn a_global_scheduler_starts_out_uninitialized() {
    let global: GlobalScheduler<Countdown> = GlobalScheduler::uninitialized();
    assert!(!global.initialized());
}

#[test]
fn start_registers_the_first_process() {
    let mut global: GlobalScheduler<Countdown> = GlobalScheduler::uninitialized();
    let stack = Stack::new(0x8000, 4096);
    let frame = global.start(stack, AllocatorHandle { base: 1 }, IMAGE).unwrap();
    let mut expected = TrapFrame::default();
    expected.elr = 0x40_0000;
    expected.sp = 0x7fff_f000;
    expected.ttbr0 = 0x100_0000;
    assert_eq!(frame, expected);
    assert!(global.initialized());
    assert!(!global.is_empty());
    assert_eq!(global.current(), Some(0));
    assert_eq!(global.last_id(), 0);
    assert_eq!(global.user_allocator(), Some(AllocatorHandle { base: 1 }));
    let queue = drain(&mut global);
    assert_eq!(queue.len(), 1);
    assert_eq!(*queue[0].trap_frame, expected);
    assert_eq!(Some(queue[0].stack), stack);
    assert_eq!(queue[0].allocator, AllocatorHandle { base: 1 });
    assert!(matches!(queue[0].state, State::Ready));
}

#[test]
fn start_without_a_stack_leaves_an_empty_scheduler() {
    let mut global: GlobalScheduler<Countdown> = GlobalScheduler::uninitialized();
    assert_eq!(global.start(None, AllocatorHandle { base: 1 }, IMAGE), None);
    assert!(global.initialized());
    assert!(global.is_empty());
    assert_eq!(global.current(), None);
    assert_eq!(global.user_allocator(), None);
    assert_eq!(global.add(process(3)), Some(0));
}

#[test]
fn start_begins_anew() {
    let mut global = started();
    global.add(process(2));
    global.start(Stack::new(0x8000, 4096), AllocatorHandle { base: 5 }, IMAGE).unwrap();
    assert_eq!(global.last_id(), 0);
    assert_eq!(global.user_allocator(), Some(AllocatorHandle { base: 5 }));
    assert_eq!(drain(&mut global).len(), 1);
}

#[test]
fn clear_makes_the_scheduler_uninitialized_again() {
    let mut global = started();
    global.clear();
    assert!(!global.initialized());
}

#[test]
fn the_global_scheduler_hands_on_to_the_scheduler() {
    let mut global = started();
    assert_eq!(global.add(process(2)), Some(1));
    assert_eq!(global.add(process(3)), Some(2));
    assert_eq!(global.last_id(), 2);
    let mut tf = frame(0, 0x44);
    assert_eq!(global.switch(State::Ready, &mut tf), Some(1));
    assert_eq!(tf, frame(1, 2));
    assert_eq!(global.current(), Some(1));
    assert_eq!(global.user_allocator(), Some(AllocatorHandle { base: 2 }));
    let current = global.pop_current();
    assert_eq!(current.get_id(), 1);
    assert!(matches!(current.state, State::Running));
    global.push_current_front(current);
    let ids: Vec<Id> = drain(&mut global).iter().map(|process| process.get_id()).collect();
    assert_eq!(ids, vec![1, 2, 0]);
}

#[test]
fn select_on_the_global_scheduler_tries_again() {
    let mut global = started();
    let mut tf = frame(0, 0x44);
    assert_eq!(global.switch(State::Waiting(Countdown { remaining: 1 }), &mut tf), None);
    assert_eq!(global.select(&mut tf), Some(0));
    assert_eq!(tf, frame(0, 0x44));
}

#[test]
fn exit_makes_the_current_process_a_zombie_and_runs_the_next() {
    let mut global = started();
    global.add(process(2));
    let mut tf = frame(0, 0x44);
    assert_eq!(do_exit(&mut global, &mut tf), Some(1));
    assert_eq!(tf, frame(1, 2));
    let queue = drain(&mut global);
    assert_eq!(queue.len(), 2);
    assert_eq!(queue[0].get_id(), 1);
    assert!(matches!(queue[0].state, State::Running));
    assert_eq!(queue[1].get_id(), 0);
    assert!(matches!(queue[1].state, State::Zombie));
    assert_eq!(*queue[1].trap_frame, frame(0, 0x44));
}

#[test]
fn exit_of_the_last_process_leaves_nothing_to_run() {
    let mut global = started();
    let mut tf = frame(0, 0x44);
    assert_eq!(do_exit(&mut global, &mut tf), None);
    assert_eq!(tf, frame(0, 0x44));
    assert_eq!(global.select(&mut tf), None);
    let queue = drain(&mut global);
    assert_eq!(queue.len(), 1);
    assert!(matches!(queue[0].state, State::Zombie));
}

#[test]
fn the_timer_preempts_and_asks_to_be_armed_again() {
    let mut global = started();
    global.add(process(2));
    let mut tf = frame(0, 0x44);
    assert_eq!(handle_timer(&mut global, &mut tf), (Some(1), TICK));
    assert_eq!(tf, frame(1, 2));
    assert_eq!(handle_timer(&mut global, &mut tf), (Some(0), 10_000_000));
    assert_eq!(tf, frame(0, 0x44));
    let queue = drain(&mut global);
    assert!(matches!(queue[0].state, State::Running));
    assert!(matches!(queue[1].state, State::Ready));
}

#[test]
fn the_timer_with_nothing_to_run() {
    let mut global: GlobalScheduler<Countdown> = GlobalScheduler::uninitialized();
    global.start(None, AllocatorHandle { base: 1 }, IMAGE);
    let mut tf = frame(0, 0x44);
    assert_eq!(handle_timer(&mut global, &mut tf), (None, TICK));
    assert_eq!(tf, frame(0, 0x44));
}

#[test]
fn a_parent_reaps_the_child_it_waited_for() {
    let mut global = started();
    let child = global.add(process(2)).unwrap();
    let mut tf = frame(0, 0x44);
    assert_eq!(global.switch(State::WaitProc(child), &mut tf), Some(child));
    assert!(global.reap(child).is_none());
    assert_eq!(do_exit(&mut global, &mut tf), Some(0));
    let zombie = global.reap(child).unwrap();
    assert_eq!(zombie.get_id(), child);
    assert_eq!(zombie.stack, Stack::new(2 * 4096, 4096).unwrap());
    assert_eq!(zombie.allocator, AllocatorHandle { base: 2 });
    assert!(global.reap(child).is_none());
    assert_eq!(global.current(), Some(0));
    assert_eq!(drain(&mut global).len(), 1);
}

#[test]
fn allocated_tells_whether_there_is_a_last_id() {
    let mut global: GlobalScheduler<Countdown> = GlobalScheduler::uninitialized();
    global.start(None, AllocatorHandle { base: 1 }, IMAGE);
    assert!(!global.allocated());
    global.add(process(2));
    assert!(global.allocated());
    assert_eq!(global.last_id(), 0);
    let _ = global.pop_current();
    assert!(global.allocated());
    assert_eq!(global.last_id(), 0);
}
