//! The entry point of all exceptions: which handler an exception goes to, and
//! which view of the heap allocator is active while it is handled.

use vstd::prelude::*;
use crate::global::GlobalScheduler;
use crate::irq::handle_timer;
use crate::model::polls_keep_ids;
use crate::process::{EventPoll, Id, State};
use crate::scheduler::TICK;
use crate::syndrome::{Fault, Syndrome};
use crate::trap_frame::TrapFrame;

verus! {

/// The kind of an exception.
#[derive(Debug, PartialEq, Eq, Copy, Clone, Structural)]
pub enum Kind {
    Synchronous,
    Irq,
    Fiq,
    SError,
}

/// Where an exception was taken from: the exception level and the stack
/// pointer in use.
#[derive(Debug, PartialEq, Eq, Copy, Clone, Structural)]
pub enum Source {
    CurrentSpEl0,
    CurrentSpElx,
    LowerAArch64,
    LowerAArch32,
}

impl Kind {
    /// The number that the exception vectors pass for this kind.
    pub open spec fn spec_code(self) -> u16 {
        match self {
            Kind::Synchronous => 0,
            Kind::Irq => 1,
            Kind::Fiq => 2,
            Kind::SError => 3,
        }
    }

    /// The number that the exception vectors pass for this kind.
    #[verifier::when_used_as_spec(spec_code)]
    pub fn code(self) -> (code: u16)
        ensures
            code == self.spec_code(),
    {
        match self {
            Kind::Synchronous => 0,
            Kind::Irq => 1,
            Kind::Fiq => 2,
            Kind::SError => 3,
        }
    }

    /// The kind that `code` stands for, if it stands for one.
    pub fn from_code(code: u16) -> (kind: Option<Kind>)
        ensures
            kind is Some <==> code < 4,
            kind matches Some(k) ==> k.code() == code,
    {
        if code == 0 {
            Some(Kind::Synchronous)
        } else if code == 1 {
            Some(Kind::Irq)
        } else if code == 2 {
            Some(Kind::Fiq)
        } else if code == 3 {
            Some(Kind::SError)
        } else {
            None
        }
    }
}

impl Source {
    /// The number that the exception vectors pass for this source.
    pub open spec fn spec_code(self) -> u16 {
        match self {
            Source::CurrentSpEl0 => 0,
            Source::CurrentSpElx => 1,
            Source::LowerAArch64 => 2,
            Source::LowerAArch32 => 3,
        }
    }

    /// The number that the exception vectors pass for this source.
    #[verifier::when_used_as_spec(spec_code)]
    pub fn code(self) -> (code: u16)
        ensures
            code == self.spec_code(),
    {
        match self {
            Source::CurrentSpEl0 => 0,
            Source::CurrentSpElx => 1,
            Source::LowerAArch64 => 2,
            Source::LowerAArch32 => 3,
        }
    }

    /// The source that `code` stands for, if it stands for one.
    pub fn from_code(code: u16) -> (source: Option<Source>)
        ensures
            source is Some <==> code < 4,
            source matches Some(s) ==> s.code() == code,
    {
        if code == 0 {
            Some(Source::CurrentSpEl0)
        } else if code == 1 {
            Some(Source::CurrentSpElx)
        } else if code == 2 {
            Some(Source::LowerAArch64)
        } else if code == 3 {
            Some(Source::LowerAArch32)
        } else {
            None
        }
    }
}

/// A kind or a source is the only one with its number.
pub proof fn lemma_codes_tell_apart(a: Kind, b: Kind, c: Source, d: Source)
    ensures
        a.code() == b.code() ==> a == b,
        c.code() == d.code() ==> c == d,
{
}

/// The source and the kind of an exception.
#[derive(Debug, PartialEq, Eq, Copy, Clone, Structural)]
pub struct Info {
    source: Source,
    kind: Kind,
}

impl Info {
    /// The source of the exception.
    pub closed spec fn spec_source(&self) -> Source {
        self.source
    }

    /// The kind of the exception.
    pub closed spec fn spec_kind(&self) -> Kind {
        self.kind
    }

    /// Describes an exception of kind `kind` taken from `source`.
    pub fn new(source: Source, kind: Kind) -> (info: Info)
        ensures
            info.source() == source,
            info.kind() == kind,
    {
        Info { source, kind }
    }

    /// Describes the exception whose source and kind the exception vectors
    /// pass as the numbers `source` and `kind`, if both stand for one.
    pub fn from_codes(source: u16, kind: u16) -> (info: Option<Info>)
        ensures
            info is Some <==> source < 4 && kind < 4,
            info matches Some(i) ==> i.source().code() == source && i.kind().code() == kind,
    {
        match (Source::from_code(source), Kind::from_code(kind)) {
            (Some(source), Some(kind)) => Some(Info { source, kind }),
            _ => None,
        }
    }

    /// The source of the exception.
    #[verifier::when_used_as_spec(spec_source)]
    pub fn source(&self) -> (source: Source)
        ensures
            source == self.spec_source(),
    {
        self.source
    }

    /// The kind of the exception.
    #[verifier::when_used_as_spec(spec_kind)]
    pub fn kind(&self) -> (kind: Kind)
        ensures
            kind == self.spec_kind(),
    {
        self.kind
    }
}

/// The interrupt sources that the dispatcher knows.
#[derive(Debug, PartialEq, Eq, Copy, Clone, Structural)]
pub enum Interrupt {
    Timer1,
    Timer3,
    Usb,
    Gpio0,
    Gpio1,
    Gpio2,
    Gpio3,
    Uart,
}

impl Interrupt {
    /// The place of this source in the polling order, from 0.
    pub open spec fn rank(self) -> int {
        match self {
            Interrupt::Timer1 => 0,
            Interrupt::Timer3 => 1,
            Interrupt::Usb => 2,
            Interrupt::Gpio0 => 3,
            Interrupt::Gpio1 => 4,
            Interrupt::Gpio2 => 5,
            Interrupt::Gpio3 => 6,
            Interrupt::Uart => 7,
        }
    }
}

/// The interrupt sources in the order in which the dispatcher asks them.
pub open spec fn polling_order() -> Seq<Interrupt> {
    seq![
        Interrupt::Timer1,
        Interrupt::Timer3,
        Interrupt::Usb,
        Interrupt::Gpio0,
        Interrupt::Gpio1,
        Interrupt::Gpio2,
        Interrupt::Gpio3,
        Interrupt::Uart,
    ]
}

/// What the interrupt controller reports: for each source, whether it has an
/// interrupt pending.
#[derive(Debug, PartialEq, Eq, Copy, Clone, Structural)]
pub struct Pending {
    pub timer1: bool,
    pub timer3: bool,
    pub usb: bool,
    pub gpio0: bool,
    pub gpio1: bool,
    pub gpio2: bool,
    pub gpio3: bool,
    pub uart: bool,
}

impl Pending {
    /// Holds when `interrupt` is pending.
    pub open spec fn has(&self, interrupt: Interrupt) -> bool {
        match interrupt {
            Interrupt::Timer1 => self.timer1,
            Interrupt::Timer3 => self.timer3,
            Interrupt::Usb => self.usb,
            Interrupt::Gpio0 => self.gpio0,
            Interrupt::Gpio1 => self.gpio1,
            Interrupt::Gpio2 => self.gpio2,
            Interrupt::Gpio3 => self.gpio3,
            Interrupt::Uart => self.uart,
        }
    }

    /// The question that the dispatcher asks of each source.
    pub open spec fn asked(&self) -> spec_fn(Interrupt) -> bool {
        |interrupt: Interrupt| self.has(interrupt)
    }

    /// The pending sources among the first `k` of the polling order, in that
    /// order.
    pub open spec fn served_among(&self, k: int) -> Seq<Interrupt> {
        polling_order().subrange(0, k).filter(self.asked())
    }

    /// The pending sources, in polling order.
    pub open spec fn served(&self) -> Seq<Interrupt> {
        polling_order().filter(self.asked())
    }

    /// Among the first `k` sources of the polling order, those that are
    /// served are those that are pending, each once and in polling order.
    pub proof fn lemma_served_among(&self, k: int)
        requires
            0 <= k <= 8,
        ensures
            forall|j: int|
                0 <= j < self.served_among(k).len() ==> self.has(
                    #[trigger] self.served_among(k)[j],
                ) && self.served_among(k)[j].rank() < k,
            forall|a: int, b: int|
                #![trigger self.served_among(k)[a], self.served_among(k)[b]]
                0 <= a < b < self.served_among(k).len() ==> self.served_among(k)[a].rank()
                    < self.served_among(k)[b].rank(),
            forall|interrupt: Interrupt|
                self.has(interrupt) && interrupt.rank() < k ==> #[trigger] self.served_among(
                    k,
                ).contains(interrupt),
        decreases k,
    {
        reveal_with_fuel(Seq::filter, 1);
        if k > 0 {
            let asked = polling_order().subrange(0, k);
            let before = self.served_among(k - 1);
            let now = self.served_among(k);
            self.lemma_served_among(k - 1);
            assert(asked.drop_last() =~= polling_order().subrange(0, k - 1));
            assert(asked.last() == polling_order()[k - 1]);
            assert(polling_order()[k - 1].rank() == k - 1);
            assert forall|interrupt: Interrupt| interrupt.rank() == k - 1 implies
                interrupt == asked.last() by {
                assert(polling_order()[interrupt.rank()] == interrupt);
            }
            if self.has(asked.last()) {
                assert(now == before.push(asked.last()));
                assert forall|interrupt: Interrupt|
                    self.has(interrupt) && interrupt.rank() < k implies #[trigger] now.contains(
                    interrupt,
                ) by {
                    if interrupt.rank() < k - 1 {
                        assert(before.contains(interrupt));
                        let j = choose|j: int| 0 <= j < before.len() && before[j] == interrupt;
                        assert(now[j] == interrupt);
                    } else {
                        assert(now[before.len() as int] == interrupt);
                    }
                }
            } else {
                assert(now == before);
                assert forall|interrupt: Interrupt|
                    self.has(interrupt) && interrupt.rank() < k implies #[trigger] now.contains(
                    interrupt,
                ) by {
                    assert(before.contains(interrupt));
                }
            }
        }
    }

    /// The source `interrupt` alone if it is pending, and nothing if not.
    pub open spec fn one(&self, interrupt: Interrupt) -> Seq<Interrupt> {
        if self.has(interrupt) {
            seq![interrupt]
        } else {
            Seq::empty()
        }
    }

    /// Asking one more source adds it to those that are served if it is
    /// pending.
    pub proof fn lemma_served_next(&self, k: int)
        requires
            0 <= k < 8,
        ensures
            self.served_among(k + 1) == self.served_among(k) + self.one(polling_order()[k]),
    {
        reveal_with_fuel(Seq::filter, 1);
        let asked = polling_order().subrange(0, k + 1);
        assert(asked.drop_last() =~= polling_order().subrange(0, k));
        assert(asked.last() == polling_order()[k]);
        assert(self.served_among(k + 1) =~= self.served_among(k) + self.one(polling_order()[k]));
    }

    /// Each source of the polling order in its place, if it is pending.
    pub open spec fn written_out(&self) -> Seq<Interrupt> {
        self.one(Interrupt::Timer1) + self.one(Interrupt::Timer3) + self.one(Interrupt::Usb)
            + self.one(Interrupt::Gpio0) + self.one(Interrupt::Gpio1) + self.one(Interrupt::Gpio2)
            + self.one(Interrupt::Gpio3) + self.one(Interrupt::Uart)
    }

    /// The sources that are served are, written out, each source of the
    /// polling order in its place, if it is pending.
    pub proof fn lemma_served_written_out(&self)
        ensures
            self.served() == self.written_out(),
    {
        reveal_with_fuel(Seq::filter, 1);
        assert(polling_order().subrange(0, 0) =~= Seq::<Interrupt>::empty());
        assert(self.served_among(0) =~= Seq::<Interrupt>::empty());
        self.lemma_served_next(0);
        self.lemma_served_next(1);
        self.lemma_served_next(2);
        self.lemma_served_next(3);
        self.lemma_served_next(4);
        self.lemma_served_next(5);
        self.lemma_served_next(6);
        self.lemma_served_next(7);
        assert(polling_order().subrange(0, 8) =~= polling_order());
        assert(self.served_among(1) =~= self.one(Interrupt::Timer1));
    }

    /// The sources that are served are those that are pending, each once and
    /// in polling order; a pending timer is served first.
    pub proof fn lemma_served(&self)
        ensures
            forall|interrupt: Interrupt|
                #[trigger] self.served().contains(interrupt) <==> self.has(interrupt),
            forall|a: int, b: int|
                #![trigger self.served()[a], self.served()[b]]
                0 <= a < b < self.served().len() ==> self.served()[a].rank()
                    < self.served()[b].rank(),
            self.has(Interrupt::Timer1) ==> self.served().len() > 0 && self.served()[0]
                == Interrupt::Timer1,
    {
        self.lemma_served_among(8);
        assert(polling_order().subrange(0, 8) =~= polling_order());
        assert(self.served_among(8) == self.served());
        let served = self.served();
        assert forall|interrupt: Interrupt| #[trigger]
            served.contains(interrupt) implies self.has(interrupt) by {
            let j = choose|j: int| 0 <= j < served.len() && served[j] == interrupt;
            assert(self.has(served[j]));
        }
        if self.has(Interrupt::Timer1) {
            assert(served.contains(Interrupt::Timer1));
            let j = choose|j: int| 0 <= j < served.len() && served[j] == Interrupt::Timer1;
            if j > 0 {
                assert(served[0].rank() < served[j].rank());
            }
        }
    }

    /// Returns `true` if `interrupt` is pending.
    pub fn is_pending(&self, interrupt: Interrupt) -> (pending: bool)
        ensures
            pending == self.has(interrupt),
    {
        match interrupt {
            Interrupt::Timer1 => self.timer1,
            Interrupt::Timer3 => self.timer3,
            Interrupt::Usb => self.usb,
            Interrupt::Gpio0 => self.gpio0,
            Interrupt::Gpio1 => self.gpio1,
            Interrupt::Gpio2 => self.gpio2,
            Interrupt::Gpio3 => self.gpio3,
            Interrupt::Uart => self.uart,
        }
    }

    /// Asks the sources in polling order and returns those that are pending,
    /// in that order.
    pub fn sources(&self) -> (sources: Vec<Interrupt>)
        ensures
            sources@ == self.served(),
            sources@ == self.written_out(),
            forall|interrupt: Interrupt|
                #[trigger] sources@.contains(interrupt) <==> self.has(interrupt),
            forall|a: int, b: int|
                #![trigger sources@[a], sources@[b]]
                0 <= a < b < sources@.len() ==> sources@[a].rank() < sources@[b].rank(),
    {
        let order = [
            Interrupt::Timer1,
            Interrupt::Timer3,
            Interrupt::Usb,
            Interrupt::Gpio0,
            Interrupt::Gpio1,
            Interrupt::Gpio2,
            Interrupt::Gpio3,
            Interrupt::Uart,
        ];
        let mut sources: Vec<Interrupt> = Vec::new();
        let mut k: usize = 0;
        assert(order@ =~= polling_order());
        proof {
            reveal_with_fuel(Seq::filter, 1);
        }
        while k < 8
            invariant
                k <= 8,
                order@ == polling_order(),
                sources@ == self.served_among(k as int),
            decreases 8 - k,
        {
            proof {
                let asked = polling_order().subrange(0, k + 1);
                assert(asked.drop_last() =~= polling_order().subrange(0, k as int));
                assert(asked.last() == order[k as int]);
                reveal_with_fuel(Seq::filter, 1);
            }
            if self.is_pending(order[k]) {
                sources.push(order[k]);
            }
            k += 1;
        }
        proof {
            assert(polling_order().subrange(0, 8) =~= polling_order());
            self.lemma_served();
            self.lemma_served_written_out();
        }
        sources
    }
}

/// Where the dispatcher sends an exception.
#[derive(Debug, PartialEq, Eq, Copy, Clone, Structural)]
pub enum Route {
    /// A breakpoint with this immediate: it is passed.
    Breakpoint(u16),
    /// To the system call handler, with the call's number.
    Syscall(u16),
    /// An instruction abort: it is noted.
    InstructionAbort { kind: Fault, level: u8 },
    /// To the page fault handler.
    PageFault { kind: Fault, level: u8 },
    /// To the handlers of the interrupt sources that are pending.
    Interrupts,
    /// To the low-power wait loop: the exception cannot be handled.
    Halt,
}

/// The route of an exception described by `info`, with the syndrome
/// `syndrome`.
///
/// A synchronous exception goes by its syndrome, an unknown one to the halt.
/// An interrupt request goes to the handlers of the pending sources. Every
/// other kind goes to the halt.
pub open spec fn route_of(info: Info, syndrome: Syndrome) -> Route {
    match info.kind() {
        Kind::Synchronous => match syndrome {
            Syndrome::Brk(number) => Route::Breakpoint(number),
            Syndrome::Svc(number) => Route::Syscall(number),
            Syndrome::InstructionAbort { kind, level } => Route::InstructionAbort { kind, level },
            Syndrome::DataAbort { kind, level } => Route::PageFault { kind, level },
            Syndrome::Other(_) => Route::Halt,
        },
        Kind::Irq => Route::Interrupts,
        Kind::Fiq => Route::Halt,
        Kind::SError => Route::Halt,
    }
}

/// Finds the route of an exception.
pub fn route(info: Info, syndrome: Syndrome) -> (route: Route)
    ensures
        route == route_of(info, syndrome),
{
    match info.kind() {
        Kind::Synchronous => match syndrome {
            Syndrome::Brk(number) => Route::Breakpoint(number),
            Syndrome::Svc(number) => Route::Syscall(number),
            Syndrome::InstructionAbort { kind, level } => Route::InstructionAbort { kind, level },
            Syndrome::DataAbort { kind, level } => Route::PageFault { kind, level },
            Syndrome::Other(_) => Route::Halt,
        },
        Kind::Irq => Route::Interrupts,
        Kind::Fiq => Route::Halt,
        Kind::SError => Route::Halt,
    }
}

/// A view of the heap allocator: the kernel's own, or that of the user
/// process on whose behalf the kernel runs.
#[derive(Debug, PartialEq, Eq, Copy, Clone, Structural)]
pub enum HeapView {
    Backup,
    User,
}

/// The heap allocator, as far as the dispatcher deals with it: which of its
/// views is active.
pub struct Heap {
    view: HeapView,
}

/// Stands for one exception being handled. It remembers the view that was
/// active when the exception was taken, and is given up to restore it.
#[must_use]
pub struct ViewGuard {
    entered_from: HeapView,
}

impl ViewGuard {
    /// The view that giving up this guard restores.
    pub closed spec fn restores(&self) -> HeapView {
        self.entered_from
    }
}

impl Heap {
    /// The active view.
    pub closed spec fn spec_view(&self) -> HeapView {
        self.view
    }

    /// The heap while an exception is handled: the user view is active.
    pub closed spec fn entered(self) -> Heap {
        Heap { view: HeapView::User }
    }

    /// The guard that is handed out when an exception is taken with the heap
    /// as it is: it restores the view that is active now.
    pub closed spec fn guard(self) -> ViewGuard {
        ViewGuard { entered_from: self.view }
    }

    /// The heap after `guard` was given up: the view that the guard restores
    /// is active.
    pub closed spec fn left(self, guard: ViewGuard) -> Heap {
        Heap { view: guard.entered_from }
    }

    /// The heap as the kernel boots with it: its own view is active.
    pub fn new() -> (heap: Heap)
        ensures
            heap.view() == HeapView::Backup,
    {
        Heap { view: HeapView::Backup }
    }

    /// The active view.
    #[verifier::when_used_as_spec(spec_view)]
    pub fn view(&self) -> (view: HeapView)
        ensures
            view == self.spec_view(),
    {
        self.view
    }

    /// Makes the user view active, and returns the guard that restores the
    /// view that was active before.
    pub fn enter(&mut self) -> (guard: ViewGuard)
        ensures
            *final(self) == old(self).entered(),
            guard == old(self).guard(),
            final(self).view() == HeapView::User,
            guard.restores() == old(self).view(),
    {
        let guard = ViewGuard { entered_from: self.view };
        self.view = HeapView::User;
        guard
    }

    /// Ends the handling of an exception: the view that was active when it
    /// was taken is active again.
    pub fn leave(&mut self, guard: ViewGuard)
        ensures
            *final(self) == old(self).left(guard),
            final(self).view() == guard.restores(),
    {
        self.view = guard.entered_from;
    }

    /// Taking an exception and leaving it again keeps the heap's view: the
    /// view that is active afterwards is the one that was active when the
    /// exception was taken, whichever that was, and whatever exceptions were
    /// taken and left while it was handled and made `during` of the heap.
    pub proof fn lemma_view_restored(self, during: Heap)
        ensures
            self.entered().view() == HeapView::User,
            self.entered().left(self.guard()) == self,
            during.left(self.guard()).view() == self.view(),
    {
    }
}

/// The trap frame after a breakpoint was passed: execution resumes at the
/// instruction that follows it.
pub open spec fn stepped_over(frame: TrapFrame) -> TrapFrame {
    TrapFrame { elr: (frame.elr + 4) as u64, ..frame }
}

/// What handling an exception did and what it left for the caller to do.
pub struct Handled {
    /// Where the exception went.
    pub route: Route,
    /// On an interrupt request, the sources that were pending, in polling
    /// order: the handler of each is due, in this order. The timer's has run.
    pub sources: Vec<Interrupt>,
    /// Where the timer was pending, what its handler did: the ID of the
    /// process it put on the CPU, and the time after which the timer is to
    /// fire again.
    pub timer: Option<(Option<Id>, u32)>,
}

/// Holds when an exception has the timer's handler run: it is an interrupt
/// request, and the timer is among the pending sources.
pub open spec fn preempts(info: Info, pending: Pending) -> bool {
    info.kind() is Irq && pending.has(Interrupt::Timer1)
}

/// The sources whose handlers an exception has dispatched, in the order in
/// which they are: on an interrupt request the pending ones in polling
/// order, else none.
pub open spec fn dispatched(info: Info, pending: Pending) -> Seq<Interrupt> {
    if info.kind() is Irq {
        pending.served()
    } else {
        Seq::empty()
    }
}

/// This function is called when an exception occurs. `info` specifies the
/// source and kind of the exception, `esr` is the value of the exception
/// syndrome register, `pending` what the interrupt controller reports, and
/// `tf` the trap frame of the exception.
///
/// The user view of the heap is active while the exception is handled, and
/// the view that was active before is active again when this function
/// returns, on every route. A breakpoint is passed: `tf` resumes behind it.
/// On an interrupt request every pending source is named, in polling order;
/// the timer's handler, the first of them, runs here: it preempts the
/// current process, which stays ready. The handlers that are not part of
/// this library are the caller's to run, as the result says: for a system
/// call, for a page fault, and for each pending source but the timer. The
/// caller runs each between `Heap::enter` and `Heap::leave`, which give it
/// the user view and restore the view after it.
pub fn handle_exception<P: EventPoll>(
    info: Info,
    esr: u32,
    pending: &Pending,
    tf: &mut TrapFrame,
    heap: &mut Heap,
    scheduler: &mut GlobalScheduler<P>,
) -> (handled: Handled)
    requires
        route_of(info, Syndrome::decoded(esr)) is Breakpoint ==> old(tf).elr + 4 <= u64::MAX,
        preempts(info, *pending) ==> old(scheduler).is_initialized(),
    ensures
        handled.route == route_of(info, Syndrome::decoded(esr)),
        handled.sources@ == dispatched(info, *pending),
        preempts(info, *pending) ==> handled.sources@.len() > 0 && handled.sources@[0]
            == Interrupt::Timer1,
        *final(heap) == *old(heap),
        final(heap).view() == old(heap).view(),
        if preempts(info, *pending) {
            &&& final(scheduler).is_initialized()
            &&& handled.timer matches Some(served)
            &&& served.1 == TICK
            &&& old(scheduler)@->0.switches(
                State::Ready,
                *old(tf),
                final(scheduler)@->0,
                *final(tf),
                served.0,
            )
            &&& served.0 is None <==> old(scheduler)@->0.queue.len() == 0
            &&& old(scheduler)@->0.wf() && polls_keep_ids::<P>() && (old(scheduler)@->0.queue.len()
                > 0 ==> old(tf).tpidr == old(scheduler)@->0.queue[0].id())
                ==> final(scheduler)@->0.wf()
        } else {
            &&& handled.timer is None
            &&& *final(scheduler) == *old(scheduler)
            &&& *final(tf) == if handled.route is Breakpoint {
                stepped_over(*old(tf))
            } else {
                *old(tf)
            }
        },
{
    let guard = heap.enter();
    let route = route(info, Syndrome::from_esr(esr));
    let mut sources: Vec<Interrupt> = Vec::new();
    let mut timer: Option<(Option<Id>, u32)> = None;
    match route {
        Route::Breakpoint(_) => {
            tf.elr += 4;
        },
        Route::Interrupts => {
            sources = pending.sources();
            if pending.is_pending(Interrupt::Timer1) {
                timer = Some(handle_timer(scheduler, tf));
            }
        },
        _ => {},
    }
    heap.leave(guard);
    proof {
        old(heap).lemma_view_restored(*old(heap));
        pending.lemma_served();
    }
    Handled { route, sources, timer }
}

} // verus!
