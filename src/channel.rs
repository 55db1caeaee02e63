//! The two delivery disciplines between a session's event loop and its
//! workers.
//!
//! `OrderedChannel` never drops an item while it is open and hands items out
//! in the order they came in. `SheddingChannel` holds a single job: while one
//! is queued or being serviced, a new one is refused rather than queued.
//! Closing either channel discards what is pending, and its worker then
//! stops.

use vstd::prelude::*;
use std::collections::VecDeque;

verus! {

/// What a worker does next.
#[derive(Debug, PartialEq, Eq)]
pub enum WorkerStep<T> {
    /// Handle this item.
    Run(T),
    /// Nothing is pending: wait for the next item.
    Wait,
    /// The channel is closed: exit.
    Stop,
}

/// The value of an `OrderedChannel`.
pub struct OrderedModel<T> {
    pub items: Seq<T>,
    pub closed: bool,
}

/// An unbounded first-in first-out channel.
pub struct OrderedChannel<T> {
    items: VecDeque<T>,
    closed: bool,
}

impl<T> View for OrderedChannel<T> {
    type V = OrderedModel<T>;

    closed spec fn view(&self) -> OrderedModel<T> {
        OrderedModel { items: self.items@, closed: self.closed }
    }
}

/// An open channel with nothing pending.
pub open spec fn ordered_empty<T>() -> OrderedModel<T> {
    OrderedModel { items: Seq::empty(), closed: false }
}

/// Pushing `x`: whether it was taken, and the channel after.
pub open spec fn ordered_push<T>(m: OrderedModel<T>, x: T) -> (bool, OrderedModel<T>) {
    if m.closed {
        (false, m)
    } else {
        (true, OrderedModel { items: m.items.push(x), closed: false })
    }
}

/// The worker's next step, and the channel after.
pub open spec fn ordered_pop<T>(m: OrderedModel<T>) -> (WorkerStep<T>, OrderedModel<T>) {
    if m.closed {
        (WorkerStep::Stop, m)
    } else if m.items.len() == 0 {
        (WorkerStep::Wait, m)
    } else {
        (WorkerStep::Run(m.items[0]), OrderedModel { items: m.items.drop_first(), closed: false })
    }
}

/// The channel after pushing each of `xs` in turn.
pub open spec fn ordered_push_all<T>(m: OrderedModel<T>, xs: Seq<T>) -> OrderedModel<T>
    decreases xs.len(),
{
    if xs.len() == 0 {
        m
    } else {
        ordered_push_all(ordered_push(m, xs[0]).1, xs.drop_first())
    }
}

/// The items that the worker handles, in order, until it has to wait or stop.
pub open spec fn ordered_drain<T>(m: OrderedModel<T>) -> Seq<T>
    decreases m.items.len(),
{
    match ordered_pop(m).0 {
        WorkerStep::Run(x) => seq![x] + ordered_drain(ordered_pop(m).1),
        _ => Seq::empty(),
    }
}

proof fn lemma_push_all_appends<T>(m: OrderedModel<T>, xs: Seq<T>)
    requires
        !m.closed,
    ensures
        ordered_push_all(m, xs) == (OrderedModel { items: m.items + xs, closed: false }),
    decreases xs.len(),
{
    if xs.len() == 0 {
        assert(m.items + xs =~= m.items);
    } else {
        let m1 = ordered_push(m, xs[0]).1;
        lemma_push_all_appends(m1, xs.drop_first());
        assert(m1.items + xs.drop_first() =~= m.items + xs);
    }
}

proof fn lemma_drain_open<T>(m: OrderedModel<T>)
    requires
        !m.closed,
    ensures
        ordered_drain(m) == m.items,
    decreases m.items.len(),
{
    if m.items.len() > 0 {
        lemma_drain_open(ordered_pop(m).1);
        assert(seq![m.items[0]] + m.items.drop_first() =~= m.items);
    } else {
        assert(m.items =~= Seq::<T>::empty());
    }
}

/// Items pushed into an open channel come out all, and in the order pushed.
pub proof fn lemma_ordered_fifo<T>(xs: Seq<T>)
    ensures
        ordered_drain(ordered_push_all(ordered_empty(), xs)) == xs,
{
    lemma_push_all_appends(ordered_empty(), xs);
    assert(ordered_empty::<T>().items + xs =~= xs);
    lemma_drain_open(ordered_push_all(ordered_empty(), xs));
}

impl<T> OrderedChannel<T> {
    /// An open channel with nothing pending.
    pub fn new() -> (r: Self)
        ensures
            r@ == ordered_empty::<T>(),
    {
        OrderedChannel { items: VecDeque::new(), closed: false }
    }

    /// Whether the channel has been closed.
    pub fn is_closed(&self) -> (r: bool)
        ensures
            r == self@.closed,
    {
        self.closed
    }

    /// Queues `item` at the back; a closed channel hands it back.
    pub fn push(&mut self, item: T) -> (r: Result<(), T>)
        ensures
            r is Ok == ordered_push(old(self)@, item).0,
            final(self)@ == ordered_push(old(self)@, item).1,
            r is Err ==> r == Err::<(), T>(item),
    {
        if self.closed {
            Err(item)
        } else {
            self.items.push_back(item);
            Ok(())
        }
    }

    /// Takes the oldest pending item for the worker.
    pub fn pop(&mut self) -> (r: WorkerStep<T>)
        ensures
            (r, final(self)@) == ordered_pop(old(self)@),
    {
        if self.closed {
            return WorkerStep::Stop;
        }
        match self.items.pop_front() {
            Some(x) => WorkerStep::Run(x),
            None => WorkerStep::Wait,
        }
    }

    /// Closes the channel and discards what is pending.
    pub fn close(&mut self)
        ensures
            final(self)@ == (OrderedModel::<T> { items: Seq::empty(), closed: true }),
    {
        self.items.clear();
        self.closed = true;
    }
}

/// Where the single job of a `SheddingChannel` stands.
#[derive(Debug, PartialEq, Eq)]
pub enum Slot<T> {
    /// No job: the next one is taken.
    Free,
    /// A job waits for the worker.
    Queued(T),
    /// The worker is servicing a job.
    InService,
}

/// The value of a `SheddingChannel`.
pub struct SheddingModel<T> {
    pub slot: Slot<T>,
    pub closed: bool,
}

/// A channel that holds at most one job, queued or in service.
pub struct SheddingChannel<T> {
    slot: Slot<T>,
    closed: bool,
}

impl<T> View for SheddingChannel<T> {
    type V = SheddingModel<T>;

    closed spec fn view(&self) -> SheddingModel<T> {
        SheddingModel { slot: self.slot, closed: self.closed }
    }
}

/// An open channel with no job.
pub open spec fn shedding_empty<T>() -> SheddingModel<T> {
    SheddingModel { slot: Slot::Free, closed: false }
}

/// Offering job `x`: whether it was taken, and the channel after.
pub open spec fn shedding_push<T>(m: SheddingModel<T>, x: T) -> (bool, SheddingModel<T>) {
    if !m.closed && m.slot is Free {
        (true, SheddingModel { slot: Slot::Queued(x), closed: false })
    } else {
        (false, m)
    }
}

/// The worker's next step, and the channel after.
pub open spec fn shedding_take<T>(m: SheddingModel<T>) -> (WorkerStep<T>, SheddingModel<T>) {
    if m.closed {
        (WorkerStep::Stop, m)
    } else {
        match m.slot {
            Slot::Queued(x) => (
                WorkerStep::Run(x),
                SheddingModel { slot: Slot::InService, closed: false },
            ),
            _ => (WorkerStep::Wait, m),
        }
    }
}

/// The channel after the worker has finished its job.
pub open spec fn shedding_finish<T>(m: SheddingModel<T>) -> SheddingModel<T> {
    if m.slot is InService {
        SheddingModel { slot: Slot::Free, closed: m.closed }
    } else {
        m
    }
}

/// While job `a` waits, a second job `b` is refused and leaves the channel
/// as it was, and `a` is the job that the worker takes next.
pub proof fn lemma_shedding_keeps_first<T>(m: SheddingModel<T>, a: T, b: T)
    requires
        shedding_push(m, a).0,
    ensures
        !shedding_push(shedding_push(m, a).1, b).0,
        shedding_push(shedding_push(m, a).1, b).1 == shedding_push(m, a).1,
        shedding_take(shedding_push(shedding_push(m, a).1, b).1).0 == WorkerStep::Run(a),
{
}

impl<T> SheddingChannel<T> {
    /// An open channel with no job.
    pub fn new() -> (r: Self)
        ensures
            r@ == shedding_empty::<T>(),
    {
        SheddingChannel { slot: Slot::Free, closed: false }
    }

    /// Whether the channel has been closed.
    pub fn is_closed(&self) -> (r: bool)
        ensures
            r == self@.closed,
    {
        self.closed
    }

    /// Offers a job without waiting: it is taken only when the channel is
    /// open and holds no job, else it is handed back.
    pub fn try_push(&mut self, item: T) -> (r: Result<(), T>)
        ensures
            r is Ok == shedding_push(old(self)@, item).0,
            final(self)@ == shedding_push(old(self)@, item).1,
            r is Err ==> r == Err::<(), T>(item),
    {
        if !self.closed && matches!(self.slot, Slot::Free) {
            self.slot = Slot::Queued(item);
            Ok(())
        } else {
            Err(item)
        }
    }

    /// Takes the queued job for the worker, which then holds the slot until
    /// it calls `finish`.
    pub fn take(&mut self) -> (r: WorkerStep<T>)
        ensures
            (r, final(self)@) == shedding_take(old(self)@),
    {
        if self.closed {
            return WorkerStep::Stop;
        }
        if matches!(self.slot, Slot::Queued(_)) {
            let mut slot = Slot::InService;
            std::mem::swap(&mut self.slot, &mut slot);
            match slot {
                Slot::Queued(x) => WorkerStep::Run(x),
                _ => WorkerStep::Wait,
            }
        } else {
            WorkerStep::Wait
        }
    }

    /// The worker has finished its job and frees the slot. The result says
    /// whether the channel is still open, that is whether the job's outcome
    /// may still be delivered.
    pub fn finish(&mut self) -> (r: bool)
        ensures
            r == !old(self)@.closed,
            final(self)@ == shedding_finish(old(self)@),
    {
        if matches!(self.slot, Slot::InService) {
            self.slot = Slot::Free;
        }
        !self.closed
    }

    /// Closes the channel and discards a queued job.
    pub fn close(&mut self)
        ensures
            final(self)@ == (SheddingModel::<T> { slot: Slot::Free, closed: true }),
    {
        self.slot = Slot::Free;
        self.closed = true;
    }
}

} // verus!
