use vstd::prelude::*;
use std::collections::VecDeque;

verus! {

/// A bounded buffer of accepted payments waiting for a worker.
///
/// Adding never waits: when the buffer holds `capacity` items the new item is
/// handed back at once and nothing already held is lost.
pub struct AdmissionQueue<T> {
    items: VecDeque<T>,
    capacity: usize,
}

impl<T> View for AdmissionQueue<T> {
    type V = Seq<T>;

    closed spec fn view(&self) -> Seq<T> {
        self.items@
    }
}

impl<T> AdmissionQueue<T> {
    pub closed spec fn capacity_spec(&self) -> nat {
        self.capacity as nat
    }

    pub open spec fn wf(&self) -> bool {
        self@.len() <= self.capacity_spec()
    }

    pub fn new(capacity: usize) -> (r: AdmissionQueue<T>)
        ensures
            r.wf(),
            r@ == Seq::<T>::empty(),
            r.capacity_spec() == capacity,
    {
        AdmissionQueue { items: VecDeque::new(), capacity }
    }

    pub fn capacity(&self) -> (r: usize)
        ensures
            r == self.capacity_spec(),
    {
        self.capacity
    }

    pub fn len(&self) -> (r: usize)
        ensures
            r == self@.len(),
    {
        self.items.len()
    }

    pub fn is_full(&self) -> (r: bool)
        ensures
            r == (self@.len() >= self.capacity_spec()),
    {
        self.items.len() >= self.capacity
    }

    /// Adds `item` at the back when there is room; otherwise returns it at
    /// once and leaves the held items as they were.
    pub fn try_enqueue(&mut self, item: T) -> (r: Result<(), T>)
        requires
            old(self).wf(),
        ensures
            final(self).wf(),
            final(self).capacity_spec() == old(self).capacity_spec(),
            old(self)@.len() < old(self).capacity_spec() ==> r is Ok && final(self)@ == old(self)@.push(item),
            old(self)@.len() >= old(self).capacity_spec() ==> r == Err::<(), T>(item) && final(self)@
                == old(self)@,
    {
        if self.items.len() >= self.capacity {
            Err(item)
        } else {
            self.items.push_back(item);
            Ok(())
        }
    }

    /// Takes the oldest item, if any.
    pub fn dequeue(&mut self) -> (r: Option<T>)
        requires
            old(self).wf(),
        ensures
            final(self).wf(),
            final(self).capacity_spec() == old(self).capacity_spec(),
            old(self)@.len() == 0 ==> r is None && final(self)@ == old(self)@,
            old(self)@.len() > 0 ==> r == Some(old(self)@[0]) && final(self)@ == old(self)@.subrange(
                1,
                old(self)@.len() as int,
            ),
    {
        self.items.pop_front()
    }
}

/// Accounting of the worker slots: how many downstream attempts are running
/// out of a fixed number allowed.
pub struct WorkerPool {
    active: usize,
    limit: usize,
}

impl View for WorkerPool {
    /// (active attempts, limit)
    type V = (nat, nat);

    closed spec fn view(&self) -> (nat, nat) {
        (self.active as nat, self.limit as nat)
    }
}

impl WorkerPool {
    /// Running attempts never outnumber the slots.
    pub open spec fn wf(&self) -> bool {
        self@.0 <= self@.1
    }

    pub fn new(limit: usize) -> (r: WorkerPool)
        ensures
            r.wf(),
            r@ == (0nat, limit as nat),
    {
        WorkerPool { active: 0, limit }
    }

    pub fn active(&self) -> (r: usize)
        ensures
            r == self@.0,
    {
        self.active
    }

    pub fn limit(&self) -> (r: usize)
        ensures
            r == self@.1,
    {
        self.limit
    }

    /// Takes a slot when one is free.
    pub fn try_acquire(&mut self) -> (r: bool)
        requires
            old(self).wf(),
        ensures
            final(self).wf(),
            r == (old(self)@.0 < old(self)@.1),
            final(self)@ == pool_event(old(self)@, PoolEvent::Acquire),
    {
        if self.active < self.limit {
            self.active = self.active + 1;
            true
        } else {
            false
        }
    }

    /// Gives back a slot when an attempt ends.
    pub fn release(&mut self)
        requires
            old(self).wf(),
            old(self)@.0 > 0,
        ensures
            final(self).wf(),
            final(self)@ == pool_event(old(self)@, PoolEvent::Release),
    {
        self.active = self.active - 1;
    }

    /// Starts the next attempt: when a slot is free and work is waiting, takes
    /// the slot and the oldest waiting item together; otherwise changes nothing.
    pub fn start_next<T>(&mut self, queue: &mut AdmissionQueue<T>) -> (r: Option<T>)
        requires
            old(self).wf(),
            old(queue).wf(),
        ensures
            final(self).wf(),
            final(queue).wf(),
            final(queue).capacity_spec() == old(queue).capacity_spec(),
            r is Some <==> (old(self)@.0 < old(self)@.1 && old(queue)@.len() > 0),
            r is Some ==> r == Some(old(queue)@[0]) && final(queue)@ == old(queue)@.subrange(
                1,
                old(queue)@.len() as int,
            ) && final(self)@ == pool_event(old(self)@, PoolEvent::Acquire),
            r is None ==> final(queue)@ == old(queue)@ && final(self)@ == old(self)@,
    {
        if self.active >= self.limit || queue.len() == 0 {
            return None;
        }
        let item = queue.dequeue();
        self.active = self.active + 1;
        item
    }
}

/// A change to the worker slots.
#[derive(Clone, Copy, Debug, PartialEq, Eq)]
pub enum PoolEvent {
    /// A worker asks for a slot.
    Acquire,
    /// A worker gives its slot back.
    Release,
}

/// Slot accounting after one event: an acquisition takes a slot only when one
/// is free, a release frees one only when one is taken.
pub open spec fn pool_event(s: (nat, nat), e: PoolEvent) -> (nat, nat) {
    match e {
        PoolEvent::Acquire => if s.0 < s.1 {
            (s.0 + 1, s.1)
        } else {
            s
        },
        PoolEvent::Release => if s.0 > 0 {
            ((s.0 - 1) as nat, s.1)
        } else {
            s
        },
    }
}

/// Slot accounting after a run of events.
pub open spec fn pool_run(s: (nat, nat), events: Seq<PoolEvent>) -> (nat, nat)
    decreases events.len(),
{
    if events.len() == 0 {
        s
    } else {
        pool_event(pool_run(s, events.drop_last()), events.last())
    }
}

/// Whatever the order in which work arrives and finishes, a pool with `limit`
/// slots never has more than `limit` attempts running.
pub proof fn lemma_pool_never_exceeds_limit(limit: nat, events: Seq<PoolEvent>)
    ensures
        pool_run((0, limit), events).0 <= limit,
        pool_run((0, limit), events).1 == limit,
    decreases events.len(),
{
    if events.len() > 0 {
        lemma_pool_never_exceeds_limit(limit, events.drop_last());
    }
}

} // verus!
