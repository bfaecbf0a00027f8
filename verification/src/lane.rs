//! Fixed-capacity work lanes between the native input callback and its
//! workers: first in, first out, never growing past their capacity.
use vstd::prelude::*;

use crate::input::{ActionId, ConfigGeneration, Point, SessionId, TargetToken, TriggerButton};

verus! {

pub const ACTION_CAPACITY: usize = 16;

pub const RENDER_CAPACITY: usize = 64;

/// A bounded first-in first-out ring of `N` slots.
pub struct FixedLane<T: Copy, const N: usize> {
    items: Vec<Option<T>>,
    head: usize,
    len: usize,
}

impl<T: Copy, const N: usize> FixedLane<T, N> {
    /// The queued items, oldest first.
    pub closed spec fn contents(&self) -> Seq<T> {
        Seq::new(self.len as nat, |i: int| self.items@[(self.head + i) % (N as int)].unwrap())
    }

    pub closed spec fn wf(&self) -> bool {
        &&& 0 < N <= usize::MAX / 2
        &&& self.items@.len() == N
        &&& self.head < N
        &&& self.len <= N
        &&& forall|i: int| 0 <= i < self.len ==> (#[trigger] self.items@[(self.head + i) % (
            N as int)]) is Some
    }

    /// An empty lane.
    pub fn new() -> (lane: Self)
        requires
            0 < N <= usize::MAX / 2,
        ensures
            lane.wf(),
            lane.contents() == Seq::<T>::empty(),
    {
        let mut items: Vec<Option<T>> = Vec::new();
        while items.len() < N
            invariant
                items@.len() <= N,
            decreases N - items@.len(),
        {
            items.push(None);
        }
        let lane = FixedLane { items, head: 0, len: 0 };
        assert(lane.contents() =~= Seq::<T>::empty());
        lane
    }

    /// Number of free slots.
    pub fn free(&self) -> (r: usize)
        requires
            self.wf(),
        ensures
            r == N - self.contents().len(),
    {
        N - self.len
    }

    pub fn len(&self) -> (r: usize)
        requires
            self.wf(),
        ensures
            r == self.contents().len(),
    {
        self.len
    }

    /// Appends `item` unless the lane is full; whether it was appended.
    pub fn push(&mut self, item: T) -> (inserted: bool)
        requires
            old(self).wf(),
        ensures
            final(self).wf(),
            inserted == (old(self).contents().len() < N),
            inserted ==> final(self).contents() == old(self).contents().push(item),
            !inserted ==> final(self).contents() == old(self).contents(),
    {
        if self.len == N {
            return false;
        }
        let tail = (self.head + self.len) % N;
        let ghost before = self.contents();
        self.items.set(tail, Some(item));
        self.len = self.len + 1;
        proof {
            let h = self.head as int;
            let n = N as int;
            assert forall|i: int| 0 <= i < self.len implies (#[trigger] self.items@[(h + i) % n])
                is Some by {
                if i < self.len - 1 {
                    assert((h + i) % n != (h + self.len - 1) % n) by (nonlinear_arith)
                        requires
                            0 <= i < self.len - 1,
                            self.len <= n,
                            0 <= h < n,
                    ;
                }
            }
            assert forall|i: int| 0 <= i < before.len() implies #[trigger] self.contents()[i]
                == before[i] by {
                assert((h + i) % n != (h + self.len - 1) % n) by (nonlinear_arith)
                    requires
                        0 <= i < self.len - 1,
                        self.len <= n,
                        0 <= h < n,
                ;
            }
            assert(self.contents() =~= before.push(item));
        }
        true
    }

    /// Removes and returns the oldest item, if any.
    pub fn pop(&mut self) -> (r: Option<T>)
        requires
            old(self).wf(),
        ensures
            final(self).wf(),
            old(self).contents().len() == 0 ==> (r is None) && final(self).contents() == old(self).contents(),
            old(self).contents().len() > 0 ==> r == Some(old(self).contents()[0]) && final(self).contents() == old(self).contents().drop_first(),
    {
        if self.len == 0 {
            return None;
        }
        let ghost before = self.contents();
        let item = self.items[self.head];
        self.items.set(self.head, None);
        let old_head = self.head;
        self.head = (self.head + 1) % N;
        self.len = self.len - 1;
        proof {
            let h = old_head as int;
            let n = N as int;
            assert((h + 0) % n == h) by (nonlinear_arith)
                requires
                    0 <= h < n,
            ;
            assert forall|i: int| 0 <= i < self.len implies (#[trigger] self.items@[(
                self.head + i) % n]) is Some && (self.head + i) % n == (h + 1 + i) % n && (h
                + 1 + i) % n != h by {
                assert((self.head + i) % n == (h + 1 + i) % n && (h + 1 + i) % n != h)
                    by (nonlinear_arith)
                    requires
                        self.head == (h + 1) % n,
                        0 <= i < self.len,
                        self.len + 1 <= n,
                        0 <= h < n,
                ;
                assert(before.len() == self.len + 1);
                assert(self.items@[(h + (i + 1)) % n] == old(self).items@[(h + (i + 1)) % n]);
            }
            assert forall|i: int| 0 <= i < self.len implies #[trigger] self.contents()[i]
                == before.drop_first()[i] by {
                assert((self.head + i) % n == (h + 1 + i) % n && (h + 1 + i) % n != h)
                    by (nonlinear_arith)
                    requires
                        self.head == (h + 1) % n,
                        0 <= i < self.len,
                        self.len + 1 <= n,
                        0 <= h < n,
                ;
            }
            assert(self.contents() =~= before.drop_first());
        }
        item
    }
}

/// Whether a capacity reservation could be made.
#[derive(Clone, Copy, Debug, PartialEq, Eq, Structural)]
pub enum Reservation {
    Reserved,
    CapacityExhausted,
}

pub fn reservation(available: bool) -> (r: Reservation)
    ensures
        r == if available {
            Reservation::Reserved
        } else {
            Reservation::CapacityExhausted
        },
{
    if available {
        Reservation::Reserved
    } else {
        Reservation::CapacityExhausted
    }
}

/// Work for the action worker.
#[derive(Clone, Copy, Debug, PartialEq, Eq, Structural)]
pub enum ActionWork {
    Activate { session: SessionId, target: TargetToken },
    Dispatch { session: SessionId, generation: ConfigGeneration, action: ActionId, repeat: u16 },
    Replay { session: SessionId, trigger: TriggerButton, down_at: Point, up_at: Point },
}

/// Work for the overlay renderer.
#[derive(Clone, Copy, Debug, PartialEq, Eq, Structural)]
pub enum RenderWork {
    Start { session: SessionId, generation: ConfigGeneration },
    Point { session: SessionId, point: Point },
    Label { session: SessionId, action: Option<ActionId> },
    End { session: SessionId },
}

/// The renderer lane: lossy for pointer and label updates, but a started
/// rendering session always has room for its terminal `End`.
pub struct RenderLane {
    queue: FixedLane<RenderWork, RENDER_CAPACITY>,
    terminal_reserved: bool,
}

impl RenderLane {
    pub closed spec fn terminal_reserved_spec(&self) -> bool {
        self.terminal_reserved
    }

    /// The queued work, oldest first.
    pub closed spec fn queued(&self) -> Seq<RenderWork> {
        self.queue.contents()
    }

    /// While a session is open, one slot stays free for its `End`.
    pub closed spec fn wf(&self) -> bool {
        &&& self.queue.wf()
        &&& self.terminal_reserved ==> self.queue.contents().len() < RENDER_CAPACITY
    }

    pub fn new() -> (lane: Self)
        ensures
            lane.wf(),
            !lane.terminal_reserved_spec(),
            lane.queued() == Seq::<RenderWork>::empty(),
    {
        RenderLane { queue: FixedLane::new(), terminal_reserved: false }
    }

    /// A session may start when none is open and its start and end fit.
    pub fn can_start(&self) -> (r: bool)
        requires
            self.wf(),
        ensures
            r == (!self.terminal_reserved_spec() && RENDER_CAPACITY - self.queued().len()
                >= 2),
    {
        !self.terminal_reserved && self.queue.free() >= 2
    }

    /// Queues the start of a session and reserves the slot for its end.
    pub fn start(&mut self, work: RenderWork)
        requires
            old(self).wf(),
            !old(self).terminal_reserved_spec(),
            RENDER_CAPACITY - old(self).queued().len() >= 2,
        ensures
            final(self).wf(),
            final(self).terminal_reserved_spec(),
            final(self).queued() == old(self).queued().push(work),
    {
        self.terminal_reserved = true;
        let inserted = self.queue.push(work);
    }

    /// Queues an update if a slot beyond the reserved one is free; else drops it.
    pub fn lossy(&mut self, work: RenderWork)
        requires
            old(self).wf(),
        ensures
            final(self).wf(),
            final(self).terminal_reserved_spec() == old(self).terminal_reserved_spec(),
            ({
                let reserved: int = if old(self).terminal_reserved_spec() {
                    1
                } else {
                    0
                };
                &&& RENDER_CAPACITY - old(self).queued().len() > reserved ==> final(self).queued() == old(self).queued().push(work)
                &&& RENDER_CAPACITY - old(self).queued().len() <= reserved ==> final(self).queued() == old(self).queued()
            }),
    {
        let reserved: usize = if self.terminal_reserved {
            1
        } else {
            0
        };
        if self.queue.free() > reserved {
            self.queue.push(work);
        }
    }

    /// Queues the end of the open session, into its reserved slot.
    pub fn end(&mut self, work: RenderWork)
        requires
            old(self).wf(),
            old(self).terminal_reserved_spec(),
        ensures
            final(self).wf(),
            !final(self).terminal_reserved_spec(),
            final(self).queued() == old(self).queued().push(work),
    {
        let inserted = self.queue.push(work);
        self.terminal_reserved = false;
    }

    /// Removes the oldest queued work.
    pub fn pop(&mut self) -> (r: Option<RenderWork>)
        requires
            old(self).wf(),
        ensures
            final(self).wf(),
            final(self).terminal_reserved_spec() == old(self).terminal_reserved_spec(),
            old(self).queued().len() == 0 ==> (r is None) && final(self).queued()
                == old(self).queued(),
            old(self).queued().len() > 0 ==> r == Some(old(self).queued()[0])
                && final(self).queued() == old(self).queued().drop_first(),
    {
        self.queue.pop()
    }
}

} // verus!
