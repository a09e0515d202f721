//! The per-listener event queue: a first-in-first-out buffer of window
//! events. The OS hook callback appends at the back; the listener's message
//! loop drains from the front, so events leave in the order they arrived.

use vstd::prelude::*;

use crate::window_event::{WinEvent, WinEventType};

verus! {

/// A FIFO queue of window events. Its view is the sequence of queued events,
/// oldest first.
#[derive(Debug)]
pub struct EventQueue {
    items: Vec<WinEvent>,
}

impl View for EventQueue {
    type V = Seq<WinEvent>;

    closed spec fn view(&self) -> Seq<WinEvent> {
        self.items@
    }
}

/// What enqueuing does to the queue's contents: the event joins at the back.
pub open spec fn spec_enqueue(q: Seq<WinEvent>, e: WinEvent) -> Seq<WinEvent> {
    q.push(e)
}

/// What dequeuing returns and leaves behind: the oldest event comes out
/// first, and the rest keep their order.
pub open spec fn spec_dequeue(q: Seq<WinEvent>) -> (Option<WinEvent>, Seq<WinEvent>) {
    if q.len() == 0 {
        (None, q)
    } else {
        (Some(q[0]), q.drop_first())
    }
}

/// A queue is well formed when every event in it was classified into a real
/// kind: never `Unknown` (those are dropped before enqueue) and never the
/// synthetic registration key `All`.
pub open spec fn queue_events_classified(q: Seq<WinEvent>) -> bool {
    forall|i: int|
        0 <= i < q.len() ==> q[i].etype != WinEventType::Unknown && q[i].etype != WinEventType::All
}

impl EventQueue {
    pub fn new() -> (q: EventQueue)
        ensures
            q@ == Seq::<WinEvent>::empty(),
    {
        EventQueue { items: Vec::new() }
    }

    pub fn len(&self) -> (n: usize)
        ensures
            n == self@.len(),
    {
        self.items.len()
    }

    pub fn is_empty(&self) -> (r: bool)
        ensures
            r == (self@.len() == 0),
    {
        self.items.len() == 0
    }

    /// Append an event at the back of the queue.
    pub fn enqueue(&mut self, e: WinEvent)
        ensures
            final(self)@ == spec_enqueue(old(self)@, e),
    {
        self.items.push(e);
    }

    /// Take the oldest event off the front of the queue, if any. Never
    /// blocks: an empty queue answers `None` and stays empty.
    pub fn dequeue(&mut self) -> (r: Option<WinEvent>)
        ensures
            r == spec_dequeue(old(self)@).0,
            final(self)@ == spec_dequeue(old(self)@).1,
    {
        if self.items.len() == 0 {
            None
        } else {
            Some(self.items.remove(0))
        }
    }
}

/// FIFO order: events enqueued as `e1`, `e2`, `e3` into an empty queue are
/// dequeued in exactly that order by a consumer draining the queue.
pub proof fn lemma_queue_fifo(e1: WinEvent, e2: WinEvent, e3: WinEvent)
    ensures
        ({
            let q3 = spec_enqueue(
                spec_enqueue(spec_enqueue(Seq::<WinEvent>::empty(), e1), e2),
                e3,
            );
            let (r1, q4) = spec_dequeue(q3);
            let (r2, q5) = spec_dequeue(q4);
            let (r3, q6) = spec_dequeue(q5);
            r1 == Some(e1) && r2 == Some(e2) && r3 == Some(e3) && q6.len() == 0
        }),
{
}

} // verus!
