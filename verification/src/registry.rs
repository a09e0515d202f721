//! The process-wide hook registry: which event queue receives the callbacks
//! of which installed hook.
//!
//! A hook id, once handed out by the OS, maps to at most one queue at any
//! time. The OS callback only looks the queue up and appends; a delivered
//! event whose hook has no entry (the OS can fire once more right after an
//! uninstall) is dropped, and the caller is told so it can report the
//! occurrence to a diagnostic sink.

use vstd::prelude::*;

use crate::event_queue::{queue_events_classified, spec_dequeue, spec_enqueue, EventQueue};
use crate::window::Window;
use crate::window_event::{lemma_classify_total, classify, spec_classify, WinEvent, WinEventType};

verus! {

/// One installed hook: its OS-assigned id and the queue that receives its
/// callbacks. It exists from the moment the hook is installed until the
/// owning listener is torn down.
#[derive(Debug)]
pub struct HookRegistration {
    pub hook_id: isize,
    pub queue: EventQueue,
}

/// What became of one delivered OS callback.
#[derive(Clone, Copy, Debug, PartialEq, Eq, Structural)]
pub enum DeliverOutcome {
    /// The event was classified and appended to the hook's queue.
    Delivered,
    /// The event code is outside the classification table; dropped before
    /// reaching any queue.
    DroppedUnknown,
    /// No queue is registered for the hook id; the event is dropped and the
    /// occurrence should be reported to a diagnostic sink.
    DroppedNoQueue,
}

/// The registry's mathematical content: later entries shadow earlier ones,
/// though under `wf` the ids are unique and nothing is shadowed.
pub open spec fn entries_map(s: Seq<HookRegistration>) -> Map<isize, Seq<WinEvent>>
    decreases s.len(),
{
    if s.len() == 0 {
        Map::empty()
    } else {
        entries_map(s.drop_last()).insert(s.last().hook_id, s.last().queue@)
    }
}

/// True when no hook id occurs twice in the entry list.
pub open spec fn unique_hook_ids(s: Seq<HookRegistration>) -> bool {
    forall|i: int, j: int| 0 <= i < j < s.len() ==> s[i].hook_id != s[j].hook_id
}

/// True when some entry carries the id.
pub open spec fn ids_contain(s: Seq<HookRegistration>, hook_id: isize) -> bool {
    exists|i: int| 0 <= i < s.len() && s[i].hook_id == hook_id
}

/// The hook-to-queue table. Its view is a map from hook id to the sequence
/// of events waiting in that hook's queue, oldest first.
#[derive(Debug)]
pub struct HookRegistry {
    entries: Vec<HookRegistration>,
}

impl View for HookRegistry {
    type V = Map<isize, Seq<WinEvent>>;

    closed spec fn view(&self) -> Map<isize, Seq<WinEvent>> {
        entries_map(self.entries@)
    }
}

proof fn lemma_entries_map_dom(s: Seq<HookRegistration>)
    ensures
        forall|id: isize| #[trigger] entries_map(s).dom().contains(id) <==> ids_contain(s, id),
    decreases s.len(),
{
    if s.len() > 0 {
        let t = s.drop_last();
        lemma_entries_map_dom(t);
        assert forall|id: isize| ids_contain(s, id) implies #[trigger] entries_map(
            s,
        ).dom().contains(id) by {
            let i = choose|i: int| 0 <= i < s.len() && s[i].hook_id == id;
            if i == s.len() - 1 {
                assert(s.last().hook_id == id);
            } else {
                assert(t[i] == s[i]);
                assert(ids_contain(t, id));
                assert(entries_map(t).dom().contains(id));
            }
        }
        assert forall|id: isize| #[trigger] entries_map(s).dom().contains(id) implies ids_contain(
            s,
            id,
        ) by {
            if id == s.last().hook_id {
                assert(s[s.len() - 1].hook_id == id);
            } else {
                assert(entries_map(t).dom().contains(id));
                assert(ids_contain(t, id));
                let i = choose|i: int| 0 <= i < t.len() && t[i].hook_id == id;
                assert(s[i].hook_id == id);
            }
        }
    }
}

proof fn lemma_remove_keeps_unique(s: Seq<HookRegistration>, i: int)
    requires
        unique_hook_ids(s),
        0 <= i < s.len(),
    ensures
        unique_hook_ids(s.remove(i)),
{
    let t = s.remove(i);
    assert forall|p: int, q: int| 0 <= p < q < t.len() implies t[p].hook_id != t[q].hook_id by {
        assert(t[p] == (if p < i {
            s[p]
        } else {
            s[p + 1]
        }));
        assert(t[q] == (if q < i {
            s[q]
        } else {
            s[q + 1]
        }));
    }
}

proof fn lemma_push_keeps_unique(s: Seq<HookRegistration>, e: HookRegistration)
    requires
        unique_hook_ids(s),
        !ids_contain(s, e.hook_id),
    ensures
        unique_hook_ids(s.push(e)),
{
    let t = s.push(e);
    assert forall|p: int, q: int| 0 <= p < q < t.len() implies t[p].hook_id != t[q].hook_id by {
        if q == s.len() {
            assert(t[p] == s[p]);
            assert(t[q] == e);
            assert(s[p].hook_id != e.hook_id);
        } else {
            assert(t[p] == s[p]);
            assert(t[q] == s[q]);
        }
    }
}

proof fn lemma_entries_map_get(s: Seq<HookRegistration>, i: int)
    requires
        unique_hook_ids(s),
        0 <= i < s.len(),
    ensures
        entries_map(s).dom().contains(s[i].hook_id),
        entries_map(s)[s[i].hook_id] == s[i].queue@,
    decreases s.len(),
{
    lemma_entries_map_dom(s);
    if i < s.len() - 1 {
        assert(s.drop_last()[i] == s[i]);
        assert(unique_hook_ids(s.drop_last())) by {
            assert(forall|p: int, q: int|
                0 <= p < q < s.drop_last().len() ==> s.drop_last()[p] == s[p] && s.drop_last()[q]
                    == s[q]);
        }
        lemma_entries_map_get(s.drop_last(), i);
        assert(s[i].hook_id != s.last().hook_id);
    }
}

proof fn lemma_entries_map_remove(s: Seq<HookRegistration>, i: int)
    requires
        unique_hook_ids(s),
        0 <= i < s.len(),
    ensures
        entries_map(s.remove(i)) == entries_map(s).remove(s[i].hook_id),
    decreases s.len(),
{
    lemma_entries_map_dom(s);
    lemma_entries_map_dom(s.remove(i));
    if i == s.len() - 1 {
        assert(s.remove(i) =~= s.drop_last());
        assert(!ids_contain(s.drop_last(), s[i].hook_id)) by {
            assert(forall|p: int|
                0 <= p < s.drop_last().len() ==> s.drop_last()[p] == s[p] && s[p].hook_id
                    != s[i].hook_id);
        }
        lemma_entries_map_dom(s.drop_last());
        assert(entries_map(s.drop_last()) =~= entries_map(s).remove(s[i].hook_id));
    } else {
        let t = s.remove(i);
        assert(t.drop_last() =~= s.drop_last().remove(i));
        assert(t.last() == s.last());
        assert(unique_hook_ids(s.drop_last())) by {
            assert(forall|p: int, q: int|
                0 <= p < q < s.drop_last().len() ==> s.drop_last()[p] == s[p] && s.drop_last()[q]
                    == s[q]);
        }
        lemma_entries_map_remove(s.drop_last(), i);
        assert(s.drop_last()[i] == s[i]);
        assert(entries_map(t) =~= entries_map(s).remove(s[i].hook_id)) by {
            assert(entries_map(t) == entries_map(s.drop_last()).remove(s[i].hook_id).insert(
                s.last().hook_id,
                s.last().queue@,
            ));
            assert(s[i].hook_id != s.last().hook_id);
        }
    }
}

impl HookRegistry {
    /// Well-formed: ids are unique, and every queued event carries a real
    /// classified kind (never `Unknown`, never the synthetic key `All`).
    pub closed spec fn wf(self) -> bool {
        unique_hook_ids(self.entries@) && forall|i: int|
            0 <= i < self.entries@.len() ==> queue_events_classified(
                #[trigger] self.entries@[i].queue@,
            )
    }

    /// Every queue a well-formed registry holds contains only classified
    /// events: kind never `Unknown` and never `All`.
    pub proof fn lemma_queues_classified(self)
        requires
            self.wf(),
        ensures
            forall|id: isize| #[trigger] self@.dom().contains(id) ==> queue_events_classified(self@[id]),
    {
        lemma_entries_map_dom(self.entries@);
        assert forall|id: isize| #[trigger] self@.dom().contains(id) implies queue_events_classified(
            self@[id],
        ) by {
            let i = choose|i: int|
                0 <= i < self.entries@.len() && self.entries@[i].hook_id == id;
            lemma_entries_map_get(self.entries@, i);
        }
    }

    pub fn new() -> (r: HookRegistry)
        ensures
            r@ == Map::<isize, Seq<WinEvent>>::empty(),
            r.wf(),
    {
        HookRegistry { entries: Vec::new() }
    }

    /// Index of the entry carrying the id, if any.
    fn position_of(&self, hook_id: isize) -> (r: Option<usize>)
        ensures
            match r {
                Some(i) => i < self.entries@.len() && self.entries@[i as int].hook_id == hook_id,
                None => !ids_contain(self.entries@, hook_id),
            },
    {
        let n = self.entries.len();
        let mut i: usize = 0;
        while i < n
            invariant
                i <= n,
                n == self.entries@.len(),
                forall|j: int| 0 <= j < i ==> self.entries@[j].hook_id != hook_id,
            decreases n - i,
        {
            if self.entries[i].hook_id == hook_id {
                return Some(i);
            }
            i = i + 1;
        }
        None
    }

    /// Is some queue registered for the id?
    pub fn contains(&self, hook_id: isize) -> (r: bool)
        requires
            self.wf(),
        ensures
            r == self@.dom().contains(hook_id),
    {
        proof {
            lemma_entries_map_dom(self.entries@);
        }
        self.position_of(hook_id).is_some()
    }

    /// Put the queue in the table under the id. An existing entry for the
    /// same id is silently overwritten: last write wins. (Under correct use
    /// this never happens, since the OS assigns each installed hook a fresh
    /// id.)
    pub fn register(&mut self, hook_id: isize, queue: EventQueue)
        requires
            old(self).wf(),
            queue_events_classified(queue@),
        ensures
            final(self).wf(),
            final(self)@ == old(self)@.insert(hook_id, queue@),
    {
        self.unregister(hook_id);
        let ghost pre = self.entries@;
        proof {
            lemma_entries_map_dom(pre);
            assert(!entries_map(pre).dom().contains(hook_id));
        }
        let entry = HookRegistration { hook_id, queue };
        let ghost ge = entry;
        self.entries.push(entry);
        proof {
            lemma_push_keeps_unique(pre, ge);
            assert(self.entries@.drop_last() =~= pre);
            assert(self@ =~= old(self)@.insert(hook_id, ge.queue@));
            assert forall|i: int| 0 <= i < self.entries@.len() implies queue_events_classified(
                #[trigger] self.entries@[i].queue@,
            ) by {
                if i < self.entries@.len() - 1 {
                    assert(self.entries@[i] == pre[i]);
                } else {
                    assert(self.entries@[i] == ge);
                }
            }
        }
    }

    /// Take the id's entry out of the table, if it has one. Called when a
    /// listener is torn down, after the OS-level hook has been uninstalled.
    pub fn unregister(&mut self, hook_id: isize)
        requires
            old(self).wf(),
        ensures
            final(self).wf(),
            final(self)@ == old(self)@.remove(hook_id),
    {
        proof {
            lemma_entries_map_dom(self.entries@);
        }
        match self.position_of(hook_id) {
            None => {
                proof {
                    assert(self@ =~= old(self)@.remove(hook_id));
                }
            },
            Some(i) => {
                let ghost pre = self.entries@;
                let _ = self.entries.remove(i);
                proof {
                    lemma_entries_map_remove(pre, i as int);
                    lemma_remove_keeps_unique(pre, i as int);
                    assert forall|p: int|
                        0 <= p < self.entries@.len() implies queue_events_classified(
                        #[trigger] self.entries@[p].queue@,
                    ) by {
                        assert(self.entries@[p] == (if p < i {
                            pre[p]
                        } else {
                            pre[p + 1]
                        }));
                    }
                }
            },
        }
    }

    /// The queue registered for the id, if any. Used by the OS callback
    /// trampoline to find where to enqueue; it never blocks and never calls
    /// back out.
    pub fn lookup(&self, hook_id: isize) -> (r: Option<&EventQueue>)
        requires
            self.wf(),
        ensures
            match r {
                Some(q) => self@.dom().contains(hook_id) && q@ == self@[hook_id],
                None => !self@.dom().contains(hook_id),
            },
    {
        proof {
            lemma_entries_map_dom(self.entries@);
        }
        match self.position_of(hook_id) {
            None => None,
            Some(i) => {
                proof {
                    lemma_entries_map_get(self.entries@, i as int);
                }
                Some(&self.entries[i].queue)
            },
        }
    }

    /// The whole delivery step an OS hook callback performs: classify the
    /// raw code, drop `Unknown` events before they reach any queue, look the
    /// hook's queue up, and append the event. The outcome says which of the
    /// three happened; a missing queue is dropped, not an error.
    pub fn deliver(
        &mut self,
        hook_id: isize,
        event: u32,
        window: Window,
        id_object: i32,
        id_child: i32,
        id_thread: u32,
    ) -> (r: DeliverOutcome)
        requires
            old(self).wf(),
        ensures
            final(self).wf(),
            ({
                let e = WinEvent {
                    etype: spec_classify(event),
                    window,
                    hook_handle: hook_id,
                    raw_event: event,
                    raw_id_child: id_child,
                    raw_id_object: id_object,
                    raw_id_thread: id_thread,
                };
                if spec_classify(event) == WinEventType::Unknown {
                    r == DeliverOutcome::DroppedUnknown && final(self)@ == old(self)@
                } else if !old(self)@.dom().contains(hook_id) {
                    r == DeliverOutcome::DroppedNoQueue && final(self)@ == old(self)@
                } else {
                    r == DeliverOutcome::Delivered && final(self)@ == old(self)@.insert(
                        hook_id,
                        spec_enqueue(old(self)@[hook_id], e),
                    )
                }
            }),
    {
        let etype = classify(event);
        if matches!(etype, WinEventType::Unknown) {
            return DeliverOutcome::DroppedUnknown;
        }
        proof {
            lemma_entries_map_dom(self.entries@);
        }
        match self.position_of(hook_id) {
            None => DeliverOutcome::DroppedNoQueue,
            Some(i) => {
                let ghost pre = self.entries@;
                let mut entry = self.entries.remove(i);
                let e = WinEvent {
                    etype,
                    window,
                    hook_handle: hook_id,
                    raw_event: event,
                    raw_id_child: id_child,
                    raw_id_object: id_object,
                    raw_id_thread: id_thread,
                };
                entry.queue.enqueue(e);
                let ghost mid = self.entries@;
                proof {
                    lemma_classify_total(event);
                    lemma_entries_map_get(pre, i as int);
                    lemma_entries_map_remove(pre, i as int);
                    lemma_remove_keeps_unique(pre, i as int);
                    lemma_entries_map_dom(mid);
                    assert(!entries_map(mid).dom().contains(hook_id));
                }
                let ghost ge = entry;
                self.entries.push(entry);
                proof {
                    lemma_push_keeps_unique(mid, ge);
                    assert(self.entries@.drop_last() =~= mid);
                    assert(ge.queue@ == spec_enqueue(old(self)@[hook_id], e));
                    assert(self@ =~= old(self)@.insert(
                        hook_id,
                        spec_enqueue(old(self)@[hook_id], e),
                    ));
                    assert(queue_events_classified(ge.queue@)) by {
                        assert forall|k: int|
                            0 <= k < ge.queue@.len() implies ge.queue@[k].etype
                            != WinEventType::Unknown && ge.queue@[k].etype != WinEventType::All by {
                            if k < ge.queue@.len() - 1 {
                                assert(ge.queue@[k] == pre[i as int].queue@[k]);
                            } else {
                                assert(ge.queue@[k] == e);
                            }
                        }
                    }
                    assert forall|p: int|
                        0 <= p < self.entries@.len() implies queue_events_classified(
                        #[trigger] self.entries@[p].queue@,
                    ) by {
                        if p < self.entries@.len() - 1 {
                            assert(self.entries@[p] == mid[p]);
                            assert(mid[p] == (if p < i {
                                pre[p]
                            } else {
                                pre[p + 1]
                            }));
                        } else {
                            assert(self.entries@[p] == ge);
                        }
                    }
                }
                DeliverOutcome::Delivered
            },
        }
    }

    /// Take the oldest event off the queue registered for the id. `None`
    /// when the id has no queue or its queue is empty; never blocks. What
    /// comes out always carries a real classified kind: `Unknown` events
    /// never entered, and no event carries the synthetic key `All`.
    pub fn dequeue_event(&mut self, hook_id: isize) -> (r: Option<WinEvent>)
        requires
            old(self).wf(),
        ensures
            final(self).wf(),
            if !old(self)@.dom().contains(hook_id) {
                r == None::<WinEvent> && final(self)@ == old(self)@
            } else {
                r == spec_dequeue(old(self)@[hook_id]).0 && final(self)@ == old(self)@.insert(
                    hook_id,
                    spec_dequeue(old(self)@[hook_id]).1,
                )
            },
            r matches Some(e) ==> e.etype != WinEventType::Unknown && e.etype != WinEventType::All,
    {
        proof {
            lemma_entries_map_dom(self.entries@);
        }
        match self.position_of(hook_id) {
            None => None,
            Some(i) => {
                let ghost pre = self.entries@;
                let mut entry = self.entries.remove(i);
                let r = entry.queue.dequeue();
                proof {
                    let pq = pre[i as int].queue@;
                    if pq.len() > 0 {
                        assert(pq[0].etype != WinEventType::Unknown && pq[0].etype
                            != WinEventType::All);
                    }
                }
                let ghost mid = self.entries@;
                proof {
                    lemma_entries_map_get(pre, i as int);
                    lemma_entries_map_remove(pre, i as int);
                    lemma_remove_keeps_unique(pre, i as int);
                    lemma_entries_map_dom(mid);
                    assert(!entries_map(mid).dom().contains(hook_id));
                }
                let ghost ge = entry;
                self.entries.push(entry);
                proof {
                    lemma_push_keeps_unique(mid, ge);
                    assert(self.entries@.drop_last() =~= mid);
                    assert(ge.queue@ == spec_dequeue(old(self)@[hook_id]).1);
                    assert(self@ =~= old(self)@.insert(
                        hook_id,
                        spec_dequeue(old(self)@[hook_id]).1,
                    ));
                    assert(queue_events_classified(ge.queue@)) by {
                        assert forall|k: int|
                            0 <= k < ge.queue@.len() implies ge.queue@[k].etype
                            != WinEventType::Unknown && ge.queue@[k].etype != WinEventType::All by {
                            if pre[i as int].queue@.len() > 0 {
                                assert(ge.queue@[k] == pre[i as int].queue@[k + 1]);
                            }
                        }
                    }
                    assert forall|p: int|
                        0 <= p < self.entries@.len() implies queue_events_classified(
                        #[trigger] self.entries@[p].queue@,
                    ) by {
                        if p < self.entries@.len() - 1 {
                            assert(self.entries@[p] == mid[p]);
                            assert(mid[p] == (if p < i {
                                pre[p]
                            } else {
                                pre[p + 1]
                            }));
                        } else {
                            assert(self.entries@[p] == ge);
                        }
                    }
                }
                r
            },
        }
    }
}

/// Registry exclusivity: registering a second queue under an id already
/// taken silently overwrites, so a lookup afterwards answers the queue of
/// the later registration. This records the table's current last-write-wins
/// behaviour; correct use never reaches it, because the OS assigns fresh
/// hook ids.
pub proof fn lemma_register_last_wins(
    m: Map<isize, Seq<WinEvent>>,
    hook_id: isize,
    q1: Seq<WinEvent>,
    q2: Seq<WinEvent>,
)
    ensures
        m.insert(hook_id, q1).insert(hook_id, q2).dom().contains(hook_id),
        m.insert(hook_id, q1).insert(hook_id, q2)[hook_id] == q2,
{
}

} // verus!
