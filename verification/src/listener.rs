//! Listeners: one hook registration, one event queue, and an ordered table
//! of handlers per event kind.
//!
//! A listener filters the events drained from its queue to a target window
//! (or lets everything through when the target is the wildcard) and fans
//! each accepted event out to its handlers: first the handlers registered
//! under the event's own kind, in registration order, then the handlers
//! registered under `All`, in registration order.
//!
//! Handlers are named by caller-chosen tokens. The code that runs the
//! message loop keeps the map from token to callback and invokes the
//! callbacks in exactly the order this module computes; invocation always
//! happens on the loop thread, never in the OS callback context.

use vstd::prelude::*;

use crate::event_queue::{spec_dequeue, EventQueue};
use crate::registry::HookRegistry;
use crate::window::Window;
use crate::window_event::{WinEvent, WinEventType};

verus! {

/// The handler tokens registered under the kind `k`, in registration order.
pub open spec fn ids_for(s: Seq<(WinEventType, u64)>, k: WinEventType) -> Seq<u64>
    decreases s.len(),
{
    if s.len() == 0 {
        Seq::empty()
    } else {
        let prefix = ids_for(s.drop_last(), k);
        if s.last().0 == k {
            prefix.push(s.last().1)
        } else {
            prefix
        }
    }
}

/// Listens for window events concerning one target window, or every window
/// when the target is the wildcard.
#[derive(Debug)]
pub struct WinEventListener {
    /// The target window events are filtered to.
    pub w: Window,
    /// Identifier of the installed OS hook; `0` until `register_hook` runs.
    pub hook: isize,
    /// Whether the hook has been installed and registered. Teardown on a
    /// listener that never started must not uninstall anything.
    pub started: bool,
    /// Handler registrations in order: the kind subscribed to and the
    /// caller's token for the handler.
    pub handlers: Vec<(WinEventType, u64)>,
}

impl Window {
    /// A fresh listener targeting this window. No OS interaction happens
    /// here.
    pub fn listen(&self) -> (l: WinEventListener)
        ensures
            l.w == *self,
            l.hook == 0,
            !l.started,
            l.handlers@ == Seq::<(WinEventType, u64)>::empty(),
    {
        WinEventListener::new(*self)
    }
}

impl WinEventListener {
    /// Does the listener let this event through to its handlers? Yes when
    /// the target is the wildcard or the event's window is the target.
    pub open spec fn spec_accepts(self, e: WinEvent) -> bool {
        self.w.spec_is_wildcard() || e.window.hwnd == self.w.hwnd
    }

    /// The handler tokens to invoke for the event, in order: none when the
    /// event is filtered out; otherwise the handlers of the event's own kind
    /// first, then the handlers registered under `All`.
    pub open spec fn spec_dispatch(self, e: WinEvent) -> Seq<u64> {
        if self.spec_accepts(e) {
            ids_for(self.handlers@, e.etype) + ids_for(self.handlers@, WinEventType::All)
        } else {
            Seq::empty()
        }
    }

    /// A fresh listener for the target window. No OS interaction happens
    /// here.
    pub fn new(w: Window) -> (l: WinEventListener)
        ensures
            l.w == w,
            l.hook == 0,
            !l.started,
            l.handlers@ == Seq::<(WinEventType, u64)>::empty(),
    {
        WinEventListener { w, hook: 0, started: false, handlers: Vec::new() }
    }

    /// Append a handler for the kind. Handlers under one kind run in the
    /// order they were registered; a handler under `All` runs for every
    /// classified event, after the kind-specific handlers. Chainable.
    pub fn on(&mut self, typ: WinEventType, handler: u64) -> (r: &mut WinEventListener)
        ensures
            on_appends_handler(*old(self), *r, typ, handler),
            *final(self) == *final(r),
    {
        self.handlers.push((typ, handler));
        self
    }

    /// Record the freshly installed OS hook: remember its id, mark the
    /// listener started, and register an empty queue for it so deliveries
    /// can find their way here. Starting twice is a logic error, excluded
    /// outright. A hook id of `0` means installation failed and must abort
    /// instead of reaching this point.
    pub fn register_hook(&mut self, hook_id: isize, registry: &mut HookRegistry)
        requires
            !old(self).started,
            hook_id != 0,
            old(registry).wf(),
        ensures
            final(registry).wf(),
            final(registry)@ == old(registry)@.insert(hook_id, Seq::<WinEvent>::empty()),
            *final(self) == (WinEventListener { hook: hook_id, started: true, ..*old(self) }),
    {
        self.hook = hook_id;
        self.started = true;
        registry.register(hook_id, EventQueue::new());
    }

    /// The handler tokens to invoke for one event, in invocation order.
    pub fn dispatch_plan(&self, e: &WinEvent) -> (ids: Vec<u64>)
        ensures
            ids@ == self.spec_dispatch(*e),
    {
        if !(self.w.is_wildcard() || e.window == self.w) {
            return Vec::new();
        }
        let mut ids = collect_ids(&self.handlers, e.etype);
        let mut more = collect_ids(&self.handlers, WinEventType::All);
        ids.append(&mut more);
        ids
    }

    /// One step of the message loop's work: take the oldest event off this
    /// listener's queue, if any, and say which handlers to invoke for it, in
    /// order. The token list is empty when the event is filtered out. Never
    /// blocks; `None` means nothing was pending.
    pub fn drain_one(&self, registry: &mut HookRegistry) -> (r: Option<(WinEvent, Vec<u64>)>)
        requires
            old(registry).wf(),
        ensures
            final(registry).wf(),
            !old(registry)@.dom().contains(self.hook) ==> r == None::<(WinEvent, Vec<u64>)>
                && final(registry)@ == old(registry)@,
            old(registry)@.dom().contains(self.hook) ==> {
                let q = old(registry)@[self.hook];
                final(registry)@ == old(registry)@.insert(self.hook, spec_dequeue(q).1) && match r {
                    None => spec_dequeue(q).0 == None::<WinEvent>,
                    Some((e, ids)) => spec_dequeue(q).0 == Some(e) && ids@ == self.spec_dispatch(e),
                }
            },
            r matches Some((e, ids)) ==> e.etype != WinEventType::Unknown && e.etype
                != WinEventType::All,
    {
        match registry.dequeue_event(self.hook) {
            None => None,
            Some(e) => {
                let ids = self.dispatch_plan(&e);
                Some((e, ids))
            },
        }
    }

    /// The teardown decision: on a started listener, stop it, take its queue
    /// out of the registry, and answer the hook id the caller must now
    /// uninstall from the OS. On a listener that never started, change
    /// nothing and answer `None`: no hook-uninstall call is owed.
    pub fn teardown(&mut self, registry: &mut HookRegistry) -> (r: Option<isize>)
        requires
            old(registry).wf(),
        ensures
            final(registry).wf(),
            !old(self).started ==> r == None::<isize> && final(registry)@ == old(registry)@
                && *final(self) == *old(self),
            old(self).started ==> r == Some(old(self).hook) && final(registry)@ == old(
                registry,
            )@.remove(old(self).hook) && *final(self) == (WinEventListener {
                started: false,
                ..*old(self)
            }),
    {
        if !self.started {
            return None;
        }
        self.started = false;
        registry.unregister(self.hook);
        Some(self.hook)
    }
}

/// Field-by-field description of what `on` appends; the window, hook and
/// started state stay as they were.
pub open spec fn on_appends_handler(
    pre: WinEventListener,
    post: WinEventListener,
    typ: WinEventType,
    handler: u64,
) -> bool {
    post.w == pre.w && post.hook == pre.hook && post.started == pre.started && post.handlers@
        == pre.handlers@.push((typ, handler))
}

/// The tokens registered under `k`, in registration order.
fn collect_ids(handlers: &Vec<(WinEventType, u64)>, k: WinEventType) -> (ids: Vec<u64>)
    ensures
        ids@ == ids_for(handlers@, k),
{
    let n = handlers.len();
    let mut ids: Vec<u64> = Vec::new();
    let mut i: usize = 0;
    while i < n
        invariant
            i <= n,
            n == handlers@.len(),
            ids@ == ids_for(handlers@.take(i as int), k),
        decreases n - i,
    {
        proof {
            assert(handlers@.take(i + 1 as int).drop_last() =~= handlers@.take(i as int));
            assert(handlers@.take(i + 1 as int).last() == handlers@[i as int]);
        }
        let (hk, token) = handlers[i];
        if hk == k {
            ids.push(token);
        }
        i = i + 1;
    }
    proof {
        assert(handlers@.take(n as int) =~= handlers@);
    }
    ids
}

/// Dispatch filtering: a listener with a real (non-wildcard) target computes
/// an empty invocation plan for every event tagged with any other window, so
/// only the target's events reach handlers. Events are drained one at a time
/// in FIFO order, so the accepted events keep their original relative order.
pub proof fn lemma_dispatch_filtering(l: WinEventListener, e: WinEvent)
    requires
        !l.w.spec_is_wildcard(),
        e.window.hwnd != l.w.hwnd,
    ensures
        l.spec_dispatch(e) == Seq::<u64>::empty(),
{
}

/// Handler ordering: with `h1` then `h2` registered under one kind and `h3`
/// under `All`, an accepted event of that kind invokes exactly `h1, h2, h3`,
/// in that order, once each.
pub proof fn lemma_handler_order(
    l: WinEventListener,
    e: WinEvent,
    k: WinEventType,
    h1: u64,
    h2: u64,
    h3: u64,
)
    requires
        l.handlers@ == seq![(k, h1), (k, h2), (WinEventType::All, h3)],
        l.spec_accepts(e),
        e.etype == k,
        k != WinEventType::All,
    ensures
        l.spec_dispatch(e) == seq![h1, h2, h3],
{
    reveal_with_fuel(ids_for, 5);
    let s = l.handlers@;
    assert(s.drop_last() =~= seq![(k, h1), (k, h2)]);
    assert(s.drop_last().drop_last() =~= seq![(k, h1)]);
    assert(s.drop_last().drop_last().drop_last() =~= Seq::<(WinEventType, u64)>::empty());
    assert(ids_for(s, k) =~= seq![h1, h2]);
    assert(ids_for(s, WinEventType::All) =~= seq![h3]);
    assert(l.spec_dispatch(e) =~= seq![h1, h2, h3]);
}

} // verus!
