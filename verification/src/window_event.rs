//! Classifying raw OS window-event codes into semantic event kinds.
//!
//! The OS reports window-lifecycle changes as numeric event codes. The
//! classifier maps each code to one of a small closed set of kinds; codes
//! outside the table map to `Unknown` and are dropped before they ever reach
//! a queue. `All` is a synthetic kind: it is only ever used as a key when
//! registering handlers that want every classified event, never as an
//! event's own kind.

use vstd::prelude::*;

use crate::window::Window;

verus! {

// The OS event codes the classifier recognizes. The values are fixed by the
// platform's window-event API and must stay bit-exact.
pub const EVENT_SYSTEM_FOREGROUND: u32 = 0x0003;

pub const EVENT_SYSTEM_MOVESIZESTART: u32 = 0x000a;

pub const EVENT_SYSTEM_MOVESIZEEND: u32 = 0x000b;

pub const EVENT_SYSTEM_MINIMIZESTART: u32 = 0x0016;

pub const EVENT_SYSTEM_MINIMIZEEND: u32 = 0x0017;

pub const EVENT_OBJECT_CREATE: u32 = 0x8000;

pub const EVENT_OBJECT_DESTROY: u32 = 0x8001;

pub const EVENT_OBJECT_SHOW: u32 = 0x8002;

pub const EVENT_OBJECT_HIDE: u32 = 0x8003;

pub const EVENT_OBJECT_FOCUS: u32 = 0x8005;

pub const EVENT_OBJECT_LOCATIONCHANGE: u32 = 0x800b;

pub const EVENT_OBJECT_CLOAKED: u32 = 0x8017;

pub const EVENT_OBJECT_UNCLOAKED: u32 = 0x8018;

/// The semantic kind of a window event.
#[derive(Clone, Copy, Debug, PartialEq, Eq, Structural, Hash)]
pub enum WinEventType {
    Destroy,
    Create,
    Show,
    Hide,
    FocusChange,
    MoveResizeStart,
    MoveResizeEnd,
    LocationChange,
    /// A code outside the classification table. Never enqueued or dispatched.
    Unknown,
    /// Handler-registration key meaning "every classified event".
    /// No event ever carries this kind itself.
    All,
}

/// The classification table: which kind a raw OS event code stands for.
pub open spec fn spec_classify(event: u32) -> WinEventType {
    if event == EVENT_OBJECT_DESTROY {
        WinEventType::Destroy
    } else if event == EVENT_OBJECT_CREATE {
        WinEventType::Create
    } else if event == EVENT_OBJECT_CLOAKED || event == EVENT_OBJECT_HIDE || event
        == EVENT_SYSTEM_MINIMIZESTART {
        WinEventType::Hide
    } else if event == EVENT_OBJECT_SHOW || event == EVENT_OBJECT_UNCLOAKED || event
        == EVENT_SYSTEM_MINIMIZEEND {
        WinEventType::Show
    } else if event == EVENT_OBJECT_FOCUS || event == EVENT_SYSTEM_FOREGROUND {
        WinEventType::FocusChange
    } else if event == EVENT_SYSTEM_MOVESIZESTART {
        WinEventType::MoveResizeStart
    } else if event == EVENT_SYSTEM_MOVESIZEEND {
        WinEventType::MoveResizeEnd
    } else if event == EVENT_OBJECT_LOCATIONCHANGE {
        WinEventType::LocationChange
    } else {
        WinEventType::Unknown
    }
}

/// Map a raw OS event code to its semantic kind. Total: every code is mapped,
/// codes outside the table to `Unknown`.
pub fn classify(event: u32) -> (kind: WinEventType)
    ensures
        kind == spec_classify(event),
{
    if event == EVENT_OBJECT_DESTROY {
        WinEventType::Destroy
    } else if event == EVENT_OBJECT_CREATE {
        WinEventType::Create
    } else if event == EVENT_OBJECT_CLOAKED || event == EVENT_OBJECT_HIDE || event
        == EVENT_SYSTEM_MINIMIZESTART {
        WinEventType::Hide
    } else if event == EVENT_OBJECT_SHOW || event == EVENT_OBJECT_UNCLOAKED || event
        == EVENT_SYSTEM_MINIMIZEEND {
        WinEventType::Show
    } else if event == EVENT_OBJECT_FOCUS || event == EVENT_SYSTEM_FOREGROUND {
        WinEventType::FocusChange
    } else if event == EVENT_SYSTEM_MOVESIZESTART {
        WinEventType::MoveResizeStart
    } else if event == EVENT_SYSTEM_MOVESIZEEND {
        WinEventType::MoveResizeEnd
    } else if event == EVENT_OBJECT_LOCATIONCHANGE {
        WinEventType::LocationChange
    } else {
        WinEventType::Unknown
    }
}

impl From<u32> for WinEventType {
    fn from(event: u32) -> (kind: WinEventType)
        ensures
            kind == spec_classify(event),
    {
        classify(event)
    }
}

impl vstd::std_specs::convert::FromSpecImpl<u32> for WinEventType {
    open spec fn obeys_from_spec() -> bool {
        true
    }

    open spec fn from_spec(event: u32) -> WinEventType {
        spec_classify(event)
    }
}

/// True when the code is in the classification table.
pub open spec fn in_classification_table(event: u32) -> bool {
    event == EVENT_OBJECT_DESTROY || event == EVENT_OBJECT_CREATE || event == EVENT_OBJECT_CLOAKED
        || event == EVENT_OBJECT_HIDE || event == EVENT_SYSTEM_MINIMIZESTART || event
        == EVENT_OBJECT_SHOW || event == EVENT_OBJECT_UNCLOAKED || event
        == EVENT_SYSTEM_MINIMIZEEND || event == EVENT_OBJECT_FOCUS || event
        == EVENT_SYSTEM_FOREGROUND || event == EVENT_SYSTEM_MOVESIZESTART || event
        == EVENT_SYSTEM_MOVESIZEEND || event == EVENT_OBJECT_LOCATIONCHANGE
}

/// Classification is total and closed: every `u32` code maps to exactly one
/// kind, a code outside the table maps to `Unknown`, a code in the table
/// never does, and no code at all maps to the synthetic key `All`.
pub proof fn lemma_classify_total(event: u32)
    ensures
        !in_classification_table(event) ==> spec_classify(event) == WinEventType::Unknown,
        in_classification_table(event) ==> spec_classify(event) != WinEventType::Unknown,
        spec_classify(event) != WinEventType::All,
{
}

/// One window event, as delivered by the OS hook: the classified kind, the
/// window it concerns, and the raw callback arguments. Immutable once built.
#[derive(Clone, Copy, Debug)]
pub struct WinEvent {
    /// The classified kind; always `spec_classify(raw_event)`.
    pub etype: WinEventType,
    /// The window the event concerns.
    pub window: Window,
    /// Identifier of the hook registration that delivered the event.
    pub hook_handle: isize,
    /// The raw OS event code.
    pub raw_event: u32,
    /// Raw child-element id from the callback.
    pub raw_id_child: i32,
    /// Raw object id from the callback; `0` means the window itself.
    pub raw_id_object: i32,
    /// Id of the thread that generated the event.
    pub raw_id_thread: u32,
}

impl WinEvent {
    /// Build an event from the raw callback arguments; the kind is the
    /// classification of the code, and the optional ids start at zero.
    pub fn new(hook_handle: isize, event: u32, window: Window) -> (e: WinEvent)
        ensures
            e == (WinEvent {
                etype: spec_classify(event),
                window,
                hook_handle,
                raw_event: event,
                raw_id_child: 0,
                raw_id_object: 0,
                raw_id_thread: 0,
            }),
    {
        WinEvent {
            etype: classify(event),
            window,
            hook_handle,
            raw_event: event,
            raw_id_child: 0,
            raw_id_object: 0,
            raw_id_thread: 0,
        }
    }
}

} // verus!
