//! Window-event notification and directional window attachment.
//!
//! The crate models the core of a desktop window tracker: a classifier that
//! turns raw OS window-event codes into semantic event kinds, a process-wide
//! registry that routes hook callbacks to per-listener FIFO queues, a
//! listener that filters queued events to a target window and fans them out
//! to registered handlers in order, and an attachment engine that keeps a
//! dependent window's rectangle anchored to a target window's rectangle.
//!
//! Everything that touches the operating system (installing hooks, pumping
//! messages, reading and writing window rectangles) stays outside this
//! crate; the functions here take those values as plain arguments and are
//! verified for every value the OS could hand back.

pub mod error;
pub mod rect;
pub mod window;
pub mod event_queue;
pub mod listener;
pub mod registry;
pub mod window_attach;
pub mod window_event;

use vstd::prelude::*;

verus! {

/// Smallest window-event code a hook subscribes to.
pub const EVENT_RANGE_MIN: u32 = 0x0000_0001;

/// Largest window-event code a hook subscribes to.
pub const EVENT_RANGE_MAX: u32 = 0x7fff_ffff;

} // verus!
