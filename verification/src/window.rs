//! Window handles: opaque OS identifiers with cached process and thread ids.

use vstd::prelude::*;

use crate::rect::Rect;

verus! {

/// A reference to an OS window. It never owns the window: the handle is only
/// as valid as the OS says it is, and must be re-checked before use.
///
/// Two `Window` values are equal exactly when their handles are equal; the
/// cached process and thread ids do not take part in equality. The handle
/// `0` stands for no particular window and is used as the wildcard target
/// that matches every window.
#[derive(Clone, Copy, Debug)]
pub struct Window {
    /// The OS window handle.
    pub hwnd: isize,
    /// Id of the process that created the window.
    pub pid: u32,
    /// Id of the thread that created the window.
    pub tid: u32,
}

impl PartialEq for Window {
    fn eq(&self, other: &Window) -> (r: bool)
        ensures
            r == (self.hwnd == other.hwnd),
    {
        self.hwnd == other.hwnd
    }
}

impl vstd::std_specs::cmp::PartialEqSpecImpl for Window {
    open spec fn obeys_eq_spec() -> bool {
        true
    }

    open spec fn eq_spec(&self, other: &Window) -> bool {
        self.hwnd == other.hwnd
    }
}

impl Default for Window {
    /// The wildcard window: handle `0`, matching every window.
    fn default() -> (w: Window)
        ensures
            w.hwnd == 0 && w.pid == 0 && w.tid == 0,
    {
        Window { hwnd: 0, pid: 0, tid: 0 }
    }
}

impl Window {
    /// True when this value is the wildcard target rather than one window.
    pub open spec fn spec_is_wildcard(self) -> bool {
        self.hwnd == 0
    }

    pub fn new(hwnd: isize, pid: u32, tid: u32) -> (w: Window)
        ensures
            w == (Window { hwnd, pid, tid }),
    {
        Window { hwnd, pid, tid }
    }

    pub fn is_wildcard(&self) -> (r: bool)
        ensures
            r == self.spec_is_wildcard(),
    {
        self.hwnd == 0
    }
}

/// A snapshot of one window's geometry and style flags, as the OS reports it.
#[derive(Clone, Copy, Debug)]
pub struct WindowInfo {
    pub window_rect: Rect,
    pub client_rect: Rect,
    pub styles: u32,
    pub extended_styles: u32,
    pub x_borders: u32,
    pub y_borders: u32,
}

} // verus!
