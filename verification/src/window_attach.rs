//! The attachment engine: keep a dependent window's rectangle anchored to a
//! target window's rectangle in a chosen direction, optionally matching one
//! dimension of the target's size.
//!
//! The engine is a pure computation from the two current rectangles and the
//! attachment configuration to the dependent window's next rectangle. The
//! caller reads the rectangles from the OS, asks `recompute`, and applies
//! the answer when one is given; `None` means the dependent window already
//! sits where it belongs and no OS call is owed.

use vstd::prelude::*;

use crate::rect::Rect;
use crate::window::Window;
use crate::window_event::{WinEvent, WinEventType};

verus! {

/// The eight ways a dependent window can hang off a target window's corner.
/// The first word names the side of the target the dependent sits toward;
/// the second names the corner along that side.
#[derive(Debug, Clone, Copy, PartialEq, Eq, Structural)]
pub enum AttachDirection {
    LeftTop,
    TopLeft,
    RightTop,
    TopRight,
    RightBottom,
    BottomRight,
    LeftBottom,
    BottomLeft,
}

/// Clamp a dimension into `[min, max]`; a bound of zero or below means "no
/// bound on that side". The lower bound is applied first, so when the bounds
/// cross, the upper bound wins.
pub open spec fn spec_clamp(v: i32, min: i32, max: i32) -> i32 {
    let lo = if min > 0 && v < min {
        min
    } else {
        v
    };
    if max > 0 && lo > max {
        max
    } else {
        lo
    }
}

fn clamp_dim(v: i32, min: i32, max: i32) -> (r: i32)
    ensures
        r == spec_clamp(v, min, max),
{
    let mut m = v;
    if min > 0 && m < min {
        m = min;
    }
    if max > 0 && m > max {
        m = max;
    }
    m
}

/// Which `(width, height)` the dependent window gets when size matching is
/// on: directions along the top or bottom edge copy the target's width,
/// directions along the left or right edge copy the target's height, and the
/// copied dimension is clamped into `[min, max]`.
pub open spec fn spec_match_size(
    dir: AttachDirection,
    current: (i32, i32),
    target: (i32, i32),
    min: i32,
    max: i32,
) -> (i32, i32) {
    match dir {
        AttachDirection::TopLeft | AttachDirection::TopRight | AttachDirection::BottomRight
            | AttachDirection::BottomLeft => (spec_clamp(target.0, min, max), current.1),
        AttachDirection::LeftTop | AttachDirection::LeftBottom | AttachDirection::RightTop
            | AttachDirection::RightBottom => (current.0, spec_clamp(target.1, min, max)),
    }
}

/// The dependent window's new `(x, y)` for each direction: the target corner
/// the direction names, shifted by the fixed offset, corrected by the
/// dependent's own width or height so that the dependent's matching corner
/// lands on the anchor.
pub open spec fn spec_apply(
    dir: AttachDirection,
    current: Rect,
    target: Rect,
    fixed: (i32, i32),
) -> (int, int) {
    match dir {
        AttachDirection::LeftTop => (
            target.spec_left_top().0 + fixed.0 - current.width,
            target.spec_left_top().1 + fixed.1,
        ),
        AttachDirection::TopLeft => (
            target.spec_left_top().0 + fixed.0,
            target.spec_left_top().1 + fixed.1 - current.height,
        ),
        AttachDirection::RightTop => (
            target.spec_right_top().0 + fixed.0,
            target.spec_right_top().1 + fixed.1,
        ),
        AttachDirection::TopRight => (
            target.spec_right_top().0 + fixed.0 - current.width,
            target.spec_right_top().1 + fixed.1 - current.height,
        ),
        AttachDirection::RightBottom => (
            target.spec_right_bottom().0 + fixed.0,
            target.spec_right_bottom().1 + fixed.1 - current.height,
        ),
        AttachDirection::BottomRight => (
            target.spec_right_bottom().0 + fixed.0 - current.width,
            target.spec_right_bottom().1 + fixed.1,
        ),
        AttachDirection::LeftBottom => (
            target.spec_left_bottom().0 + fixed.0 - current.width,
            target.spec_left_bottom().1 + fixed.1 - current.height,
        ),
        AttachDirection::BottomLeft => (
            target.spec_left_bottom().0 + fixed.0,
            target.spec_left_bottom().1 + fixed.1,
        ),
    }
}

/// The computed position fits the screen's coordinate type.
pub open spec fn apply_fits(
    dir: AttachDirection,
    current: Rect,
    target: Rect,
    fixed: (i32, i32),
) -> bool {
    let p = spec_apply(dir, current, target, fixed);
    i32::MIN <= p.0 <= i32::MAX && i32::MIN <= p.1 <= i32::MAX
}

impl AttachDirection {
    /// The direction implies which single dimension follows the target, so
    /// one `min`/`max` pair is enough. Bounds of zero or below mean "no
    /// bound"; the dimension the direction does not govern keeps its current
    /// value.
    pub fn match_size(self, current: (i32, i32), target: (i32, i32), min: i32, max: i32) -> (r: (
        i32,
        i32,
    ))
        ensures
            r == spec_match_size(self, current, target, min, max),
    {
        match self {
            AttachDirection::TopLeft | AttachDirection::TopRight | AttachDirection::BottomRight
                | AttachDirection::BottomLeft => (clamp_dim(target.0, min, max), current.1),
            AttachDirection::LeftTop | AttachDirection::LeftBottom | AttachDirection::RightTop
                | AttachDirection::RightBottom => (current.0, clamp_dim(target.1, min, max)),
        }
    }

    /// Like `apply`, but total: `None` when the computed position would not
    /// fit the screen's coordinate type.
    pub fn try_apply(self, current: Rect, target: Rect, fixed: (i32, i32)) -> (r: Option<
        (i32, i32),
    >)
        ensures
            match r {
                Some(p) => apply_fits(self, current, target, fixed) && (p.0 as int, p.1 as int)
                    == spec_apply(self, current, target, fixed),
                None => !apply_fits(self, current, target, fixed),
            },
    {
        let tx = target.x as i64;
        let ty = target.y as i64;
        let tw = target.width as i64;
        let th = target.height as i64;
        let w = current.width as i64;
        let h = current.height as i64;
        let fx = fixed.0 as i64;
        let fy = fixed.1 as i64;
        let (px, py): (i64, i64) = match self {
            AttachDirection::LeftTop => (tx + fx - w, ty + fy),
            AttachDirection::TopLeft => (tx + fx, ty + fy - h),
            AttachDirection::RightTop => (tx + tw + fx, ty + fy),
            AttachDirection::TopRight => (tx + tw + fx - w, ty + fy - h),
            AttachDirection::RightBottom => (tx + tw + fx, ty + th + fy - h),
            AttachDirection::BottomRight => (tx + tw + fx - w, ty + th + fy),
            AttachDirection::LeftBottom => (tx + fx - w, ty + th + fy - h),
            AttachDirection::BottomLeft => (tx + fx, ty + th + fy),
        };
        if i32::MIN as i64 <= px && px <= i32::MAX as i64 && i32::MIN as i64 <= py && py
            <= i32::MAX as i64 {
            Some((px as i32, py as i32))
        } else {
            None
        }
    }

    /// The dependent window's new top-left position: the anchor corner of
    /// the target plus the fixed offset, corrected by the dependent's size.
    pub fn apply(self, current: Rect, target: Rect, fixed: (i32, i32)) -> (p: (i32, i32))
        requires
            apply_fits(self, current, target, fixed),
        ensures
            (p.0 as int, p.1 as int) == spec_apply(self, current, target, fixed),
    {
        self.try_apply(current, target, fixed).unwrap()
    }
}

/// Does the attachment react to this event? Yes on a window-level location
/// change (`raw_id_object == 0`, the window itself rather than a child
/// element) and on the end of a move or resize.
pub open spec fn spec_recompute_trigger(e: WinEvent) -> bool {
    (e.etype == WinEventType::LocationChange && e.raw_id_object == 0) || e.etype
        == WinEventType::MoveResizeEnd
}

/// Does the attachment react to this event?
pub fn recompute_trigger(e: &WinEvent) -> (r: bool)
    ensures
        r == spec_recompute_trigger(*e),
{
    (matches!(e.etype, WinEventType::LocationChange) && e.raw_id_object == 0) || matches!(
        e.etype,
        WinEventType::MoveResizeEnd,
    )
}

/// Configuration of one attachment: the dependent window, the target it
/// tracks, the direction, optional size matching with its bounds, and a
/// fixed offset from the anchor corner. Immutable for the life of one
/// attachment session once `recompute` starts being driven by events.
#[derive(Debug, Clone, Copy)]
pub struct WindowAttach {
    /// The dependent window whose rectangle is driven.
    pub w: Window,
    /// The target window being tracked.
    pub target: Window,
    /// Which target corner the dependent hangs off.
    pub dir: AttachDirection,
    /// Whether the governed dimension follows the target's size.
    pub match_size: bool,
    /// Upper size bound; zero means unbounded above.
    pub match_size_max: u32,
    /// Lower size bound; zero means unbounded below.
    pub match_size_min: u32,
    /// Offset added to the anchor corner.
    pub fix_pos: (i32, i32),
}

impl Window {
    /// Begin configuring an attachment of this window to the target.
    pub fn attach_to(&self, target: Window) -> (a: WindowAttach)
        ensures
            a == WindowAttach::spec_default(*self, target),
    {
        WindowAttach::new(*self, target)
    }
}

impl WindowAttach {
    /// The configuration `new` starts from: direction `RightTop`, no size
    /// matching, no bounds, no offset.
    pub open spec fn spec_default(w: Window, target: Window) -> WindowAttach {
        WindowAttach {
            w,
            target,
            dir: AttachDirection::RightTop,
            match_size: false,
            match_size_max: 0,
            match_size_min: 0,
            fix_pos: (0, 0),
        }
    }

    pub fn new(w: Window, target: Window) -> (a: WindowAttach)
        ensures
            a == WindowAttach::spec_default(w, target),
    {
        WindowAttach {
            w,
            target,
            dir: AttachDirection::RightTop,
            match_size: false,
            match_size_max: 0,
            match_size_min: 0,
            fix_pos: (0, 0),
        }
    }

    /// Choose the direction. Chainable.
    pub fn dir(&mut self, direction: AttachDirection) -> (r: &mut WindowAttach)
        ensures
            *r == (WindowAttach { dir: direction, ..*old(self) }),
            *final(self) == *final(r),
    {
        self.dir = direction;
        self
    }

    /// Switch size matching on or off. Chainable.
    pub fn match_size(&mut self, enable: bool) -> (r: &mut WindowAttach)
        ensures
            *r == (WindowAttach { match_size: enable, ..*old(self) }),
            *final(self) == *final(r),
    {
        self.match_size = enable;
        self
    }

    /// Set both size bounds at once. Chainable.
    pub fn match_size_limit(&mut self, max: u32, min: u32) -> (r: &mut WindowAttach)
        ensures
            *r == (WindowAttach { match_size_max: max, match_size_min: min, ..*old(self) }),
            *final(self) == *final(r),
    {
        self.match_size_max = max;
        self.match_size_min = min;
        self
    }

    /// Set the upper size bound; zero means unbounded. Chainable.
    pub fn match_size_max(&mut self, max: u32) -> (r: &mut WindowAttach)
        ensures
            *r == (WindowAttach { match_size_max: max, ..*old(self) }),
            *final(self) == *final(r),
    {
        self.match_size_max = max;
        self
    }

    /// Set the lower size bound; zero means unbounded. Chainable.
    pub fn match_size_min(&mut self, min: u32) -> (r: &mut WindowAttach)
        ensures
            *r == (WindowAttach { match_size_min: min, ..*old(self) }),
            *final(self) == *final(r),
    {
        self.match_size_min = min;
        self
    }

    /// Set the fixed offset from the anchor corner. Chainable.
    pub fn fix_pos(&mut self, fixed: (i32, i32)) -> (r: &mut WindowAttach)
        ensures
            *r == (WindowAttach { fix_pos: fixed, ..*old(self) }),
            *final(self) == *final(r),
    {
        self.fix_pos = fixed;
        self
    }

    /// The size bounds fit the signed coordinate space, so that using them
    /// as dimensions cannot wrap.
    pub open spec fn bounds_fit(self) -> bool {
        self.match_size_min <= i32::MAX as u32 && self.match_size_max <= i32::MAX as u32
    }

    /// The dependent's rectangle after the optional size-matching step:
    /// position untouched, the governed dimension following the target.
    pub open spec fn spec_sized(self, current: Rect, target_rect: Rect) -> Rect {
        if self.match_size {
            let s = spec_match_size(
                self.dir,
                (current.width, current.height),
                (target_rect.width, target_rect.height),
                self.match_size_min as i32,
                self.match_size_max as i32,
            );
            Rect { width: s.0, height: s.1, ..current }
        } else {
            current
        }
    }

    /// Where the dependent window belongs, given the two current rectangles:
    /// the size-matched dimensions at the position the direction's formula
    /// names.
    pub open spec fn spec_recompute(self, current: Rect, target_rect: Rect) -> Rect {
        let sized = self.spec_sized(current, target_rect);
        let p = spec_apply(self.dir, sized, target_rect, self.fix_pos);
        Rect { x: p.0 as i32, y: p.1 as i32, width: sized.width, height: sized.height }
    }

    /// One tick of the engine: from the dependent's current rectangle and
    /// the target's current rectangle, compute where the dependent belongs.
    /// `Some` carries the changed rectangle the caller must now apply in one
    /// move-and-resize call; `None` says the dependent already sits there
    /// and no OS call may be issued, which keeps rapid-fire event storms
    /// from echoing.
    pub fn recompute(&self, current: Rect, target_rect: Rect) -> (r: Option<Rect>)
        requires
            self.match_size ==> self.bounds_fit(),
            apply_fits(
                self.dir,
                self.spec_sized(current, target_rect),
                target_rect,
                self.fix_pos,
            ),
        ensures
            match r {
                Some(nr) => nr == self.spec_recompute(current, target_rect) && nr != current,
                None => self.spec_recompute(current, target_rect) == current,
            },
    {
        let mut rect = current;
        if self.match_size {
            let size = self.dir.match_size(
                (rect.width, rect.height),
                (target_rect.width, target_rect.height),
                self.match_size_min as i32,
                self.match_size_max as i32,
            );
            rect.width = size.0;
            rect.height = size.1;
        }
        let p = self.dir.apply(rect, target_rect, self.fix_pos);
        rect.x = p.0;
        rect.y = p.1;
        if rect == current {
            None
        } else {
            Some(rect)
        }
    }

    /// Like `recompute`, but total, for callers driven by arbitrary OS
    /// rectangles: when the configuration's bounds or the computed position
    /// do not fit the coordinate type, the tick is skipped with `None`
    /// instead of asking anything of the caller. `None` thus always means
    /// "issue no OS call now": either the dependent already sits where it
    /// belongs, or this tick cannot be computed.
    pub fn recompute_checked(&self, current: Rect, target_rect: Rect) -> (r: Option<Rect>)
        ensures
            ((self.match_size ==> self.bounds_fit()) && apply_fits(
                self.dir,
                self.spec_sized(current, target_rect),
                target_rect,
                self.fix_pos,
            )) ==> match r {
                Some(nr) => nr == self.spec_recompute(current, target_rect) && nr != current,
                None => self.spec_recompute(current, target_rect) == current,
            },
            match r {
                Some(nr) => nr != current,
                None => true,
            },
    {
        if self.match_size && !(self.match_size_min <= i32::MAX as u32 && self.match_size_max
            <= i32::MAX as u32) {
            return None;
        }
        let mut rect = current;
        if self.match_size {
            let size = self.dir.match_size(
                (rect.width, rect.height),
                (target_rect.width, target_rect.height),
                self.match_size_min as i32,
                self.match_size_max as i32,
            );
            rect.width = size.0;
            rect.height = size.1;
        }
        match self.dir.try_apply(rect, target_rect, self.fix_pos) {
            None => None,
            Some(p) => {
                rect.x = p.0;
                rect.y = p.1;
                if rect == current {
                    None
                } else {
                    Some(rect)
                }
            },
        }
    }
}

/// Attachment idempotence: once the dependent's rectangle is where one
/// recomputation puts it, recomputing again with the target unchanged names
/// the same rectangle. `recompute` therefore answers `None` on the second
/// tick and no second apply call is issued: the position formula reads only
/// the dependent's size, which the size-matching step reproduces.
pub proof fn lemma_recompute_idempotent(a: WindowAttach, current: Rect, target_rect: Rect)
    ensures
        a.spec_recompute(a.spec_recompute(current, target_rect), target_rect)
            == a.spec_recompute(current, target_rect),
{
}

} // verus!
