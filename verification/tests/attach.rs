use winattach::rect::Rect;
use winattach::window::Window;
use winattach::window_attach::{recompute_trigger, AttachDirection, WindowAttach};
use winattach::window_event::{WinEvent, EVENT_OBJECT_LOCATIONCHANGE, EVENT_OBJECT_SHOW, EVENT_SYSTEM_MOVESIZEEND};

fn target_rect() -> Rect {
    Rect::new(100, 100, 50, 20)
}

fn dependent_rect() -> Rect {
    // Size 30 x 10; the position is about to be recomputed anyway.
    Rect::new(0, 0, 30, 10)
}

#[test]
fn rect_corners() {
    let r = target_rect();
    assert_eq!(r.left_top(), (100, 100));
    assert_eq!(r.right_top(), (150, 100));
    assert_eq!(r.left_bottom(), (100, 120));
    assert_eq!(r.right_bottom(), (150, 120));
}

#[test]
fn direction_formulas_from_the_table() {
    let t = target_rect();
    let c = dependent_rect();
    assert_eq!(AttachDirection::RightTop.apply(c, t, (0, 0)), (150, 100));
    assert_eq!(AttachDirection::LeftBottom.apply(c, t, (0, 0)), (70, 110));
    assert_eq!(AttachDirection::TopRight.apply(c, t, (0, 0)), (120, 90));
}

#[test]
fn direction_formulas_all_eight() {
    let t = target_rect();
    let c = dependent_rect();
    assert_eq!(AttachDirection::LeftTop.apply(c, t, (0, 0)), (70, 100));
    assert_eq!(AttachDirection::TopLeft.apply(c, t, (0, 0)), (100, 90));
    assert_eq!(AttachDirection::RightTop.apply(c, t, (0, 0)), (150, 100));
    assert_eq!(AttachDirection::TopRight.apply(c, t, (0, 0)), (120, 90));
    assert_eq!(AttachDirection::RightBottom.apply(c, t, (0, 0)), (150, 110));
    assert_eq!(AttachDirection::BottomRight.apply(c, t, (0, 0)), (120, 120));
    assert_eq!(AttachDirection::LeftBottom.apply(c, t, (0, 0)), (70, 110));
    assert_eq!(AttachDirection::BottomLeft.apply(c, t, (0, 0)), (100, 120));
}

#[test]
fn fixed_offset_shifts_the_anchor() {
    let t = target_rect();
    let c = dependent_rect();
    assert_eq!(AttachDirection::RightTop.apply(c, t, (7, -3)), (157, 97));
}

#[test]
fn match_size_governs_one_dimension() {
    // Top/bottom directions copy the width, left/right copy the height.
    let cur = (30, 10);
    let tgt = (50, 20);
    assert_eq!(AttachDirection::TopLeft.match_size(cur, tgt, 0, 0), (50, 10));
    assert_eq!(AttachDirection::BottomRight.match_size(cur, tgt, 0, 0), (50, 10));
    assert_eq!(AttachDirection::LeftTop.match_size(cur, tgt, 0, 0), (30, 20));
    assert_eq!(AttachDirection::RightBottom.match_size(cur, tgt, 0, 0), (30, 20));
}

#[test]
fn match_size_clamps_into_bounds() {
    // Width 20 clamps up to 40; width 500 clamps down to 200.
    assert_eq!(AttachDirection::TopLeft.match_size((30, 10), (20, 0), 40, 200), (40, 10));
    assert_eq!(AttachDirection::TopLeft.match_size((30, 10), (500, 0), 40, 200), (200, 10));
    // A zero bound means no bound on that side.
    assert_eq!(AttachDirection::TopLeft.match_size((30, 10), (20, 0), 0, 200), (20, 10));
    assert_eq!(AttachDirection::TopLeft.match_size((30, 10), (500, 0), 40, 0), (500, 10));
    // Crossed bounds: the lower bound is applied first, the upper bound wins.
    assert_eq!(AttachDirection::TopLeft.match_size((30, 10), (100, 0), 50, 40), (40, 10));
}

#[test]
fn builder_chains_and_defaults() {
    let dep = Window::new(1, 0, 0);
    let tgt = Window::new(2, 0, 0);
    let a = dep.attach_to(tgt);
    assert_eq!(a.dir, AttachDirection::RightTop);
    assert!(!a.match_size);
    assert_eq!(a.match_size_max, 0);
    assert_eq!(a.match_size_min, 0);
    assert_eq!(a.fix_pos, (0, 0));

    let mut a = WindowAttach::new(dep, tgt);
    a.match_size(true)
        .dir(AttachDirection::LeftBottom)
        .match_size_min(200)
        .match_size_max(800)
        .fix_pos((3, 4));
    assert!(a.match_size);
    assert_eq!(a.dir, AttachDirection::LeftBottom);
    assert_eq!(a.match_size_min, 200);
    assert_eq!(a.match_size_max, 800);
    assert_eq!(a.fix_pos, (3, 4));

    let mut a = WindowAttach::new(dep, tgt);
    a.match_size_limit(90, 10);
    assert_eq!(a.match_size_max, 90);
    assert_eq!(a.match_size_min, 10);
}

#[test]
fn recompute_moves_then_settles() {
    let dep = Window::new(1, 0, 0);
    let tgt = Window::new(2, 0, 0);
    let mut a = WindowAttach::new(dep, tgt);
    a.dir(AttachDirection::RightTop);

    let t = target_rect();
    let c = dependent_rect();
    let moved = a.recompute(c, t).expect("the dependent is out of place");
    assert_eq!(moved, Rect::new(150, 100, 30, 10));

    // Nothing changed since: the second tick issues no apply call.
    assert!(a.recompute(moved, t).is_none());
}

#[test]
fn recompute_with_size_matching_clamps() {
    let dep = Window::new(1, 0, 0);
    let tgt = Window::new(2, 0, 0);
    let mut a = WindowAttach::new(dep, tgt);
    a.dir(AttachDirection::TopLeft).match_size(true).match_size_min(40).match_size_max(200);

    // Target width 20 clamps the dependent's width up to 40.
    let narrow = Rect::new(100, 100, 20, 20);
    let moved = a.recompute(dependent_rect(), narrow).unwrap();
    assert_eq!(moved.width, 40);
    assert_eq!(moved.height, 10);
    assert_eq!((moved.x, moved.y), (100, 90));

    // Target width 500 clamps it down to 200.
    let wide = Rect::new(100, 100, 500, 20);
    let moved = a.recompute(dependent_rect(), wide).unwrap();
    assert_eq!(moved.width, 200);

    // And the engine settles on repetition as well.
    assert!(a.recompute(moved, wide).is_none());
}

#[test]
fn try_apply_refuses_positions_off_the_coordinate_space() {
    let c = dependent_rect();
    let far = Rect::new(i32::MAX, 0, 100, 100);
    assert_eq!(AttachDirection::RightTop.try_apply(c, far, (10, 0)), None);
    let t = target_rect();
    assert_eq!(AttachDirection::RightTop.try_apply(c, t, (0, 0)), Some((150, 100)));
}

#[test]
fn recompute_checked_skips_impossible_ticks() {
    let dep = Window::new(1, 0, 0);
    let tgt = Window::new(2, 0, 0);
    let mut a = WindowAttach::new(dep, tgt);
    a.dir(AttachDirection::RightTop);

    let far = Rect::new(i32::MAX, 0, 100, 100);
    assert!(a.recompute_checked(dependent_rect(), far).is_none());

    let moved = a.recompute_checked(dependent_rect(), target_rect()).unwrap();
    assert_eq!(moved, Rect::new(150, 100, 30, 10));
    assert!(a.recompute_checked(moved, target_rect()).is_none());
}

#[test]
fn recompute_trigger_selects_window_level_changes() {
    let w = Window::new(9, 0, 0);
    let mut loc = WinEvent::new(1, EVENT_OBJECT_LOCATIONCHANGE, w);
    assert!(recompute_trigger(&loc));
    loc.raw_id_object = 2; // a child element moved, not the window
    assert!(!recompute_trigger(&loc));
    let end = WinEvent::new(1, EVENT_SYSTEM_MOVESIZEEND, w);
    assert!(recompute_trigger(&end));
    let show = WinEvent::new(1, EVENT_OBJECT_SHOW, w);
    assert!(!recompute_trigger(&show));
}
