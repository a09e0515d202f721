use winattach::window::Window;
use winattach::window_event::{
    classify, WinEvent, WinEventType, EVENT_OBJECT_CLOAKED, EVENT_OBJECT_CREATE,
    EVENT_OBJECT_DESTROY, EVENT_OBJECT_FOCUS, EVENT_OBJECT_HIDE, EVENT_OBJECT_LOCATIONCHANGE,
    EVENT_OBJECT_SHOW, EVENT_OBJECT_UNCLOAKED, EVENT_SYSTEM_FOREGROUND, EVENT_SYSTEM_MINIMIZEEND,
    EVENT_SYSTEM_MINIMIZESTART, EVENT_SYSTEM_MOVESIZEEND, EVENT_SYSTEM_MOVESIZESTART,
};

#[test]
fn classify_table_is_exact() {
    assert_eq!(classify(EVENT_OBJECT_DESTROY), WinEventType::Destroy);
    assert_eq!(classify(EVENT_OBJECT_CREATE), WinEventType::Create);
    assert_eq!(classify(EVENT_OBJECT_CLOAKED), WinEventType::Hide);
    assert_eq!(classify(EVENT_OBJECT_HIDE), WinEventType::Hide);
    assert_eq!(classify(EVENT_SYSTEM_MINIMIZESTART), WinEventType::Hide);
    assert_eq!(classify(EVENT_OBJECT_SHOW), WinEventType::Show);
    assert_eq!(classify(EVENT_OBJECT_UNCLOAKED), WinEventType::Show);
    assert_eq!(classify(EVENT_SYSTEM_MINIMIZEEND), WinEventType::Show);
    assert_eq!(classify(EVENT_OBJECT_FOCUS), WinEventType::FocusChange);
    assert_eq!(classify(EVENT_SYSTEM_FOREGROUND), WinEventType::FocusChange);
    assert_eq!(classify(EVENT_SYSTEM_MOVESIZESTART), WinEventType::MoveResizeStart);
    assert_eq!(classify(EVENT_SYSTEM_MOVESIZEEND), WinEventType::MoveResizeEnd);
    assert_eq!(classify(EVENT_OBJECT_LOCATIONCHANGE), WinEventType::LocationChange);
}

#[test]
fn classify_raw_values_are_bit_exact() {
    assert_eq!(classify(0x8001), WinEventType::Destroy);
    assert_eq!(classify(0x8000), WinEventType::Create);
    assert_eq!(classify(0x8017), WinEventType::Hide);
    assert_eq!(classify(0x8003), WinEventType::Hide);
    assert_eq!(classify(0x0016), WinEventType::Hide);
    assert_eq!(classify(0x8002), WinEventType::Show);
    assert_eq!(classify(0x8018), WinEventType::Show);
    assert_eq!(classify(0x0017), WinEventType::Show);
    assert_eq!(classify(0x8005), WinEventType::FocusChange);
    assert_eq!(classify(0x0003), WinEventType::FocusChange);
    assert_eq!(classify(0x000a), WinEventType::MoveResizeStart);
    assert_eq!(classify(0x000b), WinEventType::MoveResizeEnd);
    assert_eq!(classify(0x800b), WinEventType::LocationChange);
}

#[test]
fn codes_outside_the_table_are_unknown() {
    assert_eq!(classify(0), WinEventType::Unknown);
    assert_eq!(classify(1), WinEventType::Unknown);
    assert_eq!(classify(0x0009), WinEventType::Unknown);
    assert_eq!(classify(0x8004), WinEventType::Unknown);
    assert_eq!(classify(0x800c), WinEventType::Unknown);
    assert_eq!(classify(u32::MAX), WinEventType::Unknown);
}

#[test]
fn classify_never_answers_all() {
    let samples = [
        0u32, 1, 3, 0xa, 0xb, 0x16, 0x17, 0x8000, 0x8001, 0x8002, 0x8003, 0x8005, 0x800b, 0x8017,
        0x8018, 0xffff, u32::MAX,
    ];
    for code in samples {
        assert_ne!(classify(code), WinEventType::All);
    }
}

#[test]
fn from_u32_matches_classify() {
    assert_eq!(WinEventType::from(0x8002u32), WinEventType::Show);
    assert_eq!(WinEventType::from(12345u32), WinEventType::Unknown);
}

#[test]
fn win_event_new_classifies_and_zeroes_ids() {
    let w = Window::new(77, 1, 2);
    let e = WinEvent::new(5, 0x800b, w);
    assert_eq!(e.etype, WinEventType::LocationChange);
    assert_eq!(e.window, w);
    assert_eq!(e.hook_handle, 5);
    assert_eq!(e.raw_event, 0x800b);
    assert_eq!(e.raw_id_child, 0);
    assert_eq!(e.raw_id_object, 0);
    assert_eq!(e.raw_id_thread, 0);
}
