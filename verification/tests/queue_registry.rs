use winattach::event_queue::EventQueue;
use winattach::registry::{DeliverOutcome, HookRegistry};
use winattach::window::Window;
use winattach::window_event::{WinEvent, WinEventType};

fn event(code: u32, hwnd: isize) -> WinEvent {
    WinEvent::new(1, code, Window::new(hwnd, 0, 0))
}

#[test]
fn queue_is_fifo() {
    let e1 = event(0x8002, 1);
    let e2 = event(0x800b, 2);
    let e3 = event(0x000b, 3);
    let mut q = EventQueue::new();
    assert!(q.is_empty());
    q.enqueue(e1);
    q.enqueue(e2);
    q.enqueue(e3);
    assert_eq!(q.len(), 3);
    assert_eq!(q.dequeue().unwrap().raw_event, 0x8002);
    assert_eq!(q.dequeue().unwrap().raw_event, 0x800b);
    assert_eq!(q.dequeue().unwrap().raw_event, 0x000b);
    assert!(q.dequeue().is_none());
    assert!(q.is_empty());
}

#[test]
fn register_then_lookup() {
    let mut reg = HookRegistry::new();
    assert!(!reg.contains(7));
    assert!(reg.lookup(7).is_none());
    reg.register(7, EventQueue::new());
    assert!(reg.contains(7));
    assert_eq!(reg.lookup(7).unwrap().len(), 0);
}

#[test]
fn register_same_id_last_write_wins() {
    let mut q1 = EventQueue::new();
    q1.enqueue(event(0x8002, 1));
    let mut q2 = EventQueue::new();
    q2.enqueue(event(0x800b, 2));
    q2.enqueue(event(0x000b, 3));

    let mut reg = HookRegistry::new();
    reg.register(5, q1);
    assert_eq!(reg.lookup(5).unwrap().len(), 1);
    reg.register(5, q2);
    let q = reg.lookup(5).unwrap();
    assert_eq!(q.len(), 2);
}

#[test]
fn unregister_removes_the_entry() {
    let mut reg = HookRegistry::new();
    reg.register(3, EventQueue::new());
    reg.register(4, EventQueue::new());
    reg.unregister(3);
    assert!(!reg.contains(3));
    assert!(reg.contains(4));
    reg.unregister(3);
    assert!(!reg.contains(3));
}

#[test]
fn deliver_appends_in_order() {
    let mut reg = HookRegistry::new();
    reg.register(9, EventQueue::new());
    let w = Window::new(44, 0, 0);
    assert_eq!(reg.deliver(9, 0x8002, w, 0, 0, 0), DeliverOutcome::Delivered);
    assert_eq!(reg.deliver(9, 0x800b, w, 0, 5, 6), DeliverOutcome::Delivered);
    let first = reg.dequeue_event(9).unwrap();
    assert_eq!(first.etype, WinEventType::Show);
    assert_eq!(first.hook_handle, 9);
    let second = reg.dequeue_event(9).unwrap();
    assert_eq!(second.etype, WinEventType::LocationChange);
    assert_eq!(second.raw_id_object, 0);
    assert_eq!(second.raw_id_child, 5);
    assert_eq!(second.raw_id_thread, 6);
    assert!(reg.dequeue_event(9).is_none());
}

#[test]
fn deliver_drops_unknown_codes() {
    let mut reg = HookRegistry::new();
    reg.register(9, EventQueue::new());
    let w = Window::new(44, 0, 0);
    assert_eq!(reg.deliver(9, 0x1234, w, 0, 0, 0), DeliverOutcome::DroppedUnknown);
    assert!(reg.dequeue_event(9).is_none());
}

#[test]
fn deliver_without_queue_is_dropped() {
    let mut reg = HookRegistry::new();
    let w = Window::new(44, 0, 0);
    assert_eq!(reg.deliver(9, 0x8002, w, 0, 0, 0), DeliverOutcome::DroppedNoQueue);
    assert!(!reg.contains(9));
}

#[test]
fn dequeue_without_queue_is_none() {
    let mut reg = HookRegistry::new();
    assert!(reg.dequeue_event(123).is_none());
}
