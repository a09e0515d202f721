use winattach::error::WindowsResult;
use winattach::window::Window;

#[test]
fn it_works() {
    assert_eq!(2 + 2, 4);
}

#[test]
fn windows_result_zero_is_failure() {
    let r = WindowsResult::from_return_value(0, "boom");
    assert!(matches!(r, WindowsResult::Failure("boom")));
    let r = WindowsResult::from_return_value(42, "boom");
    assert!(matches!(r, WindowsResult::Success(42)));
}

#[test]
fn windows_result_u32_and_i32() {
    let r = WindowsResult::from_return_value_u32(0, 7u32);
    assert!(matches!(r, WindowsResult::Failure(7)));
    let r = WindowsResult::from_return_value_u32(9, 7u32);
    assert!(matches!(r, WindowsResult::Success(9)));
    let r = WindowsResult::from_return_value_i32(0, -1);
    assert!(matches!(r, WindowsResult::Failure(-1)));
    let r = WindowsResult::from_return_value_i32(-5, -1);
    assert!(matches!(r, WindowsResult::Success(-5)));
}

#[test]
fn windows_result_into_result() {
    let r: WindowsResult<isize, u32> = WindowsResult::Success(3);
    assert_eq!(r.into_result(), Ok(3));
    let r: WindowsResult<isize, u32> = WindowsResult::Failure(5);
    assert_eq!(r.into_result(), Err(5));
}

#[test]
fn window_equality_is_by_handle() {
    let a = Window::new(10, 1, 2);
    let b = Window::new(10, 99, 98);
    let c = Window::new(11, 1, 2);
    assert!(a == b);
    assert!(a != c);
}

#[test]
fn default_window_is_wildcard() {
    let w = Window::default();
    assert!(w.is_wildcard());
    assert_eq!(w.hwnd, 0);
    assert!(!Window::new(3, 0, 0).is_wildcard());
}
