use windows::Win32::Graphics::Dxgi::{
    DXGI_ERROR_ACCESS_LOST, DXGI_ERROR_INVALID_CALL, DXGI_ERROR_WAIT_TIMEOUT,
};
use windows::Win32::UI::Input::KeyboardAndMouse::{VK_ESCAPE, VK_M};
use windows::Win32::UI::WindowsAndMessaging as wm;

#[test]
fn failure_codes_are_those_of_the_graphics_system() {
    assert_eq!(fixscreen::capture::DXGI_ERROR_ACCESS_LOST, DXGI_ERROR_ACCESS_LOST.0);
    assert_eq!(fixscreen::capture::DXGI_ERROR_INVALID_CALL, DXGI_ERROR_INVALID_CALL.0);
    assert_eq!(fixscreen::capture::DXGI_ERROR_WAIT_TIMEOUT, DXGI_ERROR_WAIT_TIMEOUT.0);
}

#[test]
fn message_numbers_are_those_of_the_system() {
    assert_eq!(fixscreen::window::WM_DESTROY, wm::WM_DESTROY);
    assert_eq!(fixscreen::window::WM_PAINT, wm::WM_PAINT);
    assert_eq!(fixscreen::window::WM_ERASEBKGND, wm::WM_ERASEBKGND);
    assert_eq!(fixscreen::window::WM_NCCREATE, wm::WM_NCCREATE);
    assert_eq!(fixscreen::window::WM_NCDESTROY, wm::WM_NCDESTROY);
    assert_eq!(fixscreen::window::WM_KEYDOWN, wm::WM_KEYDOWN);
    assert_eq!(fixscreen::window::WM_MOUSEMOVE, wm::WM_MOUSEMOVE);
    assert_eq!(fixscreen::window::WM_LBUTTONDOWN, wm::WM_LBUTTONDOWN);
    assert_eq!(fixscreen::window::WM_LBUTTONUP, wm::WM_LBUTTONUP);
    assert_eq!(fixscreen::window::WM_RBUTTONUP, wm::WM_RBUTTONUP);
    assert_eq!(fixscreen::window::WM_MOUSEWHEEL, wm::WM_MOUSEWHEEL);
    assert_eq!(fixscreen::window::WM_NEWFRAME, wm::WM_APP + 1);
    assert_eq!(fixscreen::window::WM_RESIZE_TO_ASPECT, wm::WM_APP + 2);
}

#[test]
fn keys_and_flags_are_those_of_the_system() {
    assert_eq!(fixscreen::window::VK_ESCAPE, VK_ESCAPE.0 as usize);
    assert_eq!(fixscreen::window::KEY_NEXT_MONITOR, VK_M.0 as usize);
    assert_eq!(fixscreen::window::KEY_NEXT_MONITOR, 'M' as usize);
    assert_eq!(fixscreen::render::CURSOR_SHOWING, wm::CURSOR_SHOWING.0);
}
