use fixscreen::geometry::{
    centered, close_rect, compute_win_h, is_close, overlay_rect, rgb, wheel_resize, Point, Rect,
};
use fixscreen::num::{high_word, low_word, narrow, signed, wheel_delta};
use fixscreen::render::{
    close_border, close_fill, close_label, overlay_color, BitmapHeader, CursorCache, CursorInfo,
    CursorStep, FpsCounter, IconInfo, IconPlan, MemSurface, RenderState,
};
use fixscreen::shared::{Mode, SharedState};
use fixscreen::startup::DpiAwareness;
use fixscreen::text::{overlay_text, push_decimal};
use fixscreen::window::{
    route, Command, Placement, Route, WindowState, WM_DESTROY, WM_ERASEBKGND, WM_KEYDOWN,
    WM_LBUTTONDOWN, WM_LBUTTONUP, WM_MOUSEMOVE, WM_MOUSEWHEEL, WM_NCCREATE, WM_NCDESTROY,
    WM_NEWFRAME, WM_PAINT, WM_RBUTTONUP, WM_RESIZE_TO_ASPECT,
};

fn at(x: i16, y: i16) -> isize {
    (((y as u16 as u32) << 16) | (x as u16 as u32)) as isize
}

fn wheel(delta: i16) -> usize {
    ((delta as u16 as u32) << 16) as usize
}

#[test]
fn words_are_signed() {
    assert_eq!(low_word(at(-5, 7)), -5);
    assert_eq!(high_word(at(-5, 7)), 7);
    assert_eq!(high_word(at(3, -1)), -1);
    assert_eq!(low_word(-1), -1);
    assert_eq!(high_word(-65536), -1);
    assert_eq!(low_word(0x1_8000), -32768);
    assert_eq!(wheel_delta(wheel(120)), 120);
    assert_eq!(wheel_delta(wheel(-120)), -120);
    assert_eq!(wheel_delta(0xFFFF), 0);
}

#[test]
fn wide_numbers_wrap() {
    assert_eq!(narrow(0x1_0000_0005), 5);
    assert_eq!(narrow(0x8000_0000), i32::MIN);
    assert_eq!(narrow(-1), -1);
    assert_eq!(signed(0xFFFF_FFFF), -1);
    assert_eq!(signed(1920), 1920);
}

#[test]
fn height_follows_the_capture() {
    assert_eq!(compute_win_h(800, 1920, 1080), 450);
    assert_eq!(compute_win_h(800, 1920, 1200), 500);
    assert_eq!(compute_win_h(880, 1366, 768), 494);
    assert_eq!(compute_win_h(800, 0, 1080), 450);
    assert_eq!(compute_win_h(320, -1, -1), 180);
    assert_eq!(compute_win_h(1000, 0, 0), 562);
    assert_eq!(compute_win_h(-16, 0, 0), -9);
    assert_eq!(compute_win_h(-7, 2, 1), -3);
    assert_eq!(compute_win_h(1280, 1, 0x7FFF_FFFF), -1280);
}

#[test]
fn wheel_steps_stay_between_the_limits() {
    assert_eq!(wheel_resize(800, 120), 880);
    assert_eq!(wheel_resize(800, -120), 720);
    assert_eq!(wheel_resize(800, 0), 720);
    assert_eq!(wheel_resize(1280, 1), 1280);
    assert_eq!(wheel_resize(320, -1), 320);
    assert_eq!(wheel_resize(1250, 1), 1280);
    assert_eq!(wheel_resize(wheel_resize(640, 1), -1), 640);
}

#[test]
fn close_button_is_where_it_is_drawn() {
    let r = close_rect(800);
    assert_eq!(r, Rect { left: 770, top: 2, right: 798, bottom: 22 });
    for (x, y, hit) in [
        (770, 2, true),
        (797, 21, true),
        (769, 2, false),
        (798, 2, false),
        (770, 1, false),
        (770, 22, false),
    ] {
        assert_eq!(is_close(800, x, y), hit);
    }
}

#[test]
fn places_and_colours() {
    assert_eq!(overlay_rect(800, 450), Rect { left: 4, top: 432, right: 766, bottom: 450 });
    assert_eq!(centered(1920, 800), 560);
    assert_eq!(centered(799, 800), 0);
    assert_eq!(centered(797, 800), -1);
    assert_eq!(rgb(1, 2, 3), 0x030201);
    assert_eq!(rgb(0x1FF, 0x1FF, 0), 0x1FFFF);
    assert_eq!(close_fill(false), 0x0A0A3C);
    assert_eq!(close_fill(true), 0x2828DC);
    assert_eq!(close_border(), 0x3C3CC8);
    assert_eq!(close_label(), 0xFFFFFF);
    assert_eq!(overlay_color(Mode::Dxgi), 0x50DC00);
    assert_eq!(overlay_color(Mode::Gdi), 0x00B4FF);
    assert_eq!(
        BitmapHeader::top_down(1920, 1080),
        BitmapHeader { width: 1920, height: -1080, planes: 1, bit_count: 32 }
    );
}

#[test]
fn decimal_notation() {
    for n in [0, 7, 10, 60, 144, -1, -10, 1_000_000, i32::MAX, i32::MIN] {
        let mut s = String::from("n=");
        push_decimal(&mut s, n);
        assert_eq!(s, format!("n={}", n));
    }
}

#[test]
fn status_line_names_rate_mode_monitor_and_controls() {
    assert_eq!(
        overlay_text(60, Mode::Dxgi, 0, 2),
        "60 fps  [DXGI]  mon 1/2  wheel=resize  M=monitor  RMB/X=exit\0"
    );
    assert_eq!(
        overlay_text(9, Mode::Gdi, 11, 12),
        "9 fps  [GDI]  mon 12/12  wheel=resize  M=monitor  RMB/X=exit\0"
    );
}

#[test]
fn escape_right_button_and_close_button_close() {
    let mut s = SharedState::new();
    let mut w = WindowState::new();
    let before = w;
    assert_eq!(w.handle(&mut s, WM_KEYDOWN, 27, 0), Command::Close);
    assert_eq!(w.handle(&mut s, WM_RBUTTONUP, 0, at(5, 5)), Command::Close);
    assert_eq!(w.handle(&mut s, WM_LBUTTONDOWN, 1, at(780, 10)), Command::Close);
    assert_eq!(w, before);
    assert!(!s.switch_monitor);
}

#[test]
fn key_m_asks_for_the_next_monitor() {
    let mut s = SharedState::new();
    let mut w = WindowState::new();
    assert_eq!(w.handle(&mut s, WM_KEYDOWN, 'N' as usize, 0), Command::Nothing);
    assert!(!s.switch_monitor);
    assert_eq!(w.handle(&mut s, WM_KEYDOWN, 'M' as usize, 0), Command::Nothing);
    assert!(s.switch_monitor);
    let mut t = SharedState::new();
    assert_eq!(w.handle(&mut t, WM_KEYDOWN, 0x14D, 0), Command::Nothing);
    assert!(t.switch_monitor);
    assert_eq!(w.handle(&mut t, WM_KEYDOWN, 0x11B, 0), Command::Nothing);
}

#[test]
fn wheel_resizes_with_the_proportions_of_the_capture() {
    let mut s = SharedState::new();
    s.cap_w = 1920;
    s.cap_h = 1080;
    let mut w = WindowState::new();
    assert_eq!(w.handle(&mut s, WM_MOUSEWHEEL, wheel(120), 0), Command::Resize(880, 495));
    assert_eq!(w.handle(&mut s, WM_MOUSEWHEEL, wheel(-120), 0), Command::Resize(800, 450));
    for _ in 0..20 {
        w.handle(&mut s, WM_MOUSEWHEEL, wheel(120), 0);
    }
    assert_eq!((w.win_w, w.win_h), (1280, 720));
    for _ in 0..20 {
        w.handle(&mut s, WM_MOUSEWHEEL, wheel(-1), 0);
    }
    assert_eq!((w.win_w, w.win_h), (320, 180));
}

#[test]
fn known_size_gives_the_window_its_proportions() {
    let mut s = SharedState::new();
    s.cap_w = 2560;
    s.cap_h = 1600;
    let mut w = WindowState::new();
    assert_eq!(w.handle(&mut s, WM_RESIZE_TO_ASPECT, 0, 0), Command::Resize(800, 500));
    assert_eq!((w.win_w, w.win_h), (800, 500));
}

#[test]
fn dragging_moves_the_window_with_the_mouse() {
    let mut s = SharedState::new();
    let mut w = WindowState::new();
    assert_eq!(w.handle(&mut s, WM_MOUSEMOVE, 0, at(50, 60)), Command::Nothing);
    assert_eq!(w.handle(&mut s, WM_LBUTTONDOWN, 1, at(50, 60)), Command::BeginDrag);
    assert!(w.dragging);
    w.begin_drag(Point { x: 150, y: 260 }, Point { x: 100, y: 200 });
    assert_eq!(w.handle(&mut s, WM_MOUSEMOVE, 1, at(50, 60)), Command::Follow);
    assert_eq!(w.drag_target(Point { x: 150, y: 260 }), Point { x: 100, y: 200 });
    assert_eq!(w.drag_target(Point { x: 140, y: 300 }), Point { x: 90, y: 240 });
    assert_eq!(w.handle(&mut s, WM_LBUTTONUP, 0, at(50, 60)), Command::EndDrag);
    assert!(!w.dragging);
}

#[test]
fn button_lights_up_under_the_mouse() {
    let mut s = SharedState::new();
    let mut w = WindowState::new();
    w.handle(&mut s, WM_MOUSEMOVE, 0, at(780, 10));
    assert!(w.btn_hover);
    w.handle(&mut s, WM_MOUSEMOVE, 0, at(-1, -1));
    assert!(!w.btn_hover);
}

#[test]
fn other_messages_and_their_answers() {
    let mut s = SharedState::new();
    s.wake_pending = true;
    let mut w = WindowState::new();
    assert_eq!(w.handle(&mut s, WM_PAINT, 0, 0), Command::Paint);
    assert_eq!(w.handle(&mut s, WM_DESTROY, 0, 0), Command::Quit);
    assert_eq!(w.handle(&mut s, WM_NCDESTROY, 0, 0), Command::Forget);
    assert!(s.wake_pending);
    assert_eq!(w.handle(&mut s, WM_NEWFRAME, 0, 0), Command::Render);
    assert!(!s.wake_pending);
    let erase = w.handle(&mut s, WM_ERASEBKGND, 0, 0);
    assert_eq!(erase, Command::KeepBackground);
    assert_eq!(erase.reply(), Some(1));
    let other = w.handle(&mut s, 0x0400, 0, 0);
    assert_eq!(other, Command::Default);
    assert_eq!(other.reply(), None);
    assert_eq!(Command::Close.reply(), Some(0));
    assert_eq!(w, WindowState::new());
}

#[test]
fn rate_counts_the_frames_of_a_second() {
    let mut c = FpsCounter::new(u32::MAX - 499);
    for i in 0..59u32 {
        c.tick((u32::MAX - 499).wrapping_add(i * 16));
    }
    assert_eq!((c.fps, c.f_count), (0, 59));
    c.tick(500);
    assert_eq!(c, FpsCounter { fps: 60, f_count: 0, f_time: 500 });
    c.tick(1499);
    assert_eq!((c.fps, c.f_count), (60, 1));
    c.tick(1500);
    assert_eq!((c.fps, c.f_count), (2, 0));
}

#[test]
fn surface_is_made_anew_only_for_another_size() {
    let mut m: MemSurface<u8, u8> = MemSurface::new();
    assert_eq!(m.ensure_mem(800, 450), Some((None, None)));
    m.install(Some(1), 2, 800, 450);
    assert_eq!(m.ensure_mem(800, 450), None);
    assert_eq!(m.mem_dc, Some(1));
    assert_eq!(m.ensure_mem(880, 495), Some((Some(2), Some(1))));
    assert_eq!((m.mem_dc, m.mem_bmp), (None, None));
}

#[test]
fn pointer_is_looked_up_only_when_it_changes() {
    let mut c = CursorCache::new();
    let info = CursorInfo { flags: 1, handle: 77, x: 10, y: 20 };
    assert_eq!(c.observe(None), CursorStep::Skip);
    assert_eq!(c.observe(Some(CursorInfo { flags: 0, ..info })), CursorStep::Skip);
    assert_eq!(c.observe(Some(info)), CursorStep::Query);
    assert_eq!(c.look_up(77, None), None);
    assert_eq!(c.observe(Some(info)), CursorStep::Query);
    let icon = IconInfo { hot_x: 3, hot_y: 4, color: false, mask: true };
    assert_eq!(
        c.look_up(77, Some(icon)),
        Some(IconPlan { measure_color: false, delete_mask: true, delete_color: false })
    );
    assert_eq!((c.w, c.h), (32, 32));
    c.measured(false, Some((48, 97)));
    assert_eq!((c.w, c.h), (48, 48));
    c.measured(true, Some((64, 64)));
    assert_eq!((c.w, c.h), (64, 64));
    c.measured(true, None);
    assert_eq!((c.w, c.h), (64, 64));
    assert_eq!(c.observe(Some(info)), CursorStep::Draw);
    assert_eq!(c.hotspot, Point { x: 3, y: 4 });
}

#[test]
fn pointer_is_placed_on_the_captured_area() {
    let c = CursorCache::new();
    let mut s = SharedState::new();
    let w = WindowState::new();
    assert_eq!(c.place(&w, &s, 5, 5), None);
    s.cap_x = -1920;
    s.cap_y = 100;
    s.cap_w = 1920;
    s.cap_h = 1080;
    let p = c.place(&w, &s, -1900, 110).unwrap();
    assert_eq!((p.dx, p.dy), (20, 10));
    assert_eq!((p.win_w, p.win_h, p.cap_w, p.cap_h), (800, 450, 1920, 1080));
}

#[test]
fn plan_of_a_frame() {
    let mut s = SharedState::new();
    let mut r: RenderState<u8, u8> = RenderState::new(0);
    let empty = r.render_frame(&s);
    assert_eq!(empty.image, None);
    s.publish_frame(&[1, 2, 3, 4, 5, 6, 7, 8], 1, 2, 4);
    s.mode = Mode::Gdi;
    s.output_count = 2;
    r.window.btn_hover = true;
    r.rate.fps = 30;
    let plan = r.render_frame(&s);
    assert_eq!(plan.image, Some(BitmapHeader { width: 1, height: -2, planes: 1, bit_count: 32 }));
    assert_eq!(r.local_buf, vec![1, 2, 3, 4, 5, 6, 7, 8]);
    assert_eq!(plan.text, "30 fps  [GDI]  mon 1/2  wheel=resize  M=monitor  RMB/X=exit\0");
    assert_eq!(plan.text_rect, Rect { left: 4, top: 432, right: 766, bottom: 450 });
    assert_eq!(plan.text_color, 0x00B4FF);
    assert_eq!(plan.close_rect, Rect { left: 770, top: 2, right: 798, bottom: 22 });
    assert!(plan.close_hover);
}

#[test]
fn finest_granted_awareness_is_kept() {
    let first = DpiAwareness::PerMonitorV2;
    assert_eq!(first.fallback(true), None);
    assert_eq!(first.fallback(false), Some(DpiAwareness::PerMonitor));
    assert_eq!(DpiAwareness::PerMonitor.fallback(true), None);
    assert_eq!(DpiAwareness::PerMonitor.fallback(false), Some(DpiAwareness::System));
    assert_eq!(DpiAwareness::System.fallback(false), None);
}

#[test]
fn messages_reach_the_window_while_it_has_a_state() {
    assert_eq!(route(WM_NCCREATE, false), Route::Adopt);
    assert_eq!(route(WM_NCCREATE, true), Route::Adopt);
    assert_eq!(route(WM_PAINT, false), Route::System);
    assert_eq!(route(WM_PAINT, true), Route::Window);
}

#[test]
fn window_stays_on_top() {
    let resized = Placement { topmost: true, keeps_place: true, keeps_size: false };
    let moved = Placement { topmost: true, keeps_place: false, keeps_size: true };
    let mut w = WindowState::new();
    let mut s = SharedState::new();
    assert_eq!(w.handle(&mut s, WM_MOUSEWHEEL, wheel(120), 0).placement(), Some(resized));
    assert_eq!(w.handle(&mut s, WM_RESIZE_TO_ASPECT, 0, 0).placement(), Some(resized));
    assert_eq!(w.handle(&mut s, WM_MOUSEMOVE, 0, at(50, 60)).placement(), None);
    assert_eq!(w.handle(&mut s, WM_LBUTTONDOWN, 1, at(50, 60)).placement(), None);
    assert_eq!(w.handle(&mut s, WM_MOUSEMOVE, 1, at(51, 61)).placement(), Some(moved));
    assert_eq!(w.handle(&mut s, WM_NEWFRAME, 0, 0).placement(), None);
}
