//! The mirror window: what each message does to it, and what has to be done in return.

use vstd::prelude::*;

use crate::geometry;
use crate::geometry::Point;
use crate::num;
use crate::shared;
use crate::shared::SharedState;

verus! {

pub const WM_DESTROY: u32 = 0x0002;

pub const WM_PAINT: u32 = 0x000F;

pub const WM_ERASEBKGND: u32 = 0x0014;

pub const WM_NCCREATE: u32 = 0x0081;

pub const WM_NCDESTROY: u32 = 0x0082;

pub const WM_KEYDOWN: u32 = 0x0100;

pub const WM_MOUSEMOVE: u32 = 0x0200;

pub const WM_LBUTTONDOWN: u32 = 0x0201;

pub const WM_LBUTTONUP: u32 = 0x0202;

pub const WM_RBUTTONUP: u32 = 0x0205;

pub const WM_MOUSEWHEEL: u32 = 0x020A;

/// Sent by the capture thread: there is a new frame to draw.
pub const WM_NEWFRAME: u32 = 0x8001;

/// Sent by the capture thread: the capture size is known, so that the window can take its
/// proportions at once.
pub const WM_RESIZE_TO_ASPECT: u32 = 0x8002;

/// The key that closes the window.
pub const VK_ESCAPE: usize = 27;

/// The key that asks for the next monitor.
pub const KEY_NEXT_MONITOR: usize = 77;

/// Size and interaction of the window.
#[derive(Clone, Copy, Debug, PartialEq, Eq, Structural)]
pub struct WindowState {
    pub win_w: i32,
    pub win_h: i32,
    /// The user moves the window.
    pub dragging: bool,
    /// Where the window was taken hold of, from its upper left corner.
    pub drag_off: Point,
    /// The mouse is over the close button.
    pub btn_hover: bool,
}

/// Who deals with a message.
#[derive(Clone, Copy, Debug, PartialEq, Eq, Structural)]
pub enum Route {
    /// The window is being created: its state is set up, and the system goes on.
    Adopt,
    /// The system, because the window has no state yet, or no longer.
    System,
    /// The window; see [`WindowState::handle`].
    Window,
}

/// Who deals with a message, depending on whether the window has a state.
pub open spec fn routed(msg: u32, has_state: bool) -> Route {
    if msg == WM_NCCREATE {
        Route::Adopt
    } else if !has_state {
        Route::System
    } else {
        Route::Window
    }
}

/// Decides who deals with a message, depending on whether the window has a state.
pub fn route(msg: u32, has_state: bool) -> (r: Route)
    ensures
        r == (if msg == WM_NCCREATE {
            Route::Adopt
        } else if !has_state {
            Route::System
        } else {
            Route::Window
        }),
        r == routed(msg, has_state),
{
    if msg == WM_NCCREATE {
        Route::Adopt
    } else if has_state {
        Route::Window
    } else {
        Route::System
    }
}

/// What has to be done with the window in return for a message.
#[derive(Clone, Copy, Debug, PartialEq, Eq, Structural)]
pub enum Command {
    /// What the system does by default.
    Default,
    /// Give up the state of the window, which exists no longer.
    Forget,
    /// End the program.
    Quit,
    /// Close the window.
    Close,
    /// Nothing.
    Nothing,
    /// Capture the mouse and find out where the window was taken hold of; see
    /// [`WindowState::begin_drag`].
    BeginDrag,
    /// Release the mouse.
    EndDrag,
    /// Move the window along with the mouse; see [`WindowState::drag_target`].
    Follow,
    /// Give the window this size.
    Resize(i32, i32),
    /// Draw the new frame.
    Render,
    /// Show again what was drawn last.
    Paint,
    /// Leave the background as it is.
    KeepBackground,
}

/// How the window is placed anew.
#[derive(Clone, Copy, Debug, PartialEq, Eq, Structural)]
pub struct Placement {
    /// The window lies above all others.
    pub topmost: bool,
    /// The window stays where it is.
    pub keeps_place: bool,
    /// The window keeps its size.
    pub keeps_size: bool,
}

impl Command {
    /// How the command places the window, if it does.
    pub open spec fn placed(self) -> Option<Placement> {
        match self {
            Command::Follow => Some(
                Placement { topmost: true, keeps_place: false, keeps_size: true },
            ),
            Command::Resize(_, _) => Some(
                Placement { topmost: true, keeps_place: true, keeps_size: false },
            ),
            _ => None,
        }
    }

    /// Says how the command places the window: a window that is moved keeps its size, one that is
    /// resized keeps its place, and either stays on top. No other command places it.
    pub fn placement(self) -> (p: Option<Placement>)
        ensures
            p == self.placed(),
    {
        match self {
            Command::Follow => Some(
                Placement { topmost: true, keeps_place: false, keeps_size: true },
            ),
            Command::Resize(_, _) => Some(
                Placement { topmost: true, keeps_place: true, keeps_size: false },
            ),
            _ => None,
        }
    }

    /// What the message is answered with, unless the system answers it.
    pub open spec fn answer(self) -> Option<isize> {
        match self {
            Command::Default => None,
            Command::KeepBackground => Some(1),
            _ => Some(0),
        }
    }

    /// Gives the answer to the message, unless the system answers it.
    pub fn reply(self) -> (r: Option<isize>)
        ensures
            r == self.answer(),
    {
        match self {
            Command::Default => None,
            Command::KeepBackground => Some(1),
            _ => Some(0),
        }
    }
}

/// The point of the window that a mouse message is about.
pub open spec fn mouse_at(lparam: isize) -> (int, int) {
    (num::wrap_i16(lparam as int), num::wrap_i16(lparam as int / 0x1_0000))
}

impl WindowState {
    /// The width is one that the wheel can reach.
    pub open spec fn wf(self) -> bool {
        geometry::reachable_width(self.win_w as int)
    }

    /// The window at the start of the program.
    pub open spec fn initial() -> WindowState {
        WindowState {
            win_w: geometry::START_W,
            win_h: geometry::START_H,
            dragging: false,
            drag_off: Point { x: 0, y: 0 },
            btn_hover: false,
        }
    }

    /// The point lies on the close button.
    pub open spec fn on_close(self, at: (int, int)) -> bool {
        self.win_w - 30 <= at.0 < self.win_w - 2 && 2 <= at.1 < 22
    }

    /// The window with width `w` and the proportions of the capture.
    pub open spec fn sized(self, w: int, s: shared::SharedModel) -> WindowState {
        WindowState {
            win_w: w as i32,
            win_h: geometry::win_h_for(w, s.cap_w as int, s.cap_h as int) as i32,
            ..self
        }
    }

    /// What a message does to the window and to the shared state, and what has to be done in
    /// return.
    pub open spec fn handled(
        self,
        s: shared::SharedModel,
        msg: u32,
        wparam: usize,
        lparam: isize,
    ) -> (WindowState, shared::SharedModel, Command) {
        if msg == WM_NCDESTROY {
            (self, s, Command::Forget)
        } else if msg == WM_DESTROY {
            (self, s, Command::Quit)
        } else if msg == WM_KEYDOWN {
            if wparam as int % 0x1_0000 == VK_ESCAPE {
                (self, s, Command::Close)
            } else if wparam as int % 0x100 == KEY_NEXT_MONITOR {
                (
                    self,
                    shared::SharedModel { switch_monitor: true, ..s },
                    Command::Nothing,
                )
            } else {
                (self, s, Command::Nothing)
            }
        } else if msg == WM_RBUTTONUP {
            (self, s, Command::Close)
        } else if msg == WM_LBUTTONDOWN {
            if self.on_close(mouse_at(lparam)) {
                (self, s, Command::Close)
            } else {
                (WindowState { dragging: true, ..self }, s, Command::BeginDrag)
            }
        } else if msg == WM_LBUTTONUP {
            (WindowState { dragging: false, ..self }, s, Command::EndDrag)
        } else if msg == WM_MOUSEMOVE {
            (
                WindowState { btn_hover: self.on_close(mouse_at(lparam)), ..self },
                s,
                if self.dragging {
                    Command::Follow
                } else {
                    Command::Nothing
                },
            )
        } else if msg == WM_MOUSEWHEEL {
            let after = self.sized(
                geometry::wheel_width(
                    self.win_w as int,
                    num::wrap_i16(wparam as int / 0x1_0000),
                ),
                s,
            );
            (after, s, Command::Resize(after.win_w, after.win_h))
        } else if msg == WM_NEWFRAME {
            (self, s.woken(), Command::Render)
        } else if msg == WM_RESIZE_TO_ASPECT {
            let after = self.sized(self.win_w as int, s);
            (after, s, Command::Resize(after.win_w, after.win_h))
        } else if msg == WM_PAINT {
            (self, s, Command::Paint)
        } else if msg == WM_ERASEBKGND {
            (self, s, Command::KeepBackground)
        } else {
            (self, s, Command::Default)
        }
    }

    /// The window at the start of the program.
    pub fn new() -> (w: WindowState)
        ensures
            w == WindowState::initial(),
            w.wf(),
    {
        WindowState {
            win_w: geometry::START_W,
            win_h: geometry::START_H,
            dragging: false,
            drag_off: Point { x: 0, y: 0 },
            btn_hover: false,
        }
    }

    /// Gives the window width `w` and the proportions of the capture.
    fn resize(&mut self, w: i32, shared: &SharedState) -> (c: Command)
        requires
            geometry::MIN_W <= w <= geometry::MAX_W,
        ensures
            *final(self) == old(self).sized(w as int, shared@),
            c == Command::Resize(final(self).win_w, final(self).win_h),
    {
        self.win_w = w;
        self.win_h = geometry::compute_win_h(w, shared.cap_w, shared.cap_h);
        Command::Resize(self.win_w, self.win_h)
    }

    /// Handles a message of the window.
    pub fn handle(
        &mut self,
        shared: &mut SharedState,
        msg: u32,
        wparam: usize,
        lparam: isize,
    ) -> (c: Command)
        requires
            old(self).wf(),
        ensures
            (*final(self), final(shared)@, c) == old(self).handled(
                old(shared)@,
                msg,
                wparam,
                lparam,
            ),
            final(self).wf(),
    {
        if msg == WM_NCDESTROY {
            Command::Forget
        } else if msg == WM_DESTROY {
            Command::Quit
        } else if msg == WM_KEYDOWN {
            if wparam % 0x1_0000 == VK_ESCAPE {
                Command::Close
            } else {
                if wparam % 0x100 == KEY_NEXT_MONITOR {
                    shared.switch_monitor = true;
                }
                Command::Nothing
            }
        } else if msg == WM_RBUTTONUP {
            Command::Close
        } else if msg == WM_LBUTTONDOWN {
            if geometry::is_close(self.win_w, num::low_word(lparam), num::high_word(lparam)) {
                Command::Close
            } else {
                self.dragging = true;
                Command::BeginDrag
            }
        } else if msg == WM_LBUTTONUP {
            self.dragging = false;
            Command::EndDrag
        } else if msg == WM_MOUSEMOVE {
            self.btn_hover = geometry::is_close(
                self.win_w,
                num::low_word(lparam),
                num::high_word(lparam),
            );
            if self.dragging {
                Command::Follow
            } else {
                Command::Nothing
            }
        } else if msg == WM_MOUSEWHEEL {
            let delta: i32 = num::wheel_delta(wparam);
            let w: i32 = geometry::wheel_resize(self.win_w, delta);
            proof {
                geometry::law_wheel_reaches_whole_steps(self.win_w as int, delta as int);
            }
            self.resize(w, shared)
        } else if msg == WM_NEWFRAME {
            shared.take_wake();
            Command::Render
        } else if msg == WM_RESIZE_TO_ASPECT {
            self.resize(self.win_w, shared)
        } else if msg == WM_PAINT {
            Command::Paint
        } else if msg == WM_ERASEBKGND {
            Command::KeepBackground
        } else {
            Command::Default
        }
    }

    /// The window taken hold of with the mouse at `cursor` and its upper left corner at `corner`.
    pub open spec fn held(self, cursor: Point, corner: Point) -> WindowState {
        let x = (cursor.x - corner.x) as i32;
        let y = (cursor.y - corner.y) as i32;
        WindowState { drag_off: Point { x, y }, ..self }
    }

    /// Where the upper left corner belongs while the window is moved and the mouse is at `cursor`.
    pub open spec fn corner_for(self, cursor: Point) -> (int, int) {
        (cursor.x - self.drag_off.x, cursor.y - self.drag_off.y)
    }

    /// Remembers where the window was taken hold of: the mouse is at `cursor`, the upper left
    /// corner of the window at `corner`.
    pub fn begin_drag(&mut self, cursor: Point, corner: Point)
        requires
            i32::MIN <= cursor.x - corner.x <= i32::MAX,
            i32::MIN <= cursor.y - corner.y <= i32::MAX,
        ensures
            *final(self) == old(self).held(cursor, corner),
    {
        self.drag_off = Point { x: cursor.x - corner.x, y: cursor.y - corner.y };
    }

    /// Says where the upper left corner of the window belongs while it is moved and the mouse is at
    /// `cursor`.
    pub fn drag_target(&self, cursor: Point) -> (corner: Point)
        requires
            i32::MIN <= cursor.x - self.drag_off.x <= i32::MAX,
            i32::MIN <= cursor.y - self.drag_off.y <= i32::MAX,
        ensures
            (corner.x as int, corner.y as int) == self.corner_for(cursor),
    {
        Point { x: cursor.x - self.drag_off.x, y: cursor.y - self.drag_off.y }
    }
}

/// The window follows the mouse: moved from `start` to `now`, the mouse takes the window along by
/// the same distance, so that it keeps its hold; a mouse that did not move leaves the window where
/// it was.
pub proof fn law_window_follows_the_mouse(w: WindowState, corner: Point, start: Point, now: Point)
    requires
        i32::MIN <= start.x - corner.x <= i32::MAX,
        i32::MIN <= start.y - corner.y <= i32::MAX,
    ensures
        ({
            let (x, y) = w.held(start, corner).corner_for(now);
            &&& x - corner.x == now.x - start.x
            &&& y - corner.y == now.y - start.y
            &&& now == start ==> (x, y) == (corner.x as int, corner.y as int)
        }),
{
}

/// The window is always on top: whatever message arrives, a window that is placed anew lies above
/// all others, and it is either moved or resized, never both. It is resized exactly by the mouse
/// wheel and when the capture size becomes known, and moved exactly by the mouse that drags it.
pub proof fn law_window_stays_on_top(
    w: WindowState,
    s: shared::SharedModel,
    msg: u32,
    wparam: usize,
    lparam: isize,
)
    ensures
        ({
            let placed = w.handled(s, msg, wparam, lparam).2.placed();
            &&& placed matches Some(p) ==> p.topmost && p.keeps_place != p.keeps_size
            &&& (placed matches Some(p) && p.keeps_place) <==> msg == WM_MOUSEWHEEL || msg
                == WM_RESIZE_TO_ASPECT
            &&& (placed matches Some(p) && p.keeps_size) <==> msg == WM_MOUSEMOVE && w.dragging
        }),
{
}

/// Each of the three ways to close the window closes it and changes nothing else: the escape key,
/// the right mouse button, and a click on the close button.
pub proof fn law_ways_to_close(w: WindowState, s: shared::SharedModel, wparam: usize, lparam: isize)
    ensures
        wparam as int % 0x1_0000 == VK_ESCAPE ==> w.handled(s, WM_KEYDOWN, wparam, lparam) == (
            w,
            s,
            Command::Close,
        ),
        w.handled(s, WM_RBUTTONUP, wparam, lparam) == (w, s, Command::Close),
        w.on_close(mouse_at(lparam)) ==> w.handled(s, WM_LBUTTONDOWN, wparam, lparam) == (
            w,
            s,
            Command::Close,
        ),
{
}

/// No message touches what the capture thread relies on: of the shared state a message changes at
/// most whether the next monitor is asked for and whether a frame waits to be drawn, and it never
/// takes back a request for the next monitor.
pub proof fn law_messages_spare_the_capture(
    w: WindowState,
    s: shared::SharedModel,
    msg: u32,
    wparam: usize,
    lparam: isize,
)
    ensures
        ({
            let after = w.handled(s, msg, wparam, lparam).1;
            &&& after == (shared::SharedModel {
                switch_monitor: after.switch_monitor,
                wake_pending: after.wake_pending,
                ..s
            })
            &&& s.switch_monitor ==> after.switch_monitor
            &&& after.wake_pending ==> s.wake_pending
        }),
{
}

/// Whatever messages arrive, the window keeps a width that the wheel can reach, and it is drawn and
/// shown with the size that it was last given.
pub proof fn law_size_stays_within_bounds(
    w: WindowState,
    s: shared::SharedModel,
    msg: u32,
    wparam: usize,
    lparam: isize,
)
    requires
        w.wf(),
    ensures
        ({
            let (after, _, c) = w.handled(s, msg, wparam, lparam);
            &&& after.wf()
            &&& geometry::MIN_W <= after.win_w <= geometry::MAX_W
            &&& (after.win_w, after.win_h) != (w.win_w, w.win_h) ==> c == Command::Resize(
                after.win_w,
                after.win_h,
            )
        }),
{
    geometry::law_wheel_reaches_whole_steps(
        w.win_w as int,
        num::wrap_i16(wparam as int / 0x1_0000),
    );
}

/// Everything but the creation of the window is for the window itself as long as it has a state,
/// and for the system otherwise.
pub proof fn law_window_deals_with_its_messages(msg: u32, has_state: bool)
    ensures
        routed(msg, has_state) == Route::Adopt <==> msg == WM_NCCREATE,
        routed(msg, has_state) == Route::Window <==> has_state && msg != WM_NCCREATE,
        routed(msg, has_state) == Route::System <==> !has_state && msg != WM_NCCREATE,
{
}

/// The parameter of a message holds the signed numbers `low` and `high` in its two lowest words.
pub open spec fn holds_words(param: int, low: int, high: int) -> bool {
    &&& -0x8000 <= low < 0x8000
    &&& -0x8000 <= high < 0x8000
    &&& (param - low) % 0x1_0000 == 0
    &&& (param / 0x1_0000 - high) % 0x1_0000 == 0
}

/// Every parameter holds two such numbers.
pub proof fn law_every_parameter_holds_words(param: int)
    ensures
        exists|low: int, high: int| holds_words(param, low, high),
{
    let (low, high) = (num::wrap_i16(param), num::wrap_i16(param / 0x1_0000));
    num::law_narrowing_keeps_the_low_bits(param, low);
    num::law_narrowing_keeps_the_low_bits(param / 0x1_0000, high);
    assert(holds_words(param, low, high));
}

/// The point of a mouse message, and the turn of the wheel, are what the parameter holds.
proof fn lemma_words(param: int, low: int, high: int)
    requires
        holds_words(param, low, high),
    ensures
        num::wrap_i16(param) == low,
        num::wrap_i16(param / 0x1_0000) == high,
{
    num::law_narrowing_keeps_the_low_bits(param, low);
    num::law_narrowing_keeps_the_low_bits(param / 0x1_0000, high);
}

/// The window can be dragged from anywhere: the left button, pressed at any point that does not
/// lie on the close button, takes hold of the window, and nothing else changes. On the close
/// button, and only there, it closes the window.
pub proof fn law_window_is_taken_hold_of_anywhere(
    w: WindowState,
    s: shared::SharedModel,
    wparam: usize,
    lparam: isize,
    x: int,
    y: int,
)
    requires
        holds_words(lparam as int, x, y),
    ensures
        ({
            let (after, shared, c) = w.handled(s, WM_LBUTTONDOWN, wparam, lparam);
            let on_button = w.win_w - 30 <= x < w.win_w - 2 && 2 <= y < 22;
            &&& c == Command::Close <==> on_button
            &&& c == Command::BeginDrag <==> !on_button
            &&& on_button ==> after == w
            &&& !on_button ==> after.dragging && after == (WindowState {
                dragging: after.dragging,
                ..w
            })
            &&& shared == s
        }),
{
    lemma_words(lparam as int, x, y);
}

/// A mouse that moves lights up the close button exactly while it is over it, and takes along a
/// window that was taken hold of, wherever it is. Nothing else changes.
pub proof fn law_mouse_moves_the_held_window(
    w: WindowState,
    s: shared::SharedModel,
    wparam: usize,
    lparam: isize,
    x: int,
    y: int,
)
    requires
        holds_words(lparam as int, x, y),
    ensures
        ({
            let (after, shared, c) = w.handled(s, WM_MOUSEMOVE, wparam, lparam);
            &&& after.btn_hover <==> w.win_w - 30 <= x < w.win_w - 2 && 2 <= y < 22
            &&& after == (WindowState { btn_hover: after.btn_hover, ..w })
            &&& shared == s
            &&& w.dragging ==> c == Command::Follow
            &&& !w.dragging ==> c == Command::Nothing
        }),
{
    lemma_words(lparam as int, x, y);
}

/// The window is let go when the left button is released, wherever the mouse is, and nothing else
/// changes.
pub proof fn law_window_is_let_go(
    w: WindowState,
    s: shared::SharedModel,
    wparam: usize,
    lparam: isize,
)
    ensures
        ({
            let (after, shared, c) = w.handled(s, WM_LBUTTONUP, wparam, lparam);
            &&& c == Command::EndDrag
            &&& !after.dragging
            &&& after == (WindowState { dragging: after.dragging, ..w })
            &&& shared == s
        }),
{
}

/// What a window remembers when it is taken hold of is the distance of the mouse from its corner,
/// and nothing else changes; and its corner is kept at that distance from the mouse.
pub proof fn law_hold_is_kept(w: WindowState, cursor: Point, corner: Point, now: Point)
    requires
        i32::MIN <= cursor.x - corner.x <= i32::MAX,
        i32::MIN <= cursor.y - corner.y <= i32::MAX,
    ensures
        ({
            let held = w.held(cursor, corner);
            &&& corner.x + held.drag_off.x == cursor.x
            &&& corner.y + held.drag_off.y == cursor.y
            &&& held == (WindowState { drag_off: held.drag_off, ..w })
        }),
        w.corner_for(now).0 + w.drag_off.x == now.x,
        w.corner_for(now).1 + w.drag_off.y == now.y,
{
}

/// The key for the next monitor asks for it, whatever the window does, whichever monitor is
/// captured and whichever way; and nothing else asks for it or takes the request back. The escape
/// key closes the window; no other key does anything to it.
pub proof fn law_key_asks_for_the_next_monitor(
    w: WindowState,
    s: shared::SharedModel,
    msg: u32,
    wparam: usize,
    lparam: isize,
)
    ensures
        ({
            let (after, shared, c) = w.handled(s, msg, wparam, lparam);
            let pressed = msg == WM_KEYDOWN && wparam as int % 0x100 == 77 && wparam as int
                % 0x1_0000 != 27;
            &&& pressed ==> shared.switch_monitor
            &&& !pressed ==> shared.switch_monitor == s.switch_monitor
            &&& msg == WM_KEYDOWN ==> after == w && shared == (shared::SharedModel {
                switch_monitor: shared.switch_monitor,
                ..s
            })
            &&& msg == WM_KEYDOWN ==> (c == Command::Close <==> wparam as int % 0x1_0000 == 27)
            &&& msg == WM_KEYDOWN ==> (c == Command::Nothing <==> wparam as int % 0x1_0000 != 27)
        }),
{
}

/// A window `after` with the height that its width and the captured size call for: the height that
/// keeps the proportions, rounded down and narrowed to 32 bits, or that of a 16:9 screen while no
/// size is known.
pub open spec fn in_proportion(after: WindowState, s: shared::SharedModel) -> bool {
    if s.cap_w > 0 && s.cap_h > 0 {
        &&& after.win_w * s.cap_h < 0x8000_0000 * s.cap_w ==> {
            &&& after.win_h * s.cap_w <= after.win_w * s.cap_h
            &&& after.win_w * s.cap_h < (after.win_h + 1) * s.cap_w
        }
        &&& (after.win_h - after.win_w * s.cap_h / (s.cap_w as int)) % 0x1_0000_0000 == 0
    } else {
        after.win_h * 16 <= after.win_w * 9 < (after.win_h + 1) * 16
    }
}

/// A window that was given a width has the height that belongs to it.
proof fn lemma_sized(w: WindowState, width: int, s: shared::SharedModel)
    requires
        0 <= width <= 0x7fff_ffff,
        !(s.cap_w > 0 && s.cap_h > 0) ==> width <= 0x1000_0000,
    ensures
        ({
            let after = w.sized(width, s);
            &&& after.win_w == width
            &&& in_proportion(after, s)
            &&& after == (WindowState { win_w: after.win_w, win_h: after.win_h, ..w })
        }),
{
    let (cap_w, cap_h) = (s.cap_w as int, s.cap_h as int);
    geometry::law_height_follows_the_width(width, cap_w, cap_h, 0);
    if cap_w > 0 && cap_h > 0 {
        let (a, q) = (width * cap_h, width * cap_h / cap_w);
        assert(a >= 0) by (nonlinear_arith)
            requires
                a == width * cap_h,
                width >= 0,
                cap_h > 0,
        ;
        assert(q * cap_w <= a < (q + 1) * cap_w) by (nonlinear_arith)
            requires
                a >= 0,
                cap_w > 0,
                q == a / cap_w,
        ;
        geometry::law_height_follows_the_width(width, cap_w, cap_h, q);
    }
    if cap_w > 0 && cap_h > 0 && width * cap_h < 0x8000_0000 * cap_w {
        let a = width * cap_h;
        assert(a >= 0) by (nonlinear_arith)
            requires
                a == width * cap_h,
                width >= 0,
                cap_h > 0,
        ;
        assert(a / cap_w <= i32::MAX) by (nonlinear_arith)
            requires
                0 <= a < 0x8000_0000 * cap_w,
                cap_w > 0,
        ;
        geometry::law_aspect_is_kept(width, cap_w, cap_h);
    }
}

/// The mouse wheel resizes the window by one step and keeps the proportions of the captured
/// monitor: a positive turn widens it by 80 pixels up to 1280, any other narrows it by as much
/// down to 320, and the height is the one that belongs to the new width. Nothing else changes.
pub proof fn law_wheel_keeps_the_proportions(
    w: WindowState,
    s: shared::SharedModel,
    wparam: usize,
    lparam: isize,
    low: int,
    turn: int,
)
    requires
        holds_words(wparam as int, low, turn),
        320 <= w.win_w <= 1280,
    ensures
        ({
            let (after, shared, c) = w.handled(s, WM_MOUSEWHEEL, wparam, lparam);
            &&& turn > 0 && w.win_w <= 1200 ==> after.win_w == w.win_w + 80
            &&& turn > 0 && w.win_w > 1200 ==> after.win_w == 1280
            &&& turn <= 0 && w.win_w >= 400 ==> after.win_w == w.win_w - 80
            &&& turn <= 0 && w.win_w < 400 ==> after.win_w == 320
            &&& in_proportion(after, s)
            &&& c == Command::Resize(after.win_w, after.win_h)
            &&& after == (WindowState { win_w: after.win_w, win_h: after.win_h, ..w })
            &&& shared == s
        }),
{
    lemma_words(wparam as int, low, turn);
    geometry::law_wheel_moves_by_one_step(w.win_w as int, turn);
    lemma_sized(w, geometry::wheel_width(w.win_w as int, turn), s);
}

/// When the capture size becomes known the window keeps its width and takes the height that belongs
/// to it. Nothing else changes.
pub proof fn law_window_takes_the_proportions(
    w: WindowState,
    s: shared::SharedModel,
    wparam: usize,
    lparam: isize,
)
    requires
        320 <= w.win_w <= 1280,
    ensures
        ({
            let (after, shared, c) = w.handled(s, WM_RESIZE_TO_ASPECT, wparam, lparam);
            &&& after.win_w == w.win_w
            &&& in_proportion(after, s)
            &&& c == Command::Resize(after.win_w, after.win_h)
            &&& after == (WindowState { win_h: after.win_h, ..w })
            &&& shared == s
        }),
{
    lemma_sized(w, w.win_w as int, s);
}

/// The size that a window is given depends on its width and on the captured size alone: two windows
/// of one width are given one size, whatever else is true of them.
pub proof fn law_size_depends_on_width_and_capture(
    w: WindowState,
    v: WindowState,
    s: shared::SharedModel,
    t: shared::SharedModel,
    wparam: usize,
    lparam: isize,
)
    requires
        w.win_w == v.win_w,
        s.cap_w == t.cap_w,
        s.cap_h == t.cap_h,
    ensures
        w.handled(s, WM_MOUSEWHEEL, wparam, lparam).2 == v.handled(t, WM_MOUSEWHEEL, wparam, 0).2,
        w.handled(s, WM_RESIZE_TO_ASPECT, wparam, lparam).2 == v.handled(
            t,
            WM_RESIZE_TO_ASPECT,
            0,
            0,
        ).2,
{
}

/// Which message does what: each thing that can be done with the window is done on its own messages
/// and on no others, and a message that the window does not know is left to the system.
pub proof fn law_each_message_does_its_own(
    w: WindowState,
    s: shared::SharedModel,
    msg: u32,
    wparam: usize,
    lparam: isize,
    x: int,
    y: int,
)
    requires
        holds_words(lparam as int, x, y),
    ensures
        ({
            let (after, shared, c) = w.handled(s, msg, wparam, lparam);
            let on_button = w.win_w - 30 <= x < w.win_w - 2 && 2 <= y < 22;
            let known = msg == 0x0002 || msg == 0x000F || msg == 0x0014 || msg == 0x0082 || msg
                == 0x0100 || msg == 0x0200 || msg == 0x0201 || msg == 0x0202 || msg == 0x0205
                || msg == 0x020A || msg == 0x8001 || msg == 0x8002;
            &&& c == Command::Default <==> !known
            &&& c == Command::Forget <==> msg == 0x0082
            &&& c == Command::Quit <==> msg == 0x0002
            &&& c == Command::Close <==> {
                ||| msg == 0x0100 && wparam as int % 0x1_0000 == 27
                ||| msg == 0x0205
                ||| msg == 0x0201 && on_button
            }
            &&& c == Command::BeginDrag <==> msg == 0x0201 && !on_button
            &&& c == Command::EndDrag <==> msg == 0x0202
            &&& c == Command::Follow <==> msg == 0x0200 && w.dragging
            &&& c == Command::Resize(after.win_w, after.win_h) <==> msg == 0x020A || msg == 0x8002
            &&& c == Command::Render <==> msg == 0x8001
            &&& c == Command::Paint <==> msg == 0x000F
            &&& c == Command::KeepBackground <==> msg == 0x0014
            &&& after.dragging != w.dragging ==> msg == 0x0201 || msg == 0x0202
            &&& after.btn_hover != w.btn_hover ==> msg == 0x0200
            &&& after.drag_off == w.drag_off
            &&& after.win_w != w.win_w ==> msg == 0x020A
            &&& after.win_h != w.win_h ==> msg == 0x020A || msg == 0x8002
            &&& msg == 0x8001 ==> !shared.wake_pending
            &&& msg != 0x8001 ==> shared.wake_pending == s.wake_pending
            &&& shared == (shared::SharedModel {
                switch_monitor: shared.switch_monitor,
                wake_pending: shared.wake_pending,
                ..s
            })
        }),
{
    lemma_words(lparam as int, x, y);
}

/// Every message that the window deals with is answered with zero, but for the background, which
/// is reported as done; the rest is answered by the system. Only a window that follows the mouse or
/// is resized is placed anew: always on top, keeping its size or its place.
pub proof fn law_commands_are_answered_and_placed(c: Command)
    ensures
        c.answer().is_none() <==> c == Command::Default,
        c.answer() == Some(1isize) <==> c == Command::KeepBackground,
        c.answer() == Some(0isize) <==> c != Command::Default && c != Command::KeepBackground,
        c.placed().is_some() <==> c == Command::Follow || c is Resize,
        c.placed() matches Some(p) ==> p.topmost,
        c.placed() matches Some(p) ==> (p.keeps_size <==> c == Command::Follow),
        c.placed() matches Some(p) ==> (p.keeps_place <==> c is Resize),
{
}

} // verus!
