//! Sizes, positions and colours of the mirror window.

use vstd::prelude::*;

use crate::num;

verus! {

/// Narrowest mirror window, in pixels.
pub const MIN_W: i32 = 320;

/// Widest mirror window, in pixels.
pub const MAX_W: i32 = 1280;

/// Width gained or lost by one turn of the mouse wheel.
pub const STEP: i32 = 80;

/// Width of the window when the program starts.
pub const START_W: i32 = 800;

/// Height of the window when the program starts.
pub const START_H: i32 = 450;

/// A point on the screen or in the window.
#[derive(Clone, Copy, Debug, PartialEq, Eq, Structural)]
pub struct Point {
    pub x: i32,
    pub y: i32,
}

/// A rectangle: `left` and `top` are inside, `right` and `bottom` are outside.
#[derive(Clone, Copy, Debug, PartialEq, Eq, Structural)]
pub struct Rect {
    pub left: i32,
    pub top: i32,
    pub right: i32,
    pub bottom: i32,
}

impl Rect {
    /// The pixel `(x, y)` belongs to the rectangle.
    pub open spec fn covers(self, x: int, y: int) -> bool {
        self.left <= x < self.right && self.top <= y < self.bottom
    }
}

/// Height that gives a window of width `w` the proportions of a `cap_w` by `cap_h` capture, or
/// those of a 16:9 screen while no capture size is known.
pub open spec fn win_h_for(w: int, cap_w: int, cap_h: int) -> int {
    if cap_w > 0 && cap_h > 0 {
        num::wrap_i32(num::trunc_div(w * cap_h, cap_w))
    } else {
        num::trunc_div(w * 9, 16)
    }
}

/// Computes the window height for a window width; see [`win_h_for`].
pub fn compute_win_h(w: i32, cap_w: i32, cap_h: i32) -> (h: i32)
    requires
        !(cap_w > 0 && cap_h > 0) ==> i32::MIN <= w * 9 <= i32::MAX,
    ensures
        h == win_h_for(w as int, cap_w as int, cap_h as int),
{
    if cap_w > 0 && cap_h > 0 {
        assert(-0x8000_0000 * 0x7fff_ffff <= w * cap_h <= 0x7fff_ffff * 0x7fff_ffff)
            by (nonlinear_arith)
            requires
                -0x8000_0000 <= w <= 0x7fff_ffff,
                0 < cap_h <= 0x7fff_ffff,
        ;
        let area: i64 = (w as i64) * (cap_h as i64);
        num::narrow(area / (cap_w as i64))
    } else {
        w * 9 / 16
    }
}

/// The window keeps the proportions of the capture: its height is the exact one rounded down,
/// so the picture is distorted by less than one pixel row.
pub proof fn law_aspect_is_kept(w: int, cap_w: int, cap_h: int)
    requires
        w >= 0,
        cap_w > 0,
        cap_h > 0,
        w * cap_h / cap_w <= i32::MAX,
    ensures
        win_h_for(w, cap_w, cap_h) * cap_w <= w * cap_h,
        w * cap_h < (win_h_for(w, cap_w, cap_h) + 1) * cap_w,
        win_h_for(w, cap_w, cap_h) >= 0,
{
    let a = w * cap_h;
    assert(a >= 0) by (nonlinear_arith)
        requires
            a == w * cap_h,
            w >= 0,
            cap_h > 0,
    ;
    let q = a / cap_w;
    assert(q * cap_w <= a < (q + 1) * cap_w && q >= 0) by (nonlinear_arith)
        requires
            a >= 0,
            cap_w > 0,
            q == a / cap_w,
    ;
    assert(q % 0x1_0000_0000 == q);
}

/// The width after one turn of the wheel, kept between the narrowest and the widest window.
pub open spec fn wheel_width(w: int, delta: int) -> int {
    let target = if delta > 0 {
        w + STEP
    } else {
        w - STEP
    };
    if target < MIN_W {
        MIN_W as int
    } else if target > MAX_W {
        MAX_W as int
    } else {
        target
    }
}

/// Computes the width after one turn of the wheel: a positive `delta` widens the window by
/// [`STEP`], any other narrows it.
pub fn wheel_resize(w: i32, delta: i32) -> (nw: i32)
    requires
        delta > 0 ==> w + STEP <= i32::MAX,
        delta <= 0 ==> w - STEP >= i32::MIN,
    ensures
        nw == wheel_width(w as int, delta as int),
        MIN_W <= nw <= MAX_W,
{
    let d: i32 = if delta > 0 {
        1
    } else {
        -1
    };
    let target: i32 = w + d * STEP;
    if target < MIN_W {
        MIN_W
    } else if target > MAX_W {
        MAX_W
    } else {
        target
    }
}

/// A width that the wheel can reach from the width at the start.
pub open spec fn reachable_width(w: int) -> bool {
    MIN_W <= w <= MAX_W && w % (STEP as int) == 0
}

/// The start width is one that the wheel can reach, and every turn of the wheel leads to another
/// such width.
pub proof fn law_wheel_reaches_whole_steps(w: int, delta: int)
    requires
        reachable_width(w),
    ensures
        reachable_width(START_W as int),
        reachable_width(wheel_width(w, delta)),
{
}

/// Turning the wheel back undoes a turn, unless the window already had the extreme width.
pub proof fn law_wheel_turns_back(w: int, up: int, down: int)
    requires
        reachable_width(w),
        up > 0,
        down <= 0,
    ensures
        w < MAX_W ==> wheel_width(wheel_width(w, up), down) == w,
        w > MIN_W ==> wheel_width(wheel_width(w, down), up) == w,
        wheel_width(MAX_W as int, up) == MAX_W,
        wheel_width(MIN_W as int, down) == MIN_W,
{
}

/// Where the close button of a window of width `w` is.
pub open spec fn close_area(w: int) -> Rect {
    Rect { left: (w - 30) as i32, top: 2, right: (w - 2) as i32, bottom: 22 }
}

/// Where the status line of a `w` by `h` window is.
pub open spec fn status_area(w: int, h: int) -> Rect {
    Rect { left: 4, top: (h - 18) as i32, right: (w - 34) as i32, bottom: h as i32 }
}

/// The close button is 28 pixels wide and 20 high, two pixels from the upper right corner; the
/// status line fills the lowest 18 rows from the fifth pixel on and ends before the button begins.
pub proof fn law_button_and_status_line_have_their_places(w: int, h: int, x: int, y: int)
    requires
        i32::MIN + 34 <= w <= i32::MAX,
        i32::MIN + 18 <= h <= i32::MAX,
    ensures
        close_area(w).covers(x, y) <==> w - 30 <= x < w - 2 && 2 <= y < 22,
        status_area(w, h).covers(x, y) <==> 4 <= x < w - 34 && h - 18 <= y < h,
        !(close_area(w).covers(x, y) && status_area(w, h).covers(x, y)),
{
}

/// Tells whether the pixel `(x, y)` of a window of width `w` lies on the close button.
pub fn is_close(w: i32, x: i32, y: i32) -> (hit: bool)
    requires
        w - 30 >= i32::MIN,
    ensures
        hit == (w - 30 <= x < w - 2 && 2 <= y < 22),
        hit == close_area(w as int).covers(x as int, y as int),
{
    x >= w - 30 && x < w - 2 && y >= 2 && y < 22
}

/// The rectangle in which the close button of a window of width `w` is drawn.
pub fn close_rect(w: i32) -> (r: Rect)
    requires
        w - 30 >= i32::MIN,
    ensures
        r == (Rect { left: (w - 30) as i32, top: 2, right: (w - 2) as i32, bottom: 22 }),
        r == close_area(w as int),
        forall|x: int, y: int| #[trigger]
            r.covers(x, y) <==> (w - 30 <= x < w - 2 && 2 <= y < 22),
{
    Rect { left: w - 30, top: 2, right: w - 2, bottom: 22 }
}

/// The rectangle of the status line of a `w` by `h` window.
pub fn overlay_rect(w: i32, h: i32) -> (r: Rect)
    requires
        w - 34 >= i32::MIN,
        h - 18 >= i32::MIN,
    ensures
        r == (Rect { left: 4, top: (h - 18) as i32, right: (w - 34) as i32, bottom: h }),
        r == status_area(w as int, h as int),
{
    Rect { left: 4, top: h - 18, right: w - 34, bottom: h }
}

/// Where a window of size `win` starts in the middle of a screen of size `screen`.
pub open spec fn middle(screen: int, win: int) -> int {
    num::trunc_div(screen - win, 2)
}

/// Where a window of size `win` starts on a screen of size `screen` to stand in its middle.
pub fn centered(screen: i32, win: i32) -> (at: i32)
    requires
        i32::MIN <= screen - win <= i32::MAX,
    ensures
        at == num::trunc_div(screen - win, 2),
        at == middle(screen as int, win as int),
{
    (screen - win) / 2
}

/// A colour as GDI wants it: red in the low byte, green and blue above it.
pub open spec fn color(r: u32, g: u32, b: u32) -> u32 {
    r | (g << 8) | (b << 16)
}

/// Packs a colour as GDI wants it: red in the low byte, green and blue above it.
pub fn rgb(r: u32, g: u32, b: u32) -> (c: u32)
    ensures
        c == r | (g << 8) | (b << 16),
        c == color(r, g, b),
        r < 256 && g < 256 && b < 256 ==> c == r + 256 * g + 65536 * b,
{
    assert(r < 256 && g < 256 && b < 256 ==> (r | (g << 8) | (b << 16)) == r + 256 * g + 65536 * b)
        by (bit_vector);
    r | (g << 8) | (b << 16)
}

/// The height that belongs to a width, whatever is known of the capture: with a known capture size
/// it is the quotient `q` that keeps the proportions, rounded toward zero and narrowed to 32 bits;
/// otherwise it is that of a 16:9 screen.
pub proof fn law_height_follows_the_width(w: int, cap_w: int, cap_h: int, q: int)
    ensures
        cap_w > 0 && cap_h > 0 && w >= 0 && q * cap_w <= w * cap_h < (q + 1) * cap_w ==> (win_h_for(
            w,
            cap_w,
            cap_h,
        ) - q) % 0x1_0000_0000 == 0,
        cap_w > 0 && cap_h > 0 && w <= 0 && (q - 1) * cap_w < w * cap_h <= q * cap_w ==> (win_h_for(
            w,
            cap_w,
            cap_h,
        ) - q) % 0x1_0000_0000 == 0,
        cap_w > 0 && cap_h > 0 ==> i32::MIN <= win_h_for(w, cap_w, cap_h) <= i32::MAX,
        !(cap_w > 0 && cap_h > 0) && w >= 0 ==> win_h_for(w, cap_w, cap_h) * 16 <= w * 9 < (
        win_h_for(w, cap_w, cap_h) + 1) * 16,
        !(cap_w > 0 && cap_h > 0) && w <= 0 ==> (win_h_for(w, cap_w, cap_h) - 1) * 16 < w * 9
            <= win_h_for(w, cap_w, cap_h) * 16,
{
    if cap_w > 0 && cap_h > 0 {
        let a = w * cap_h;
        let t = num::trunc_div(a, cap_w);
        num::law_division_rounds_toward_zero(a, cap_w);
        num::law_narrowing_keeps_the_low_bits(t, t);
        assert(w >= 0 ==> a >= 0) by (nonlinear_arith)
            requires
                a == w * cap_h,
                cap_h > 0,
        ;
        assert(w <= 0 ==> a <= 0) by (nonlinear_arith)
            requires
                a == w * cap_h,
                cap_h > 0,
        ;
        assert(t * cap_w <= a < (t + 1) * cap_w && q * cap_w <= a < (q + 1) * cap_w ==> t == q)
            by (nonlinear_arith)
            requires
                cap_w > 0,
        ;
        assert((t - 1) * cap_w < a <= t * cap_w && (q - 1) * cap_w < a <= q * cap_w ==> t == q)
            by (nonlinear_arith)
            requires
                cap_w > 0,
        ;
        let h = num::wrap_i32(t);
        assert((h - t) % 0x1_0000_0000 == 0);
    } else {
        num::law_division_rounds_toward_zero(w * 9, 16);
    }
}

/// One turn of the wheel changes the width by 80 pixels, up for a positive turn and down for any
/// other, within 320 and 1280 pixels.
pub proof fn law_wheel_moves_by_one_step(w: int, delta: int)
    ensures
        320 <= wheel_width(w, delta) <= 1280,
        delta > 0 && 320 <= w + 80 <= 1280 ==> wheel_width(w, delta) == w + 80,
        delta <= 0 && 320 <= w - 80 <= 1280 ==> wheel_width(w, delta) == w - 80,
        delta > 0 && w + 80 > 1280 ==> wheel_width(w, delta) == 1280,
        delta <= 0 && w - 80 < 320 ==> wheel_width(w, delta) == 320,
        delta > 0 && w + 80 < 320 ==> wheel_width(w, delta) == 320,
        delta <= 0 && w - 80 > 1280 ==> wheel_width(w, delta) == 1280,
{
}

/// The window stands in the middle: what is left free on one side differs from what is left free
/// on the other by at most one pixel, which falls to the far side.
pub proof fn law_window_starts_in_the_middle(screen: int, win: int)
    ensures
        ({
            let near = middle(screen, win);
            let far = screen - win - near;
            if screen >= win {
                0 <= far - near <= 1
            } else {
                -1 <= far - near <= 0
            }
        }),
{
}

/// Each channel of a colour can be told from it.
pub proof fn law_colour_keeps_its_channels(r: u32, g: u32, b: u32)
    requires
        r < 256,
        g < 256,
        b < 256,
    ensures
        color(r, g, b) as int % 256 == r,
        color(r, g, b) as int / 256 % 256 == g,
        color(r, g, b) as int / 65536 == b,
{
    assert((r | (g << 8) | (b << 16)) == r + 256 * g + 65536 * b) by (bit_vector)
        requires
            r < 256,
            g < 256,
            b < 256,
    ;
}

} // verus!
