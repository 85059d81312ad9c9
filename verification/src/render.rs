//! Drawing a frame: what is drawn where, and what is kept from one frame to the next.

use vstd::prelude::*;

use crate::frame;
use crate::geometry;
use crate::geometry::{Point, Rect};
use crate::num;
use crate::shared::{Mode, SharedModel, SharedState};
use crate::text;
use crate::window::WindowState;

verus! {

/// The format of a picture of four bytes per pixel.
#[derive(Clone, Copy, Debug, PartialEq, Eq, Structural)]
pub struct BitmapHeader {
    pub width: i32,
    /// Negative, because the rows come from top to bottom.
    pub height: i32,
    pub planes: u16,
    pub bit_count: u16,
}

impl BitmapHeader {
    /// The format of a `w` by `h` picture whose rows come from top to bottom.
    pub open spec fn from_the_top(w: i32, h: i32) -> BitmapHeader {
        BitmapHeader { width: w, height: (-h) as i32, planes: 1, bit_count: 32 }
    }

    /// Gives the format of a `w` by `h` picture whose rows come from top to bottom.
    pub fn top_down(w: i32, h: i32) -> (b: BitmapHeader)
        requires
            h > i32::MIN,
        ensures
            b == (BitmapHeader { width: w, height: (-h) as i32, planes: 1, bit_count: 32 }),
            b == BitmapHeader::from_the_top(w, h),
    {
        BitmapHeader { width: w, height: -h, planes: 1, bit_count: 32 }
    }
}

/// Counts the drawn frames and says how many there were in the last full second.
#[derive(Clone, Copy, Debug, PartialEq, Eq, Structural)]
pub struct FpsCounter {
    pub fps: i32,
    /// Frames since the last full second.
    pub f_count: i32,
    /// When the last full second ended, in milliseconds of a clock that wraps around.
    pub f_time: u32,
}

/// Milliseconds from `then` to `now` on a clock that wraps around.
pub open spec fn elapsed(then_ms: u32, now_ms: u32) -> int {
    (now_ms - then_ms) % 0x1_0000_0000
}

impl FpsCounter {
    /// The counter after a frame was drawn at the time `now`.
    pub open spec fn ticked(self, now: u32) -> FpsCounter {
        if elapsed(self.f_time, now) >= 1000 {
            FpsCounter { fps: (self.f_count + 1) as i32, f_count: 0, f_time: now }
        } else {
            FpsCounter { f_count: (self.f_count + 1) as i32, ..self }
        }
    }

    /// Nothing counted yet, at the time `now`.
    pub open spec fn started(now: u32) -> FpsCounter {
        FpsCounter { fps: 0, f_count: 0, f_time: now }
    }

    /// Starts to count, at the time `now`.
    pub fn new(now: u32) -> (c: FpsCounter)
        ensures
            c == (FpsCounter { fps: 0, f_count: 0, f_time: now }),
            c == FpsCounter::started(now),
    {
        FpsCounter { fps: 0, f_count: 0, f_time: now }
    }

    /// Counts a frame that was drawn at the time `now`.
    pub fn tick(&mut self, now: u32)
        requires
            old(self).f_count < i32::MAX,
        ensures
            *final(self) == old(self).ticked(now),
    {
        self.f_count = self.f_count + 1;
        if now.wrapping_sub(self.f_time) >= 1000 {
            self.fps = self.f_count;
            self.f_count = 0;
            self.f_time = now;
        }
    }

    /// The counter after frames were drawn at all of `times`.
    pub open spec fn after(self, times: Seq<u32>) -> FpsCounter
        decreases times.len(),
    {
        if times.len() == 0 {
            self
        } else {
            self.after(times.drop_last()).ticked(times.last())
        }
    }
}

/// The shown rate is the number of frames drawn since the rate was last renewed, and it is renewed
/// by the first frame that is drawn at least a second after that.
pub proof fn law_rate_counts_the_frames(c: FpsCounter, times: Seq<u32>, last: u32)
    requires
        c.f_count == 0,
        times.len() < i32::MAX,
        forall|i: int| 0 <= i < times.len() ==> elapsed(c.f_time, #[trigger] times[i]) < 1000,
    ensures
        c.after(times) == (FpsCounter { f_count: times.len() as i32, ..c }),
        elapsed(c.f_time, last) >= 1000 ==> c.after(times.push(last)) == (FpsCounter {
            fps: (times.len() + 1) as i32,
            f_count: 0,
            f_time: last,
        }),
    decreases times.len(),
{
    assert(times.push(last).drop_last() =~= times);
    if times.len() > 0 {
        let rest = times.drop_last();
        assert forall|i: int| 0 <= i < rest.len() implies elapsed(c.f_time, #[trigger] rest[i])
            < 1000 by {
            assert(rest[i] == times[i]);
        }
        law_rate_counts_the_frames(c, rest, last);
        assert(times.last() == times[times.len() - 1]);
    }
}

/// The memory surface on which a frame is put together: `C` is its drawing context, `B` its bitmap.
#[derive(Debug, PartialEq)]
pub struct MemSurface<C, B> {
    pub mem_dc: Option<C>,
    pub mem_bmp: Option<B>,
    pub mem_w: i32,
    pub mem_h: i32,
}

impl<C, B> MemSurface<C, B> {
    /// No surface yet.
    pub fn new() -> (m: MemSurface<C, B>)
        ensures
            m == (MemSurface::<C, B> { mem_dc: None, mem_bmp: None, mem_w: 0, mem_h: 0 }),
    {
        MemSurface { mem_dc: None, mem_bmp: None, mem_w: 0, mem_h: 0 }
    }

    /// The surface made ready for the size `w` by `h`, and what has to be deleted for that.
    pub open spec fn prepared(self, w: i32, h: i32) -> (
        MemSurface<C, B>,
        Option<(Option<B>, Option<C>)>,
    ) {
        if self.mem_w == w && self.mem_h == h {
            (self, None)
        } else {
            (
                MemSurface { mem_dc: None, mem_bmp: None, ..self },
                Some((self.mem_bmp, self.mem_dc)),
            )
        }
    }

    /// A newly made surface.
    pub open spec fn made(dc: Option<C>, bmp: B, w: i32, h: i32) -> MemSurface<C, B> {
        MemSurface { mem_dc: dc, mem_bmp: Some(bmp), mem_w: w, mem_h: h }
    }

    /// Makes ready for a `w` by `h` surface. Gives nothing if the surface already has that size;
    /// otherwise a new one has to be made, and the old bitmap and context, which are handed out,
    /// have to be deleted before.
    pub fn ensure_mem(&mut self, w: i32, h: i32) -> (stale: Option<(Option<B>, Option<C>)>)
        ensures
            old(self).mem_w == w && old(self).mem_h == h ==> stale.is_none() && *final(self)
                == *old(self),
            !(old(self).mem_w == w && old(self).mem_h == h) ==> stale == Some(
                (old(self).mem_bmp, old(self).mem_dc),
            ) && *final(self) == (MemSurface { mem_dc: None, mem_bmp: None, ..*old(self) }),
            (*final(self), stale) == old(self).prepared(w, h),
    {
        if self.mem_w == w && self.mem_h == h {
            None
        } else {
            Some((self.mem_bmp.take(), self.mem_dc.take()))
        }
    }

    /// Takes over a new surface; the context is missing if it could not be made.
    pub fn install(&mut self, dc: Option<C>, bmp: B, w: i32, h: i32)
        ensures
            *final(self) == (MemSurface { mem_dc: dc, mem_bmp: Some(bmp), mem_w: w, mem_h: h }),
            *final(self) == MemSurface::made(dc, bmp, w, h),
    {
        self.mem_dc = dc;
        self.mem_bmp = Some(bmp);
        self.mem_w = w;
        self.mem_h = h;
    }
}

/// The mouse pointer is visible.
pub const CURSOR_SHOWING: u32 = 1;

/// The mouse pointer as the system describes it.
#[derive(Clone, Copy, Debug, PartialEq, Eq, Structural)]
pub struct CursorInfo {
    pub flags: u32,
    pub handle: isize,
    pub x: i32,
    pub y: i32,
}

/// The image of a mouse pointer: its hot spot, and which bitmaps it has.
#[derive(Clone, Copy, Debug, PartialEq, Eq, Structural)]
pub struct IconInfo {
    pub hot_x: u32,
    pub hot_y: u32,
    pub color: bool,
    pub mask: bool,
}

/// What has to be done to draw the mouse pointer.
#[derive(Clone, Copy, Debug, PartialEq, Eq, Structural)]
pub enum CursorStep {
    /// Nothing: there is no pointer to draw.
    Skip,
    /// Draw it with what is known of its image.
    Draw,
    /// Find out its image first.
    Query,
}

/// What to do with the bitmaps of a pointer image.
#[derive(Clone, Copy, Debug, PartialEq, Eq, Structural)]
pub struct IconPlan {
    /// Measure the colour bitmap rather than the mask.
    pub measure_color: bool,
    pub delete_mask: bool,
    pub delete_color: bool,
}

/// Where the mouse pointer is on the captured area, and the scale of the window: `win_w` pixels
/// for `cap_w`, `win_h` for `cap_h`.
#[derive(Clone, Copy, Debug, PartialEq, Eq, Structural)]
pub struct CursorPlacement {
    pub dx: i32,
    pub dy: i32,
    pub hot_x: i32,
    pub hot_y: i32,
    pub w: i32,
    pub h: i32,
    pub win_w: i32,
    pub win_h: i32,
    pub cap_w: i32,
    pub cap_h: i32,
}

/// The pointer image that was looked up last.
#[derive(Clone, Copy, Debug, PartialEq, Eq, Structural)]
pub struct CursorCache {
    pub cursor: isize,
    pub w: i32,
    pub h: i32,
    pub hotspot: Point,
}

impl CursorCache {
    /// What has to be done for a pointer, given what the system says of it.
    pub open spec fn wants(self, info: Option<CursorInfo>) -> CursorStep {
        match info {
            Some(ci) if ci.flags == CURSOR_SHOWING => if ci.handle == self.cursor {
                CursorStep::Draw
            } else {
                CursorStep::Query
            },
            _ => CursorStep::Skip,
        }
    }

    /// The cache after the image of a pointer was looked up; its size is the usual one until it is
    /// measured.
    pub open spec fn looked_up(self, handle: isize, icon: IconInfo) -> CursorCache {
        CursorCache {
            cursor: handle,
            w: 32,
            h: 32,
            hotspot: Point {
                x: num::wrap_i32(icon.hot_x as int) as i32,
                y: num::wrap_i32(icon.hot_y as int) as i32,
            },
        }
    }

    /// The cache after the image of a pointer was asked for, and what to do with its bitmaps.
    pub open spec fn asked(self, handle: isize, icon: Option<IconInfo>) -> (
        CursorCache,
        Option<IconPlan>,
    ) {
        match icon {
            None => (self, None),
            Some(i) => (
                self.looked_up(handle, i),
                Some(
                    IconPlan { measure_color: i.color, delete_mask: i.mask, delete_color: i.color },
                ),
            ),
        }
    }

    /// The cache after the bitmap of the pointer was measured, or not.
    pub open spec fn with_size(self, color: bool, size: Option<(i32, i32)>) -> CursorCache {
        match size {
            None => self,
            Some((w, h)) => CursorCache {
                w,
                h: if color {
                    h
                } else {
                    num::trunc_div(h as int, 2) as i32
                },
                ..self
            },
        }
    }

    /// Where a pointer at `(x, y)` is on the captured area, and at which scale.
    pub open spec fn placed(self, window: WindowState, s: SharedModel, x: i32, y: i32) -> Option<
        CursorPlacement,
    > {
        if s.size_known() {
            Some(
                CursorPlacement {
                    dx: (x - s.cap_x) as i32,
                    dy: (y - s.cap_y) as i32,
                    hot_x: self.hotspot.x,
                    hot_y: self.hotspot.y,
                    w: self.w,
                    h: self.h,
                    win_w: window.win_w,
                    win_h: window.win_h,
                    cap_w: s.cap_w,
                    cap_h: s.cap_h,
                },
            )
        } else {
            None
        }
    }

    /// Nothing looked up yet.
    pub fn new() -> (c: CursorCache)
        ensures
            c == (CursorCache { cursor: 0, w: 32, h: 32, hotspot: Point { x: 0, y: 0 } }),
    {
        CursorCache { cursor: 0, w: 32, h: 32, hotspot: Point { x: 0, y: 0 } }
    }

    /// Decides what has to be done for a pointer, given what the system says of it, if anything.
    /// Its image is looked up only if it is another one than the last.
    pub fn observe(&self, info: Option<CursorInfo>) -> (step: CursorStep)
        ensures
            step == self.wants(info),
    {
        match info {
            None => CursorStep::Skip,
            Some(ci) => if ci.flags != CURSOR_SHOWING {
                CursorStep::Skip
            } else if ci.handle != self.cursor {
                CursorStep::Query
            } else {
                CursorStep::Draw
            },
        }
    }

    /// Takes over the image of a pointer and says what to do with its bitmaps. Without an image
    /// the pointer is not drawn and nothing changes.
    pub fn look_up(&mut self, handle: isize, icon: Option<IconInfo>) -> (plan: Option<IconPlan>)
        ensures
            match icon {
                None => plan.is_none() && *final(self) == *old(self),
                Some(i) => {
                    &&& plan == Some(
                        IconPlan {
                            measure_color: i.color,
                            delete_mask: i.mask,
                            delete_color: i.color,
                        },
                    )
                    &&& *final(self) == old(self).looked_up(handle, i)
                },
            },
            (*final(self), plan) == old(self).asked(handle, icon),
    {
        match icon {
            None => None,
            Some(i) => {
                self.cursor = handle;
                self.hotspot = Point { x: num::signed(i.hot_x), y: num::signed(i.hot_y) };
                self.w = 32;
                self.h = 32;
                Some(
                    IconPlan { measure_color: i.color, delete_mask: i.mask, delete_color: i.color },
                )
            },
        }
    }

    /// Takes over the size of the measured bitmap, if it could be measured. A mask without colours
    /// holds two images, one above the other, so its height counts half.
    pub fn measured(&mut self, color: bool, size: Option<(i32, i32)>)
        ensures
            *final(self) == (match size {
                None => *old(self),
                Some((w, h)) => CursorCache {
                    w,
                    h: if color {
                        h
                    } else {
                        num::trunc_div(h as int, 2) as i32
                    },
                    ..*old(self)
                },
            }),
            *final(self) == old(self).with_size(color, size),
    {
        if let Some((w, h)) = size {
            self.w = w;
            self.h = if color {
                h
            } else {
                h / 2
            };
        }
    }

    /// Says where the pointer is on the captured area and at which scale, if the size of the area
    /// is known.
    pub fn place(&self, window: &WindowState, shared: &SharedState, x: i32, y: i32) -> (p: Option<
        CursorPlacement,
    >)
        requires
            shared@.size_known() ==> i32::MIN <= x - shared.cap_x <= i32::MAX,
            shared@.size_known() ==> i32::MIN <= y - shared.cap_y <= i32::MAX,
        ensures
            p == (if shared@.size_known() {
                Some(
                    CursorPlacement {
                        dx: (x - shared.cap_x) as i32,
                        dy: (y - shared.cap_y) as i32,
                        hot_x: self.hotspot.x,
                        hot_y: self.hotspot.y,
                        w: self.w,
                        h: self.h,
                        win_w: window.win_w,
                        win_h: window.win_h,
                        cap_w: shared.cap_w,
                        cap_h: shared.cap_h,
                    },
                )
            } else {
                None
            }),
            p == self.placed(*window, shared@, x, y),
    {
        if shared.cap_w > 0 && shared.cap_h > 0 {
            Some(
                CursorPlacement {
                    dx: x - shared.cap_x,
                    dy: y - shared.cap_y,
                    hot_x: self.hotspot.x,
                    hot_y: self.hotspot.y,
                    w: self.w,
                    h: self.h,
                    win_w: window.win_w,
                    win_h: window.win_h,
                    cap_w: shared.cap_w,
                    cap_h: shared.cap_h,
                },
            )
        } else {
            None
        }
    }
}

/// The image of a pointer is looked up only when the pointer changes: once it was looked up, the
/// same pointer is drawn without another look.
pub proof fn law_pointer_is_looked_up_once(
    c: CursorCache,
    handle: isize,
    icon: IconInfo,
    x: i32,
    y: i32,
)
    ensures
        c.looked_up(handle, icon).wants(
            Some(CursorInfo { flags: CURSOR_SHOWING, handle, x, y }),
        ) == CursorStep::Draw,
{
}

/// Background of the close button, which lights up under the mouse.
pub fn close_fill(hover: bool) -> (c: u32)
    ensures
        c == (if hover { 220 + 256 * 40 + 65536 * 40 } else { 60 + 256 * 10 + 65536 * 10 }),
{
    if hover {
        geometry::rgb(220, 40, 40)
    } else {
        geometry::rgb(60, 10, 10)
    }
}

/// Border of the close button.
pub fn close_border() -> (c: u32)
    ensures
        c == 200 + 256 * 60 + 65536 * 60,
{
    geometry::rgb(200, 60, 60)
}

/// Label of the close button.
pub fn close_label() -> (c: u32)
    ensures
        c == 0xFF_FFFF,
{
    geometry::rgb(255, 255, 255)
}

/// Colour of the status line: green for Desktop Duplication, amber for copying from the screen.
pub open spec fn status_color(mode: Mode) -> int {
    match mode {
        Mode::Dxgi => 256int * 220 + 65536 * 80,
        Mode::Gdi => 255int + 256 * 180,
    }
}

/// Gives the colour of the status line; see [`status_color`].
pub fn overlay_color(mode: Mode) -> (c: u32)
    ensures
        c == status_color(mode),
{
    match mode {
        Mode::Dxgi => geometry::rgb(0, 220, 80),
        Mode::Gdi => geometry::rgb(255, 180, 0),
    }
}

/// Everything that the window keeps for drawing.
pub struct RenderState<C, B> {
    pub window: WindowState,
    pub surface: MemSurface<C, B>,
    /// The window's own copy of the picture.
    pub local_buf: Vec<u8>,
    pub rate: FpsCounter,
    pub cursor: CursorCache,
}

/// What to draw on the memory surface, from bottom to top; the mouse pointer comes last.
pub struct RenderPlan {
    /// The picture at the front of the local buffer, stretched over the whole window, if there is
    /// one.
    pub image: Option<BitmapHeader>,
    pub text: String,
    pub text_rect: Rect,
    pub text_color: u32,
    pub close_rect: Rect,
    pub close_hover: bool,
}

impl RenderPlan {
    /// The plan shows the picture and the status of the shared state in a window.
    pub open spec fn shows(self, window: WindowState, fps: int, s: SharedModel) -> bool {
        &&& self.image == (if s.frame.has_picture() {
            Some(BitmapHeader::from_the_top(s.frame.w, s.frame.h))
        } else {
            None
        })
        &&& self.text@ == text::status_line(
            fps,
            s.mode,
            s.output_index as int,
            s.output_count as int,
        )
        &&& self.text_rect == geometry::status_area(window.win_w as int, window.win_h as int)
        &&& self.text_color == status_color(s.mode)
        &&& self.close_rect == geometry::close_area(window.win_w as int)
        &&& self.close_hover == window.btn_hover
    }
}

impl<C, B> RenderState<C, B> {
    /// The state at the start of the program, at the time `now`.
    pub fn new(now: u32) -> (r: RenderState<C, B>)
        ensures
            r.window == WindowState::initial(),
            r.surface == (MemSurface::<C, B> { mem_dc: None, mem_bmp: None, mem_w: 0, mem_h: 0 }),
            r.local_buf@ == Seq::<u8>::empty(),
            r.rate == (FpsCounter { fps: 0, f_count: 0, f_time: now }),
            r.cursor == (CursorCache { cursor: 0, w: 32, h: 32, hotspot: Point { x: 0, y: 0 } }),
            r.window.wf(),
            r.rate == FpsCounter::started(now),
    {
        RenderState {
            window: WindowState::new(),
            surface: MemSurface::new(),
            local_buf: Vec::new(),
            rate: FpsCounter::new(now),
            cursor: CursorCache::new(),
        }
    }

    /// This is `before` after it took over the picture of the shared state.
    pub open spec fn drew(self, before: Self, s: SharedModel) -> bool {
        &&& self.window == before.window
        &&& self.surface == before.surface
        &&& self.rate == before.rate
        &&& self.cursor == before.cursor
        &&& self.local_buf@ == s.frame.read_by(before.local_buf@).1
    }

    /// Copies the current picture, if there is one, to the local buffer and says what to draw.
    pub fn render_frame(&mut self, shared: &SharedState) -> (plan: RenderPlan)
        requires
            old(self).window.wf(),
            old(self).window.win_h - 18 >= i32::MIN,
            shared@.frame.wf(),
            shared.output_index < i32::MAX,
        ensures
            final(self).window == old(self).window,
            final(self).surface == old(self).surface,
            final(self).rate == old(self).rate,
            final(self).cursor == old(self).cursor,
            final(self).local_buf@ == (if shared@.frame.has_picture() {
                frame::overwritten(old(self).local_buf@, shared@.frame.pixels())
            } else {
                old(self).local_buf@
            }),
            plan.image == (if shared@.frame.has_picture() {
                Some(
                    BitmapHeader {
                        width: shared.frame.w,
                        height: (-shared.frame.h) as i32,
                        planes: 1,
                        bit_count: 32,
                    },
                )
            } else {
                None
            }),
            plan.text@ == text::status_line(
                old(self).rate.fps as int,
                shared.mode,
                shared.output_index as int,
                shared.output_count as int,
            ),
            plan.text_rect == (Rect {
                left: 4,
                top: (old(self).window.win_h - 18) as i32,
                right: (old(self).window.win_w - 34) as i32,
                bottom: old(self).window.win_h,
            }),
            plan.text_color == status_color(shared.mode),
            plan.close_rect == (Rect {
                left: (old(self).window.win_w - 30) as i32,
                top: 2,
                right: (old(self).window.win_w - 2) as i32,
                bottom: 22,
            }),
            plan.close_hover == old(self).window.btn_hover,
            plan.shows(old(self).window, old(self).rate.fps as int, shared@),
            final(self).local_buf@ == shared@.frame.read_by(old(self).local_buf@).1,
            final(self).drew(*old(self), shared@),
    {
        let image: Option<BitmapHeader> = match shared.frame.read_into(&mut self.local_buf) {
            Some((w, h)) => Some(BitmapHeader::top_down(w, h)),
            None => None,
        };
        RenderPlan {
            image,
            text: text::overlay_text(
                self.rate.fps,
                shared.mode,
                shared.output_index,
                shared.output_count,
            ),
            text_rect: geometry::overlay_rect(self.window.win_w, self.window.win_h),
            text_color: overlay_color(shared.mode),
            close_rect: geometry::close_rect(self.window.win_w),
            close_hover: self.window.btn_hover,
        }
    }
}

/// The close button is where it is drawn: a click closes the window exactly if it hits the drawn
/// rectangle.
pub proof fn law_close_button_is_where_it_is_drawn(window: WindowState, drawn: Rect, x: int, y: int)
    requires
        window.wf(),
        drawn == (Rect {
            left: (window.win_w - 30) as i32,
            top: 2,
            right: (window.win_w - 2) as i32,
            bottom: 22,
        }),
    ensures
        window.on_close((x, y)) <==> drawn.covers(x, y),
        drawn.covers(x, y) ==> 0 <= x < window.win_w,
{
}

/// A frame is drawn from what was captured: there is an image exactly if a picture was captured,
/// with its size and its rows from top to bottom. The status line stands in the lowest 18 rows,
/// clear of the close button, tells the rate, the mode and the monitor, and has the colour of the
/// mode. The close button is drawn where a click closes the window, and lit while the mouse is
/// over it.
pub proof fn law_frame_shows_what_was_captured(
    plan: RenderPlan,
    window: WindowState,
    fps: int,
    s: SharedModel,
    x: int,
    y: int,
)
    requires
        plan.shows(window, fps, s),
        window.wf(),
        window.win_h - 18 >= i32::MIN,
    ensures
        plan.image.is_some() <==> s.frame.w > 0 && s.frame.h > 0,
        plan.image matches Some(b) ==> {
            &&& b.width == s.frame.w
            &&& b.height + s.frame.h == 0
            &&& b.planes == 1
            &&& b.bit_count == 32
        },
        plan.text_rect.covers(x, y) <==> 4 <= x < window.win_w - 34 && window.win_h - 18 <= y
            < window.win_h,
        plan.close_rect.covers(x, y) <==> window.win_w - 30 <= x < window.win_w - 2 && 2 <= y < 22,
        plan.close_rect.covers(x, y) <==> window.on_close((x, y)),
        !(plan.text_rect.covers(x, y) && plan.close_rect.covers(x, y)),
        plan.close_hover == window.btn_hover,
        text::stands_at(plan.text@, 0, text::decimal(fps)),
        plan.text@ == text::status_line(
            fps,
            s.mode,
            s.output_index as int,
            s.output_count as int,
        ),
        s.mode == Mode::Dxgi ==> plan.text_color == 0x50_DC_00,
        s.mode == Mode::Gdi ==> plan.text_color == 0x00_B4_FF,
{
    text::law_status_line_can_be_read_off(
        fps,
        s.mode,
        s.output_index as int,
        s.output_count as int,
    );
}

/// Time passes on a clock that wraps around: what has elapsed, added to the earlier time, gives the
/// later one.
pub proof fn law_clock_wraps_around(then_ms: u32, now_ms: u32)
    ensures
        0 <= elapsed(then_ms, now_ms) < 0x1_0000_0000,
        (then_ms + elapsed(then_ms, now_ms) - now_ms) % 0x1_0000_0000 == 0,
        now_ms >= then_ms ==> elapsed(then_ms, now_ms) == now_ms - then_ms,
        now_ms < then_ms ==> elapsed(then_ms, now_ms) == now_ms - then_ms + 0x1_0000_0000,
{
}

/// Every drawn frame counts: it is added to the count, and if at least a second has passed since
/// the rate was last renewed, the count becomes the rate and starts again; otherwise the rate
/// stays.
pub proof fn law_every_frame_counts(c: FpsCounter, now: u32)
    requires
        c.f_count < i32::MAX,
    ensures
        ({
            let after = c.ticked(now);
            let passed = if now >= c.f_time {
                now - c.f_time
            } else {
                now - c.f_time + 0x1_0000_0000
            };
            &&& passed >= 1000 ==> after.fps == c.f_count + 1 && after.f_count == 0 && after.f_time
                == now
            &&& passed < 1000 ==> after.fps == c.fps && after.f_count == c.f_count + 1
                && after.f_time == c.f_time
        }),
{
}

/// The memory surface follows the window: one that already has the size is kept as it is, any other
/// is handed out for deletion as a whole, and a newly made one has the size that it was made for,
/// so that it is kept from then on.
pub proof fn law_surface_follows_the_window<C, B>(
    m: MemSurface<C, B>,
    dc: Option<C>,
    bmp: B,
    w: i32,
    h: i32,
)
    ensures
        m.prepared(w, h).1.is_none() <==> m.mem_w == w && m.mem_h == h,
        m.prepared(w, h).1.is_none() ==> m.prepared(w, h).0 == m,
        m.prepared(w, h).1 matches Some(stale) ==> {
            &&& stale.0 == m.mem_bmp
            &&& stale.1 == m.mem_dc
            &&& m.prepared(w, h).0.mem_bmp.is_none()
            &&& m.prepared(w, h).0.mem_dc.is_none()
            &&& m.prepared(w, h).0.mem_w == m.mem_w
            &&& m.prepared(w, h).0.mem_h == m.mem_h
        },
        MemSurface::made(dc, bmp, w, h).mem_dc == dc,
        MemSurface::made(dc, bmp, w, h).mem_bmp == Some(bmp),
        MemSurface::made(dc, bmp, w, h).mem_w == w,
        MemSurface::made(dc, bmp, w, h).mem_h == h,
        MemSurface::<C, B>::made(dc, bmp, w, h).prepared(w, h).1.is_none(),
{
}

/// The drawn pointer is the current one: a visible pointer is drawn without a look-up exactly if it
/// is the one that was looked up last, and looked up exactly if it is another. A pointer that is
/// hidden, or of which nothing is known, is not drawn.
pub proof fn law_drawn_pointer_is_the_current_one(c: CursorCache, info: Option<CursorInfo>)
    ensures
        c.wants(info) == CursorStep::Skip <==> info.is_none() || info->0.flags != 1,
        info.is_some() && info->0.flags == 1 ==> {
            &&& c.wants(info) == CursorStep::Query <==> info->0.handle != c.cursor
            &&& c.wants(info) == CursorStep::Draw <==> info->0.handle == c.cursor
        },
{
}

/// A look-up takes over the pointer and the hot spot of its image, with the usual size until the
/// bitmap is measured. The colour bitmap is measured if there is one, and each bitmap that there is
/// gets deleted. A pointer without an image changes nothing.
pub proof fn law_look_up_takes_over_the_image(
    c: CursorCache,
    handle: isize,
    icon: Option<IconInfo>,
)
    ensures
        ({
            let (after, plan) = c.asked(handle, icon);
            match icon {
                None => after == c && plan.is_none(),
                Some(i) => {
                    &&& after.cursor == handle
                    &&& after.w == 32
                    &&& after.h == 32
                    &&& (after.hotspot.x - i.hot_x) % 0x1_0000_0000 == 0
                    &&& (after.hotspot.y - i.hot_y) % 0x1_0000_0000 == 0
                    &&& i.hot_x <= i32::MAX ==> after.hotspot.x == i.hot_x
                    &&& i.hot_y <= i32::MAX ==> after.hotspot.y == i.hot_y
                    &&& plan matches Some(p) && p.measure_color == i.color && p.delete_mask
                        == i.mask && p.delete_color == i.color
                },
            }
        }),
{
    if let Some(i) = icon {
        num::law_narrowing_keeps_the_low_bits(i.hot_x as int, i.hot_x as int);
        num::law_narrowing_keeps_the_low_bits(i.hot_y as int, i.hot_y as int);
    }
}

/// A measured pointer has the size of its bitmap, of which a mask without colours holds two, one
/// above the other. A bitmap that could not be measured changes nothing.
pub proof fn law_pointer_has_the_size_of_its_image(
    c: CursorCache,
    color: bool,
    size: Option<(i32, i32)>,
)
    ensures
        ({
            let after = c.with_size(color, size);
            match size {
                None => after == c,
                Some((w, h)) => {
                    &&& after.w == w
                    &&& color ==> after.h == h
                    &&& !color && h >= 0 ==> 0 <= h - 2 * after.h <= 1
                    &&& !color && h <= 0 ==> -1 <= h - 2 * after.h <= 0
                    &&& after == (CursorCache { w: after.w, h: after.h, ..c })
                },
            }
        }),
{
}

/// The pointer is placed where it is on the captured area, with the hot spot and the size of its
/// image, at the scale of the window to the capture, whenever the captured size is known.
pub proof fn law_pointer_is_placed_on_the_capture(
    c: CursorCache,
    window: WindowState,
    s: SharedModel,
    x: i32,
    y: i32,
)
    requires
        i32::MIN <= x - s.cap_x <= i32::MAX,
        i32::MIN <= y - s.cap_y <= i32::MAX,
    ensures
        c.placed(window, s, x, y).is_some() <==> s.cap_w > 0 && s.cap_h > 0,
        c.placed(window, s, x, y) matches Some(p) ==> {
            &&& s.cap_x + p.dx == x
            &&& s.cap_y + p.dy == y
            &&& p.hot_x == c.hotspot.x
            &&& p.hot_y == c.hotspot.y
            &&& p.w == c.w
            &&& p.h == c.h
            &&& p.win_w == window.win_w
            &&& p.win_h == window.win_h
            &&& p.cap_w == s.cap_w
            &&& p.cap_h == s.cap_h
        },
{
}

/// Drawing takes over the picture that was published last, row by row, and changes nothing else of
/// what the window keeps.
pub proof fn law_drawing_takes_over_the_picture<C, B>(
    before: RenderState<C, B>,
    after: RenderState<C, B>,
    s: SharedModel,
    src: Seq<u8>,
    w: i32,
    h: i32,
    stride: int,
)
    requires
        w >= 0,
        h >= 0,
        after.drew(before, s.published(src, w, h, stride)),
    ensures
        after.window == before.window,
        after.surface == before.surface,
        after.rate == before.rate,
        after.cursor == before.cursor,
        w > 0 && h > 0 ==> frame::rows_taken_over(
            before.local_buf@,
            after.local_buf@,
            src,
            w as int,
            h as int,
            stride,
        ),
        w == 0 || h == 0 ==> after.local_buf@ == before.local_buf@,
{
    frame::law_every_row_is_kept(s.frame, src, w, h, stride, before.local_buf@);
}

/// The count starts with nothing, at the time of its start.
pub proof fn law_count_starts_with_nothing(now: u32)
    ensures
        FpsCounter::started(now).fps == 0,
        FpsCounter::started(now).f_count == 0,
        FpsCounter::started(now).f_time == now,
{
}

} // verus!
