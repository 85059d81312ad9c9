//! The capture thread: which outside step it takes next, and what it makes of the outcome.
//!
//! [`CaptureThread::step`] holds every decision of the thread. The program around it performs the
//! [`Action`] that a step returns and hands the outcome to the next step as an [`Event`]. The
//! handles of the graphics system pass through as values of the type parameters: `G` the device
//! with its adapter, `O` an output, `D` a duplication, `S` a staging texture, `B` a bitmap.

use vstd::prelude::*;

use crate::capture_model;
use crate::frame;
use crate::geometry::Rect;
use crate::num;
use crate::shared;
use crate::shared::{Mode, SharedState, MAX_OUTPUTS};

verus! {

/// The duplication was lost, because of a change of the desktop.
pub const DXGI_ERROR_ACCESS_LOST: i32 = -2005270490;

/// The duplication was used in a state that does not allow it.
pub const DXGI_ERROR_INVALID_CALL: i32 = -2005270527;

/// Nothing on the desktop changed in time.
pub const DXGI_ERROR_WAIT_TIMEOUT: i32 = -2005270489;

/// How long to wait for a change on the desktop, in milliseconds.
pub const ACQUIRE_TIMEOUT_MS: u32 = 100;

/// Pause before a missing device or duplication is opened again, in milliseconds.
pub const REOPEN_PAUSE_MS: u64 = 200;

/// Pause after the duplication was lost, in milliseconds.
pub const LOST_PAUSE_MS: u64 = 100;

/// Pause after any other failure to get a frame, in milliseconds.
pub const FAILURE_PAUSE_MS: u64 = 50;

/// Frames copied from the screen before Desktop Duplication is tried once more.
pub const GDI_FRAMES_PER_RETRY: u32 = 180;

/// An area of the virtual desktop.
#[derive(Clone, Copy, Debug, PartialEq, Eq, Structural)]
pub struct Area {
    pub x: i32,
    pub y: i32,
    pub w: i32,
    pub h: i32,
}

/// Desktop Duplication: the device, and the selected output with what was opened on it.
#[derive(Debug, PartialEq)]
pub struct DxgiCapture<G, O, D, S> {
    pub gpu: G,
    pub output: Option<O>,
    pub dupl: Option<D>,
    pub staging: Option<S>,
}

/// Copying from the screen: the bitmap that receives the pixels, and the pause between frames.
#[derive(Debug, PartialEq)]
pub struct GdiCapture<B> {
    pub cap_bmp: Option<B>,
    pub cap_w: i32,
    pub cap_h: i32,
    pub frame_delay_ms: u32,
}

/// Pause between frames copied from a screen of the given refresh rate, in milliseconds.
pub open spec fn frame_delay(refresh: int) -> int {
    if refresh > 1 {
        1000int / refresh
    } else {
        16
    }
}

impl<B> GdiCapture<B> {
    /// Nothing captured yet, from a screen with the given refresh rate.
    pub open spec fn fresh(refresh: int) -> GdiCapture<B> {
        GdiCapture {
            cap_bmp: None,
            cap_w: 0,
            cap_h: 0,
            frame_delay_ms: frame_delay(refresh) as u32,
        }
    }

    /// Made ready for a picture of `w` by `h` pixels, and the bitmap that has to be deleted for
    /// that.
    pub open spec fn prepared(self, w: i32, h: i32) -> (GdiCapture<B>, Option<Option<B>>) {
        if self.sized(w, h) {
            (self, None)
        } else {
            (GdiCapture { cap_bmp: None, ..self }, Some(self.cap_bmp))
        }
    }

    /// Makes ready for copying from a screen with the given refresh rate, with nothing captured
    /// yet.
    pub fn new(refresh: i32) -> (g: GdiCapture<B>)
        ensures
            g.cap_bmp.is_none(),
            g.cap_w == 0,
            g.cap_h == 0,
            g.frame_delay_ms == frame_delay(refresh as int),
            g == GdiCapture::<B>::fresh(refresh as int),
    {
        let frame_delay_ms: u32 = if refresh > 1 {
            1000 / (refresh as u32)
        } else {
            16
        };
        GdiCapture { cap_bmp: None, cap_w: 0, cap_h: 0, frame_delay_ms }
    }

    /// The bitmap can receive a picture of `w` by `h` pixels.
    pub open spec fn sized(self, w: i32, h: i32) -> bool {
        self.cap_bmp.is_some() && self.cap_w == w && self.cap_h == h
    }

    /// Makes ready for a picture of `w` by `h` pixels. Gives nothing if the bitmap already has
    /// that size; otherwise a bitmap of that size has to be made, and the old one, which is
    /// handed out, has to be deleted before.
    pub fn ensure_sized(&mut self, w: i32, h: i32) -> (stale: Option<Option<B>>)
        ensures
            old(self).sized(w, h) ==> stale.is_none() && *final(self) == *old(self),
            !old(self).sized(w, h) ==> stale == Some(old(self).cap_bmp) && *final(self) == (GdiCapture {
                cap_bmp: None,
                ..*old(self)
            }),
            (*final(self), stale) == old(self).prepared(w, h),
    {
        if self.cap_bmp.is_some() && self.cap_w == w && self.cap_h == h {
            None
        } else {
            Some(self.cap_bmp.take())
        }
    }
}

/// What an attempt to duplicate an output is made for.
#[derive(Clone, Copy, Debug, PartialEq, Eq, Structural)]
pub enum Purpose {
    /// The first attempt of the thread.
    Startup,
    /// There is no device although Desktop Duplication is selected.
    Retry,
    /// The user asked for the next monitor.
    NextMonitor,
    /// The user asked for the next monitor while frames are copied from the screen.
    GdiNextMonitor,
    /// The duplication is missing or was lost.
    Reopen,
    /// A periodic attempt while frames are copied from the screen.
    GdiRetry,
}

/// What the thread waits for.
#[derive(Clone, Copy, Debug, PartialEq, Eq, Structural)]
pub enum Phase {
    /// The device.
    Device(Purpose),
    /// Whether there is an output with this number; all lower ones exist.
    Counting(Purpose, u32),
    /// The first output of a new device.
    FirstOutput(Purpose),
    /// The output with this number.
    Opening(Purpose, i32),
    /// The place of the output with this number.
    Locating(Purpose, i32),
    /// The duplication of the output.
    Duplicating(Purpose),
    /// The place of the output whose duplication is open.
    Placing(Purpose),
    /// The staging texture.
    Staging(Purpose),
    /// The message to the window that the capture size is known, after an attempt.
    Announcing(Purpose),
    /// The refresh rate of the screen.
    OpeningGdi,
    /// The pause before the device is created again.
    RetryPause,
    /// The pause before the output is duplicated again.
    ReopenPause,
    /// The pause after a failure.
    Resting,
    /// The next frame of the duplication.
    Acquiring,
    /// The copy of the frame in memory.
    Mapping,
    /// The bytes of a copy of this width and height, with this many bytes from row to row.
    Reading(i32, i32, u32),
    /// The message to the window that there is a new frame.
    Waking,
    /// The release of the copy.
    Unmapping,
    /// The release of the frame.
    Releasing,
    /// The size of the virtual desktop.
    Measuring,
    /// The message to the window that the capture size is known.
    GdiAnnouncing,
    /// A bitmap for this area.
    Sizing(Area),
    /// The pixels of this area.
    Blitting(Area),
    /// The message to the window that there is a new frame.
    GdiWaking,
    /// The pause between two frames.
    GdiResting,
    /// Nothing: the thread has ended.
    Stopped,
}

/// An outside step that the program has to take for the thread.
#[derive(Debug, PartialEq)]
pub enum Action<B> {
    /// Create a device; answered by [`Event::Device`].
    CreateDevice,
    /// Ask whether the output exists; answered by [`Event::Probe`].
    ProbeOutput(u32),
    /// Open the output; answered by [`Event::Output`].
    OpenOutput(u32),
    /// Ask where the opened output lies on the desktop; answered by [`Event::Desktop`].
    DescribeOutput,
    /// Duplicate the opened output; answered by [`Event::Duplication`].
    Duplicate,
    /// Create a staging texture of this size; answered by [`Event::Staging`].
    CreateStaging(u32, u32),
    /// Tell the window that the capture size is known; answered by [`Event::Done`].
    PostResize,
    /// Prepare copying from the screen; answered by [`Event::Refresh`].
    OpenGdi,
    /// Sleep for this many milliseconds; answered by [`Event::Done`].
    Sleep(u64),
    /// Wait at most this many milliseconds for a frame; answered by [`Event::Acquired`] or
    /// [`Event::AcquireFailed`].
    AcquireFrame(u32),
    /// Copy the frame to the staging texture and map it; answered by [`Event::Mapped`].
    CopyAndMap,
    /// Give this many bytes of the mapped texture; answered by [`Event::Pixels`].
    ReadMapped(usize),
    /// Tell the window that there is a new frame; answered by [`Event::Done`].
    PostNewFrame,
    /// Unmap the staging texture; answered by [`Event::Done`].
    Unmap,
    /// Release the frame; answered by [`Event::Done`].
    ReleaseFrame,
    /// Ask for the area of the virtual desktop; answered by [`Event::Metrics`].
    ReadVirtualScreen,
    /// Delete the old bitmap, if any, and create one of this size; answered by
    /// [`Event::Bitmap`].
    CreateBitmap(Option<B>, i32, i32),
    /// Copy this area of the screen to the scratch buffer; answered by [`Event::Done`].
    Blit(Area),
    /// End the thread.
    Stop,
}

/// A duplication and the size that it reports for itself.
pub struct Duplicated<D> {
    pub handle: D,
    pub width: u32,
    pub height: u32,
}

/// The outcome of an [`Action`].
pub enum Event<'a, G, O, D, S, B> {
    /// The action was carried out.
    Done,
    /// The device, unless it could not be created.
    Device(Option<G>),
    /// Whether the output exists.
    Probe(bool),
    /// The output, unless it could not be opened.
    Output(Option<O>),
    /// Where the output lies, unless that could not be found out.
    Desktop(Option<Rect>),
    /// The duplication, unless the output could not be duplicated.
    Duplication(Option<Duplicated<D>>),
    /// What the creation of the staging texture gave, unless it failed.
    Staging(Option<Option<S>>),
    /// The refresh rate of the screen.
    Refresh(i32),
    /// A frame arrived: when the desktop was last presented, and whether the frame came with a
    /// texture.
    Acquired(i64, bool),
    /// No frame, for the reason with this code.
    AcquireFailed(i32),
    /// Bytes from row to row of the mapped texture, unless it could not be mapped.
    Mapped(Option<u32>),
    /// The bytes of the mapped texture.
    Pixels(&'a [u8]),
    /// The area of the virtual desktop.
    Metrics(Area),
    /// The new bitmap.
    Bitmap(B),
}

/// The state of the capture thread.
#[derive(Debug, PartialEq)]
pub struct CaptureThread<G, O, D, S, B> {
    pub phase: Phase,
    pub dxgi: Option<DxgiCapture<G, O, D, S>>,
    /// A duplication for which the staging texture is still missing.
    pub pending: Option<D>,
    pub gdi: GdiCapture<B>,
    /// Frames copied from the screen since Desktop Duplication was last tried.
    pub gdi_fail_count: u32,
    /// The window was told of the capture size.
    pub announced: bool,
}

/// Tells whether a capture size is unknown or can be handled.
pub fn is_capturable(w: i32, h: i32) -> (ok: bool)
    ensures
        ok == shared::capturable(w as int, h as int),
{
    if w > 0 && h > 0 {
        is_copyable(Area { x: 0, y: 0, w, h })
    } else {
        true
    }
}

/// Tells whether pixels can be copied from an area.
pub fn is_copyable(a: Area) -> (ok: bool)
    ensures
        ok == capture_model::copyable(a),
{
    if a.w >= 0 && a.h >= 0 {
        let row: u128 = (a.w as u128) * 4;
        assert(0 <= a.w * a.h * 4 <= 0x7fff_ffff * 0x7fff_ffff * 4) by (nonlinear_arith)
            requires
                0 <= a.w <= 0x7fff_ffff,
                0 <= a.h <= 0x7fff_ffff,
        ;
        assert(0 <= a.w * a.h <= a.w * a.h * 4) by (nonlinear_arith)
            requires
                0 <= a.w,
                0 <= a.h,
        ;
        let bytes: u128 = (a.w as u128) * (a.h as u128) * 4;
        row <= i32::MAX as u128 && row <= usize::MAX as u128 && bytes <= usize::MAX as u128
    } else {
        false
    }
}

/// Tells whether a texture can be mapped with this many bytes from row to row.
fn is_mappable(w: i32, h: i32, pitch: u32) -> (ok: bool)
    ensures
        ok == capture_model::mappable(w as int, h as int, pitch as int),
{
    assert(-0x8000_0000 * 0xffff_ffff <= pitch * h <= 0xffff_ffff * 0x7fff_ffff) by (nonlinear_arith)
        requires
            0 <= pitch <= 0xffff_ffff,
            -0x8000_0000 <= h <= 0x7fff_ffff,
    ;
    let bytes: i128 = (pitch as i128) * (h as i128);
    (w as i64) * 4 <= pitch as i64 && (pitch <= i32::MAX as u32 || h <= 1) && bytes
        <= usize::MAX as i128
}

/// The difference of two coordinates, if it can be expressed.
fn span(from: i32, to: i32) -> (d: Option<i32>)
    ensures
        d == (if i32::MIN <= to - from <= i32::MAX {
            Some((to - from) as i32)
        } else {
            None
        }),
{
    to.checked_sub(from)
}

impl<G, O, D, S, B> CaptureThread<G, O, D, S, B> {
    /// The thread with what it shares and its scratch buffer.
    pub open spec fn world(
        self,
        shared: shared::SharedModel,
        scratch: Seq<u8>,
    ) -> capture_model::World<G, O, D, S, B> {
        capture_model::World { thread: self, shared, scratch }
    }

    /// The thread at its start, which begins by creating a device.
    pub fn start() -> (r: (CaptureThread<G, O, D, S, B>, Action<B>))
        ensures
            r.0 == capture_model::first_state::<G, O, D, S, B>(),
            r.1 == Action::<B>::CreateDevice,
            r.0.world(shared::SharedModel::initial(), Seq::empty()).wf(),
    {
        let thread = CaptureThread {
            phase: Phase::Device(Purpose::Startup),
            dxgi: None,
            pending: None,
            gdi: GdiCapture::new(0),
            gdi_fail_count: 0,
            announced: false,
        };
        (thread, Action::CreateDevice)
    }

    /// Tells whether an event is an outcome of the action that the thread waits for.
    pub fn accepts(
        &self,
        shared: &SharedState,
        scratch: &Vec<u8>,
        event: &Event<'_, G, O, D, S, B>,
    ) -> (ok: bool)
        requires
            self.world(shared@, scratch@).wf(),
        ensures
            ok == self.world(shared@, scratch@).accepts(*event),
    {
        match (self.phase, event) {
            (Phase::Device(_), Event::Device(_)) => true,
            (Phase::Counting(_, _), Event::Probe(_)) => true,
            (Phase::FirstOutput(_), Event::Output(_)) => true,
            (Phase::Opening(_, _), Event::Output(_)) => true,
            (Phase::Locating(_, _), Event::Desktop(place)) => match place {
                None => true,
                Some(r) => match (span(r.left, r.right), span(r.top, r.bottom)) {
                    (Some(w), Some(h)) => is_capturable(w, h),
                    _ => false,
                },
            },
            (Phase::Duplicating(_), Event::Duplication(opened)) => match opened {
                None => true,
                Some(d) => is_capturable(num::signed(d.width), num::signed(d.height)),
            },
            (Phase::Placing(_), Event::Desktop(_)) => true,
            (Phase::Staging(_), Event::Staging(_)) => true,
            (Phase::OpeningGdi, Event::Refresh(_)) => true,
            (Phase::Acquiring, Event::Acquired(_, _)) => true,
            (Phase::Acquiring, Event::AcquireFailed(_)) => true,
            (Phase::Mapping, Event::Mapped(pitch)) => match pitch {
                None => true,
                Some(p) => is_mappable(shared.cap_w, shared.cap_h, *p),
            },
            (Phase::Reading(_, h, pitch), Event::Pixels(data)) => {
                assert(0 <= pitch * h) by (nonlinear_arith)
                    requires
                        pitch >= 0,
                        h > 0,
                ;
                data.len() == (pitch as usize) * (h as usize)
            },
            (Phase::Measuring, Event::Metrics(a)) => is_copyable(*a),
            (Phase::Sizing(_), Event::Bitmap(_)) => true,
            (Phase::Blitting(a), Event::Done) => frame::byte_count(a.w, a.h) <= scratch.len(),
            (Phase::Announcing(_), Event::Done) => true,
            (Phase::RetryPause, Event::Done) => true,
            (Phase::ReopenPause, Event::Done) => true,
            (Phase::Resting, Event::Done) => true,
            (Phase::Waking, Event::Done) => true,
            (Phase::Unmapping, Event::Done) => true,
            (Phase::Releasing, Event::Done) => true,
            (Phase::GdiAnnouncing, Event::Done) => true,
            (Phase::GdiWaking, Event::Done) => true,
            (Phase::GdiResting, Event::Done) => true,
            _ => false,
        }
    }

    // Opening a device, an output and a duplication

    /// Tells whether there is a device with an open output.
    fn has_output(&self) -> (known: bool)
        ensures
            known == (self.dxgi matches Some(dx) && dx.output.is_some()),
    {
        match &self.dxgi {
            Some(dx) => dx.output.is_some(),
            None => false,
        }
    }

    /// Ends an attempt to duplicate an output.
    fn concluded(
        &mut self,
        shared: &mut SharedState,
        scratch: &mut Vec<u8>,
        purpose: Purpose,
        ok: bool,
    ) -> (action: Action<B>)
        requires
            old(self).world(old(shared)@, old(scratch)@).settled(ok),
        ensures
            (final(self).world(final(shared)@, final(scratch)@), action) == old(self).world(
                old(shared)@,
                old(scratch)@,
            ).concluded(purpose, ok),
            final(self).world(final(shared)@, final(scratch)@).wf(),
    {
        shared.mode = if ok {
            Mode::Dxgi
        } else {
            Mode::Gdi
        };
        self.pending = None;
        let new_device: bool = purpose == Purpose::Startup || purpose == Purpose::Retry;
        if !ok && new_device && !self.has_output() {
            self.dxgi = None;
        }
        if shared.cap_w > 0 && shared.cap_h > 0 && !self.announced {
            self.announced = true;
            self.phase = Phase::Announcing(purpose);
            Action::PostResize
        } else {
            self.resume(shared, scratch, purpose)
        }
    }

    /// Goes on with what an attempt was made for.
    fn resume(
        &mut self,
        shared: &mut SharedState,
        scratch: &mut Vec<u8>,
        purpose: Purpose,
    ) -> (action: Action<B>)
        requires
            old(self).world(old(shared)@, old(scratch)@).at_top(),
        ensures
            (final(self).world(final(shared)@, final(scratch)@), action) == old(self).world(
                old(shared)@,
                old(scratch)@,
            ).resumed(purpose),
            final(self).world(final(shared)@, final(scratch)@).wf(),
    {
        match (purpose, shared.mode) {
            (Purpose::Startup, _) => {
                self.phase = Phase::OpeningGdi;
                Action::OpenGdi
            },
            (Purpose::GdiNextMonitor, Mode::Gdi) => self.gdi_frame(shared, scratch),
            _ => self.top(shared, scratch),
        }
    }

    /// Counts the outputs of a new device, if there is one.
    fn on_device(
        &mut self,
        shared: &mut SharedState,
        scratch: &mut Vec<u8>,
        purpose: Purpose,
        gpu: Option<G>,
    ) -> (action: Action<B>)
        requires
            old(self).world(old(shared)@, old(scratch)@).wf(),
            old(self).phase == Phase::Device(purpose),
        ensures
            (final(self).world(final(shared)@, final(scratch)@), action) == old(self).world(
                old(shared)@,
                old(scratch)@,
            ).on_device(purpose, gpu),
            final(self).world(final(shared)@, final(scratch)@).wf(),
    {
        match gpu {
            None => self.concluded(shared, scratch, purpose, false),
            Some(gpu) => {
                self.dxgi = Some(DxgiCapture { gpu, output: None, dupl: None, staging: None });
                self.phase = Phase::Counting(purpose, 0);
                Action::ProbeOutput(0)
            },
        }
    }

    /// Counts one output more, or ends the count and opens the first output.
    fn on_probe(
        &mut self,
        shared: &mut SharedState,
        scratch: &mut Vec<u8>,
        purpose: Purpose,
        n: u32,
        found: bool,
    ) -> (action: Action<B>)
        requires
            old(self).world(old(shared)@, old(scratch)@).wf(),
            old(self).phase == Phase::Counting(purpose, n),
        ensures
            (final(self).world(final(shared)@, final(scratch)@), action) == old(self).world(
                old(shared)@,
                old(scratch)@,
            ).on_probe(purpose, n, found),
            final(self).world(final(shared)@, final(scratch)@).wf(),
    {
        let count: u32 = if found {
            n + 1
        } else {
            n
        };
        if found && count < MAX_OUTPUTS {
            self.phase = Phase::Counting(purpose, count);
            Action::ProbeOutput(count)
        } else {
            shared.output_count = if count > 0 {
                count as i32
            } else {
                1
            };
            shared.output_index = 0;
            self.phase = Phase::FirstOutput(purpose);
            Action::OpenOutput(0)
        }
    }

    /// Duplicates the first output, if there is one.
    fn on_first_output(
        &mut self,
        shared: &mut SharedState,
        scratch: &mut Vec<u8>,
        purpose: Purpose,
        output: Option<O>,
    ) -> (action: Action<B>)
        requires
            old(self).world(old(shared)@, old(scratch)@).wf(),
            old(self).phase == Phase::FirstOutput(purpose),
        ensures
            (final(self).world(final(shared)@, final(scratch)@), action) == old(self).world(
                old(shared)@,
                old(scratch)@,
            ).on_first_output(purpose, output),
            final(self).world(final(shared)@, final(scratch)@).wf(),
    {
        match output {
            None => self.concluded(shared, scratch, purpose, false),
            Some(output) => {
                if let Some(dx) = &mut self.dxgi {
                    dx.output = Some(output);
                }
                self.duplicate(shared, scratch, purpose)
            },
        }
    }

    /// Gives up the selected output and opens another one.
    fn open_output(
        &mut self,
        shared: &mut SharedState,
        scratch: &mut Vec<u8>,
        purpose: Purpose,
        index: i32,
    ) -> (action: Action<B>)
        requires
            old(shared)@.wf(),
            old(self).gdi_fail_count <= GDI_FRAMES_PER_RETRY,
            old(self).dxgi.is_some(),
            old(self).world(old(shared)@, old(scratch)@).may_attempt(purpose),
            0 <= index < old(shared).output_count,
        ensures
            (final(self).world(final(shared)@, final(scratch)@), action) == old(self).world(
                old(shared)@,
                old(scratch)@,
            ).open_output(purpose, index),
            final(self).world(final(shared)@, final(scratch)@).wf(),
    {
        if let Some(dx) = &mut self.dxgi {
            dx.dupl = None;
            dx.staging = None;
            dx.output = None;
        }
        self.phase = Phase::Opening(purpose, index);
        Action::OpenOutput(index as u32)
    }

    /// Asks where the newly opened output lies.
    fn on_output(
        &mut self,
        shared: &mut SharedState,
        scratch: &mut Vec<u8>,
        purpose: Purpose,
        index: i32,
        output: Option<O>,
    ) -> (action: Action<B>)
        requires
            old(self).world(old(shared)@, old(scratch)@).wf(),
            old(self).phase == Phase::Opening(purpose, index),
        ensures
            (final(self).world(final(shared)@, final(scratch)@), action) == old(self).world(
                old(shared)@,
                old(scratch)@,
            ).on_output(purpose, index, output),
            final(self).world(final(shared)@, final(scratch)@).wf(),
    {
        match output {
            None => self.concluded(shared, scratch, purpose, false),
            Some(output) => {
                if let Some(dx) = &mut self.dxgi {
                    dx.output = Some(output);
                }
                self.phase = Phase::Locating(purpose, index);
                Action::DescribeOutput
            },
        }
    }

    /// Selects the newly opened output and duplicates it.
    fn on_place(
        &mut self,
        shared: &mut SharedState,
        scratch: &mut Vec<u8>,
        purpose: Purpose,
        index: i32,
        place: Option<Rect>,
    ) -> (action: Action<B>)
        requires
            old(self).world(old(shared)@, old(scratch)@).wf(),
            old(self).world(old(shared)@, old(scratch)@).accepts(Event::Desktop(place)),
            old(self).phase == Phase::Locating(purpose, index),
        ensures
            (final(self).world(final(shared)@, final(scratch)@), action) == old(self).world(
                old(shared)@,
                old(scratch)@,
            ).on_place(purpose, index, place),
            final(self).world(final(shared)@, final(scratch)@).wf(),
    {
        if let Some(r) = place {
            shared.cap_x = r.left;
            shared.cap_y = r.top;
            shared.cap_w = r.right - r.left;
            shared.cap_h = r.bottom - r.top;
        }
        shared.output_index = index;
        self.duplicate(shared, scratch, purpose)
    }

    /// Begins to duplicate the selected output, if there is one.
    fn duplicate(
        &mut self,
        shared: &mut SharedState,
        scratch: &mut Vec<u8>,
        purpose: Purpose,
    ) -> (action: Action<B>)
        requires
            old(shared)@.wf(),
            old(self).gdi_fail_count <= GDI_FRAMES_PER_RETRY,
            old(self).dxgi.is_some(),
            old(self).world(old(shared)@, old(scratch)@).may_attempt(purpose),
        ensures
            (final(self).world(final(shared)@, final(scratch)@), action) == old(self).world(
                old(shared)@,
                old(scratch)@,
            ).duplicate(purpose),
            final(self).world(final(shared)@, final(scratch)@).wf(),
    {
        let mut known: bool = false;
        if let Some(dx) = &mut self.dxgi {
            dx.dupl = None;
            dx.staging = None;
            known = dx.output.is_some();
        }
        if known {
            self.phase = Phase::Duplicating(purpose);
            Action::Duplicate
        } else {
            self.concluded(shared, scratch, purpose, false)
        }
    }

    /// Takes over the size that the duplication reports.
    fn on_duplication(
        &mut self,
        shared: &mut SharedState,
        scratch: &mut Vec<u8>,
        purpose: Purpose,
        opened: Option<Duplicated<D>>,
    ) -> (action: Action<B>)
        requires
            old(self).world(old(shared)@, old(scratch)@).wf(),
            old(self).world(old(shared)@, old(scratch)@).accepts(Event::Duplication(opened)),
            old(self).phase == Phase::Duplicating(purpose),
        ensures
            (final(self).world(final(shared)@, final(scratch)@), action) == old(self).world(
                old(shared)@,
                old(scratch)@,
            ).on_duplication(purpose, opened),
            final(self).world(final(shared)@, final(scratch)@).wf(),
    {
        match opened {
            None => self.concluded(shared, scratch, purpose, false),
            Some(d) => {
                shared.cap_w = num::signed(d.width);
                shared.cap_h = num::signed(d.height);
                self.pending = Some(d.handle);
                self.phase = Phase::Placing(purpose);
                Action::DescribeOutput
            },
        }
    }

    /// Takes over the place of the duplicated output and asks for a texture of its size.
    fn on_origin(
        &mut self,
        shared: &mut SharedState,
        scratch: &mut Vec<u8>,
        purpose: Purpose,
        place: Option<Rect>,
    ) -> (action: Action<B>)
        requires
            old(self).world(old(shared)@, old(scratch)@).wf(),
            old(self).phase == Phase::Placing(purpose),
        ensures
            (final(self).world(final(shared)@, final(scratch)@), action) == old(self).world(
                old(shared)@,
                old(scratch)@,
            ).on_origin(purpose, place),
            final(self).world(final(shared)@, final(scratch)@).wf(),
    {
        if let Some(r) = place {
            shared.cap_x = r.left;
            shared.cap_y = r.top;
        }
        if shared.cap_w <= 0 || shared.cap_h <= 0 {
            self.concluded(shared, scratch, purpose, false)
        } else {
            self.phase = Phase::Staging(purpose);
            Action::CreateStaging(shared.cap_w as u32, shared.cap_h as u32)
        }
    }

    /// Completes the duplication, if it has its texture.
    fn on_staging(
        &mut self,
        shared: &mut SharedState,
        scratch: &mut Vec<u8>,
        purpose: Purpose,
        staging: Option<Option<S>>,
    ) -> (action: Action<B>)
        requires
            old(self).world(old(shared)@, old(scratch)@).wf(),
            old(self).phase == Phase::Staging(purpose),
        ensures
            (final(self).world(final(shared)@, final(scratch)@), action) == old(self).world(
                old(shared)@,
                old(scratch)@,
            ).on_staging(purpose, staging),
            final(self).world(final(shared)@, final(scratch)@).wf(),
    {
        match staging {
            None => self.concluded(shared, scratch, purpose, false),
            Some(texture) => {
                let dupl = self.pending.take();
                if let Some(dx) = &mut self.dxgi {
                    dx.staging = texture;
                    dx.dupl = dupl;
                }
                self.concluded(shared, scratch, purpose, true)
            },
        }
    }

    // The loop

    /// Begins a round of the loop, unless the thread has to end.
    fn top(&mut self, shared: &mut SharedState, scratch: &mut Vec<u8>) -> (action: Action<B>)
        requires
            old(self).world(old(shared)@, old(scratch)@).at_top(),
        ensures
            (final(self).world(final(shared)@, final(scratch)@), action) == old(self).world(
                old(shared)@,
                old(scratch)@,
            ).top(),
            final(self).world(final(shared)@, final(scratch)@).wf(),
    {
        if !shared.running {
            self.phase = Phase::Stopped;
            return Action::Stop;
        }
        match shared.mode {
            Mode::Dxgi => self.dxgi_round(shared, scratch),
            Mode::Gdi => self.gdi_round(shared, scratch),
        }
    }

    /// A round with Desktop Duplication.
    fn dxgi_round(&mut self, shared: &mut SharedState, scratch: &mut Vec<u8>) -> (action: Action<B>)
        requires
            old(self).world(old(shared)@, old(scratch)@).at_top(),
            old(self).world(old(shared)@, old(scratch)@).in_dxgi(),
        ensures
            (final(self).world(final(shared)@, final(scratch)@), action) == old(self).world(
                old(shared)@,
                old(scratch)@,
            ).dxgi_round(),
            final(self).world(final(shared)@, final(scratch)@).wf(),
    {
        let opened: bool = match &self.dxgi {
            None => {
                self.phase = Phase::RetryPause;
                return Action::Sleep(REOPEN_PAUSE_MS);
            },
            Some(dx) => dx.dupl.is_some(),
        };
        let asked: bool = shared.switch_monitor;
        shared.switch_monitor = false;
        if asked && shared.output_count > 1 {
            let next: i32 = shared::next_output(shared.output_index, shared.output_count);
            self.open_output(shared, scratch, Purpose::NextMonitor, next)
        } else if !opened {
            self.phase = Phase::ReopenPause;
            Action::Sleep(REOPEN_PAUSE_MS)
        } else {
            self.phase = Phase::Acquiring;
            Action::AcquireFrame(ACQUIRE_TIMEOUT_MS)
        }
    }

    /// Copies an arrived frame, if there is anything to copy.
    fn on_acquired(
        &mut self,
        shared: &mut SharedState,
        scratch: &mut Vec<u8>,
        last_present: i64,
        texture: bool,
    ) -> (action: Action<B>)
        requires
            old(self).world(old(shared)@, old(scratch)@).wf(),
            old(self).phase == Phase::Acquiring,
        ensures
            (final(self).world(final(shared)@, final(scratch)@), action) == old(self).world(
                old(shared)@,
                old(scratch)@,
            ).on_acquired(last_present, texture),
            final(self).world(final(shared)@, final(scratch)@).wf(),
    {
        let receiver: bool = match &self.dxgi {
            Some(dx) => dx.staging.is_some(),
            None => false,
        };
        if last_present != 0 && texture && receiver {
            self.phase = Phase::Mapping;
            Action::CopyAndMap
        } else {
            self.phase = Phase::Releasing;
            Action::ReleaseFrame
        }
    }

    /// Reacts to a frame that did not arrive.
    fn on_acquire_failed(
        &mut self,
        shared: &mut SharedState,
        scratch: &mut Vec<u8>,
        code: i32,
    ) -> (action: Action<B>)
        requires
            old(self).world(old(shared)@, old(scratch)@).wf(),
            old(self).phase == Phase::Acquiring,
        ensures
            (final(self).world(final(shared)@, final(scratch)@), action) == old(self).world(
                old(shared)@,
                old(scratch)@,
            ).on_acquire_failed(code),
            final(self).world(final(shared)@, final(scratch)@).wf(),
    {
        if code == DXGI_ERROR_WAIT_TIMEOUT {
            self.top(shared, scratch)
        } else if code == DXGI_ERROR_ACCESS_LOST || code == DXGI_ERROR_INVALID_CALL {
            if let Some(dx) = &mut self.dxgi {
                dx.dupl = None;
            }
            self.phase = Phase::ReopenPause;
            Action::Sleep(LOST_PAUSE_MS)
        } else {
            self.phase = Phase::Resting;
            Action::Sleep(FAILURE_PAUSE_MS)
        }
    }

    /// Asks for the bytes of the mapped copy.
    fn on_mapped(
        &mut self,
        shared: &mut SharedState,
        scratch: &mut Vec<u8>,
        pitch: Option<u32>,
    ) -> (action: Action<B>)
        requires
            old(self).world(old(shared)@, old(scratch)@).wf(),
            old(self).world(old(shared)@, old(scratch)@).accepts(Event::Mapped(pitch)),
            old(self).phase == Phase::Mapping,
        ensures
            (final(self).world(final(shared)@, final(scratch)@), action) == old(self).world(
                old(shared)@,
                old(scratch)@,
            ).on_mapped(pitch),
            final(self).world(final(shared)@, final(scratch)@).wf(),
    {
        match pitch {
            None => {
                self.phase = Phase::Releasing;
                Action::ReleaseFrame
            },
            Some(p) => {
                self.phase = Phase::Reading(shared.cap_w, shared.cap_h, p);
                assert(0 <= p * shared.cap_h) by (nonlinear_arith)
                    requires
                        p >= 0,
                        shared.cap_h > 0,
                ;
                Action::ReadMapped((p as usize) * (shared.cap_h as usize))
            },
        }
    }

    /// A round of copying from the screen.
    fn gdi_round(&mut self, shared: &mut SharedState, scratch: &mut Vec<u8>) -> (action: Action<B>)
        requires
            old(self).world(old(shared)@, old(scratch)@).at_top(),
            old(self).world(old(shared)@, old(scratch)@).in_gdi(),
        ensures
            (final(self).world(final(shared)@, final(scratch)@), action) == old(self).world(
                old(shared)@,
                old(scratch)@,
            ).gdi_round(),
            final(self).world(final(shared)@, final(scratch)@).wf(),
    {
        if shared.switch_monitor && shared.output_count > 1 && self.dxgi.is_some() {
            shared.switch_monitor = false;
            let next: i32 = shared::next_output(shared.output_index, shared.output_count);
            self.open_output(shared, scratch, Purpose::GdiNextMonitor, next)
        } else {
            self.gdi_frame(shared, scratch)
        }
    }

    /// Begins to copy a frame from the screen.
    fn gdi_frame(&mut self, shared: &mut SharedState, scratch: &mut Vec<u8>) -> (action: Action<B>)
        requires
            old(self).world(old(shared)@, old(scratch)@).at_top(),
            old(self).world(old(shared)@, old(scratch)@).in_gdi(),
        ensures
            (final(self).world(final(shared)@, final(scratch)@), action) == old(self).world(
                old(shared)@,
                old(scratch)@,
            ).gdi_frame(),
            final(self).world(final(shared)@, final(scratch)@).wf(),
    {
        shared.switch_monitor = false;
        if shared.cap_w <= 0 || shared.cap_h <= 0 {
            self.phase = Phase::Measuring;
            Action::ReadVirtualScreen
        } else {
            self.gdi_grab(shared, scratch)
        }
    }

    /// Takes over the virtual desktop as captured area.
    fn on_metrics(
        &mut self,
        shared: &mut SharedState,
        scratch: &mut Vec<u8>,
        a: Area,
    ) -> (action: Action<B>)
        requires
            old(self).world(old(shared)@, old(scratch)@).wf(),
            old(self).world(old(shared)@, old(scratch)@).accepts(Event::Metrics(a)),
            old(self).phase == Phase::Measuring,
        ensures
            (final(self).world(final(shared)@, final(scratch)@), action) == old(self).world(
                old(shared)@,
                old(scratch)@,
            ).on_metrics(a),
            final(self).world(final(shared)@, final(scratch)@).wf(),
    {
        shared.cap_x = a.x;
        shared.cap_y = a.y;
        shared.cap_w = a.w;
        shared.cap_h = a.h;
        if a.w > 0 && a.h > 0 && !self.announced {
            self.announced = true;
            self.phase = Phase::GdiAnnouncing;
            Action::PostResize
        } else {
            self.gdi_grab(shared, scratch)
        }
    }

    /// Provides a bitmap of the size of the captured area.
    fn gdi_grab(&mut self, shared: &mut SharedState, scratch: &mut Vec<u8>) -> (action: Action<B>)
        requires
            old(self).world(old(shared)@, old(scratch)@).at_top(),
            old(self).world(old(shared)@, old(scratch)@).in_gdi(),
            capture_model::copyable(old(self).world(old(shared)@, old(scratch)@).area()),
        ensures
            (final(self).world(final(shared)@, final(scratch)@), action) == old(self).world(
                old(shared)@,
                old(scratch)@,
            ).gdi_grab(),
            final(self).world(final(shared)@, final(scratch)@).wf(),
    {
        let a = Area { x: shared.cap_x, y: shared.cap_y, w: shared.cap_w, h: shared.cap_h };
        match self.gdi.ensure_sized(a.w, a.h) {
            None => self.blit(shared, scratch, a),
            Some(stale) => {
                self.phase = Phase::Sizing(a);
                Action::CreateBitmap(stale, a.w, a.h)
            },
        }
    }

    /// Takes over the new bitmap.
    fn on_bitmap(
        &mut self,
        shared: &mut SharedState,
        scratch: &mut Vec<u8>,
        a: Area,
        bitmap: B,
    ) -> (action: Action<B>)
        requires
            old(self).world(old(shared)@, old(scratch)@).wf(),
            old(self).phase == Phase::Sizing(a),
        ensures
            (final(self).world(final(shared)@, final(scratch)@), action) == old(self).world(
                old(shared)@,
                old(scratch)@,
            ).on_bitmap(a, bitmap),
            final(self).world(final(shared)@, final(scratch)@).wf(),
    {
        self.gdi.cap_bmp = Some(bitmap);
        self.gdi.cap_w = a.w;
        self.gdi.cap_h = a.h;
        self.blit(shared, scratch, a)
    }

    /// Makes room for the pixels of the area and asks for them.
    fn blit(
        &mut self,
        shared: &mut SharedState,
        scratch: &mut Vec<u8>,
        a: Area,
    ) -> (action: Action<B>)
        requires
            old(self).world(old(shared)@, old(scratch)@).at_top(),
            old(self).world(old(shared)@, old(scratch)@).in_gdi(),
            capture_model::copyable(a),
            old(self).gdi.sized(a.w, a.h),
        ensures
            (final(self).world(final(shared)@, final(scratch)@), action) == old(self).world(
                old(shared)@,
                old(scratch)@,
            ).blit(a),
            final(self).world(final(shared)@, final(scratch)@).wf(),
    {
        frame::grow(scratch, frame::byte_count(a.w, a.h));
        self.phase = Phase::Blitting(a);
        Action::Blit(a)
    }

    /// Counts a frame copied from the screen and goes on with the next round, or with an attempt to
    /// use Desktop Duplication again.
    fn gdi_counted(
        &mut self,
        shared: &mut SharedState,
        scratch: &mut Vec<u8>,
    ) -> (action: Action<B>)
        requires
            old(self).world(old(shared)@, old(scratch)@).wf(),
            old(self).phase == Phase::GdiResting,
        ensures
            (final(self).world(final(shared)@, final(scratch)@), action) == old(self).world(
                old(shared)@,
                old(scratch)@,
            ).gdi_counted(),
            final(self).world(final(shared)@, final(scratch)@).wf(),
    {
        self.gdi_fail_count = self.gdi_fail_count + 1;
        if self.gdi_fail_count > GDI_FRAMES_PER_RETRY {
            self.gdi_fail_count = 0;
            if self.has_output() {
                return self.duplicate(shared, scratch, Purpose::GdiRetry);
            }
        }
        self.top(shared, scratch)
    }

    /// Takes the step that follows the outcome of the last action, and says which action is next.
    pub fn step(
        &mut self,
        shared: &mut SharedState,
        scratch: &mut Vec<u8>,
        event: Event<'_, G, O, D, S, B>,
    ) -> (action: Action<B>)
        requires
            old(self).world(old(shared)@, old(scratch)@).wf(),
            old(self).world(old(shared)@, old(scratch)@).accepts(event),
        ensures
            (final(self).world(final(shared)@, final(scratch)@), action) == old(self).world(
                old(shared)@,
                old(scratch)@,
            ).step(event),
            final(self).world(final(shared)@, final(scratch)@).wf(),
    {
        match (self.phase, event) {
            (Phase::Device(p), Event::Device(gpu)) => self.on_device(shared, scratch, p, gpu),
            (Phase::Counting(p, n), Event::Probe(found)) => self.on_probe(
                shared,
                scratch,
                p,
                n,
                found,
            ),
            (Phase::FirstOutput(p), Event::Output(output)) => self.on_first_output(
                shared,
                scratch,
                p,
                output,
            ),
            (Phase::Opening(p, index), Event::Output(output)) => self.on_output(
                shared,
                scratch,
                p,
                index,
                output,
            ),
            (Phase::Locating(p, index), Event::Desktop(place)) => self.on_place(
                shared,
                scratch,
                p,
                index,
                place,
            ),
            (Phase::Duplicating(p), Event::Duplication(opened)) => self.on_duplication(
                shared,
                scratch,
                p,
                opened,
            ),
            (Phase::Placing(p), Event::Desktop(place)) => self.on_origin(shared, scratch, p, place),
            (Phase::Staging(p), Event::Staging(staging)) => self.on_staging(
                shared,
                scratch,
                p,
                staging,
            ),
            (Phase::Announcing(p), Event::Done) => self.resume(shared, scratch, p),
            (Phase::OpeningGdi, Event::Refresh(rate)) => {
                self.gdi = GdiCapture::new(rate);
                self.top(shared, scratch)
            },
            (Phase::RetryPause, Event::Done) => {
                self.phase = Phase::Device(Purpose::Retry);
                Action::CreateDevice
            },
            (Phase::ReopenPause, Event::Done) => self.duplicate(shared, scratch, Purpose::Reopen),
            (Phase::Resting, Event::Done) => self.top(shared, scratch),
            (Phase::Acquiring, Event::Acquired(last_present, texture)) => self.on_acquired(
                shared,
                scratch,
                last_present,
                texture,
            ),
            (Phase::Acquiring, Event::AcquireFailed(code)) => self.on_acquire_failed(
                shared,
                scratch,
                code,
            ),
            (Phase::Mapping, Event::Mapped(pitch)) => self.on_mapped(shared, scratch, pitch),
            (Phase::Reading(w, h, pitch), Event::Pixels(data)) => {
                let stride: i32 = num::signed(pitch);
                proof {
                    lemma_mapped_rows(w as int, h as int, pitch as int);
                }
                if shared.publish_frame(data, w, h, stride) {
                    self.phase = Phase::Waking;
                    Action::PostNewFrame
                } else {
                    self.phase = Phase::Unmapping;
                    Action::Unmap
                }
            },
            (Phase::Waking, Event::Done) => {
                self.phase = Phase::Unmapping;
                Action::Unmap
            },
            (Phase::Unmapping, Event::Done) => {
                self.phase = Phase::Releasing;
                Action::ReleaseFrame
            },
            (Phase::Releasing, Event::Done) => self.top(shared, scratch),
            (Phase::Measuring, Event::Metrics(a)) => self.on_metrics(shared, scratch, a),
            (Phase::GdiAnnouncing, Event::Done) => self.gdi_grab(shared, scratch),
            (Phase::Sizing(a), Event::Bitmap(bitmap)) => self.on_bitmap(shared, scratch, a, bitmap),
            (Phase::Blitting(a), Event::Done) => {
                let delay: u64 = self.gdi.frame_delay_ms as u64;
                proof {
                    lemma_copied_rows(a);
                }
                if shared.publish_frame(scratch, a.w, a.h, a.w * 4) {
                    self.phase = Phase::GdiWaking;
                    Action::PostNewFrame
                } else {
                    self.phase = Phase::GdiResting;
                    Action::Sleep(delay)
                }
            },
            (Phase::GdiWaking, Event::Done) => {
                self.phase = Phase::GdiResting;
                Action::Sleep(self.gdi.frame_delay_ms as u64)
            },
            (Phase::GdiResting, Event::Done) => self.gdi_counted(shared, scratch),
            _ => vstd::pervasive::unreached(),
        }
    }
}

/// The bytes of a mapped texture hold the whole picture.
proof fn lemma_mapped_rows(w: int, h: int, pitch: int)
    requires
        w > 0,
        h > 0,
        0 <= pitch <= u32::MAX,
        shared::capturable(w, h),
        capture_model::mappable(w, h, pitch),
    ensures
        frame::holds_picture((pitch * h) as nat, w, h, num::wrap_i32(pitch)),
{
    let stride = num::wrap_i32(pitch);
    assert((h - 1) * stride + w * 4 <= pitch * h && pitch * h >= 0) by (nonlinear_arith)
        requires
            h == 1 || stride == pitch,
            w * 4 <= pitch,
            h > 0,
            pitch >= 0,
    ;
}

/// Rows copied from the screen follow each other without gaps.
proof fn lemma_copied_rows(a: Area)
    requires
        capture_model::copyable(a),
    ensures
        a.h > 0 ==> (a.h - 1) * (a.w * 4) + a.w * 4 == frame::frame_bytes(a.w as int, a.h as int),
{
    assert((a.h - 1) * (a.w * 4) + a.w * 4 == a.w * a.h * 4) by (nonlinear_arith);
}

} // verus!
