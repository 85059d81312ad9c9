//! What each step of the capture thread does, as mathematics.

use vstd::prelude::*;

use crate::capture::{
    Action, Area, CaptureThread, Duplicated, DxgiCapture, Event, GdiCapture, Phase, Purpose,
    ACQUIRE_TIMEOUT_MS, DXGI_ERROR_ACCESS_LOST, DXGI_ERROR_INVALID_CALL, DXGI_ERROR_WAIT_TIMEOUT,
    FAILURE_PAUSE_MS, GDI_FRAMES_PER_RETRY, LOST_PAUSE_MS, REOPEN_PAUSE_MS,
};
use crate::capture;
use crate::frame;
use crate::geometry::Rect;
use crate::num;
use crate::shared;
use crate::shared::{Mode, SharedModel, MAX_OUTPUTS};

verus! {

/// The thread with all that its steps read and change.
#[verifier::ext_equal]
pub struct World<G, O, D, S, B> {
    pub thread: CaptureThread<G, O, D, S, B>,
    pub shared: SharedModel,
    /// The buffer that receives pixels copied from the screen.
    pub scratch: Seq<u8>,
}

/// The thread at its start: no device, nothing copied yet, the window not told of any size.
pub open spec fn first_state<G, O, D, S, B>() -> CaptureThread<G, O, D, S, B> {
    CaptureThread {
        phase: Phase::Device(Purpose::Startup),
        dxgi: None,
        pending: None,
        gdi: GdiCapture { cap_bmp: None, cap_w: 0, cap_h: 0, frame_delay_ms: 16 },
        gdi_fail_count: 0,
        announced: false,
    }
}

/// An area that pixels can be copied from.
pub open spec fn copyable(a: Area) -> bool {
    a.w >= 0 && a.h >= 0 && a.w * 4 <= i32::MAX && frame::addressable(a.w as int, a.h as int)
}

/// A texture of `w` by `h` pixels can be mapped with `pitch` bytes from row to row: each row is
/// complete and the bytes can be counted.
pub open spec fn mappable(w: int, h: int, pitch: int) -> bool {
    &&& w * 4 <= pitch
    &&& pitch <= i32::MAX || h <= 1
    &&& pitch * h <= usize::MAX
}

impl<G, O, D, S> DxgiCapture<G, O, D, S> {
    /// Nothing is open on the output.
    pub open spec fn closed(self) -> Self {
        DxgiCapture { dupl: None, staging: None, ..self }
    }

    /// A new device.
    pub open spec fn bare(gpu: G) -> Self {
        DxgiCapture { gpu, output: None, dupl: None, staging: None }
    }
}

impl<G, O, D, S, B> World<G, O, D, S, B> {
    /// The thread waits for `phase`.
    pub open spec fn at(self, phase: Phase) -> Self {
        World { thread: CaptureThread { phase, ..self.thread }, ..self }
    }

    /// Desktop Duplication is in the state `dx`.
    pub open spec fn with_dxgi(self, dx: Option<DxgiCapture<G, O, D, S>>) -> Self {
        World { thread: CaptureThread { dxgi: dx, ..self.thread }, ..self }
    }

    /// The duplication `pending` waits for its staging texture.
    pub open spec fn with_pending(self, pending: Option<D>) -> Self {
        World { thread: CaptureThread { pending, ..self.thread }, ..self }
    }

    /// The device.
    pub open spec fn dx(self) -> DxgiCapture<G, O, D, S> {
        self.thread.dxgi->0
    }

    /// There is a device with an open duplication.
    pub open spec fn duplicating(self) -> bool {
        self.thread.dxgi.is_some() && self.dx().dupl.is_some()
    }

    /// There is a device with an open duplication and a texture that receives its frames.
    pub open spec fn receiving(self) -> bool {
        self.duplicating() && self.dx().staging.is_some()
    }

    /// There is a device whose output is known and on which nothing is open.
    pub open spec fn ready(self) -> bool {
        self.thread.dxgi.is_some() && self.dx().output.is_some() && self.dx() == self.dx().closed()
    }

    /// Frames come from Desktop Duplication.
    pub open spec fn in_dxgi(self) -> bool {
        self.shared.mode == Mode::Dxgi
    }

    /// Frames are copied from the screen.
    pub open spec fn in_gdi(self) -> bool {
        self.shared.mode == Mode::Gdi
    }

    /// An attempt for `purpose` can be under way.
    pub open spec fn may_attempt(self, purpose: Purpose) -> bool {
        if purpose == Purpose::GdiNextMonitor || purpose == Purpose::GdiRetry {
            self.in_gdi()
        } else {
            self.in_dxgi()
        }
    }

    /// What holds between any two steps: an open duplication belongs to a known output, has a
    /// known size and is in use, and each phase has what the step after it needs.
    pub open spec fn wf(self) -> bool {
        &&& self.at_top()
        &&& match self.thread.phase {
            Phase::Device(p) => self.may_attempt(p) && self.thread.dxgi.is_none(),
            Phase::Counting(p, n) => {
                &&& self.may_attempt(p)
                &&& self.thread.dxgi.is_some()
                &&& self.dx() == self.dx().closed()
                &&& n < MAX_OUTPUTS
            },
            Phase::FirstOutput(p) => {
                &&& self.may_attempt(p)
                &&& self.thread.dxgi.is_some()
                &&& self.dx() == self.dx().closed()
            },
            Phase::Opening(p, index) => {
                &&& self.may_attempt(p)
                &&& self.thread.dxgi.is_some()
                &&& self.dx() == self.dx().closed()
                &&& 0 <= index < self.shared.output_count
            },
            Phase::Locating(p, index) => {
                &&& self.may_attempt(p)
                &&& self.ready()
                &&& 0 <= index < self.shared.output_count
            },
            Phase::Duplicating(p) => self.may_attempt(p) && self.ready(),
            Phase::Placing(p) => self.may_attempt(p) && self.ready()
                && self.thread.pending.is_some(),
            Phase::Staging(p) => {
                &&& self.may_attempt(p)
                &&& self.ready()
                &&& self.thread.pending.is_some()
                &&& self.shared.size_known()
            },
            Phase::RetryPause => self.in_dxgi() && self.thread.dxgi.is_none(),
            Phase::ReopenPause => self.in_dxgi() && self.thread.dxgi.is_some(),
            Phase::Acquiring | Phase::Resting | Phase::Releasing => self.duplicating(),
            Phase::Mapping | Phase::Waking | Phase::Unmapping => self.receiving(),
            Phase::Reading(w, h, pitch) => {
                &&& self.receiving()
                &&& w > 0
                &&& h > 0
                &&& shared::capturable(w as int, h as int)
                &&& mappable(w as int, h as int, pitch as int)
            },
            Phase::Measuring | Phase::GdiWaking | Phase::GdiResting => self.in_gdi(),
            Phase::GdiAnnouncing => self.in_gdi() && self.shared.size_known(),
            Phase::Sizing(a) => self.in_gdi() && copyable(a),
            Phase::Blitting(a) => self.in_gdi() && copyable(a) && self.thread.gdi.sized(a.w, a.h),
            Phase::Announcing(_) => self.shared.size_known(),
            Phase::OpeningGdi | Phase::Stopped => true,
        }
    }

    /// The thread can begin a round: an open duplication is usable, and so is the shared state.
    pub open spec fn at_top(self) -> bool {
        &&& self.shared.wf()
        &&& self.thread.gdi_fail_count <= GDI_FRAMES_PER_RETRY
        &&& self.duplicating() ==> {
            &&& self.shared.size_known()
            &&& self.in_dxgi()
            &&& self.dx().output.is_some()
        }
    }

    /// An attempt to duplicate an output can end with the outcome `ok`.
    pub open spec fn settled(self, ok: bool) -> bool {
        &&& self.shared.wf()
        &&& self.thread.gdi_fail_count <= GDI_FRAMES_PER_RETRY
        &&& self.duplicating() ==> ok && self.shared.size_known() && self.dx().output.is_some()
    }

    /// `e` is an outcome of the action that the thread waits for.
    pub open spec fn accepts(self, e: Event<'_, G, O, D, S, B>) -> bool {
        match (self.thread.phase, e) {
            (Phase::Device(_), Event::Device(_)) => true,
            (Phase::Counting(_, _), Event::Probe(_)) => true,
            (Phase::FirstOutput(_), Event::Output(_)) => true,
            (Phase::Opening(_, _), Event::Output(_)) => true,
            (Phase::Locating(_, _), Event::Desktop(place)) => place matches Some(r) ==> {
                &&& i32::MIN <= r.right - r.left <= i32::MAX
                &&& i32::MIN <= r.bottom - r.top <= i32::MAX
                &&& shared::capturable(r.right - r.left, r.bottom - r.top)
            },
            (Phase::Duplicating(_), Event::Duplication(opened)) => opened matches Some(d)
                ==> shared::capturable(
                num::wrap_i32(d.width as int),
                num::wrap_i32(d.height as int),
            ),
            (Phase::Placing(_), Event::Desktop(_)) => true,
            (Phase::Staging(_), Event::Staging(_)) => true,
            (Phase::OpeningGdi, Event::Refresh(_)) => true,
            (Phase::Acquiring, Event::Acquired(_, _)) => true,
            (Phase::Acquiring, Event::AcquireFailed(_)) => true,
            (Phase::Mapping, Event::Mapped(pitch)) => pitch matches Some(p) ==> mappable(
                self.shared.cap_w as int,
                self.shared.cap_h as int,
                p as int,
            ),
            (Phase::Reading(_, h, pitch), Event::Pixels(data)) => data@.len() == pitch * h,
            (Phase::Measuring, Event::Metrics(a)) => copyable(a),
            (Phase::Sizing(_), Event::Bitmap(_)) => true,
            (Phase::Blitting(a), Event::Done) => frame::frame_bytes(a.w as int, a.h as int)
                <= self.scratch.len(),
            (
                Phase::Announcing(_)
                | Phase::RetryPause
                | Phase::ReopenPause
                | Phase::Resting
                | Phase::Waking
                | Phase::Unmapping
                | Phase::Releasing
                | Phase::GdiAnnouncing
                | Phase::GdiWaking
                | Phase::GdiResting,
                Event::Done,
            ) => true,
            _ => false,
        }
    }

    // Opening a device, an output and a duplication

    /// There is a device with an open output.
    pub open spec fn has_output(self) -> bool {
        self.thread.dxgi.is_some() && self.dx().output.is_some()
    }

    /// An attempt to duplicate an output is over. Desktop Duplication is used if it worked, and
    /// the screen is copied if it did not. A new device is given up if its first output could not
    /// be opened; otherwise it is kept, so that the next monitor can be asked for and the
    /// duplication be tried again. If the capture size is known now, the window is told of it,
    /// unless it has been told before.
    pub open spec fn concluded(self, purpose: Purpose, ok: bool) -> (Self, Action<B>) {
        let mode = if ok {
            Mode::Dxgi
        } else {
            Mode::Gdi
        };
        let w = World { shared: SharedModel { mode, ..self.shared }, ..self }.with_pending(None);
        let w = if !ok && (purpose == Purpose::Startup || purpose == Purpose::Retry)
            && !self.has_output() {
            w.with_dxgi(None)
        } else {
            w
        };
        if w.shared.size_known() && !w.thread.announced {
            (w.told().at(Phase::Announcing(purpose)), Action::PostResize)
        } else {
            w.resumed(purpose)
        }
    }

    /// The thread goes on after an attempt: after the first one it prepares copying from the
    /// screen. If the next monitor could not be duplicated it is copied, otherwise a new round
    /// begins.
    pub open spec fn resumed(self, purpose: Purpose) -> (Self, Action<B>) {
        match purpose {
            Purpose::Startup => (self.at(Phase::OpeningGdi), Action::OpenGdi),
            Purpose::GdiNextMonitor if self.in_gdi() => self.gdi_frame(),
            _ => self.top(),
        }
    }

    /// The window is told of the capture size.
    pub open spec fn told(self) -> Self {
        World { thread: CaptureThread { announced: true, ..self.thread }, ..self }
    }

    /// The device was created, or not.
    pub open spec fn on_device(self, purpose: Purpose, gpu: Option<G>) -> (Self, Action<B>) {
        match gpu {
            None => self.concluded(purpose, false),
            Some(g) => (
                self.with_dxgi(Some(DxgiCapture::bare(g))).at(Phase::Counting(purpose, 0)),
                Action::ProbeOutput(0),
            ),
        }
    }

    /// Output `n` exists, or not. The outputs are counted up to the first that does not exist,
    /// but no more than the limit; at least one is assumed.
    pub open spec fn on_probe(self, purpose: Purpose, n: u32, found: bool) -> (Self, Action<B>) {
        if found && n + 1 < MAX_OUTPUTS {
            (
                self.at(Phase::Counting(purpose, (n + 1) as u32)),
                Action::ProbeOutput((n + 1) as u32),
            )
        } else {
            let count = if found {
                n + 1
            } else if n > 0 {
                n as int
            } else {
                1
            };
            let w = World {
                shared: SharedModel { output_count: count as i32, output_index: 0, ..self.shared },
                ..self
            };
            (w.at(Phase::FirstOutput(purpose)), Action::OpenOutput(0))
        }
    }

    /// The first output of a new device was opened, or not.
    pub open spec fn on_first_output(
        self,
        purpose: Purpose,
        output: Option<O>,
    ) -> (Self, Action<B>) {
        match output {
            None => self.concluded(purpose, false),
            Some(o) => self.with_dxgi(Some(DxgiCapture { output: Some(o), ..self.dx() })).duplicate(
                purpose,
            ),
        }
    }

    /// The selected output is given up and output `index` is opened.
    pub open spec fn open_output(self, purpose: Purpose, index: i32) -> (Self, Action<B>) {
        (
            self.with_dxgi(Some(DxgiCapture::bare(self.dx().gpu))).at(Phase::Opening(purpose, index)),
            Action::OpenOutput(index as u32),
        )
    }

    /// Output `index` was opened, or not.
    pub open spec fn on_output(
        self,
        purpose: Purpose,
        index: i32,
        output: Option<O>,
    ) -> (Self, Action<B>) {
        match output {
            None => self.concluded(purpose, false),
            Some(o) => (
                self.with_dxgi(Some(DxgiCapture { output: Some(o), ..self.dx() })).at(
                    Phase::Locating(purpose, index),
                ),
                Action::DescribeOutput,
            ),
        }
    }

    /// The place of output `index` is known, or not: it becomes the captured area, and the output
    /// the selected one.
    pub open spec fn on_place(
        self,
        purpose: Purpose,
        index: i32,
        place: Option<Rect>,
    ) -> (Self, Action<B>) {
        let s = match place {
            None => self.shared,
            Some(r) => SharedModel {
                cap_x: r.left,
                cap_y: r.top,
                cap_w: (r.right - r.left) as i32,
                cap_h: (r.bottom - r.top) as i32,
                ..self.shared
            },
        };
        World { shared: SharedModel { output_index: index, ..s }, ..self }.duplicate(purpose)
    }

    /// The selected output is duplicated, unless there is none.
    pub open spec fn duplicate(self, purpose: Purpose) -> (Self, Action<B>) {
        let w = self.with_dxgi(Some(self.dx().closed()));
        if self.dx().output.is_some() {
            (w.at(Phase::Duplicating(purpose)), Action::Duplicate)
        } else {
            w.concluded(purpose, false)
        }
    }

    /// The output was duplicated, or not: the size that the duplication reports becomes the
    /// capture size.
    pub open spec fn on_duplication(self, purpose: Purpose, opened: Option<Duplicated<D>>) -> (
        Self,
        Action<B>,
    ) {
        match opened {
            None => self.concluded(purpose, false),
            Some(d) => {
                let s = SharedModel {
                    cap_w: num::wrap_i32(d.width as int) as i32,
                    cap_h: num::wrap_i32(d.height as int) as i32,
                    ..self.shared
                };
                (
                    World { shared: s, ..self }.with_pending(Some(d.handle)).at(
                        Phase::Placing(purpose),
                    ),
                    Action::DescribeOutput,
                )
            },
        }
    }

    /// The place of the duplicated output is known, or not: its corner becomes the origin of the
    /// captured area. A duplication without a size is given up.
    pub open spec fn on_origin(self, purpose: Purpose, place: Option<Rect>) -> (Self, Action<B>) {
        let s = match place {
            None => self.shared,
            Some(r) => SharedModel { cap_x: r.left, cap_y: r.top, ..self.shared },
        };
        let w = World { shared: s, ..self };
        if s.size_known() {
            (w.at(Phase::Staging(purpose)), Action::CreateStaging(s.cap_w as u32, s.cap_h as u32))
        } else {
            w.concluded(purpose, false)
        }
    }

    /// The staging texture was created, or not.
    pub open spec fn on_staging(
        self,
        purpose: Purpose,
        staging: Option<Option<S>>,
    ) -> (Self, Action<B>) {
        match staging {
            None => self.concluded(purpose, false),
            Some(texture) => self.with_dxgi(
                Some(DxgiCapture { staging: texture, dupl: self.thread.pending, ..self.dx() }),
            ).with_pending(None).concluded(purpose, true),
        }
    }

    // The loop

    /// The beginning of a round of the loop.
    pub open spec fn top(self) -> (Self, Action<B>) {
        if !self.shared.running {
            (self.at(Phase::Stopped), Action::Stop)
        } else if self.shared.mode == Mode::Dxgi {
            self.dxgi_round()
        } else {
            self.gdi_round()
        }
    }

    /// The monitor after the selected one.
    pub open spec fn next_index(self) -> i32 {
        shared::next_index(
            self.shared.output_index as int,
            self.shared.output_count as int,
        ) as i32
    }

    /// The user asked for the next monitor and there is one.
    pub open spec fn switch_asked(self) -> bool {
        self.shared.switch_monitor && self.shared.output_count > 1
    }

    /// The request for the next monitor is dealt with.
    pub open spec fn switch_taken(self) -> Self {
        World { shared: SharedModel { switch_monitor: false, ..self.shared }, ..self }
    }

    /// A round with Desktop Duplication.
    pub open spec fn dxgi_round(self) -> (Self, Action<B>) {
        if self.thread.dxgi.is_none() {
            (self.at(Phase::RetryPause), Action::Sleep(REOPEN_PAUSE_MS))
        } else if self.switch_asked() {
            self.switch_taken().open_output(Purpose::NextMonitor, self.next_index())
        } else if self.dx().dupl.is_none() {
            (self.switch_taken().at(Phase::ReopenPause), Action::Sleep(REOPEN_PAUSE_MS))
        } else {
            (self.switch_taken().at(Phase::Acquiring), Action::AcquireFrame(ACQUIRE_TIMEOUT_MS))
        }
    }

    /// A frame arrived: it is copied if the desktop was presented and a texture can receive it.
    pub open spec fn on_acquired(self, last_present: i64, texture: bool) -> (Self, Action<B>) {
        if last_present != 0 && texture && self.dx().staging.is_some() {
            (self.at(Phase::Mapping), Action::CopyAndMap)
        } else {
            (self.at(Phase::Releasing), Action::ReleaseFrame)
        }
    }

    /// No frame arrived: after a timeout the thread waits on, a lost duplication is opened again,
    /// and any other failure is slept over.
    pub open spec fn on_acquire_failed(self, code: i32) -> (Self, Action<B>) {
        if code == DXGI_ERROR_WAIT_TIMEOUT {
            self.top()
        } else if code == DXGI_ERROR_ACCESS_LOST || code == DXGI_ERROR_INVALID_CALL {
            (
                self.with_dxgi(Some(DxgiCapture { dupl: None, ..self.dx() })).at(
                    Phase::ReopenPause,
                ),
                Action::Sleep(LOST_PAUSE_MS),
            )
        } else {
            (self.at(Phase::Resting), Action::Sleep(FAILURE_PAUSE_MS))
        }
    }

    /// The copy was mapped, or not.
    pub open spec fn on_mapped(self, pitch: Option<u32>) -> (Self, Action<B>) {
        match pitch {
            None => (self.at(Phase::Releasing), Action::ReleaseFrame),
            Some(p) => (
                self.at(Phase::Reading(self.shared.cap_w, self.shared.cap_h, p)),
                Action::ReadMapped((p * self.shared.cap_h) as usize),
            ),
        }
    }

    /// A picture is published; the window is told of it unless it still has to draw one.
    pub open spec fn publish(
        self,
        src: Seq<u8>,
        w: i32,
        h: i32,
        stride: int,
        told: Phase,
        otherwise: (Phase, Action<B>),
    ) -> (Self, Action<B>) {
        let after = World { shared: self.shared.published(src, w, h, stride), ..self };
        if self.shared.wake_pending {
            (after.at(otherwise.0), otherwise.1)
        } else {
            (after.at(told), Action::PostNewFrame)
        }
    }

    /// A round of copying from the screen. The next monitor can be asked for here too: if it can
    /// be duplicated, Desktop Duplication goes on, otherwise that monitor is copied.
    pub open spec fn gdi_round(self) -> (Self, Action<B>) {
        if self.switch_asked() && self.thread.dxgi.is_some() {
            self.switch_taken().open_output(Purpose::GdiNextMonitor, self.next_index())
        } else {
            self.gdi_frame()
        }
    }

    /// A frame is copied from the screen: from the captured area, or from the whole virtual
    /// desktop if no area is known.
    pub open spec fn gdi_frame(self) -> (Self, Action<B>) {
        let w = self.switch_taken();
        if self.shared.size_known() {
            w.gdi_grab()
        } else {
            (w.at(Phase::Measuring), Action::ReadVirtualScreen)
        }
    }

    /// The virtual desktop becomes the captured area; the window is told of its size if it has
    /// not been told of any.
    pub open spec fn on_metrics(self, a: Area) -> (Self, Action<B>) {
        let w = World {
            shared: SharedModel { cap_x: a.x, cap_y: a.y, cap_w: a.w, cap_h: a.h, ..self.shared },
            ..self
        };
        if w.shared.size_known() && !w.thread.announced {
            (w.told().at(Phase::GdiAnnouncing), Action::PostResize)
        } else {
            w.gdi_grab()
        }
    }

    /// The captured area.
    pub open spec fn area(self) -> Area {
        Area {
            x: self.shared.cap_x,
            y: self.shared.cap_y,
            w: self.shared.cap_w,
            h: self.shared.cap_h,
        }
    }

    /// A bitmap of the size of the captured area is made, unless there is one.
    pub open spec fn gdi_grab(self) -> (Self, Action<B>) {
        let a = self.area();
        if self.thread.gdi.sized(a.w, a.h) {
            self.blit(a)
        } else {
            let gdi = GdiCapture { cap_bmp: None, ..self.thread.gdi };
            (
                World { thread: CaptureThread { gdi, ..self.thread }, ..self }.at(Phase::Sizing(a)),
                Action::CreateBitmap(self.thread.gdi.cap_bmp, a.w, a.h),
            )
        }
    }

    /// The bitmap for the area was made.
    pub open spec fn on_bitmap(self, a: Area, bitmap: B) -> (Self, Action<B>) {
        let gdi = GdiCapture { cap_bmp: Some(bitmap), cap_w: a.w, cap_h: a.h, ..self.thread.gdi };
        World { thread: CaptureThread { gdi, ..self.thread }, ..self }.blit(a)
    }

    /// The pixels of the area are copied to the scratch buffer.
    pub open spec fn blit(self, a: Area) -> (Self, Action<B>) {
        (
            World {
                scratch: frame::grown(self.scratch, frame::frame_bytes(a.w as int, a.h as int)),
                ..self
            }.at(Phase::Blitting(a)),
            Action::Blit(a),
        )
    }

    /// The pause between two frames copied from the screen.
    pub open spec fn gdi_rest(self) -> (Phase, Action<B>) {
        (Phase::GdiResting, Action::Sleep(self.thread.gdi.frame_delay_ms as u64))
    }

    /// A frame was copied from the screen: from time to time Desktop Duplication is tried again.
    pub open spec fn gdi_counted(self) -> (Self, Action<B>) {
        let due = self.thread.gdi_fail_count + 1 > GDI_FRAMES_PER_RETRY;
        let gdi_fail_count = if due {
            0
        } else {
            (self.thread.gdi_fail_count + 1) as u32
        };
        let w = World { thread: CaptureThread { gdi_fail_count, ..self.thread }, ..self };
        if due && self.has_output() {
            w.duplicate(Purpose::GdiRetry)
        } else {
            w.top()
        }
    }

    /// The step that the thread takes on the outcome `e`.
    pub open spec fn step(self, e: Event<'_, G, O, D, S, B>) -> (Self, Action<B>) {
        match (self.thread.phase, e) {
            (Phase::Device(p), Event::Device(gpu)) => self.on_device(p, gpu),
            (Phase::Counting(p, n), Event::Probe(found)) => self.on_probe(p, n, found),
            (Phase::FirstOutput(p), Event::Output(output)) => self.on_first_output(p, output),
            (Phase::Opening(p, index), Event::Output(output)) => self.on_output(p, index, output),
            (Phase::Locating(p, index), Event::Desktop(place)) => self.on_place(p, index, place),
            (Phase::Duplicating(p), Event::Duplication(opened)) => self.on_duplication(p, opened),
            (Phase::Placing(p), Event::Desktop(place)) => self.on_origin(p, place),
            (Phase::Staging(p), Event::Staging(staging)) => self.on_staging(p, staging),
            (Phase::Announcing(p), Event::Done) => self.resumed(p),
            (Phase::OpeningGdi, Event::Refresh(rate)) => {
                let gdi = GdiCapture {
                    cap_bmp: None,
                    cap_w: 0,
                    cap_h: 0,
                    frame_delay_ms: capture::frame_delay(rate as int) as u32,
                };
                World { thread: CaptureThread { gdi, ..self.thread }, ..self }.top()
            },
            (Phase::RetryPause, Event::Done) => (
                self.at(Phase::Device(Purpose::Retry)),
                Action::CreateDevice,
            ),
            (Phase::ReopenPause, Event::Done) => self.duplicate(Purpose::Reopen),
            (Phase::Resting, Event::Done) => self.top(),
            (Phase::Acquiring, Event::Acquired(last_present, texture)) => self.on_acquired(
                last_present,
                texture,
            ),
            (Phase::Acquiring, Event::AcquireFailed(code)) => self.on_acquire_failed(code),
            (Phase::Mapping, Event::Mapped(pitch)) => self.on_mapped(pitch),
            (Phase::Reading(w, h, pitch), Event::Pixels(data)) => self.publish(
                data@,
                w,
                h,
                num::wrap_i32(pitch as int),
                Phase::Waking,
                (Phase::Unmapping, Action::Unmap),
            ),
            (Phase::Waking, Event::Done) => (self.at(Phase::Unmapping), Action::Unmap),
            (Phase::Unmapping, Event::Done) => (self.at(Phase::Releasing), Action::ReleaseFrame),
            (Phase::Releasing, Event::Done) => self.top(),
            (Phase::Measuring, Event::Metrics(a)) => self.on_metrics(a),
            (Phase::GdiAnnouncing, Event::Done) => self.gdi_grab(),
            (Phase::Sizing(a), Event::Bitmap(bitmap)) => self.on_bitmap(a, bitmap),
            (Phase::Blitting(a), Event::Done) => self.publish(
                self.scratch,
                a.w,
                a.h,
                a.w * 4,
                Phase::GdiWaking,
                self.gdi_rest(),
            ),
            (Phase::GdiWaking, Event::Done) => (self.at(Phase::GdiResting), self.gdi_rest().1),
            (Phase::GdiResting, Event::Done) => self.gdi_counted(),
            _ => (self, Action::Stop),
        }
    }

    /// The thread after the outcomes `events`, of which the first answers the action `action`,
    /// and the action that it asks for at the end. The window changes nothing meanwhile.
    pub open spec fn run(self, action: Action<B>, events: Seq<Event<'_, G, O, D, S, B>>) -> (
        Self,
        Action<B>,
    )
        decreases events.len(),
    {
        if events.len() == 0 {
            (self, action)
        } else {
            let (w, a) = self.step(events[0]);
            w.run(a, events.drop_first())
        }
    }
}

} // verus!
