//! What holds of the capture thread as a whole.

use vstd::prelude::*;

use crate::capture::{
    Action, Area, CaptureThread, Duplicated, DxgiCapture, Event, GdiCapture, Phase, Purpose,
    ACQUIRE_TIMEOUT_MS, DXGI_ERROR_WAIT_TIMEOUT, GDI_FRAMES_PER_RETRY,
};
use crate::capture;
use crate::capture_model;
use crate::capture_model::World;
use crate::frame;
use crate::geometry::Rect;
use crate::num;
use crate::shared;
use crate::shared::{Mode, SharedModel, MAX_OUTPUTS};

verus! {

/// The purpose of the attempt that is under way, if one is.
pub open spec fn purpose_of(phase: Phase) -> Option<Purpose> {
    match phase {
        Phase::Device(p) => Some(p),
        Phase::Counting(p, _) => Some(p),
        Phase::FirstOutput(p) => Some(p),
        Phase::Opening(p, _) => Some(p),
        Phase::Locating(p, _) => Some(p),
        Phase::Duplicating(p) => Some(p),
        Phase::Placing(p) => Some(p),
        Phase::Staging(p) => Some(p),
        _ => None,
    }
}

/// The most steps that the thread takes from a phase on when it is told to end.
pub open spec fn steps_left(phase: Phase) -> nat {
    match phase {
        Phase::Stopped => 0,
        Phase::OpeningGdi | Phase::Resting | Phase::Releasing => 1,
        Phase::Announcing(p) => 2 + copying_after(p),
        Phase::Unmapping => 2,
        Phase::Waking => 3,
        Phase::Reading(_, _, _) => 4,
        Phase::Mapping => 5,
        Phase::Acquiring => 7,
        Phase::GdiResting => 6,
        Phase::GdiWaking => 7,
        Phase::Blitting(_) => 8,
        Phase::Sizing(_) => 9,
        Phase::GdiAnnouncing => 10,
        Phase::Measuring => 11,
        Phase::Staging(p) => 3 + copying_after(p),
        Phase::Placing(p) => 4 + copying_after(p),
        Phase::Duplicating(p) => 5 + copying_after(p),
        Phase::Locating(p, _) => 6 + copying_after(p),
        Phase::Opening(p, _) => 7 + copying_after(p),
        Phase::FirstOutput(p) => 6 + copying_after(p),
        Phase::ReopenPause => 6,
        Phase::Counting(p, n) => (7 + copying_after(p) + MAX_OUTPUTS - n) as nat,
        Phase::Device(p) => 8 + copying_after(p) + MAX_OUTPUTS as nat,
        Phase::RetryPause => 9 + MAX_OUTPUTS as nat,
    }
}

/// The steps of copying one frame from the screen, which follows a failed attempt for the next
/// monitor.
pub open spec fn copying_after(purpose: Purpose) -> nat {
    if purpose == Purpose::GdiNextMonitor {
        9
    } else {
        0
    }
}

/// What the beginning of a round leaves alone.
proof fn lemma_top<G, O, D, S, B>(w: World<G, O, D, S, B>)
    requires
        w.at_top(),
    ensures
        ({
            let (after, next) = w.top();
            &&& after.wf()
            &&& after.shared.mode == w.shared.mode
            &&& after.shared.size_known() == w.shared.size_known()
            &&& after.thread.pending == w.thread.pending
            &&& after.thread.announced == w.thread.announced
            &&& after.thread.gdi_fail_count == w.thread.gdi_fail_count
            &&& after.thread.dxgi.is_some() == w.thread.dxgi.is_some()
            &&& after.thread.phase == Phase::RetryPause ==> w.in_dxgi() && w.thread.dxgi.is_none()
            &&& begins_no_attempt(after.thread.phase)
            &&& next != Action::<B>::PostResize
            &&& next != Action::<B>::Duplicate
            &&& after.shared.running == w.shared.running
            &&& !w.shared.running ==> after.thread.phase == Phase::Stopped
        }),
{
    if w.in_gdi() {
        lemma_gdi_frame(w);
    }
}

/// What the beginning of a copy from the screen leaves alone.
proof fn lemma_gdi_frame<G, O, D, S, B>(w: World<G, O, D, S, B>)
    requires
        w.at_top(),
        w.in_gdi(),
    ensures
        ({
            let (after, next) = w.gdi_frame();
            &&& after.wf()
            &&& after.shared.mode == w.shared.mode
            &&& after.shared.size_known() == w.shared.size_known()
            &&& after.thread.pending == w.thread.pending
            &&& after.thread.announced == w.thread.announced
            &&& after.thread.gdi_fail_count == w.thread.gdi_fail_count
            &&& after.thread.dxgi == w.thread.dxgi
            &&& after.thread.phase != Phase::RetryPause
            &&& purpose_of(after.thread.phase).is_none()
            &&& next != Action::<B>::PostResize
            &&& next != Action::<B>::Duplicate
            &&& after.shared.running == w.shared.running
            &&& steps_left(after.thread.phase) <= 11
            &&& w.shared.size_known() ==> steps_left(after.thread.phase) <= 9
        }),
{
}

/// How an attempt leaves the thread.
proof fn lemma_concluded<G, O, D, S, B>(w: World<G, O, D, S, B>, purpose: Purpose, ok: bool)
    requires
        w.settled(ok),
        ok ==> w.thread.dxgi.is_some(),
    ensures
        ({
            let (after, next) = w.concluded(purpose, ok);
            &&& after.wf()
            &&& after.in_dxgi() == ok
            &&& after.thread.pending.is_none()
            &&& after.thread.gdi_fail_count == w.thread.gdi_fail_count
            &&& after.in_dxgi() ==> after.thread.dxgi.is_some()
            &&& w.has_output() ==> after.thread.dxgi.is_some()
            &&& purpose != Purpose::Startup && purpose != Purpose::Retry
                ==> after.thread.dxgi.is_some() == w.thread.dxgi.is_some()
            &&& after.thread.phase != Phase::RetryPause
            &&& begins_no_attempt(after.thread.phase)
            &&& next == Action::<B>::PostResize <==> w.shared.size_known() && !w.thread.announced
            &&& after.thread.announced == (w.thread.announced || next == Action::<B>::PostResize)
            &&& after.shared.size_known() ==> after.thread.announced
            &&& next != Action::<B>::Duplicate
            &&& after.shared.running == w.shared.running
            &&& !w.shared.running ==> steps_left(after.thread.phase) <= 2 + copying_after(purpose)
        }),
{
    let mode = if ok {
        Mode::Dxgi
    } else {
        Mode::Gdi
    };
    let set = World { shared: SharedModel { mode, ..w.shared }, ..w }.with_pending(None);
    let set = if !ok && (purpose == Purpose::Startup || purpose == Purpose::Retry)
        && !w.has_output() {
        set.with_dxgi(None)
    } else {
        set
    };
    lemma_top(set);
    if !ok {
        lemma_gdi_frame(set);
    }
}

/// The phase is not one of an attempt, unless it is the opening of the next monitor.
pub open spec fn begins_no_attempt(phase: Phase) -> bool {
    match phase {
        Phase::Opening(p, _) => p == Purpose::NextMonitor || p == Purpose::GdiNextMonitor,
        _ => purpose_of(phase).is_none(),
    }
}

/// Desktop Duplication is selected only while there is a device for it, but for the first attempt.
pub open spec fn backed<G, O, D, S, B>(w: World<G, O, D, S, B>) -> bool {
    &&& w.thread.phase != Phase::RetryPause
    &&& purpose_of(w.thread.phase) != Some(Purpose::Retry)
    &&& purpose_of(w.thread.phase) == Some(Purpose::Startup) || (w.in_dxgi()
        ==> w.thread.dxgi.is_some())
}

/// A device is there to stay: it is not only just being set up.
pub open spec fn equipped<G, O, D, S, B>(w: World<G, O, D, S, B>) -> bool {
    &&& w.thread.dxgi.is_some()
    &&& purpose_of(w.thread.phase) != Some(Purpose::Startup)
    &&& purpose_of(w.thread.phase) != Some(Purpose::Retry)
}

/// The window was told of the capture size if it is known, but for an attempt that is under way
/// and can still change it.
pub open spec fn known_is_told<G, O, D, S, B>(w: World<G, O, D, S, B>) -> bool {
    purpose_of(w.thread.phase).is_none() && w.shared.size_known() ==> w.thread.announced
}

/// A duplication waits for its staging texture only during the attempt.
pub open spec fn pending_in_attempt<G, O, D, S, B>(w: World<G, O, D, S, B>) -> bool {
    w.thread.pending.is_some() ==> match w.thread.phase {
        Phase::Placing(_) | Phase::Staging(_) => true,
        _ => false,
    }
}

/// How the beginning of a duplication leaves the thread.
proof fn lemma_duplicate<G, O, D, S, B>(w: World<G, O, D, S, B>, purpose: Purpose)
    requires
        w.shared.wf(),
        w.thread.gdi_fail_count <= GDI_FRAMES_PER_RETRY,
        w.thread.dxgi.is_some(),
        w.may_attempt(purpose),
    ensures
        ({
            let (after, next) = w.duplicate(purpose);
            if w.dx().output.is_some() {
                &&& after.shared.running == w.shared.running
                &&& after.wf()
                &&& after.thread.phase == Phase::Duplicating(purpose)
                &&& after.thread.pending == w.thread.pending
                &&& after.thread.announced == w.thread.announced
                &&& after.thread.gdi_fail_count == w.thread.gdi_fail_count
                &&& after.thread.dxgi.is_some()
                &&& next == Action::<B>::Duplicate
            } else {
                &&& after.shared.running == w.shared.running
                &&& !w.shared.running ==> steps_left(after.thread.phase) <= 2 + copying_after(
                    purpose,
                )
                &&& after.wf()
                &&& after.in_gdi()
                &&& purpose != Purpose::Startup && purpose != Purpose::Retry
                    ==> after.thread.dxgi.is_some()
                &&& after.thread.pending.is_none()
                &&& after.thread.gdi_fail_count == w.thread.gdi_fail_count
                &&& after.thread.phase != Phase::RetryPause
                &&& begins_no_attempt(after.thread.phase)
                &&& next == Action::<B>::PostResize <==> w.shared.size_known()
                    && !w.thread.announced
                &&& after.thread.announced == (w.thread.announced || next
                    == Action::<B>::PostResize)
                &&& after.shared.size_known() ==> after.thread.announced
                &&& next != Action::<B>::Duplicate
            }
        }),
{
    if w.dx().output.is_none() {
        lemma_concluded(w.with_dxgi(Some(w.dx().closed())), purpose, false);
    }
}

/// What the laws below say of a single step.
pub open spec fn orderly<G, O, D, S, B>(
    w: World<G, O, D, S, B>,
    after: World<G, O, D, S, B>,
    next: Action<B>,
) -> bool {
    &&& after.wf()
    &&& backed(w) ==> backed(after)
    &&& equipped(w) ==> equipped(after)
    &&& w.thread.phase != Phase::GdiResting ==> {
        &&& after.thread.gdi_fail_count == w.thread.gdi_fail_count
        &&& purpose_of(after.thread.phase) == Some(Purpose::GdiRetry) ==> purpose_of(w.thread.phase)
            == Some(Purpose::GdiRetry)
    }
    &&& pending_in_attempt(w) ==> pending_in_attempt(after)
    &&& w.thread.announced ==> after.thread.announced
    &&& after.shared.running == w.shared.running
    &&& !w.shared.running ==> steps_left(after.thread.phase) < steps_left(w.thread.phase)
    &&& known_is_told(w) ==> known_is_told(after)
    &&& next == Action::<B>::PostResize <==> !w.thread.announced && after.thread.announced
}

proof fn lemma_on_device<G, O, D, S, B>(w: World<G, O, D, S, B>, p: Purpose, gpu: Option<G>)
    requires
        w.wf(),
        w.thread.phase == Phase::Device(p),
    ensures
        orderly(w, w.step(Event::Device(gpu)).0, w.step(Event::Device(gpu)).1),
{
    if gpu.is_none() {
        lemma_concluded(w, p, false);
    }
}

proof fn lemma_on_first_output<G, O, D, S, B>(
    w: World<G, O, D, S, B>,
    p: Purpose,
    output: Option<O>,
)
    requires
        w.wf(),
        w.thread.phase == Phase::FirstOutput(p),
    ensures
        orderly(w, w.step(Event::Output(output)).0, w.step(Event::Output(output)).1),
{
    match output {
        None => lemma_concluded(w, p, false),
        Some(o) => lemma_duplicate(
            w.with_dxgi(Some(DxgiCapture { output: Some(o), ..w.dx() })),
            p,
        ),
    }
}

proof fn lemma_on_output<G, O, D, S, B>(
    w: World<G, O, D, S, B>,
    p: Purpose,
    index: i32,
    output: Option<O>,
)
    requires
        w.wf(),
        w.thread.phase == Phase::Opening(p, index),
    ensures
        orderly(w, w.step(Event::Output(output)).0, w.step(Event::Output(output)).1),
{
    if output.is_none() {
        lemma_concluded(w, p, false);
    }
}

proof fn lemma_on_place<G, O, D, S, B>(
    w: World<G, O, D, S, B>,
    p: Purpose,
    index: i32,
    place: Option<Rect>,
)
    requires
        w.wf(),
        w.thread.phase == Phase::Locating(p, index),
        w.accepts(Event::Desktop(place)),
    ensures
        orderly(w, w.step(Event::Desktop(place)).0, w.step(Event::Desktop(place)).1),
{
    let s = match place {
        None => w.shared,
        Some(r) => SharedModel {
            cap_x: r.left,
            cap_y: r.top,
            cap_w: (r.right - r.left) as i32,
            cap_h: (r.bottom - r.top) as i32,
            ..w.shared
        },
    };
    lemma_duplicate(World { shared: SharedModel { output_index: index, ..s }, ..w }, p);
}

proof fn lemma_on_duplication<G, O, D, S, B>(
    w: World<G, O, D, S, B>,
    p: Purpose,
    opened: Option<Duplicated<D>>,
)
    requires
        w.wf(),
        w.thread.phase == Phase::Duplicating(p),
        w.accepts(Event::Duplication(opened)),
    ensures
        orderly(w, w.step(Event::Duplication(opened)).0, w.step(Event::Duplication(opened)).1),
{
    if opened.is_none() {
        lemma_concluded(w, p, false);
    }
}

proof fn lemma_on_origin<G, O, D, S, B>(w: World<G, O, D, S, B>, p: Purpose, place: Option<Rect>)
    requires
        w.wf(),
        w.thread.phase == Phase::Placing(p),
    ensures
        orderly(w, w.step(Event::Desktop(place)).0, w.step(Event::Desktop(place)).1),
{
    let s = match place {
        None => w.shared,
        Some(r) => SharedModel { cap_x: r.left, cap_y: r.top, ..w.shared },
    };
    if !s.size_known() {
        lemma_concluded(World { shared: s, ..w }, p, false);
    }
}

proof fn lemma_on_staging<G, O, D, S, B>(
    w: World<G, O, D, S, B>,
    p: Purpose,
    staging: Option<Option<S>>,
)
    requires
        w.wf(),
        w.thread.phase == Phase::Staging(p),
    ensures
        orderly(w, w.step(Event::Staging(staging)).0, w.step(Event::Staging(staging)).1),
{
    match staging {
        None => lemma_concluded(w, p, false),
        Some(texture) => {
            let dx = DxgiCapture { staging: texture, dupl: w.thread.pending, ..w.dx() };
            lemma_concluded(w.with_dxgi(Some(dx)).with_pending(None), p, true);
        },
    }
}

proof fn lemma_on_acquire_failed<G, O, D, S, B>(w: World<G, O, D, S, B>, code: i32)
    requires
        w.wf(),
        w.thread.phase == Phase::Acquiring,
    ensures
        orderly(w, w.step(Event::AcquireFailed(code)).0, w.step(Event::AcquireFailed(code)).1),
{
    if code == DXGI_ERROR_WAIT_TIMEOUT {
        lemma_top(w);
    }
}

proof fn lemma_on_metrics<G, O, D, S, B>(w: World<G, O, D, S, B>, a: Area)
    requires
        w.wf(),
        w.thread.phase == Phase::Measuring,
        capture_model::copyable(a),
    ensures
        orderly(w, w.step(Event::Metrics(a)).0, w.step(Event::Metrics(a)).1),
{
}

proof fn lemma_gdi_counted<G, O, D, S, B>(w: World<G, O, D, S, B>)
    requires
        w.wf(),
        w.thread.phase == Phase::GdiResting,
    ensures
        orderly(w, w.step(Event::Done).0, w.step(Event::Done).1),
{
    let due = w.thread.gdi_fail_count + 1 > GDI_FRAMES_PER_RETRY;
    let gdi_fail_count = if due {
        0
    } else {
        (w.thread.gdi_fail_count + 1) as u32
    };
    let counted = World { thread: CaptureThread { gdi_fail_count, ..w.thread }, ..w };
    if due && w.has_output() {
        lemma_duplicate(counted, Purpose::GdiRetry);
    } else {
        lemma_top(counted);
    }
}

proof fn lemma_on_probe<G, O, D, S, B>(w: World<G, O, D, S, B>, p: Purpose, n: u32, yes: bool)
    requires
        w.wf(),
        w.thread.phase == Phase::Counting(p, n),
    ensures
        orderly(w, w.step(Event::Probe(yes)).0, w.step(Event::Probe(yes)).1),
{
}

proof fn lemma_on_refresh<G, O, D, S, B>(w: World<G, O, D, S, B>, rate: i32)
    requires
        w.wf(),
        w.thread.phase == Phase::OpeningGdi,
    ensures
        orderly(w, w.step(Event::Refresh(rate)).0, w.step(Event::Refresh(rate)).1),
{
    let gdi = GdiCapture {
        cap_bmp: None,
        cap_w: 0,
        cap_h: 0,
        frame_delay_ms: capture::frame_delay(rate as int) as u32,
    };
    lemma_top(World { thread: CaptureThread { gdi, ..w.thread }, ..w });
}

proof fn lemma_reopening<G, O, D, S, B>(w: World<G, O, D, S, B>)
    requires
        w.wf(),
        w.thread.phase == Phase::ReopenPause,
    ensures
        orderly(w, w.step(Event::Done).0, w.step(Event::Done).1),
{
    lemma_duplicate(w, Purpose::Reopen);
}

proof fn lemma_next_round<G, O, D, S, B>(w: World<G, O, D, S, B>)
    requires
        w.wf(),
        w.thread.phase == Phase::Resting || w.thread.phase == Phase::Releasing,
    ensures
        orderly(w, w.step(Event::Done).0, w.step(Event::Done).1),
{
    lemma_top(w);
}

proof fn lemma_on_acquired<G, O, D, S, B>(w: World<G, O, D, S, B>, last_present: i64, texture: bool)
    requires
        w.wf(),
        w.thread.phase == Phase::Acquiring,
    ensures
        orderly(w, w.step(Event::Acquired(last_present, texture)).0, w.step(Event::Acquired(last_present, texture)).1),
{
}

proof fn lemma_on_mapped<G, O, D, S, B>(w: World<G, O, D, S, B>, pitch: Option<u32>)
    requires
        w.wf(),
        w.thread.phase == Phase::Mapping,
        w.accepts(Event::Mapped(pitch)),
    ensures
        orderly(w, w.step(Event::Mapped(pitch)).0, w.step(Event::Mapped(pitch)).1),
{
}

proof fn lemma_on_pixels<G, O, D, S, B>(
    w: World<G, O, D, S, B>,
    width: i32,
    height: i32,
    pitch: u32,
    data: &[u8],
)
    requires
        w.wf(),
        w.thread.phase == Phase::Reading(width, height, pitch),
    ensures
        orderly(w, w.step(Event::Pixels(data)).0, w.step(Event::Pixels(data)).1),
{
    lemma_stored(w.shared.frame, data@, width, height, num::wrap_i32(pitch as int));
}

proof fn lemma_on_bitmap<G, O, D, S, B>(w: World<G, O, D, S, B>, a: Area, bitmap: B)
    requires
        w.wf(),
        w.thread.phase == Phase::Sizing(a),
    ensures
        orderly(w, w.step(Event::Bitmap(bitmap)).0, w.step(Event::Bitmap(bitmap)).1),
{
}

proof fn lemma_on_blit<G, O, D, S, B>(w: World<G, O, D, S, B>, a: Area)
    requires
        w.wf(),
        w.thread.phase == Phase::Blitting(a),
        w.accepts(Event::Done),
    ensures
        orderly(w, w.step(Event::Done).0, w.step(Event::Done).1),
{
    lemma_stored(w.shared.frame, w.scratch, a.w, a.h, a.w * 4);
}

proof fn lemma_resumed<G, O, D, S, B>(w: World<G, O, D, S, B>, p: Purpose)
    requires
        w.wf(),
        w.thread.phase == Phase::Announcing(p),
    ensures
        orderly(w, w.step(Event::Done).0, w.step(Event::Done).1),
{
    lemma_top(w);
    if w.in_gdi() {
        lemma_gdi_frame(w);
    }
}

proof fn lemma_told<G, O, D, S, B>(w: World<G, O, D, S, B>)
    requires
        w.wf(),
        w.thread.phase == Phase::GdiAnnouncing,
    ensures
        orderly(w, w.step(Event::Done).0, w.step(Event::Done).1),
{
}

proof fn lemma_passing<G, O, D, S, B>(w: World<G, O, D, S, B>)
    requires
        w.wf(),
        match w.thread.phase {
            Phase::RetryPause
            | Phase::Waking
            | Phase::Unmapping
            | Phase::GdiWaking => true,
            _ => false,
        },
    ensures
        orderly(w, w.step(Event::Done).0, w.step(Event::Done).1),
{
}

/// Every step is orderly.
proof fn lemma_step<G, O, D, S, B>(w: World<G, O, D, S, B>, e: Event<'_, G, O, D, S, B>)
    requires
        w.wf(),
        w.accepts(e),
    ensures
        orderly(w, w.step(e).0, w.step(e).1),
{
    match e {
        Event::Device(gpu) => match w.thread.phase {
            Phase::Device(p) => lemma_on_device(w, p, gpu),
            _ => {},
        },
        Event::Probe(yes) => match w.thread.phase {
            Phase::Counting(p, n) => lemma_on_probe(w, p, n, yes),
            _ => {},
        },
        Event::Output(output) => match w.thread.phase {
            Phase::FirstOutput(p) => lemma_on_first_output(w, p, output),
            Phase::Opening(p, index) => lemma_on_output(w, p, index, output),
            _ => {},
        },
        Event::Desktop(place) => match w.thread.phase {
            Phase::Locating(p, index) => lemma_on_place(w, p, index, place),
            Phase::Placing(p) => lemma_on_origin(w, p, place),
            _ => {},
        },
        Event::Duplication(opened) => match w.thread.phase {
            Phase::Duplicating(p) => lemma_on_duplication(w, p, opened),
            _ => {},
        },
        Event::Staging(staging) => match w.thread.phase {
            Phase::Staging(p) => lemma_on_staging(w, p, staging),
            _ => {},
        },
        Event::Refresh(rate) => lemma_on_refresh(w, rate),
        Event::Acquired(last_present, texture) => lemma_on_acquired(w, last_present, texture),
        Event::AcquireFailed(code) => lemma_on_acquire_failed(w, code),
        Event::Mapped(pitch) => lemma_on_mapped(w, pitch),
        Event::Pixels(data) => match w.thread.phase {
            Phase::Reading(width, height, pitch) => lemma_on_pixels(w, width, height, pitch, data),
            _ => {},
        },
        Event::Metrics(a) => lemma_on_metrics(w, a),
        Event::Bitmap(bitmap) => match w.thread.phase {
            Phase::Sizing(a) => lemma_on_bitmap(w, a, bitmap),
            _ => {},
        },
        Event::Done => match w.thread.phase {
            Phase::Announcing(p) => lemma_resumed(w, p),
            Phase::ReopenPause => lemma_reopening(w),
            Phase::Resting | Phase::Releasing => lemma_next_round(w),
            Phase::GdiAnnouncing => lemma_told(w),
            Phase::Blitting(a) => lemma_on_blit(w, a),
            Phase::GdiResting => lemma_gdi_counted(w),
            _ => lemma_passing(w),
        },
    }
}

/// A buffer that stored a picture holds it.
proof fn lemma_stored(f: frame::FrameModel, src: Seq<u8>, w: i32, h: i32, stride: int)
    requires
        frame::addressable(w as int, h as int),
    ensures
        f.stored(src, w, h, stride).wf(),
        f.stored(src, w, h, stride).pixels() == frame::packed(src, w as int, h as int, stride),
{
    lemma_area_is_positive(w as int, h as int);
    assert(f.stored(src, w, h, stride).pixels() =~= frame::packed(src, w as int, h as int, stride));
}

/// Every step keeps what holds between any two steps.
pub proof fn law_steps_keep_order<G, O, D, S, B>(
    w: World<G, O, D, S, B>,
    e: Event<'_, G, O, D, S, B>,
)
    requires
        w.wf(),
        w.accepts(e),
    ensures
        w.step(e).0.wf(),
{
    lemma_step(w, e);
}

/// What the window may change in the shared state at any moment, namely whether the thread goes
/// on, whether the next monitor is asked for and whether a frame waits to be drawn, disturbs
/// neither the thread nor the action that it waits for.
pub proof fn law_window_does_not_disturb<G, O, D, S, B>(
    w: World<G, O, D, S, B>,
    running: bool,
    switch_monitor: bool,
    wake_pending: bool,
    e: Event<'_, G, O, D, S, B>,
)
    requires
        w.wf(),
    ensures
        ({
            let shared = SharedModel { running, switch_monitor, wake_pending, ..w.shared };
            let changed = World { shared, ..w };
            changed.wf() && changed.accepts(e) == w.accepts(e)
        }),
{
}

/// Once the first attempt is over, Desktop Duplication is selected only while there is a device:
/// that holds at the start, and every step keeps it.
pub proof fn law_dxgi_has_a_device<G, O, D, S, B>(
    w: World<G, O, D, S, B>,
    e: Event<'_, G, O, D, S, B>,
)
    requires
        w.wf(),
        w.accepts(e),
        backed(w),
    ensures
        backed(w.step(e).0),
        backed(
            capture_model::first_state::<G, O, D, S, B>().world(
                SharedModel::initial(),
                Seq::empty(),
            ),
        ),
{
    lemma_step(w, e);
}

/// A duplication is open only while it is used, and no half-made one is left behind: when frames
/// are copied from the screen nothing is open, and a duplication waits for its texture only
/// during the attempt.
pub proof fn law_nothing_is_left_open<G, O, D, S, B>(
    w: World<G, O, D, S, B>,
    e: Event<'_, G, O, D, S, B>,
)
    requires
        w.wf(),
        w.accepts(e),
        pending_in_attempt(w),
    ensures
        pending_in_attempt(w.step(e).0),
        w.step(e).0.in_gdi() ==> !w.step(e).0.duplicating(),
{
    lemma_step(w, e);
}

/// The outcomes of the outside steps of one attempt to duplicate the selected output.
pub struct Replies<D, S> {
    pub duplication: Option<Duplicated<D>>,
    pub desktop: Option<Rect>,
    pub staging: Option<Option<S>>,
}

impl<D, S> Replies<D, S> {
    /// The size that the duplication reports.
    pub open spec fn size(self) -> (int, int) {
        (
            num::wrap_i32(self.duplication->0.width as int),
            num::wrap_i32(self.duplication->0.height as int),
        )
    }

    /// The output was duplicated with a size, and there is a texture for it.
    pub open spec fn succeed(self) -> bool {
        &&& self.duplication.is_some()
        &&& self.size().0 > 0
        &&& self.size().1 > 0
        &&& self.staging.is_some()
    }

    /// The outcomes in the order in which they are asked for, up to the one that ends the attempt.
    pub open spec fn events<'a, G, O, B>(self) -> Seq<Event<'a, G, O, D, S, B>> {
        let duplication = Event::Duplication(self.duplication);
        let desktop = Event::Desktop(self.desktop);
        let staging = Event::Staging(self.staging);
        if self.duplication.is_none() {
            seq![duplication]
        } else if self.size().0 <= 0 || self.size().1 <= 0 {
            seq![duplication, desktop]
        } else {
            seq![duplication, desktop, staging]
        }
    }
}

/// What an attempt to duplicate the selected output leaves behind: if the output was duplicated,
/// the reported size and, if it could be found out, the place of the output become the captured
/// area; the duplication stays open only if the attempt succeeded.
pub open spec fn duplication_outcome<G, O, D, S, B>(
    w: World<G, O, D, S, B>,
    r: Replies<D, S>,
) -> World<G, O, D, S, B> {
    let sized = match r.duplication {
        None => w.shared,
        Some(_) => SharedModel {
            cap_w: r.size().0 as i32,
            cap_h: r.size().1 as i32,
            ..w.shared
        },
    };
    let placed = match r.desktop {
        Some(place) if r.duplication.is_some() => SharedModel {
            cap_x: place.left,
            cap_y: place.top,
            ..sized
        },
        _ => sized,
    };
    let dx = if r.succeed() {
        DxgiCapture { dupl: Some(r.duplication->0.handle), staging: r.staging->0, ..w.dx() }
    } else {
        w.dx().closed()
    };
    World { shared: placed, ..w }.with_dxgi(Some(dx))
}

/// What follows an attempt depends neither on the phase in which it ended nor on a duplication
/// that still waited for its texture.
proof fn lemma_conclusion_forgets<G, O, D, S, B>(
    w: World<G, O, D, S, B>,
    phase: Phase,
    pending: Option<D>,
    purpose: Purpose,
    ok: bool,
)
    ensures
        w.with_pending(pending).at(phase).concluded(purpose, ok) == w.concluded(purpose, ok),
{
}

/// An attempt to duplicate the selected output, from its beginning to its end: it succeeds if and
/// only if the output is duplicated with a positive size and gets a staging texture, and the
/// captured size is then the duplication's own, whatever it was before. Without an output the
/// attempt fails at once and changes nothing but what was open.
pub proof fn law_duplication_attempt<G, O, D, S, B>(
    w: World<G, O, D, S, B>,
    purpose: Purpose,
    r: Replies<D, S>,
)
    requires
        w.thread.dxgi.is_some(),
    ensures
        ({
            let (begun, asked) = w.duplicate(purpose);
            if w.dx().output.is_none() {
                (begun, asked) == w.with_dxgi(Some(w.dx().closed())).concluded(purpose, false)
            } else {
                begun.run(asked, r.events()) == duplication_outcome(w, r).concluded(
                    purpose,
                    r.succeed(),
                )
            }
        }),
{
    reveal_with_fuel(World::run, 4);
    let (begun, asked) = w.duplicate(purpose);
    if w.dx().output.is_some() {
        let events = r.events::<G, O, B>();
        let (w1, a1) = begun.step(events[0]);
        let outcome = duplication_outcome(w, r);
        lemma_conclusion_forgets(
            outcome,
            Phase::Duplicating(purpose),
            w.thread.pending,
            purpose,
            r.succeed(),
        );
        if r.duplication is Some {
            let pending = Some(r.duplication->0.handle);
            lemma_conclusion_forgets(outcome, Phase::Placing(purpose), pending, purpose, false);
            lemma_conclusion_forgets(outcome, Phase::Staging(purpose), pending, purpose, false);
            lemma_conclusion_forgets(outcome, Phase::Staging(purpose), None, purpose, true);
        }
        if r.duplication.is_none() {
            assert(events.drop_first() =~= Seq::empty());
        } else if r.size().0 <= 0 || r.size().1 <= 0 {
            assert(events.drop_first() =~= seq![events[1]]);
            assert(events.drop_first().drop_first() =~= Seq::empty());
        } else {
            assert(events.drop_first() =~= seq![events[1], events[2]]);
            assert(events.drop_first().drop_first() =~= seq![events[2]]);
            assert(events.drop_first().drop_first().drop_first() =~= Seq::empty());
        }
    }
}

/// A new device is set up or given up: it is kept if and only if its first output can be opened.
/// If that output can be duplicated, its duplication is open and Desktop Duplication is used; if
/// not, the device is kept with the output alone, and the screen is copied. (If the next monitor
/// was asked for meanwhile, a device that replaces a missing one goes on to that monitor at once.)
pub proof fn law_device_is_set_up_or_given_up<G, O, D, S, B>(
    w: World<G, O, D, S, B>,
    purpose: Purpose,
    o: O,
    r: Replies<D, S>,
)
    requires
        w.thread.dxgi.is_some(),
        w.dx().output.is_none(),
        purpose == Purpose::Startup || purpose == Purpose::Retry,
    ensures
        ({
            let (begun, asked) = w.on_first_output(purpose, Some(o));
            let after = begun.run(asked, r.events()).0;
            let kept = DxgiCapture { output: Some(o), ..DxgiCapture::bare(w.dx().gpu) };
            let open = DxgiCapture {
                dupl: Some(r.duplication->0.handle),
                staging: r.staging->0,
                ..kept
            };
            &&& after.in_dxgi() == r.succeed()
            &&& after.in_gdi() == !r.succeed()
            &&& after.thread.dxgi.is_some()
            &&& purpose == Purpose::Startup || !w.switch_asked() ==> after.thread.dxgi == Some(
                if r.succeed() {
                    open
                } else {
                    kept
                },
            )
        }),
        w.on_first_output(purpose, None).0.thread.dxgi.is_none(),
        w.on_first_output(purpose, None).0.in_gdi(),
        w.with_dxgi(None).on_device(purpose, None).0.thread.dxgi.is_none(),
        w.with_dxgi(None).on_device(purpose, None).0.in_gdi(),
{
    law_duplication_attempt(
        w.with_dxgi(Some(DxgiCapture { output: Some(o), ..w.dx() })),
        purpose,
        r,
    );
}

/// The mode after an attempt tells how it ended: Desktop Duplication if it succeeded, copying
/// from the screen if not. What follows the attempt keeps that mode.
pub proof fn law_mode_tells_the_outcome<G, O, D, S, B>(
    w: World<G, O, D, S, B>,
    purpose: Purpose,
    ok: bool,
)
    ensures
        w.concluded(purpose, ok).0.in_dxgi() == ok,
        w.concluded(purpose, ok).0.in_gdi() == !ok,
{
}

/// `n` answers that an output exists.
pub open spec fn found<'a, G, O, D, S, B>(n: nat) -> Seq<Event<'a, G, O, D, S, B>> {
    Seq::new(n, |i: int| Event::Probe(true))
}

/// Answers to the count of `n` outputs: the first that does not exist ends it, unless the limit
/// does.
pub open spec fn counting<'a, G, O, D, S, B>(from: int, n: nat) -> Seq<Event<'a, G, O, D, S, B>> {
    if from + n < MAX_OUTPUTS {
        found(n).push(Event::Probe(false))
    } else {
        found(n)
    }
}

/// The thread after `n` outputs were counted, about to open the first of them.
pub open spec fn counted<G, O, D, S, B>(
    w: World<G, O, D, S, B>,
    purpose: Purpose,
    n: int,
) -> World<G, O, D, S, B> {
    let output_count = if n == 0 {
        1
    } else {
        n as i32
    };
    let shared = SharedModel { output_count, output_index: 0, ..w.shared };
    World { shared, ..w }.at(Phase::FirstOutput(purpose))
}

/// The outputs are counted up to the first that does not exist. At least one is assumed and no
/// more than the limit are counted. Nothing else changes, and the first output is opened next.
pub proof fn law_outputs_are_counted<G, O, D, S, B>(
    w: World<G, O, D, S, B>,
    purpose: Purpose,
    gpu: G,
    existing: nat,
)
    requires
        existing <= MAX_OUTPUTS,
    ensures
        ({
            let (begun, asked) = w.on_device(purpose, Some(gpu));
            begun.run(asked, counting(0, existing)) == (
                counted(begun, purpose, existing as int),
                Action::<B>::OpenOutput(0),
            )
        }),
{
    let (begun, asked) = w.on_device(purpose, Some(gpu));
    lemma_count_from(begun, purpose, 0, existing, asked);
}

proof fn lemma_count_from<G, O, D, S, B>(
    w: World<G, O, D, S, B>,
    purpose: Purpose,
    n: u32,
    more: nat,
    asked: Action<B>,
)
    requires
        w.thread.phase == Phase::Counting(purpose, n),
        n < MAX_OUTPUTS,
        n + more <= MAX_OUTPUTS,
    ensures
        w.run(asked, counting(n as int, more)) == (
            counted(w, purpose, n + more),
            Action::<B>::OpenOutput(0),
        ),
    decreases more,
{
    reveal_with_fuel(World::run, 2);
    let answers = counting::<G, O, D, S, B>(n as int, more);
    let (w1, a1) = w.step(answers[0]);
    if more == 0 {
        assert(answers.drop_first() =~= Seq::empty());
    } else if n + 1 < MAX_OUTPUTS {
        let rest = (more - 1) as nat;
        assert(answers.drop_first() =~= counting::<G, O, D, S, B>(n + 1, rest));
        lemma_count_from(w1, purpose, (n + 1) as u32, rest, a1);
    } else {
        assert(answers.drop_first() =~= Seq::empty());
    }
}

/// The thread after the message to the window that the capture size is known, if it asks for that.
pub open spec fn past_announcement<G, O, D, S, B>(
    state: (World<G, O, D, S, B>, Action<B>),
) -> (World<G, O, D, S, B>, Action<B>) {
    if state.1 == Action::<B>::PostResize {
        state.0.step(Event::Done)
    } else {
        state
    }
}

/// Asking for the next monitor shows that monitor, whichever way frames were captured before: if
/// it can be opened and duplicated, it is the selected one, its duplication is open, and Desktop
/// Duplication is used.
pub proof fn law_next_monitor_is_shown<G, O, D, S, B>(
    w: World<G, O, D, S, B>,
    o: O,
    place: Option<Rect>,
    r: Replies<D, S>,
)
    requires
        w.at_top(),
        w.shared.running,
        w.thread.dxgi.is_some(),
        w.switch_asked(),
        r.succeed(),
    ensures
        ({
            let (begun, asked) = w.top();
            let (opened, asked2) = begun.run(asked, seq![Event::Output(Some(o)), Event::Desktop(place)]);
            let (shown, next) = past_announcement(opened.run(asked2, r.events()));
            &&& asked == Action::<B>::OpenOutput(w.next_index() as u32)
            &&& shown.in_dxgi()
            &&& shown.thread.announced
            &&& shown.shared.output_index == w.next_index()
            &&& shown.shared.cap_w == r.size().0
            &&& shown.shared.cap_h == r.size().1
            &&& shown.dx().output == Some(o)
            &&& shown.dx().dupl == Some(r.duplication->0.handle)
            &&& !shown.shared.switch_monitor
            &&& next == Action::<B>::AcquireFrame(ACQUIRE_TIMEOUT_MS)
        }),
{
    reveal_with_fuel(World::run, 3);
    let (begun, asked) = w.top();
    let events = seq![Event::Output(Some(o)), Event::Desktop(place)];
    let (w1, a1) = begun.step(events[0]);
    assert(events.drop_first() =~= seq![events[1]]);
    assert(events.drop_first().drop_first() =~= Seq::empty());
    let index = w.next_index();
    let purpose = if w.in_dxgi() {
        Purpose::NextMonitor
    } else {
        Purpose::GdiNextMonitor
    };
    let located = World {
        shared: SharedModel {
            output_index: index,
            ..(match place {
                None => w1.shared,
                Some(p) => SharedModel {
                    cap_x: p.left,
                    cap_y: p.top,
                    cap_w: (p.right - p.left) as i32,
                    cap_h: (p.bottom - p.top) as i32,
                    ..w1.shared
                },
            })
        },
        ..w1
    };
    assert(begun.run(asked, events) == located.duplicate(purpose));
    law_duplication_attempt(located, purpose, r);
}

/// Asking for the next monitor works also while frames are copied from the screen: if that
/// monitor can be opened and located but not duplicated, it is the selected one and its area is
/// what is copied from then on.
pub proof fn law_copying_follows_the_monitor<G, O, D, S, B>(
    w: World<G, O, D, S, B>,
    o: O,
    place: Rect,
)
    requires
        w.shared.running,
        w.in_gdi(),
        w.thread.dxgi.is_some(),
        w.switch_asked(),
        0 < place.right - place.left <= i32::MAX,
        0 < place.bottom - place.top <= i32::MAX,
    ensures
        ({
            let (begun, asked) = w.top();
            let selected = begun.run(
                asked,
                seq![
                    Event::Output(Some(o)),
                    Event::Desktop(Some(place)),
                    Event::Duplication(None),
                ],
            );
            let (after, next) = past_announcement(selected);
            let area = Area {
                x: place.left,
                y: place.top,
                w: (place.right - place.left) as i32,
                h: (place.bottom - place.top) as i32,
            };
            &&& asked == Action::<B>::OpenOutput(w.next_index() as u32)
            &&& selected.1 == Action::<B>::PostResize <==> !w.thread.announced
            &&& after.thread.announced
            &&& after.in_gdi()
            &&& after.has_output()
            &&& after.dx().output == Some(o)
            &&& after.shared.output_index == w.next_index()
            &&& !after.shared.switch_monitor
            &&& after.area() == area
            &&& if w.thread.gdi.sized(area.w, area.h) {
                next == Action::<B>::Blit(area)
            } else {
                next == Action::CreateBitmap(w.thread.gdi.cap_bmp, area.w, area.h)
            }
        }),
{
    reveal_with_fuel(World::run, 4);
    let (begun, asked) = w.top();
    let events = seq![
        Event::Output(Some(o)),
        Event::Desktop(Some(place)),
        Event::Duplication(None),
    ];
    let (w1, a1) = begun.step(events[0]);
    let (w2, a2) = w1.step(events[1]);
    assert(events.drop_first() =~= seq![events[1], events[2]]);
    assert(events.drop_first().drop_first() =~= seq![events[2]]);
    assert(events.drop_first().drop_first().drop_first() =~= Seq::empty());
}

/// A failed start does not cost the next monitor: if the first of several monitors cannot be
/// duplicated at the start, asking for the next one opens the second, and if that cannot be
/// duplicated either, its area is what is copied from then on.
pub proof fn law_next_monitor_after_failed_start<G, O, D, S, B>(
    w: World<G, O, D, S, B>,
    gpu: G,
    existing: nat,
    first: O,
    r: Replies<D, S>,
    rate: i32,
    second: O,
    place: Rect,
)
    requires
        w.shared.running,
        2 <= existing <= MAX_OUTPUTS,
        !r.succeed(),
        0 < place.right - place.left <= i32::MAX,
        0 < place.bottom - place.top <= i32::MAX,
    ensures
        ({
            let (begun, asked) = w.on_device(Purpose::Startup, Some(gpu));
            let (ready, asked1) = begun.run(asked, counting(0, existing));
            let (tried, asked2) = ready.step(Event::Output(Some(first)));
            let (failed, asked3) = tried.run(asked2, r.events());
            let (opening, asked4) = past_announcement((failed, asked3));
            let shared = SharedModel { switch_monitor: true, ..opening.shared };
            let (switching, asked5) = World { shared, ..opening }.step(Event::Refresh(rate));
            let selected = switching.run(
                asked5,
                seq![
                    Event::Output(Some(second)),
                    Event::Desktop(Some(place)),
                    Event::Duplication(None),
                ],
            );
            let (after, next) = past_announcement(selected);
            let area = Area {
                x: place.left,
                y: place.top,
                w: (place.right - place.left) as i32,
                h: (place.bottom - place.top) as i32,
            };
            &&& failed.in_gdi()
            &&& equipped(failed)
            &&& asked4 == Action::<B>::OpenGdi
            &&& asked5 == Action::<B>::OpenOutput(1)
            &&& selected.1 == Action::<B>::PostResize <==> !opening.thread.announced
            &&& after.thread.announced
            &&& after.in_gdi()
            &&& after.has_output()
            &&& after.dx().output == Some(second)
            &&& after.shared.output_index == 1
            &&& !after.shared.switch_monitor
            &&& after.area() == area
            &&& next == Action::<B>::CreateBitmap(None, area.w, area.h)
        }),
{
    let (begun, asked) = w.on_device(Purpose::Startup, Some(gpu));
    law_outputs_are_counted(w, Purpose::Startup, gpu, existing);
    let ready = counted(begun, Purpose::Startup, existing as int);
    let with_first = ready.with_dxgi(Some(DxgiCapture { output: Some(first), ..ready.dx() }));
    law_duplication_attempt(with_first, Purpose::Startup, r);
    let failed = duplication_outcome(with_first, r).concluded(Purpose::Startup, false).0;
    let opening = if failed.thread.phase == Phase::Announcing(Purpose::Startup) {
        failed.step(Event::Done).0
    } else {
        failed
    };
    let gdi = GdiCapture {
        cap_bmp: None,
        cap_w: 0,
        cap_h: 0,
        frame_delay_ms: capture::frame_delay(rate as int) as u32,
    };
    let pressed = World {
        shared: SharedModel { switch_monitor: true, ..opening.shared },
        thread: CaptureThread { gdi, ..opening.thread },
        ..opening
    };
    assert(pressed.next_index() == 1) by (nonlinear_arith)
        requires
            pressed.next_index() == shared::next_index(0, existing as int) as i32,
            existing >= 2,
    ;
    law_copying_follows_the_monitor(pressed, second, place);
}

/// A device is never given up once it is set up, so that the next monitor can be asked for at any
/// time: every step keeps it.
pub proof fn law_device_stays<G, O, D, S, B>(
    w: World<G, O, D, S, B>,
    e: Event<'_, G, O, D, S, B>,
)
    requires
        w.wf(),
        w.accepts(e),
        equipped(w),
    ensures
        equipped(w.step(e).0),
{
    lemma_step(w, e);
}

/// What the window does to the shared state between two steps of the thread: it changes at most
/// whether the thread goes on, whether the next monitor is asked for and whether a frame waits to
/// be drawn.
pub open spec fn meanwhile<G, O, D, S, B>(
    before: World<G, O, D, S, B>,
    after: World<G, O, D, S, B>,
) -> bool {
    let shared = SharedModel {
        running: after.shared.running,
        switch_monitor: after.shared.switch_monitor,
        wake_pending: after.shared.wake_pending,
        ..before.shared
    };
    after == World { shared, ..before }
}

/// The states `worlds` follow each other: from each to the next the thread takes a step on an
/// outcome of the action that it waits for, and the window does what it likes.
pub open spec fn history<G, O, D, S, B>(
    worlds: Seq<World<G, O, D, S, B>>,
    events: Seq<Event<'_, G, O, D, S, B>>,
) -> bool {
    &&& worlds.len() == events.len() + 1
    &&& forall|i: int| #![trigger events[i]]
        0 <= i < events.len() ==> worlds[i].accepts(events[i]) && meanwhile(
            worlds[i].step(events[i]).0,
            worlds[i + 1],
        )
}

/// How often the window is told of the capture size in the first `n` steps of a history.
pub open spec fn announcements<G, O, D, S, B>(
    worlds: Seq<World<G, O, D, S, B>>,
    events: Seq<Event<'_, G, O, D, S, B>>,
    n: nat,
) -> nat
    decreases n,
{
    if n == 0 {
        0
    } else {
        let last = n - 1;
        let posted = worlds[last].step(events[last]).1 == Action::<B>::PostResize;
        announcements(worlds, events, last as nat) + if posted {
            1nat
        } else {
            0nat
        }
    }
}

/// The window is told of the capture size at most once, however long the thread runs and whatever
/// the window does meanwhile: after any number of steps it was told exactly once if the thread
/// has noted so, and otherwise never.
pub proof fn law_size_is_announced_once<G, O, D, S, B>(
    worlds: Seq<World<G, O, D, S, B>>,
    events: Seq<Event<'_, G, O, D, S, B>>,
    n: nat,
)
    requires
        history(worlds, events),
        worlds[0].wf(),
        n <= events.len(),
    ensures
        announcements(worlds, events, n) == (if worlds[n as int].thread.announced
            && !worlds[0].thread.announced {
            1nat
        } else {
            0nat
        }),
        worlds[0].thread.announced ==> worlds[n as int].thread.announced,
        worlds[n as int].wf(),
    decreases n,
{
    if n > 0 {
        let last = n - 1;
        law_size_is_announced_once(worlds, events, last as nat);
        lemma_step(worlds[last], events[last]);
        lemma_meanwhile(worlds[last].step(events[last]).0, worlds[n as int]);
    }
}

/// The window disturbs nothing between two steps.
proof fn lemma_meanwhile<G, O, D, S, B>(
    before: World<G, O, D, S, B>,
    after: World<G, O, D, S, B>,
)
    requires
        before.wf(),
        meanwhile(before, after),
    ensures
        after.wf(),
        after.thread == before.thread,
        backed(after) == backed(before),
        pending_in_attempt(after) == pending_in_attempt(before),
        known_is_told(after) == known_is_told(before),
        equipped(after) == equipped(before),
{
}

/// The window is told of the capture size as soon as it is known: at the end of the attempt in
/// which it became known, or when the size of the virtual desktop takes its place. So it was told
/// before the first frame of a duplication is waited for.
pub proof fn law_size_is_announced_when_known<G, O, D, S, B>(
    w: World<G, O, D, S, B>,
    e: Event<'_, G, O, D, S, B>,
)
    requires
        w.wf(),
        w.accepts(e),
        known_is_told(w),
    ensures
        ({
            let (after, next) = w.step(e);
            &&& known_is_told(after)
            &&& w.thread.announced ==> after.thread.announced
            &&& next == Action::<B>::PostResize <==> !w.thread.announced && after.thread.announced
            &&& purpose_of(after.thread.phase).is_none() && after.shared.size_known()
                && !w.thread.announced ==> next == Action::<B>::PostResize
            &&& purpose_of(after.thread.phase).is_none() && after.duplicating()
                ==> after.thread.announced
        }),
{
    lemma_step(w, e);
}

/// The thread from its start on, however long it runs and whatever the window does meanwhile: what
/// holds between any two steps holds throughout, Desktop Duplication is selected only while there
/// is a device, no half-made duplication is left behind, and the window was told of the capture
/// size whenever it is known.
pub proof fn law_order_lasts<G, O, D, S, B>(
    worlds: Seq<World<G, O, D, S, B>>,
    events: Seq<Event<'_, G, O, D, S, B>>,
    n: nat,
)
    requires
        history(worlds, events),
        n <= events.len(),
        meanwhile(
            capture_model::first_state::<G, O, D, S, B>().world(
                SharedModel::initial(),
                Seq::empty(),
            ),
            worlds[0],
        ),
    ensures
        worlds[n as int].wf(),
        backed(worlds[n as int]),
        pending_in_attempt(worlds[n as int]),
        known_is_told(worlds[n as int]),
        announcements(worlds, events, n) == (if worlds[n as int].thread.announced {
            1nat
        } else {
            0nat
        }),
    decreases n,
{
    if n == 0 {
        let first = capture_model::first_state::<G, O, D, S, B>().world(
            SharedModel::initial(),
            Seq::empty(),
        );
        lemma_meanwhile(first, worlds[0]);
    } else {
        let last = n - 1;
        law_order_lasts(worlds, events, last as nat);
        lemma_step(worlds[last], events[last]);
        lemma_meanwhile(worlds[last].step(events[last]).0, worlds[n as int]);
    }
}

/// While frames are copied from the screen, Desktop Duplication is tried again after each whole
/// round of frames and never in between: the count of frames wraps around, and such an attempt
/// begins exactly when it does, if there is an output to duplicate. No other step touches the
/// count or begins such an attempt.
pub proof fn law_duplication_is_tried_periodically<G, O, D, S, B>(
    w: World<G, O, D, S, B>,
    e: Event<'_, G, O, D, S, B>,
)
    requires
        w.wf(),
        w.accepts(e),
    ensures
        ({
            let period = GDI_FRAMES_PER_RETRY + 1;
            let (after, next) = w.step(e);
            if w.thread.phase == Phase::GdiResting {
                let due = (w.thread.gdi_fail_count + 1) % period == 0 && w.has_output();
                &&& after.thread.gdi_fail_count == (w.thread.gdi_fail_count + 1) % period
                &&& next == Action::<B>::Duplicate <==> due
                &&& after.thread.phase == Phase::Duplicating(Purpose::GdiRetry) <==> due
            } else {
                &&& after.thread.gdi_fail_count == w.thread.gdi_fail_count
                &&& purpose_of(after.thread.phase) == Some(Purpose::GdiRetry) ==> purpose_of(
                    w.thread.phase,
                ) == Some(Purpose::GdiRetry)
            }
        }),
{
    lemma_step(w, e);
    let due = w.thread.gdi_fail_count + 1 > GDI_FRAMES_PER_RETRY;
    let gdi_fail_count = if due {
        0
    } else {
        (w.thread.gdi_fail_count + 1) as u32
    };
    let counted = World { thread: CaptureThread { gdi_fail_count, ..w.thread }, ..w };
    if w.thread.phase == Phase::GdiResting {
        if due && w.has_output() {
            lemma_duplicate(counted, Purpose::GdiRetry);
        } else {
            lemma_top(counted);
        }
    }
}

/// What Desktop Duplication delivers is what the window gets: the picture published after a copy
/// was mapped has the captured size and consists of the rows of the mapped bytes, whatever the
/// window does meanwhile. The window is told of it unless it still has to draw one.
pub proof fn law_duplicated_picture_arrives<G, O, D, S, B>(
    w: World<G, O, D, S, B>,
    pitch: u32,
    mapped: World<G, O, D, S, B>,
    data: &[u8],
)
    requires
        w.wf(),
        w.thread.phase == Phase::Mapping,
        w.accepts(Event::Mapped(Some(pitch))),
        meanwhile(w.step(Event::Mapped(Some(pitch))).0, mapped),
        mapped.accepts(Event::Pixels(data)),
    ensures
        ({
            let (after, next) = mapped.step(Event::Pixels(data));
            &&& after.shared.frame.w == w.shared.cap_w
            &&& after.shared.frame.h == w.shared.cap_h
            &&& after.shared.frame.has_picture()
            &&& after.shared.frame.pixels() == frame::packed(
                data@,
                w.shared.cap_w as int,
                w.shared.cap_h as int,
                num::wrap_i32(pitch as int),
            )
            &&& next == (if mapped.shared.wake_pending {
                Action::<B>::Unmap
            } else {
                Action::<B>::PostNewFrame
            })
        }),
{
    lemma_stored(
        mapped.shared.frame,
        data@,
        w.shared.cap_w,
        w.shared.cap_h,
        num::wrap_i32(pitch as int),
    );
}

proof fn lemma_area_is_positive(w: int, h: int)
    requires
        w >= 0,
        h >= 0,
    ensures
        frame::frame_bytes(w, h) >= 0,
{
    assert(w * h * 4 >= 0) by (nonlinear_arith)
        requires
            w >= 0,
            h >= 0,
    ;
}

/// What is copied from the screen is what the window gets: the published picture has the size of
/// the copied area and consists of the bytes that the copy left at the front of the scratch
/// buffer, and the window is told of it unless it still has to draw one.
pub proof fn law_copied_picture_arrives<G, O, D, S, B>(w: World<G, O, D, S, B>, a: Area)
    requires
        w.wf(),
        w.thread.phase == Phase::Blitting(a),
        w.accepts(Event::Done),
    ensures
        ({
            let (after, next) = w.step(Event::Done);
            &&& after.shared.frame.w == a.w
            &&& after.shared.frame.h == a.h
            &&& after.shared.frame.pixels() == w.scratch.take(
                frame::frame_bytes(a.w as int, a.h as int),
            )
            &&& next == (if w.shared.wake_pending {
                Action::<B>::Sleep(w.thread.gdi.frame_delay_ms as u64)
            } else {
                Action::<B>::PostNewFrame
            })
        }),
{
    let after = w.step(Event::Done).0;
    let p = frame::packed(w.scratch, a.w as int, a.h as int, a.w * 4);
    lemma_area_is_positive(a.w as int, a.h as int);
    assert(after.shared.frame.pixels() =~= p);
    assert forall|i: int| 0 <= i < p.len() implies p[i] == w.scratch[i] by {
        let row = a.w * 4;
        assert(row > 0) by (nonlinear_arith)
            requires
                0 <= i < a.w * a.h * 4,
                a.w >= 0,
                row == a.w * 4,
        ;
        assert((i / row) * row + i % row == i) by (nonlinear_arith)
            requires
                row > 0,
        ;
    }
    assert(p =~= w.scratch.take(frame::frame_bytes(a.w as int, a.h as int)));
}

/// A quiet desktop costs nothing: when no frame arrives in time and nothing was asked for, the
/// thread just waits again.
pub proof fn law_timeout_waits_on<G, O, D, S, B>(w: World<G, O, D, S, B>)
    requires
        w.wf(),
        w.thread.phase == Phase::Acquiring,
        w.shared.running,
        !w.shared.switch_monitor,
    ensures
        w.step(Event::AcquireFailed(DXGI_ERROR_WAIT_TIMEOUT)) == (
            w,
            Action::<B>::AcquireFrame(ACQUIRE_TIMEOUT_MS),
        ),
{
}

/// When the thread is told to end, every step brings its end nearer.
pub proof fn law_end_comes_nearer<G, O, D, S, B>(
    w: World<G, O, D, S, B>,
    e: Event<'_, G, O, D, S, B>,
)
    requires
        w.wf(),
        w.accepts(e),
        !w.shared.running,
    ensures
        !w.step(e).0.shared.running,
        steps_left(w.step(e).0.thread.phase) < steps_left(w.thread.phase),
{
    lemma_step(w, e);
}

/// The thread ends when it is told to: only a bounded number of further steps can be taken,
/// whatever their outcomes and whatever else the window does meanwhile.
pub proof fn law_thread_ends_when_told<G, O, D, S, B>(
    worlds: Seq<World<G, O, D, S, B>>,
    events: Seq<Event<'_, G, O, D, S, B>>,
)
    requires
        history(worlds, events),
        worlds[0].wf(),
        forall|i: int| 0 <= i < worlds.len() ==> !(#[trigger] worlds[i]).shared.running,
    ensures
        events.len() <= steps_left(worlds[0].thread.phase),
        steps_left(worlds[0].thread.phase) <= 33,
{
    lemma_nearer_after(worlds, events, events.len());
}

/// After `n` steps of a history in which the thread has to end, its end is nearer by as many.
proof fn lemma_nearer_after<G, O, D, S, B>(
    worlds: Seq<World<G, O, D, S, B>>,
    events: Seq<Event<'_, G, O, D, S, B>>,
    n: nat,
)
    requires
        history(worlds, events),
        worlds[0].wf(),
        forall|i: int| 0 <= i < worlds.len() ==> !(#[trigger] worlds[i]).shared.running,
        n <= events.len(),
    ensures
        worlds[n as int].wf(),
        n + steps_left(worlds[n as int].thread.phase) <= steps_left(worlds[0].thread.phase),
    decreases n,
{
    if n > 0 {
        let last = n - 1;
        lemma_nearer_after(worlds, events, last as nat);
        law_end_comes_nearer(worlds[last], events[last]);
        law_steps_keep_order(worlds[last], events[last]);
        lemma_meanwhile(worlds[last].step(events[last]).0, worlds[n as int]);
    }
}

} // verus!
