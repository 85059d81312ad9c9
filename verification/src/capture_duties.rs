//! What the capture thread owes in each situation: which action comes next, and what changes.
//!
//! The laws speak of the plain fields of the thread and of the shared state, and of the actions
//! that the program is asked for.

use vstd::prelude::*;

use crate::capture;
use crate::capture::{
    Action, Area, CaptureThread, DxgiCapture, Duplicated, Event, GdiCapture, Phase, Purpose,
    DXGI_ERROR_ACCESS_LOST, DXGI_ERROR_INVALID_CALL, DXGI_ERROR_WAIT_TIMEOUT,
};
use crate::capture_laws;
use crate::capture_model;
use crate::capture_model::World;
use crate::frame;
use crate::geometry::Rect;
use crate::num;
use crate::shared;
use crate::shared::{Mode, SharedModel};
use crate::window;
use crate::window::WindowState;

verus! {

/// Nothing changed but what the thread waits for.
pub open spec fn only_waits<G, O, D, S, B>(
    w: World<G, O, D, S, B>,
    after: World<G, O, D, S, B>,
    phase: Phase,
) -> bool {
    after == World { thread: CaptureThread { phase, ..w.thread }, ..w }
}

/// The area that is captured.
pub open spec fn captured<G, O, D, S, B>(w: World<G, O, D, S, B>) -> Area {
    Area { x: w.shared.cap_x, y: w.shared.cap_y, w: w.shared.cap_w, h: w.shared.cap_h }
}

/// The next monitor was asked for, there is more than one, and there is a device to open it.
pub open spec fn can_switch<G, O, D, S, B>(w: World<G, O, D, S, B>) -> bool {
    w.shared.switch_monitor && w.shared.output_count > 1 && w.thread.dxgi.is_some()
}

/// The thread asks for the pixels of the area, and the scratch buffer, which keeps what it held,
/// has room for them.
pub open spec fn asks_for_pixels<G, O, D, S, B>(
    w: World<G, O, D, S, B>,
    a: Area,
    after: World<G, O, D, S, B>,
    next: Action<B>,
) -> bool {
    &&& next == Action::<B>::Blit(a)
    &&& after.thread == (CaptureThread { phase: Phase::Blitting(a), ..w.thread })
    &&& after.shared == w.shared
    &&& after.scratch.len() == (if w.scratch.len() < a.w * a.h * 4 {
        a.w * a.h * 4
    } else {
        w.scratch.len() as int
    })
    &&& forall|i: int| 0 <= i < w.scratch.len() ==> #[trigger] after.scratch[i] == w.scratch[i]
}

/// The thread copies the captured area, with the bitmap that it has if that is as large as the
/// area, and otherwise with a new one, for which the old one is handed out.
pub open spec fn copies_area<G, O, D, S, B>(
    w: World<G, O, D, S, B>,
    after: World<G, O, D, S, B>,
    next: Action<B>,
) -> bool {
    let gdi = w.thread.gdi;
    if gdi.cap_bmp.is_some() && gdi.cap_w == w.shared.cap_w && gdi.cap_h == w.shared.cap_h {
        asks_for_pixels(w, captured(w), after, next)
    } else {
        &&& next == Action::CreateBitmap(gdi.cap_bmp, w.shared.cap_w, w.shared.cap_h)
        &&& after.thread == (CaptureThread {
            phase: Phase::Sizing(captured(w)),
            gdi: GdiCapture { cap_bmp: None, ..gdi },
            ..w.thread
        })
        &&& after.shared == w.shared
        &&& after.scratch == w.scratch
    }
}

/// The thread copies a frame from the screen: the captured area if its size is known, otherwise
/// the size of the whole desktop is found out first. A request for the next monitor is dropped.
pub open spec fn copies_frame<G, O, D, S, B>(
    w: World<G, O, D, S, B>,
    after: World<G, O, D, S, B>,
    next: Action<B>,
) -> bool {
    let taken = World { shared: SharedModel { switch_monitor: false, ..w.shared }, ..w };
    if w.shared.cap_w > 0 && w.shared.cap_h > 0 {
        copies_area(taken, after, next)
    } else {
        next == Action::<B>::ReadVirtualScreen && only_waits(taken, after, Phase::Measuring)
    }
}

/// The thread opens the monitor after the selected one, the first again after the last. Nothing is
/// left open on the device, and the request is dealt with.
pub open spec fn opens_next_monitor<G, O, D, S, B>(
    w: World<G, O, D, S, B>,
    after: World<G, O, D, S, B>,
    next: Action<B>,
) -> bool {
    let index = if w.shared.output_index + 1 < w.shared.output_count {
        w.shared.output_index + 1
    } else {
        0
    };
    let purpose = if w.shared.mode == Mode::Dxgi {
        Purpose::NextMonitor
    } else {
        Purpose::GdiNextMonitor
    };
    &&& next == Action::<B>::OpenOutput(index as u32)
    &&& after.shared == (SharedModel { switch_monitor: false, ..w.shared })
    &&& after.thread == (CaptureThread {
        phase: Phase::Opening(purpose, index as i32),
        dxgi: Some(
            DxgiCapture {
                gpu: w.thread.dxgi->0.gpu,
                output: None::<O>,
                dupl: None::<D>,
                staging: None::<S>,
            },
        ),
        ..w.thread
    })
    &&& after.scratch == w.scratch
}

/// The thread begins a round: it ends if it was told to, goes on to the next monitor if that was
/// asked for, and otherwise waits for a frame of the open duplication, tries after a pause to get
/// a missing device or duplication, or copies a frame from the screen.
pub open spec fn begins_round<G, O, D, S, B>(
    w: World<G, O, D, S, B>,
    after: World<G, O, D, S, B>,
    next: Action<B>,
) -> bool {
    let taken = World { shared: SharedModel { switch_monitor: false, ..w.shared }, ..w };
    if !w.shared.running {
        next == Action::<B>::Stop && only_waits(w, after, Phase::Stopped)
    } else if can_switch(w) {
        opens_next_monitor(w, after, next)
    } else if w.shared.mode == Mode::Gdi {
        copies_frame(w, after, next)
    } else if w.thread.dxgi.is_none() {
        next == Action::<B>::Sleep(200) && only_waits(w, after, Phase::RetryPause)
    } else if w.thread.dxgi->0.dupl.is_none() {
        next == Action::<B>::Sleep(200) && only_waits(taken, after, Phase::ReopenPause)
    } else {
        next == Action::<B>::AcquireFrame(100) && only_waits(taken, after, Phase::Acquiring)
    }
}

/// The thread goes on after an attempt to duplicate an output.
pub open spec fn goes_on<G, O, D, S, B>(
    w: World<G, O, D, S, B>,
    purpose: Purpose,
    after: World<G, O, D, S, B>,
    next: Action<B>,
) -> bool {
    if purpose == Purpose::Startup {
        next == Action::<B>::OpenGdi && only_waits(w, after, Phase::OpeningGdi)
    } else if purpose == Purpose::GdiNextMonitor && w.shared.mode == Mode::Gdi {
        copies_frame(w, after, next)
    } else {
        begins_round(w, after, next)
    }
}

/// An attempt to duplicate an output is over. Desktop Duplication is selected exactly if it
/// succeeded, no duplication is left half-made, a new device without an output is given up, and
/// the window is told of the captured size if that is known and it has not been told before.
pub open spec fn ends_attempt<G, O, D, S, B>(
    w: World<G, O, D, S, B>,
    purpose: Purpose,
    ok: bool,
    after: World<G, O, D, S, B>,
    next: Action<B>,
) -> bool {
    let mode = if ok {
        Mode::Dxgi
    } else {
        Mode::Gdi
    };
    let useless = !ok && (purpose == Purpose::Startup || purpose == Purpose::Retry)
        && !(w.thread.dxgi.is_some() && w.thread.dxgi->0.output.is_some());
    let dxgi = if useless {
        None
    } else {
        w.thread.dxgi
    };
    let over = World {
        thread: CaptureThread { dxgi, pending: None, ..w.thread },
        shared: SharedModel { mode, ..w.shared },
        scratch: w.scratch,
    };
    if w.shared.cap_w > 0 && w.shared.cap_h > 0 && !w.thread.announced {
        &&& next == Action::<B>::PostResize
        &&& after == World {
            thread: CaptureThread {
                phase: Phase::Announcing(purpose),
                announced: true,
                ..over.thread
            },
            ..over
        }
    } else {
        goes_on(over, purpose, after, next)
    }
}

proof fn lemma_copies_area<G, O, D, S, B>(w: World<G, O, D, S, B>)
    ensures
        copies_area(w, w.gdi_grab().0, w.gdi_grab().1),
{
    let a = captured(w);
    frame::law_growing_keeps_the_bytes(w.scratch, a.w * a.h * 4);
}

proof fn lemma_copies_frame<G, O, D, S, B>(w: World<G, O, D, S, B>)
    ensures
        copies_frame(w, w.gdi_frame().0, w.gdi_frame().1),
{
    lemma_copies_area(w.switch_taken());
}

proof fn lemma_begins_round<G, O, D, S, B>(w: World<G, O, D, S, B>)
    requires
        0 <= w.shared.output_index < w.shared.output_count,
    ensures
        begins_round(w, w.top().0, w.top().1),
{
    lemma_copies_frame(w);
    let (index, count) = (w.shared.output_index as int, w.shared.output_count as int);
    assert(shared::next_index(index, count) == (if index + 1 < count {
        index + 1
    } else {
        0
    })) by {
        if index + 1 < count {
            vstd::arithmetic::div_mod::lemma_small_mod((index + 1) as nat, count as nat);
        } else {
            vstd::arithmetic::div_mod::lemma_mod_self_0(count);
        }
    }
}

proof fn lemma_goes_on<G, O, D, S, B>(w: World<G, O, D, S, B>, purpose: Purpose)
    requires
        0 <= w.shared.output_index < w.shared.output_count,
    ensures
        goes_on(w, purpose, w.resumed(purpose).0, w.resumed(purpose).1),
{
    lemma_begins_round(w);
    lemma_copies_frame(w);
}

proof fn lemma_ends_attempt<G, O, D, S, B>(w: World<G, O, D, S, B>, purpose: Purpose, ok: bool)
    requires
        0 <= w.shared.output_index < w.shared.output_count,
    ensures
        ends_attempt(w, purpose, ok, w.concluded(purpose, ok).0, w.concluded(purpose, ok).1),
{
    let mode = if ok {
        Mode::Dxgi
    } else {
        Mode::Gdi
    };
    let useless = !ok && (purpose == Purpose::Startup || purpose == Purpose::Retry)
        && !w.has_output();
    let dxgi = if useless {
        None
    } else {
        w.thread.dxgi
    };
    let over = World {
        thread: CaptureThread { dxgi, pending: None, ..w.thread },
        shared: SharedModel { mode, ..w.shared },
        scratch: w.scratch,
    };
    lemma_goes_on(over, purpose);
}

/// A new device is kept and its outputs are counted from the first on; without a device the attempt
/// has failed.
pub proof fn law_outputs_of_a_new_device_are_counted<G, O, D, S, B>(
    w: World<G, O, D, S, B>,
    p: Purpose,
    gpu: Option<G>,
)
    requires
        w.thread.phase == Phase::Device(p),
        0 <= w.shared.output_index < w.shared.output_count,
    ensures
        ({
            let (after, next) = w.step(Event::Device(gpu));
            match gpu {
                None => ends_attempt(w, p, false, after, next),
                Some(g) => {
                    &&& next == Action::<B>::ProbeOutput(0)
                    &&& after.thread == (CaptureThread {
                        phase: Phase::Counting(p, 0),
                        dxgi: Some(
                            DxgiCapture {
                                gpu: g,
                                output: None::<O>,
                                dupl: None::<D>,
                                staging: None::<S>,
                            },
                        ),
                        ..w.thread
                    })
                    &&& after.shared == w.shared
                    &&& after.scratch == w.scratch
                },
            }
        }),
{
    lemma_ends_attempt(w, p, false);
}

/// The outputs are counted one by one. The count ends with the first that does not exist, or with
/// sixteen; it is at least one. Then the first output is selected and opened.
pub proof fn law_count_ends_with_the_last_output<G, O, D, S, B>(
    w: World<G, O, D, S, B>,
    p: Purpose,
    n: u32,
    exists_n: bool,
)
    requires
        w.thread.phase == Phase::Counting(p, n),
        n < 16,
    ensures
        ({
            let (after, next) = w.step(Event::Probe(exists_n));
            if exists_n && n < 15 {
                &&& next == Action::<B>::ProbeOutput((n + 1) as u32)
                &&& only_waits(w, after, Phase::Counting(p, (n + 1) as u32))
            } else {
                &&& next == Action::<B>::OpenOutput(0)
                &&& after.thread == (CaptureThread { phase: Phase::FirstOutput(p), ..w.thread })
                &&& exists_n ==> after.shared.output_count == 16
                &&& !exists_n && n > 0 ==> after.shared.output_count == n
                &&& !exists_n && n == 0 ==> after.shared.output_count == 1
                &&& after.shared.output_index == 0
                &&& after.shared == (SharedModel {
                    output_count: after.shared.output_count,
                    output_index: after.shared.output_index,
                    ..w.shared
                })
                &&& after.scratch == w.scratch
            }
        }),
{
}

/// The first output of a new device is duplicated; without it the attempt has failed.
pub proof fn law_first_output_is_duplicated<G, O, D, S, B>(
    w: World<G, O, D, S, B>,
    p: Purpose,
    output: Option<O>,
)
    requires
        w.thread.phase == Phase::FirstOutput(p),
        w.thread.dxgi.is_some(),
        0 <= w.shared.output_index < w.shared.output_count,
    ensures
        ({
            let (after, next) = w.step(Event::Output(output));
            match output {
                None => ends_attempt(w, p, false, after, next),
                Some(o) => {
                    &&& next == Action::<B>::Duplicate
                    &&& after.thread == (CaptureThread {
                        phase: Phase::Duplicating(p),
                        dxgi: Some(
                            DxgiCapture {
                                gpu: w.thread.dxgi->0.gpu,
                                output: Some(o),
                                dupl: None::<D>,
                                staging: None::<S>,
                            },
                        ),
                        ..w.thread
                    })
                    &&& after.shared == w.shared
                    &&& after.scratch == w.scratch
                },
            }
        }),
{
    lemma_ends_attempt(w, p, false);
}

/// A monitor that was opened is located; one that could not be opened is not selected, and the
/// attempt has failed.
pub proof fn law_opened_monitor_is_located<G, O, D, S, B>(
    w: World<G, O, D, S, B>,
    p: Purpose,
    index: i32,
    output: Option<O>,
)
    requires
        w.thread.phase == Phase::Opening(p, index),
        w.thread.dxgi.is_some(),
        0 <= w.shared.output_index < w.shared.output_count,
    ensures
        ({
            let (after, next) = w.step(Event::Output(output));
            match output {
                None => ends_attempt(w, p, false, after, next),
                Some(o) => {
                    &&& next == Action::<B>::DescribeOutput
                    &&& after.thread == (CaptureThread {
                        phase: Phase::Locating(p, index),
                        dxgi: Some(DxgiCapture { output: Some(o), ..w.thread.dxgi->0 }),
                        ..w.thread
                    })
                    &&& after.shared == w.shared
                    &&& after.scratch == w.scratch
                },
            }
        }),
{
    lemma_ends_attempt(w, p, false);
}

/// A located monitor becomes the selected one, and its place on the desktop the captured area; if its
/// place is not known it is selected all the same. Then it is duplicated.
pub proof fn law_located_monitor_is_selected<G, O, D, S, B>(
    w: World<G, O, D, S, B>,
    p: Purpose,
    index: i32,
    place: Option<Rect>,
)
    requires
        w.thread.phase == Phase::Locating(p, index),
        w.thread.dxgi.is_some(),
        w.thread.dxgi->0.output.is_some(),
        w.accepts(Event::Desktop(place)),
    ensures
        ({
            let (after, next) = w.step(Event::Desktop(place));
            let s = after.shared;
            &&& next == Action::<B>::Duplicate
            &&& s.output_index == index
            &&& match place {
                None => captured(after) == captured(w),
                Some(r) => {
                    &&& s.cap_x == r.left
                    &&& s.cap_y == r.top
                    &&& s.cap_x + s.cap_w == r.right
                    &&& s.cap_y + s.cap_h == r.bottom
                },
            }
            &&& s == (SharedModel {
                output_index: s.output_index,
                cap_x: s.cap_x,
                cap_y: s.cap_y,
                cap_w: s.cap_w,
                cap_h: s.cap_h,
                ..w.shared
            })
            &&& after.thread == (CaptureThread {
                phase: Phase::Duplicating(p),
                dxgi: Some(DxgiCapture { dupl: None, staging: None, ..w.thread.dxgi->0 }),
                ..w.thread
            })
            &&& after.scratch == w.scratch
        }),
{
}

/// The captured size is the one that the duplication reports; without a duplication the attempt has
/// failed.
pub proof fn law_duplication_tells_the_size<G, O, D, S, B>(
    w: World<G, O, D, S, B>,
    p: Purpose,
    opened: Option<Duplicated<D>>,
)
    requires
        w.thread.phase == Phase::Duplicating(p),
        0 <= w.shared.output_index < w.shared.output_count,
    ensures
        ({
            let (after, next) = w.step(Event::Duplication(opened));
            let s = after.shared;
            match opened {
                None => ends_attempt(w, p, false, after, next),
                Some(d) => {
                    &&& next == Action::<B>::DescribeOutput
                    &&& (s.cap_w - d.width) % 0x1_0000_0000 == 0
                    &&& (s.cap_h - d.height) % 0x1_0000_0000 == 0
                    &&& d.width <= i32::MAX ==> s.cap_w == d.width
                    &&& d.height <= i32::MAX ==> s.cap_h == d.height
                    &&& s == (SharedModel { cap_w: s.cap_w, cap_h: s.cap_h, ..w.shared })
                    &&& after.thread == (CaptureThread {
                        phase: Phase::Placing(p),
                        pending: Some(d.handle),
                        ..w.thread
                    })
                    &&& after.scratch == w.scratch
                },
            }
        }),
{
    lemma_ends_attempt(w, p, false);
    if let Some(d) = opened {
        num::law_narrowing_keeps_the_low_bits(d.width as int, d.width as int);
        num::law_narrowing_keeps_the_low_bits(d.height as int, d.height as int);
    }
}

/// The origin of the captured area is the corner of the duplicated monitor, if that is known. A
/// duplication with a size gets a texture of that size; without a size the attempt has failed.
pub proof fn law_duplication_gets_its_place<G, O, D, S, B>(
    w: World<G, O, D, S, B>,
    p: Purpose,
    place: Option<Rect>,
)
    requires
        w.thread.phase == Phase::Placing(p),
        0 <= w.shared.output_index < w.shared.output_count,
    ensures
        ({
            let (after, next) = w.step(Event::Desktop(place));
            let (cap_x, cap_y) = match place {
                None => (w.shared.cap_x, w.shared.cap_y),
                Some(r) => (r.left, r.top),
            };
            let located = World { shared: SharedModel { cap_x, cap_y, ..w.shared }, ..w };
            if w.shared.cap_w > 0 && w.shared.cap_h > 0 {
                &&& next == Action::<B>::CreateStaging(
                    w.shared.cap_w as u32,
                    w.shared.cap_h as u32,
                )
                &&& only_waits(located, after, Phase::Staging(p))
            } else {
                ends_attempt(located, p, false, after, next)
            }
        }),
{
    let (cap_x, cap_y) = match place {
        None => (w.shared.cap_x, w.shared.cap_y),
        Some(r) => (r.left, r.top),
    };
    lemma_ends_attempt(World { shared: SharedModel { cap_x, cap_y, ..w.shared }, ..w }, p, false);
}

/// A duplication is open as soon as it has its texture, and the attempt has succeeded; without the
/// texture it is dropped, and the attempt has failed.
pub proof fn law_duplication_opens_with_its_texture<G, O, D, S, B>(
    w: World<G, O, D, S, B>,
    p: Purpose,
    staging: Option<Option<S>>,
)
    requires
        w.thread.phase == Phase::Staging(p),
        w.thread.dxgi.is_some(),
        0 <= w.shared.output_index < w.shared.output_count,
    ensures
        ({
            let (after, next) = w.step(Event::Staging(staging));
            match staging {
                None => ends_attempt(w, p, false, after, next),
                Some(texture) => ends_attempt(
                    World {
                        thread: CaptureThread {
                            dxgi: Some(
                                DxgiCapture {
                                    dupl: w.thread.pending,
                                    staging: texture,
                                    ..w.thread.dxgi->0
                                },
                            ),
                            ..w.thread
                        },
                        ..w
                    },
                    p,
                    true,
                    after,
                    next,
                ),
            }
        }),
{
    lemma_ends_attempt(w, p, false);
    if let Some(texture) = staging {
        let dx = DxgiCapture { dupl: w.thread.pending, staging: texture, ..w.thread.dxgi->0 };
        let open = World { thread: CaptureThread { dxgi: Some(dx), ..w.thread }, ..w };
        lemma_ends_attempt(open, p, true);
        lemma_ends_attempt(open.with_pending(None), p, true);
    }
}

/// After the window was told of the captured size, the thread goes on with what the attempt was made
/// for.
pub proof fn law_thread_goes_on_after_the_announcement<G, O, D, S, B>(
    w: World<G, O, D, S, B>,
    p: Purpose,
)
    requires
        w.thread.phase == Phase::Announcing(p),
        0 <= w.shared.output_index < w.shared.output_count,
    ensures
        ({
            let (after, next) = w.step(Event::Done);
            goes_on(w, p, after, next)
        }),
{
    lemma_goes_on(w, p);
}

/// Copying from the screen keeps the pace of the screen: the pause between frames is the time of one
/// frame at the refresh rate, in whole milliseconds, or 16 if the rate is not known. Then the first
/// round begins.
pub proof fn law_copying_keeps_the_pace_of_the_screen<G, O, D, S, B>(
    w: World<G, O, D, S, B>,
    rate: i32,
    delay: u32,
)
    requires
        w.thread.phase == Phase::OpeningGdi,
        0 <= w.shared.output_index < w.shared.output_count,
        rate > 1 ==> delay * rate <= 1000 < (delay + 1) * rate,
        rate <= 1 ==> delay == 16,
    ensures
        ({
            let (after, next) = w.step(Event::Refresh(rate));
            let gdi = GdiCapture {
                cap_bmp: None::<B>,
                cap_w: 0,
                cap_h: 0,
                frame_delay_ms: delay,
            };
            begins_round(World { thread: CaptureThread { gdi, ..w.thread }, ..w }, after, next)
        }),
{
    let paced = capture::frame_delay(rate as int);
    lemma_pace(rate as int);
    assert(rate > 1 ==> delay == paced) by (nonlinear_arith)
        requires
            rate > 1 ==> delay * rate <= 1000 < (delay + 1) * rate,
            rate > 1 ==> paced * rate <= 1000 < (paced + 1) * rate,
    ;
    let gdi = GdiCapture { cap_bmp: None::<B>, cap_w: 0, cap_h: 0, frame_delay_ms: delay };
    lemma_begins_round(World { thread: CaptureThread { gdi, ..w.thread }, ..w });
}

/// The pause between frames is the time of one frame.
proof fn lemma_pace(rate: int)
    ensures
        rate > 1 ==> capture::frame_delay(rate) * rate <= 1000 < (capture::frame_delay(rate) + 1)
            * rate,
        rate <= 1 ==> capture::frame_delay(rate) == 16,
        0 <= capture::frame_delay(rate) <= 1000,
{
    if rate > 1 {
        let d = 1000int / rate;
        assert(d * rate <= 1000 < (d + 1) * rate && 0 <= d <= 1000) by (nonlinear_arith)
            requires
                rate > 1,
                d == 1000int / rate,
        ;
    }
}

/// A missing device is created again after the pause.
pub proof fn law_missing_device_is_created_again<G, O, D, S, B>(
    w: World<G, O, D, S, B>,
)
    requires
        w.thread.phase == Phase::RetryPause,
    ensures
        ({
            let (after, next) = w.step(Event::Done);
            &&& next == Action::<B>::CreateDevice
            &&& only_waits(w, after, Phase::Device(Purpose::Retry))
        }),
{
}

/// A lost duplication is opened again after the pause: nothing is left open, and the selected output
/// is duplicated anew. Without an output the attempt has failed.
pub proof fn law_lost_duplication_is_opened_again<G, O, D, S, B>(
    w: World<G, O, D, S, B>,
)
    requires
        w.thread.phase == Phase::ReopenPause,
        w.thread.dxgi.is_some(),
        0 <= w.shared.output_index < w.shared.output_count,
    ensures
        ({
            let (after, next) = w.step(Event::Done);
            let dx = DxgiCapture { dupl: None, staging: None, ..w.thread.dxgi->0 };
            let cleared = World { thread: CaptureThread { dxgi: Some(dx), ..w.thread }, ..w };
            if dx.output.is_some() {
                &&& next == Action::<B>::Duplicate
                &&& only_waits(cleared, after, Phase::Duplicating(Purpose::Reopen))
            } else {
                ends_attempt(cleared, Purpose::Reopen, false, after, next)
            }
        }),
{
    let dx = DxgiCapture { dupl: None, staging: None, ..w.thread.dxgi->0 };
    let cleared = World { thread: CaptureThread { dxgi: Some(dx), ..w.thread }, ..w };
    lemma_ends_attempt(cleared, Purpose::Reopen, false);
}

/// A new round begins after a released frame, and after the pause that follows a failure.
pub proof fn law_rounds_follow_each_other<G, O, D, S, B>(
    w: World<G, O, D, S, B>,
)
    requires
        w.thread.phase == Phase::Releasing || w.thread.phase == Phase::Resting,
        0 <= w.shared.output_index < w.shared.output_count,
    ensures
        ({
            let (after, next) = w.step(Event::Done);
            begins_round(w, after, next)
        }),
{
    lemma_begins_round(w);
}

/// Every presented frame is copied: a frame that arrives is copied and mapped exactly if the desktop
/// was presented at all, whenever that was, the frame came with a texture, and there is a staging
/// texture to receive it. Any other frame is released uncopied. Nothing else changes.
pub proof fn law_presented_frame_is_copied<G, O, D, S, B>(
    w: World<G, O, D, S, B>,
    last_present: i64,
    texture: bool,
)
    requires
        w.thread.phase == Phase::Acquiring,
        w.thread.dxgi.is_some(),
    ensures
        ({
            let (after, next) = w.step(Event::Acquired(last_present, texture));
            let copied = last_present != 0 && texture && w.thread.dxgi->0.staging.is_some();
            &&& next == Action::<B>::CopyAndMap <==> copied
            &&& next == Action::<B>::ReleaseFrame <==> !copied
            &&& copied ==> only_waits(w, after, Phase::Mapping)
            &&& !copied ==> only_waits(w, after, Phase::Releasing)
        }),
{
}

/// A frame that does not arrive in time is waited for in the next round. A duplication that was lost,
/// or can no longer be used, is dropped and opened again after a pause of 100 ms. After any other
/// failure the thread pauses for 50 ms and keeps the duplication.
pub proof fn law_missing_frame_is_coped_with<G, O, D, S, B>(
    w: World<G, O, D, S, B>,
    code: i32,
)
    requires
        w.thread.phase == Phase::Acquiring,
        w.thread.dxgi.is_some(),
        0 <= w.shared.output_index < w.shared.output_count,
    ensures
        ({
            let (after, next) = w.step(Event::AcquireFailed(code));
            let lost = World {
                thread: CaptureThread {
                    dxgi: Some(DxgiCapture { dupl: None, ..w.thread.dxgi->0 }),
                    ..w.thread
                },
                ..w
            };
            if code == DXGI_ERROR_WAIT_TIMEOUT {
                begins_round(w, after, next)
            } else if code == DXGI_ERROR_ACCESS_LOST || code == DXGI_ERROR_INVALID_CALL {
                next == Action::<B>::Sleep(100) && only_waits(lost, after, Phase::ReopenPause)
            } else {
                next == Action::<B>::Sleep(50) && only_waits(w, after, Phase::Resting)
            }
        }),
{
    lemma_begins_round(w);
}

/// A mapped frame is read as a whole, all rows of the captured height; one that could not be mapped is
/// released.
pub proof fn law_mapped_frame_is_read<G, O, D, S, B>(
    w: World<G, O, D, S, B>,
    pitch: Option<u32>,
)
    requires
        w.thread.phase == Phase::Mapping,
        w.shared.cap_h > 0,
        w.accepts(Event::Mapped(pitch)),
    ensures
        ({
            let (after, next) = w.step(Event::Mapped(pitch));
            let (cap_w, cap_h) = (w.shared.cap_w, w.shared.cap_h);
            match pitch {
                None => next == Action::<B>::ReleaseFrame && only_waits(w, after, Phase::Releasing),
                Some(p) => {
                    &&& next matches Action::ReadMapped(bytes) && bytes == p * cap_h
                    &&& only_waits(w, after, Phase::Reading(cap_w, cap_h, p))
                },
            }
        }),
{
    if let Some(p) = pitch {
        assert(p * w.shared.cap_h >= 0) by (nonlinear_arith)
            requires
                p >= 0,
                w.shared.cap_h > 0,
        ;
    }
}

/// The picture of `width` by `height` pixels whose rows start every `stride` bytes of `src` was
/// published: the shared buffer holds it, and the window has a frame to draw. Nothing else of the
/// shared state changed.
pub open spec fn was_published(
    before: SharedModel,
    after: SharedModel,
    src: Seq<u8>,
    width: int,
    height: int,
    stride: int,
) -> bool {
    &&& after.frame.w == width
    &&& after.frame.h == height
    &&& frame::rows_taken_over(
        before.frame.data,
        after.frame.data,
        src,
        width,
        height,
        stride,
    )
    &&& after == (SharedModel { frame: after.frame, wake_pending: true, ..before })
}

/// The bytes that were read are published row by row, and the window is told of them unless it still
/// has to draw a frame. Then the frame is unmapped.
pub proof fn law_read_frame_is_published<G, O, D, S, B>(
    w: World<G, O, D, S, B>,
    width: i32,
    height: i32,
    pitch: u32,
    data: &[u8],
)
    requires
        w.thread.phase == Phase::Reading(width, height, pitch),
        width > 0,
        height > 0,
        pitch <= i32::MAX || height == 1,
    ensures
        ({
            let (after, next) = w.step(Event::Pixels(data));
            let phase = if w.shared.wake_pending {
                Phase::Unmapping
            } else {
                Phase::Waking
            };
            &&& was_published(
                w.shared,
                after.shared,
                data@,
                width as int,
                height as int,
                pitch as int,
            )
            &&& next == Action::<B>::Unmap <==> w.shared.wake_pending
            &&& next == Action::<B>::PostNewFrame <==> !w.shared.wake_pending
            &&& after.thread == (CaptureThread { phase, ..w.thread })
            &&& after.scratch == w.scratch
        }),
{
    let stride = num::wrap_i32(pitch as int);
    num::law_narrowing_keeps_the_low_bits(pitch as int, pitch as int);
    shared::law_publishing_changes_the_frame_alone(w.shared, data@, width, height, stride);
    let after = w.step(Event::Pixels(data)).0.shared.frame.data;
    assert forall|y: int, x: int| 0 <= y < height && 0 <= x < width * 4 implies after[#[trigger] (y
        * (width * 4) + x)] == data@[y * pitch + x] by {
        assert(y * stride == y * pitch) by (nonlinear_arith)
            requires
                0 <= y < height,
                stride == pitch || height == 1,
        ;
    }
}

/// After the window was told, the frame is unmapped; after that it is released.
pub proof fn law_published_frame_is_released<G, O, D, S, B>(
    w: World<G, O, D, S, B>,
)
    requires
        w.thread.phase == Phase::Waking || w.thread.phase == Phase::Unmapping,
    ensures
        ({
            let (after, next) = w.step(Event::Done);
            if w.thread.phase == Phase::Waking {
                next == Action::<B>::Unmap && only_waits(w, after, Phase::Unmapping)
            } else {
                next == Action::<B>::ReleaseFrame && only_waits(w, after, Phase::Releasing)
            }
        }),
{
}

/// The whole desktop is captured if nothing else is known: its area becomes the captured one, the
/// window is told of its size if it has not been told of any, and the area is copied.
pub proof fn law_whole_desktop_is_captured<G, O, D, S, B>(
    w: World<G, O, D, S, B>,
    a: Area,
)
    requires
        w.thread.phase == Phase::Measuring,
    ensures
        ({
            let (after, next) = w.step(Event::Metrics(a));
            let shared = SharedModel { cap_x: a.x, cap_y: a.y, cap_w: a.w, cap_h: a.h, ..w.shared };
            let known = World { shared, ..w };
            if a.w > 0 && a.h > 0 && !w.thread.announced {
                &&& next == Action::<B>::PostResize
                &&& after == World {
                    thread: CaptureThread {
                        phase: Phase::GdiAnnouncing,
                        announced: true,
                        ..w.thread
                    },
                    ..known
                }
            } else {
                copies_area(known, after, next)
            }
        }),
{
    let shared = SharedModel { cap_x: a.x, cap_y: a.y, cap_w: a.w, cap_h: a.h, ..w.shared };
    lemma_copies_area(World { shared, ..w });
}

/// After the window was told of the size of the desktop, the desktop is copied.
pub proof fn law_announced_desktop_is_copied<G, O, D, S, B>(
    w: World<G, O, D, S, B>,
)
    requires
        w.thread.phase == Phase::GdiAnnouncing,
    ensures
        ({
            let (after, next) = w.step(Event::Done);
            copies_area(w, after, next)
        }),
{
    lemma_copies_area(w);
}

/// A new bitmap is kept with the size of the area that it was made for, and the area is copied.
pub proof fn law_new_bitmap_receives_the_area<G, O, D, S, B>(
    w: World<G, O, D, S, B>,
    a: Area,
    bitmap: B,
)
    requires
        w.thread.phase == Phase::Sizing(a),
    ensures
        ({
            let (after, next) = w.step(Event::Bitmap(bitmap));
            let gdi = GdiCapture {
                cap_bmp: Some(bitmap),
                cap_w: a.w,
                cap_h: a.h,
                ..w.thread.gdi
            };
            let kept = World { thread: CaptureThread { gdi, ..w.thread }, ..w };
            asks_for_pixels(kept, a, after, next)
        }),
{
    frame::law_growing_keeps_the_bytes(w.scratch, a.w * a.h * 4);
}

/// The copied pixels are published row by row, and the window is told of them unless it still has to
/// draw a frame. Then the thread pauses.
pub proof fn law_copied_frame_is_published<G, O, D, S, B>(
    w: World<G, O, D, S, B>,
    a: Area,
)
    requires
        w.thread.phase == Phase::Blitting(a),
        a.w >= 0,
        a.h >= 0,
    ensures
        ({
            let (after, next) = w.step(Event::Done);
            let phase = if w.shared.wake_pending {
                Phase::GdiResting
            } else {
                Phase::GdiWaking
            };
            &&& was_published(
                w.shared,
                after.shared,
                w.scratch,
                a.w as int,
                a.h as int,
                a.w * 4,
            )
            &&& next == (if w.shared.wake_pending {
                Action::<B>::Sleep(w.thread.gdi.frame_delay_ms as u64)
            } else {
                Action::<B>::PostNewFrame
            })
            &&& after.thread == (CaptureThread { phase, ..w.thread })
            &&& after.scratch == w.scratch
        }),
{
    shared::law_publishing_changes_the_frame_alone(w.shared, w.scratch, a.w, a.h, a.w * 4);
}

/// After the window was told of a copied frame, the thread pauses.
pub proof fn law_thread_pauses_between_copies<G, O, D, S, B>(
    w: World<G, O, D, S, B>,
)
    requires
        w.thread.phase == Phase::GdiWaking,
    ensures
        ({
            let (after, next) = w.step(Event::Done);
            &&& next == Action::<B>::Sleep(w.thread.gdi.frame_delay_ms as u64)
            &&& only_waits(w, after, Phase::GdiResting)
        }),
{
}

/// Desktop Duplication is tried again with every 181st copied frame, if there is an output to
/// duplicate; with any other, and without an output, the next round begins.
pub proof fn law_copied_frames_are_counted<G, O, D, S, B>(
    w: World<G, O, D, S, B>,
)
    requires
        w.thread.phase == Phase::GdiResting,
        w.thread.gdi_fail_count <= 180,
        0 <= w.shared.output_index < w.shared.output_count,
    ensures
        ({
            let (after, next) = w.step(Event::Done);
            let due = w.thread.gdi_fail_count == 180;
            let gdi_fail_count = if due {
                0
            } else {
                (w.thread.gdi_fail_count + 1) as u32
            };
            let counted = World { thread: CaptureThread { gdi_fail_count, ..w.thread }, ..w };
            if due && w.thread.dxgi.is_some() && w.thread.dxgi->0.output.is_some() {
                &&& next == Action::<B>::Duplicate
                &&& after == World {
                    thread: CaptureThread {
                        phase: Phase::Duplicating(Purpose::GdiRetry),
                        dxgi: Some(DxgiCapture { dupl: None, staging: None, ..w.thread.dxgi->0 }),
                        ..counted.thread
                    },
                    ..counted
                }
            } else {
                begins_round(counted, after, next)
            }
        }),
{
    let due = w.thread.gdi_fail_count == 180;
    let gdi_fail_count = if due {
        0
    } else {
        (w.thread.gdi_fail_count + 1) as u32
    };
    lemma_begins_round(World { thread: CaptureThread { gdi_fail_count, ..w.thread }, ..w });
}

/// An area can be copied exactly if its sides are not negative, its rows fit 32 bits and its bytes
/// can be counted; a texture can be mapped exactly if its rows are complete and its bytes can be
/// counted. Any area of up to 16384 by 16384 pixels can be copied.
pub proof fn law_ordinary_areas_can_be_copied(a: Area, w: int, h: int, pitch: int)
    ensures
        capture_model::copyable(a) <==> {
            &&& a.w >= 0
            &&& a.h >= 0
            &&& a.w * 4 <= i32::MAX
            &&& a.w * a.h * 4 <= usize::MAX
        },
        0 <= a.w <= 16384 && 0 <= a.h <= 16384 ==> capture_model::copyable(a),
        capture_model::mappable(w, h, pitch) <==> {
            &&& w * 4 <= pitch
            &&& pitch <= i32::MAX || h <= 1
            &&& pitch * h <= usize::MAX
        },
{
    assert(0 <= a.w <= 16384 && 0 <= a.h <= 16384 ==> a.w * a.h * 4 <= 0x4000_0000)
        by (nonlinear_arith);
}

/// The thread takes every outcome of the action that it waits for, failures included, and nothing
/// else. Only sizes that cannot be handled, and bytes other than those that were asked for, are
/// refused.
pub proof fn law_every_outcome_is_taken<G, O, D, S, B>(
    w: World<G, O, D, S, B>,
    e: Event<'_, G, O, D, S, B>,
)
    ensures
        w.accepts(e) <==> match (w.thread.phase, e) {
            (Phase::Device(_), Event::Device(_)) => true,
            (Phase::Counting(_, _), Event::Probe(_)) => true,
            (Phase::FirstOutput(_), Event::Output(_)) => true,
            (Phase::Opening(_, _), Event::Output(_)) => true,
            (Phase::Locating(_, _), Event::Desktop(None)) => true,
            (Phase::Locating(_, _), Event::Desktop(Some(r))) => {
                let (width, height) = (r.right - r.left, r.bottom - r.top);
                &&& i32::MIN <= width <= i32::MAX
                &&& i32::MIN <= height <= i32::MAX
                &&& width <= 0 || height <= 0 || (width * 4 <= i32::MAX && width * height * 4
                    <= usize::MAX)
            },
            (Phase::Duplicating(_), Event::Duplication(None)) => true,
            (Phase::Duplicating(_), Event::Duplication(Some(d))) => {
                ||| d.width == 0 || d.height == 0
                ||| d.width > i32::MAX || d.height > i32::MAX
                ||| d.width * 4 <= i32::MAX && d.width * d.height * 4 <= usize::MAX
            },
            (Phase::Placing(_), Event::Desktop(_)) => true,
            (Phase::Staging(_), Event::Staging(_)) => true,
            (Phase::OpeningGdi, Event::Refresh(_)) => true,
            (Phase::Acquiring, Event::Acquired(_, _)) => true,
            (Phase::Acquiring, Event::AcquireFailed(_)) => true,
            (Phase::Mapping, Event::Mapped(None)) => true,
            (Phase::Mapping, Event::Mapped(Some(p))) => {
                &&& w.shared.cap_w * 4 <= p
                &&& p <= i32::MAX || w.shared.cap_h <= 1
                &&& p * w.shared.cap_h <= usize::MAX
            },
            (Phase::Reading(_, h, pitch), Event::Pixels(data)) => data@.len() == pitch * h,
            (Phase::Measuring, Event::Metrics(a)) => {
                &&& a.w >= 0
                &&& a.h >= 0
                &&& a.w * 4 <= i32::MAX
                &&& a.w * a.h * 4 <= usize::MAX
            },
            (Phase::Sizing(_), Event::Bitmap(_)) => true,
            (Phase::Blitting(a), Event::Done) => a.w * a.h * 4 <= w.scratch.len(),
            (phase, Event::Done) => {
                ||| phase is Announcing
                ||| phase == Phase::RetryPause || phase == Phase::ReopenPause
                ||| phase == Phase::Resting || phase == Phase::Releasing
                ||| phase == Phase::Waking || phase == Phase::Unmapping
                ||| phase == Phase::GdiAnnouncing || phase == Phase::GdiWaking
                ||| phase == Phase::GdiResting
            },
            _ => false,
        },
{
    match e {
        Event::Desktop(Some(r)) => {
            shared::law_ordinary_sizes_can_be_captured(
                w.shared,
                r.right - r.left,
                r.bottom - r.top,
            );
        },
        Event::Duplication(Some(d)) => {
            let (width, height) = (d.width as int, d.height as int);
            num::law_narrowing_keeps_the_low_bits(width, width);
            num::law_narrowing_keeps_the_low_bits(height, height);
            let (cap_w, cap_h) = (num::wrap_i32(width), num::wrap_i32(height));
            shared::law_ordinary_sizes_can_be_captured(w.shared, cap_w, cap_h);
        },
        Event::Metrics(a) => law_ordinary_areas_can_be_copied(a, 0, 0, 0),
        _ => {},
    }
}

/// Every frame that the desktop presents reaches the window: the thread copies and maps it, reads
/// it as a whole and publishes its rows with the captured size, whenever it was presented and
/// whatever the window does meanwhile.
pub proof fn law_presented_frame_reaches_the_window<G, O, D, S, B>(
    w: World<G, O, D, S, B>,
    last_present: i64,
    copied: World<G, O, D, S, B>,
    pitch: u32,
    mapped: World<G, O, D, S, B>,
    data: &[u8],
)
    requires
        w.thread.phase == Phase::Acquiring,
        w.thread.dxgi.is_some(),
        w.thread.dxgi->0.staging.is_some(),
        w.shared.cap_w > 0,
        w.shared.cap_h > 0,
        last_present != 0,
        capture_laws::meanwhile(w.step(Event::Acquired(last_present, true)).0, copied),
        copied.accepts(Event::Mapped(Some(pitch))),
        capture_laws::meanwhile(copied.step(Event::Mapped(Some(pitch))).0, mapped),
    ensures
        w.step(Event::Acquired(last_present, true)).1 == Action::<B>::CopyAndMap,
        copied.step(Event::Mapped(Some(pitch))).1 matches Action::ReadMapped(bytes) && bytes
            == pitch * w.shared.cap_h,
        was_published(
            mapped.shared,
            mapped.step(Event::Pixels(data)).0.shared,
            data@,
            w.shared.cap_w as int,
            w.shared.cap_h as int,
            pitch as int,
        ),
{
    law_presented_frame_is_copied(w, last_present, true);
    law_mapped_frame_is_read(copied, Some(pitch));
    law_every_outcome_is_taken(copied, Event::Mapped(Some(pitch)));
    law_read_frame_is_published(mapped, w.shared.cap_w, w.shared.cap_h, pitch, data);
}

/// The key for the next monitor shows the next monitor, with Desktop Duplication and with copying
/// from the screen alike: pressed before a round begins, it has that round open the monitor after
/// the selected one, the first again after the last.
pub proof fn law_key_leads_to_the_next_monitor<G, O, D, S, B>(
    w: World<G, O, D, S, B>,
    win: WindowState,
    wparam: usize,
    lparam: isize,
)
    requires
        wparam as int % 0x1_0000 == 77,
        w.shared.running,
        w.thread.dxgi.is_some(),
        w.shared.output_count > 1,
        0 <= w.shared.output_index < w.shared.output_count,
    ensures
        ({
            let shared = win.handled(w.shared, window::WM_KEYDOWN, wparam, lparam).1;
            let pressed = World { shared, ..w };
            let index = if w.shared.output_index == w.shared.output_count - 1 {
                0
            } else {
                w.shared.output_index + 1
            };
            let opened = Action::<B>::OpenOutput(index as u32);
            let timeout = Event::AcquireFailed(DXGI_ERROR_WAIT_TIMEOUT);
            &&& w.thread.phase == Phase::Acquiring ==> pressed.step(timeout).1 == opened
            &&& w.thread.phase == Phase::Releasing ==> pressed.step(Event::Done).1 == opened
            &&& w.thread.phase == Phase::Resting ==> pressed.step(Event::Done).1 == opened
            &&& w.thread.phase == Phase::GdiResting && w.thread.gdi_fail_count < 180
                ==> pressed.step(Event::Done).1 == opened
        }),
{
    window::law_key_asks_for_the_next_monitor(win, w.shared, window::WM_KEYDOWN, wparam, lparam);
    let shared = win.handled(w.shared, window::WM_KEYDOWN, wparam, lparam).1;
    let pressed = World { shared, ..w };
    if w.thread.phase == Phase::Acquiring {
        law_missing_frame_is_coped_with(pressed, DXGI_ERROR_WAIT_TIMEOUT);
    }
    if w.thread.phase == Phase::Releasing || w.thread.phase == Phase::Resting {
        law_rounds_follow_each_other(pressed);
    }
    if w.thread.phase == Phase::GdiResting && w.thread.gdi_fail_count < 180 {
        law_copied_frames_are_counted(pressed);
    }
}

/// The bitmap is kept for pictures of its own size, and handed out for deletion for any other;
/// nothing else changes. At first there is none, and the pause between frames is the time of one
/// frame of the screen.
pub proof fn law_bitmap_is_kept_for_its_size<B>(g: GdiCapture<B>, w: i32, h: i32, rate: i32)
    ensures
        g.prepared(w, h).1.is_none() <==> g.cap_bmp.is_some() && g.cap_w == w && g.cap_h == h,
        g.prepared(w, h).1.is_none() ==> g.prepared(w, h).0 == g,
        g.prepared(w, h).1 matches Some(stale) ==> stale == g.cap_bmp && g.prepared(w, h).0 == (
        GdiCapture { cap_bmp: None, ..g }),
        ({
            let fresh = GdiCapture::<B>::fresh(rate as int);
            let delay = fresh.frame_delay_ms;
            &&& fresh.cap_bmp.is_none()
            &&& fresh.cap_w == 0
            &&& fresh.cap_h == 0
            &&& rate > 1 ==> delay * rate <= 1000 < (delay + 1) * rate
            &&& rate <= 1 ==> delay == 16
        }),
{
    lemma_pace(rate as int);
}

} // verus!
