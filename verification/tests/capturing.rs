use fixscreen::capture::{
    is_capturable, is_copyable, Action, Area, CaptureThread, Duplicated, Event, GdiCapture, Phase,
    DXGI_ERROR_ACCESS_LOST, DXGI_ERROR_INVALID_CALL, DXGI_ERROR_WAIT_TIMEOUT,
};
use fixscreen::geometry::Rect;
use fixscreen::shared::{Mode, SharedState};

type Thread = CaptureThread<&'static str, &'static str, &'static str, &'static str, &'static str>;
type Reply<'a> = Event<'a, &'static str, &'static str, &'static str, &'static str, &'static str>;
type Ask = Action<&'static str>;

struct Bench {
    thread: Thread,
    shared: SharedState,
    scratch: Vec<u8>,
}

impl Bench {
    fn new() -> Bench {
        let (thread, first) = Thread::start();
        assert_eq!(first, Ask::CreateDevice);
        Bench { thread, shared: SharedState::new(), scratch: vec![] }
    }

    fn feed(&mut self, event: Reply<'_>) -> Ask {
        assert!(self.thread.accepts(&self.shared, &self.scratch, &event));
        self.thread.step(&mut self.shared, &mut self.scratch, event)
    }

    fn duplicated(&mut self, handle: &'static str, w: u32, h: u32, place: Rect) -> Ask {
        let opened = Duplicated { handle, width: w, height: h };
        assert_eq!(self.feed(Event::Duplication(Some(opened))), Ask::DescribeOutput);
        assert_eq!(self.feed(Event::Desktop(Some(place))), Ask::CreateStaging(w, h));
        self.feed(Event::Staging(Some(Some("texture"))))
    }

    fn outputs(&mut self, n: u32) {
        assert_eq!(self.feed(Event::Device(Some("gpu"))), Ask::ProbeOutput(0));
        for i in 0..n {
            let next = self.feed(Event::Probe(true));
            if i + 1 < 16 {
                assert_eq!(next, Ask::ProbeOutput(i + 1));
            } else {
                assert_eq!(next, Ask::OpenOutput(0));
            }
        }
        if n < 16 {
            assert_eq!(self.feed(Event::Probe(false)), Ask::OpenOutput(0));
        }
    }

    /// A thread that waits for its first frame from Desktop Duplication.
    fn duplicating(outputs: u32) -> Bench {
        let mut b = Bench::new();
        b.outputs(outputs);
        assert_eq!(b.feed(Event::Output(Some("first"))), Ask::Duplicate);
        assert_eq!(b.duplicated("dup", 4, 2, rect(0, 0, 4, 2)), Ask::PostResize);
        assert_eq!(b.feed(Event::Done), Ask::OpenGdi);
        assert_eq!(b.feed(Event::Refresh(60)), Ask::AcquireFrame(100));
        b
    }

    /// A thread that has a device but copies from the screen.
    fn copying(outputs: u32) -> Bench {
        let mut b = Bench::duplicating(outputs);
        assert_eq!(b.feed(Event::AcquireFailed(DXGI_ERROR_ACCESS_LOST)), Ask::Sleep(100));
        assert_eq!(b.feed(Event::Done), Ask::Duplicate);
        assert_eq!(b.feed(Event::Duplication(None)), Ask::CreateBitmap(None, 4, 2));
        assert_eq!(b.shared.mode, Mode::Gdi);
        b
    }

    /// Ends the frame that is being copied and begins the next one.
    fn copy_on(&mut self) -> Ask {
        if let Phase::Sizing(_) = self.thread.phase {
            self.feed(Event::Bitmap("bitmap"));
        }
        let mut next = self.feed(Event::Done);
        if next == Ask::PostNewFrame {
            next = self.feed(Event::Done);
        }
        assert_eq!(next, Ask::Sleep(16));
        self.feed(Event::Done)
    }
}

fn rect(left: i32, top: i32, right: i32, bottom: i32) -> Rect {
    Rect { left, top, right, bottom }
}

#[test]
fn startup_with_desktop_duplication() {
    let b = Bench::duplicating(2);
    assert_eq!(b.shared.mode, Mode::Dxgi);
    assert_eq!((b.shared.output_index, b.shared.output_count), (0, 2));
    assert_eq!((b.shared.cap_w, b.shared.cap_h), (4, 2));
    let dx = b.thread.dxgi.unwrap();
    assert_eq!(dx.output, Some("first"));
    assert_eq!(dx.dupl, Some("dup"));
    assert_eq!(dx.staging, Some("texture"));
    assert_eq!(b.thread.gdi.frame_delay_ms, 16);
}

#[test]
fn outputs_are_counted_up_to_the_limit() {
    for (n, expected) in [(0, 1), (1, 1), (3, 3), (15, 15), (16, 16)] {
        let mut b = Bench::new();
        b.outputs(n);
        assert_eq!(b.shared.output_count, expected);
        assert_eq!(b.shared.output_index, 0);
    }
}

#[test]
fn without_a_device_the_whole_desktop_is_copied() {
    let mut b = Bench::new();
    assert_eq!(b.feed(Event::Device(None)), Ask::OpenGdi);
    assert_eq!(b.shared.mode, Mode::Gdi);
    assert_eq!(b.feed(Event::Refresh(0)), Ask::ReadVirtualScreen);
    let desktop = Area { x: -3, y: 1, w: 3, h: 1 };
    assert_eq!(b.feed(Event::Metrics(desktop)), Ask::PostResize);
    assert_eq!(b.feed(Event::Done), Ask::CreateBitmap(None, 3, 1));
    assert_eq!(b.feed(Event::Bitmap("bitmap")), Ask::Blit(desktop));
    assert_eq!(b.scratch.len(), 12);
    b.scratch = (0..12).collect();
    assert_eq!(b.feed(Event::Done), Ask::PostNewFrame);
    assert_eq!(b.shared.frame.data, b.scratch);
    assert_eq!((b.shared.frame.w, b.shared.frame.h), (3, 1));
    assert_eq!(b.feed(Event::Done), Ask::Sleep(16));
    assert_eq!(b.feed(Event::Done), Ask::Blit(desktop));
    assert_eq!(b.feed(Event::Done), Ask::Sleep(16));
}

#[test]
fn empty_desktop_is_not_announced() {
    let mut b = Bench::new();
    b.feed(Event::Device(None));
    b.feed(Event::Refresh(75));
    assert_eq!(b.thread.gdi.frame_delay_ms, 13);
    let nothing = Area { x: 0, y: 0, w: 0, h: 0 };
    assert_eq!(b.feed(Event::Metrics(nothing)), Ask::CreateBitmap(None, 0, 0));
    assert!(!b.thread.announced);
}

#[test]
fn device_without_an_output_is_given_up() {
    let mut b = Bench::new();
    b.outputs(0);
    assert_eq!(b.feed(Event::Output(None)), Ask::OpenGdi);
    assert_eq!(b.thread.dxgi, None);
    assert_eq!(b.shared.mode, Mode::Gdi);
}

#[test]
fn failed_staging_keeps_the_device() {
    let mut b = Bench::new();
    b.outputs(1);
    b.feed(Event::Output(Some("first")));
    let opened = Duplicated { handle: "dup", width: 8, height: 4 };
    b.feed(Event::Duplication(Some(opened)));
    assert_eq!(b.feed(Event::Desktop(None)), Ask::CreateStaging(8, 4));
    assert_eq!(b.feed(Event::Staging(None)), Ask::PostResize);
    assert_eq!(b.thread.pending, None);
    let dx = b.thread.dxgi.unwrap();
    assert_eq!((dx.gpu, dx.output), ("gpu", Some("first")));
    assert_eq!((dx.dupl, dx.staging), (None, None));
    assert_eq!(b.shared.mode, Mode::Gdi);
    assert_eq!((b.shared.cap_w, b.shared.cap_h), (8, 4));
}

#[test]
fn failed_start_does_not_cost_the_next_monitor() {
    let mut b = Bench::new();
    b.outputs(2);
    assert_eq!(b.feed(Event::Output(Some("first"))), Ask::Duplicate);
    assert_eq!(b.feed(Event::Duplication(None)), Ask::OpenGdi);
    assert_eq!(b.shared.mode, Mode::Gdi);
    b.shared.switch_monitor = true;
    assert_eq!(b.feed(Event::Refresh(60)), Ask::OpenOutput(1));
    assert!(!b.shared.switch_monitor);
    assert_eq!(b.feed(Event::Output(Some("second"))), Ask::DescribeOutput);
    assert_eq!(b.feed(Event::Desktop(Some(rect(4, 0, 7, 2)))), Ask::Duplicate);
    assert_eq!(b.feed(Event::Duplication(None)), Ask::PostResize);
    assert_eq!(b.feed(Event::Done), Ask::CreateBitmap(None, 3, 2));
    assert_eq!(b.feed(Event::Bitmap("bitmap")), Ask::Blit(Area { x: 4, y: 0, w: 3, h: 2 }));
    assert_eq!((b.shared.output_index, b.shared.output_count), (1, 2));
    assert_eq!(b.shared.mode, Mode::Gdi);
    b.shared.switch_monitor = true;
    assert_eq!(b.copy_on(), Ask::OpenOutput(0));
}

#[test]
fn key_pressed_before_a_failed_start_is_honoured() {
    let mut b = Bench::new();
    b.shared.switch_monitor = true;
    b.outputs(3);
    b.feed(Event::Output(Some("first")));
    b.feed(Event::Duplication(None));
    assert_eq!(b.feed(Event::Refresh(60)), Ask::OpenOutput(1));
    b.feed(Event::Output(Some("second")));
    b.feed(Event::Desktop(None));
    assert_eq!(b.duplicated("dup2", 8, 4, rect(4, 0, 12, 4)), Ask::PostResize);
    assert_eq!(b.feed(Event::Done), Ask::AcquireFrame(100));
    assert_eq!(b.shared.mode, Mode::Dxgi);
    assert_eq!(b.shared.output_index, 1);
}

#[test]
fn size_that_a_retry_finds_is_announced() {
    let mut b = Bench::new();
    b.outputs(1);
    b.feed(Event::Output(Some("first")));
    b.feed(Event::Duplication(None));
    let nothing = Area { x: 0, y: 0, w: 0, h: 0 };
    assert_eq!(b.feed(Event::Refresh(60)), Ask::ReadVirtualScreen);
    for _ in 0..180 {
        b.feed(Event::Metrics(nothing));
        assert_eq!(b.copy_on(), Ask::ReadVirtualScreen);
    }
    b.feed(Event::Metrics(nothing));
    assert_eq!(b.copy_on(), Ask::Duplicate);
    assert!(!b.thread.announced);
    assert_eq!(b.duplicated("dup", 4, 2, rect(0, 0, 4, 2)), Ask::PostResize);
    assert!(b.thread.announced);
    assert_eq!(b.feed(Event::Done), Ask::AcquireFrame(100));
}

#[test]
fn monitor_asked_for_while_the_window_is_told_comes_next() {
    let mut b = Bench::new();
    b.shared.switch_monitor = true;
    b.outputs(2);
    b.feed(Event::Output(Some("first")));
    b.feed(Event::Duplication(None));
    b.feed(Event::Refresh(60));
    b.feed(Event::Output(Some("second")));
    b.feed(Event::Desktop(None));
    assert_eq!(b.duplicated("dup2", 8, 4, rect(4, 0, 12, 4)), Ask::PostResize);
    b.shared.switch_monitor = true;
    assert_eq!(b.feed(Event::Done), Ask::OpenOutput(0));
}

#[test]
fn desktop_duplication_is_tried_again_after_a_failed_start() {
    let mut b = Bench::new();
    b.outputs(1);
    b.feed(Event::Output(Some("first")));
    b.feed(Event::Duplication(None));
    assert_eq!(b.feed(Event::Refresh(60)), Ask::ReadVirtualScreen);
    assert_eq!(b.feed(Event::Metrics(Area { x: 0, y: 0, w: 3, h: 1 })), Ask::PostResize);
    assert_eq!(b.feed(Event::Done), Ask::CreateBitmap(None, 3, 1));
    for _ in 0..180 {
        assert_eq!(b.copy_on(), Ask::Blit(Area { x: 0, y: 0, w: 3, h: 1 }));
    }
    assert_eq!(b.copy_on(), Ask::Duplicate);
    assert_eq!(b.duplicated("dup", 4, 2, rect(0, 0, 4, 2)), Ask::AcquireFrame(100));
    assert_eq!(b.shared.mode, Mode::Dxgi);
}

#[test]
fn duplication_without_a_size_is_given_up() {
    let mut b = Bench::new();
    b.outputs(1);
    b.feed(Event::Output(Some("first")));
    let opened = Duplicated { handle: "dup", width: 0x8000_0000, height: 4 };
    b.feed(Event::Duplication(Some(opened)));
    assert_eq!(b.feed(Event::Desktop(Some(rect(7, 8, 9, 9)))), Ask::OpenGdi);
    assert_eq!(b.shared.cap_w, i32::MIN);
    assert_eq!(b.thread.dxgi.as_ref().unwrap().dupl, None);
    assert_eq!(b.thread.dxgi.as_ref().unwrap().output, Some("first"));
    assert_eq!((b.shared.cap_x, b.shared.cap_y), (7, 8));
}

#[test]
fn frame_of_the_duplication_is_published() {
    let mut b = Bench::duplicating(1);
    assert_eq!(b.feed(Event::Acquired(5, true)), Ask::CopyAndMap);
    assert_eq!(b.feed(Event::Mapped(Some(20))), Ask::ReadMapped(40));
    let data: Vec<u8> = (0..40).collect();
    assert_eq!(b.feed(Event::Pixels(&data)), Ask::PostNewFrame);
    assert_eq!(b.feed(Event::Done), Ask::Unmap);
    assert_eq!(b.feed(Event::Done), Ask::ReleaseFrame);
    assert_eq!((b.shared.frame.w, b.shared.frame.h), (4, 2));
    assert_eq!(&b.shared.frame.data[..16], &data[..16]);
    assert_eq!(&b.shared.frame.data[16..], &data[20..36]);
    assert_eq!(b.feed(Event::Done), Ask::AcquireFrame(100));
    b.feed(Event::Acquired(6, true));
    b.feed(Event::Mapped(Some(16)));
    let again: Vec<u8> = (100..132).collect();
    assert_eq!(b.feed(Event::Pixels(&again)), Ask::Unmap);
    assert_eq!(b.shared.frame.data, again);
}

#[test]
fn frame_without_news_is_released() {
    for event in [Event::Acquired(0, true), Event::Acquired(5, false)] {
        let mut b = Bench::duplicating(1);
        assert_eq!(b.feed(event), Ask::ReleaseFrame);
        assert_eq!(b.feed(Event::Done), Ask::AcquireFrame(100));
    }
    let mut b = Bench::duplicating(1);
    b.feed(Event::Acquired(5, true));
    assert_eq!(b.feed(Event::Mapped(None)), Ask::ReleaseFrame);
    assert_eq!(b.shared.frame.data.len(), 0);
}

#[test]
fn missing_texture_means_nothing_to_map() {
    let mut b = Bench::new();
    b.outputs(1);
    b.feed(Event::Output(Some("first")));
    let opened = Duplicated { handle: "dup", width: 4, height: 2 };
    b.feed(Event::Duplication(Some(opened)));
    b.feed(Event::Desktop(None));
    assert_eq!(b.feed(Event::Staging(Some(None))), Ask::PostResize);
    b.feed(Event::Done);
    b.feed(Event::Refresh(60));
    assert_eq!(b.feed(Event::Acquired(5, true)), Ask::ReleaseFrame);
}

#[test]
fn failures_to_get_a_frame() {
    let mut b = Bench::duplicating(1);
    assert_eq!(b.feed(Event::AcquireFailed(DXGI_ERROR_WAIT_TIMEOUT)), Ask::AcquireFrame(100));
    assert_eq!(b.feed(Event::AcquireFailed(-1)), Ask::Sleep(50));
    assert_eq!(b.feed(Event::Done), Ask::AcquireFrame(100));
    assert_eq!(b.feed(Event::AcquireFailed(DXGI_ERROR_INVALID_CALL)), Ask::Sleep(100));
    assert_eq!(b.thread.dxgi.as_ref().unwrap().dupl, None);
    assert_eq!(b.feed(Event::Done), Ask::Duplicate);
    assert_eq!(b.duplicated("again", 6, 3, rect(0, 0, 6, 3)), Ask::AcquireFrame(100));
    assert_eq!(b.shared.mode, Mode::Dxgi);
    assert_eq!((b.shared.cap_w, b.shared.cap_h), (6, 3));
}

#[test]
fn key_shows_the_next_monitor() {
    let mut b = Bench::duplicating(2);
    b.shared.switch_monitor = true;
    assert_eq!(b.feed(Event::AcquireFailed(DXGI_ERROR_WAIT_TIMEOUT)), Ask::OpenOutput(1));
    assert!(!b.shared.switch_monitor);
    assert_eq!(b.feed(Event::Output(Some("second"))), Ask::DescribeOutput);
    assert_eq!(b.feed(Event::Desktop(Some(rect(4, 0, 12, 4)))), Ask::Duplicate);
    assert_eq!(b.shared.output_index, 1);
    assert_eq!(b.duplicated("dup2", 8, 4, rect(4, 0, 12, 4)), Ask::AcquireFrame(100));
    assert_eq!((b.shared.cap_x, b.shared.cap_w, b.shared.cap_h), (4, 8, 4));
    b.shared.switch_monitor = true;
    assert_eq!(b.feed(Event::AcquireFailed(DXGI_ERROR_WAIT_TIMEOUT)), Ask::OpenOutput(0));
}

#[test]
fn key_does_nothing_with_one_monitor() {
    let mut b = Bench::duplicating(1);
    b.shared.switch_monitor = true;
    assert_eq!(b.feed(Event::AcquireFailed(DXGI_ERROR_WAIT_TIMEOUT)), Ask::AcquireFrame(100));
    assert!(!b.shared.switch_monitor);
}

#[test]
fn monitor_that_cannot_be_opened_is_not_selected() {
    let mut b = Bench::duplicating(2);
    b.shared.switch_monitor = true;
    b.feed(Event::AcquireFailed(DXGI_ERROR_WAIT_TIMEOUT));
    assert_eq!(b.feed(Event::Output(None)), Ask::CreateBitmap(None, 4, 2));
    assert_eq!(b.shared.output_index, 0);
    assert_eq!(b.shared.mode, Mode::Gdi);
    assert_eq!(b.thread.dxgi.as_ref().unwrap().output, None);
}

#[test]
fn copying_follows_the_next_monitor() {
    let mut b = Bench::copying(3);
    b.shared.switch_monitor = true;
    assert_eq!(b.copy_on(), Ask::OpenOutput(1));
    b.feed(Event::Output(Some("second")));
    assert_eq!(b.feed(Event::Desktop(Some(rect(10, 20, 13, 25)))), Ask::Duplicate);
    assert_eq!(b.feed(Event::Duplication(None)), Ask::CreateBitmap(Some("bitmap"), 3, 5));
    let area = Area { x: 10, y: 20, w: 3, h: 5 };
    assert_eq!(b.feed(Event::Bitmap("other")), Ask::Blit(area));
    assert_eq!(b.shared.output_index, 1);
    assert_eq!(b.shared.mode, Mode::Gdi);
}

#[test]
fn next_monitor_brings_desktop_duplication_back() {
    let mut b = Bench::copying(3);
    b.shared.switch_monitor = true;
    b.copy_on();
    b.feed(Event::Output(Some("second")));
    b.feed(Event::Desktop(None));
    assert_eq!(b.duplicated("dup2", 8, 4, rect(0, 0, 8, 4)), Ask::AcquireFrame(100));
    assert_eq!(b.shared.mode, Mode::Dxgi);
    assert_eq!(b.shared.output_index, 1);
}

#[test]
fn key_pressed_during_a_failed_switch_is_dropped() {
    let mut b = Bench::copying(2);
    b.shared.switch_monitor = true;
    b.copy_on();
    b.feed(Event::Output(Some("second")));
    b.shared.switch_monitor = true;
    b.feed(Event::Desktop(Some(rect(0, 0, 4, 2))));
    b.feed(Event::Duplication(None));
    assert!(!b.shared.switch_monitor);
}

#[test]
fn desktop_duplication_is_tried_after_each_round_of_frames() {
    let mut b = Bench::copying(1);
    for _ in 0..180 {
        assert_eq!(b.copy_on(), Ask::Blit(Area { x: 0, y: 0, w: 4, h: 2 }));
    }
    assert_eq!(b.thread.gdi_fail_count, 180);
    assert_eq!(b.copy_on(), Ask::Duplicate);
    assert_eq!(b.thread.gdi_fail_count, 0);
    assert_eq!(b.feed(Event::Duplication(None)), Ask::Blit(Area { x: 0, y: 0, w: 4, h: 2 }));
    for _ in 0..180 {
        b.copy_on();
    }
    assert_eq!(b.copy_on(), Ask::Duplicate);
    assert_eq!(b.duplicated("back", 4, 2, rect(0, 0, 4, 2)), Ask::AcquireFrame(100));
    assert_eq!(b.shared.mode, Mode::Dxgi);
}

#[test]
fn lost_size_is_replaced_by_the_desktop_and_announced_only_once() {
    let mut b = Bench::duplicating(1);
    b.feed(Event::AcquireFailed(DXGI_ERROR_ACCESS_LOST));
    b.feed(Event::Done);
    let opened = Duplicated { handle: "dup", width: 0, height: 0 };
    b.feed(Event::Duplication(Some(opened)));
    assert_eq!(b.feed(Event::Desktop(None)), Ask::ReadVirtualScreen);
    let desktop = Area { x: 0, y: 0, w: 4, h: 4 };
    assert_eq!(b.feed(Event::Metrics(desktop)), Ask::CreateBitmap(None, 4, 4));
}

#[test]
fn thread_ends_when_told() {
    let mut b = Bench::duplicating(1);
    b.shared.running = false;
    assert_eq!(b.feed(Event::AcquireFailed(DXGI_ERROR_WAIT_TIMEOUT)), Ask::Stop);
    assert_eq!(b.thread.phase, Phase::Stopped);
    assert!(!b.thread.accepts(&b.shared, &b.scratch, &Event::Done));
    let mut c = Bench::copying(1);
    c.shared.running = false;
    assert_eq!(c.copy_on(), Ask::Stop);
}

#[test]
fn events_that_answer_nothing_are_not_accepted() {
    let mut b = Bench::duplicating(1);
    assert!(!b.thread.accepts(&b.shared, &b.scratch, &Event::Done));
    b.feed(Event::Acquired(5, true));
    assert!(!b.thread.accepts(&b.shared, &b.scratch, &Event::Mapped(Some(15))));
    assert!(!b.thread.accepts(&b.shared, &b.scratch, &Event::Mapped(Some(0x8000_0000))));
    b.feed(Event::Mapped(Some(16)));
    assert!(!b.thread.accepts(&b.shared, &b.scratch, &Event::Pixels(&[0; 31])));
    let mut c = Bench::copying(2);
    c.shared.switch_monitor = true;
    c.copy_on();
    c.feed(Event::Output(Some("second")));
    let huge = Event::Desktop(Some(rect(i32::MIN, 0, i32::MAX, 1)));
    assert!(!c.thread.accepts(&c.shared, &c.scratch, &huge));
}

#[test]
fn sizes_that_can_be_handled() {
    assert!(is_capturable(1920, 1080));
    assert!(is_capturable(0, i32::MAX));
    assert!(is_capturable(-1, 5));
    assert!(!is_capturable(0x2000_0000, 1));
    assert!(is_copyable(Area { x: 0, y: 0, w: 0, h: 0 }));
    assert!(!is_copyable(Area { x: 0, y: 0, w: -1, h: 1 }));
}

#[test]
fn bitmap_is_kept_for_the_same_size() {
    let mut g: GdiCapture<u8> = GdiCapture::new(144);
    assert_eq!(g.frame_delay_ms, 6);
    assert_eq!(g.ensure_sized(0, 0), Some(None));
    g.cap_bmp = Some(3);
    g.cap_w = 5;
    g.cap_h = 6;
    assert_eq!(g.ensure_sized(5, 6), None);
    assert_eq!(g.cap_bmp, Some(3));
    assert_eq!(g.ensure_sized(5, 7), Some(Some(3)));
    assert_eq!(g.cap_bmp, None);
    for (refresh, delay) in [(1, 16), (-4, 16), (2, 500), (60, 16), (1001, 0)] {
        assert_eq!(GdiCapture::<u8>::new(refresh).frame_delay_ms, delay);
    }
}

/// A simple generator of numbers below `n`.
struct Dice(u64);

impl Dice {
    fn roll(&mut self, n: u64) -> u64 {
        self.0 = self.0.wrapping_mul(6364136223846793005).wrapping_add(1442695040888963407);
        (self.0 >> 33) % n
    }

    fn maybe<T>(&mut self, value: T) -> Option<T> {
        if self.roll(4) > 0 {
            Some(value)
        } else {
            None
        }
    }
}

#[test]
fn long_runs_keep_order() {
    for seed in 0..50 {
        let mut dice = Dice(seed);
        let mut b = Bench::new();
        let mut action = Ask::CreateDevice;
        let mut announced = 0;
        let mut waiting = false;
        for _ in 0..3000 {
            let bytes: Vec<u8> = vec![seed as u8; 4096];
            if dice.roll(20) == 0 {
                b.shared.switch_monitor = true;
            }
            if dice.roll(5) == 0 {
                b.shared.take_wake();
                waiting = false;
            }
            let (w, h) = (dice.roll(9) as u32, dice.roll(9) as u32);
            let event = match action {
                Ask::CreateDevice => Event::Device(dice.maybe("gpu")),
                Ask::ProbeOutput(_) => Event::Probe(dice.roll(3) > 0),
                Ask::OpenOutput(i) => {
                    assert!((i as i32) < b.shared.output_count);
                    Event::Output(dice.maybe("output"))
                }
                Ask::DescribeOutput => Event::Desktop(dice.maybe(rect(1, 2, w as i32, h as i32))),
                Ask::Duplicate => {
                    Event::Duplication(dice.maybe(Duplicated { handle: "d", width: w, height: h }))
                }
                Ask::CreateStaging(w, h) => {
                    assert!(w > 0 && h > 0);
                    let texture = dice.maybe("texture");
                    Event::Staging(dice.maybe(texture))
                }
                Ask::PostResize => {
                    announced += 1;
                    assert!(b.shared.cap_w > 0 && b.shared.cap_h > 0);
                    Event::Done
                }
                Ask::OpenGdi => Event::Refresh(60),
                Ask::AcquireFrame(_) => {
                    assert!(b.thread.dxgi.as_ref().unwrap().dupl.is_some());
                    match dice.roll(4) {
                        0 => Event::AcquireFailed(DXGI_ERROR_WAIT_TIMEOUT),
                        1 => Event::AcquireFailed(DXGI_ERROR_ACCESS_LOST),
                        2 => Event::AcquireFailed(-1),
                        _ => Event::Acquired(dice.roll(2) as i64, dice.roll(3) > 0),
                    }
                }
                Ask::CopyAndMap => Event::Mapped(dice.maybe(b.shared.cap_w as u32 * 4 + w)),
                Ask::ReadMapped(len) => Event::Pixels(&bytes[..len]),
                Ask::ReadVirtualScreen => {
                    Event::Metrics(Area { x: 0, y: 0, w: w as i32, h: h as i32 })
                }
                Ask::CreateBitmap(_, _, _) => Event::Bitmap("bitmap"),
                Ask::Sleep(_)
                | Ask::PostNewFrame
                | Ask::Unmap
                | Ask::ReleaseFrame
                | Ask::Blit(_) => Event::Done,
                Ask::Stop => unreachable!(),
            };
            action = b.feed(event);
            if action == Ask::PostNewFrame {
                assert!(!waiting);
                waiting = true;
            }
            assert!(b.shared.output_index >= 0 && b.shared.output_index < b.shared.output_count);
            assert!(b.thread.phase != Phase::RetryPause);
            if b.shared.mode == Mode::Gdi {
                assert!(b.thread.dxgi.as_ref().map_or(true, |d| d.dupl.is_none()));
            }
            match b.thread.phase {
                Phase::Acquiring | Phase::Mapping | Phase::Reading(_, _, _) => {
                    assert!(b.thread.announced)
                }
                Phase::Sizing(a) | Phase::Blitting(a) => {
                    assert!(b.thread.announced || a.w <= 0 || a.h <= 0)
                }
                Phase::Unmapping => {
                    assert!(b.thread.dxgi.as_ref().unwrap().staging.is_some())
                }
                _ => {}
            }
            let f = &b.shared.frame;
            assert!((f.w * f.h * 4) as usize <= f.data.len());
        }
        assert!(announced <= 1);
    }
}
