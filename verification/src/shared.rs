//! State that the window and the capture thread share.

use vstd::prelude::*;

use crate::frame;
use crate::frame::FrameBuf;

verus! {

/// How the desktop is captured.
#[derive(Clone, Copy, Debug, PartialEq, Eq, Structural)]
pub enum Mode {
    /// Desktop Duplication of one monitor.
    Dxgi,
    /// Copying pixels from the screen, for what does not hand over frames to Desktop Duplication.
    Gdi,
}

/// Everything that crosses between the two threads.
pub struct SharedState {
    /// The capture thread goes on as long as this is set.
    pub running: bool,
    pub mode: Mode,
    /// The user asked for the next monitor.
    pub switch_monitor: bool,
    /// The window was told of a new frame and has not drawn it yet.
    pub wake_pending: bool,
    /// Origin of the captured area on the virtual desktop.
    pub cap_x: i32,
    pub cap_y: i32,
    /// Size of the captured area; not positive while it is unknown.
    pub cap_w: i32,
    pub cap_h: i32,
    /// Which monitor is captured, and how many there are.
    pub output_index: i32,
    pub output_count: i32,
    pub frame: FrameBuf,
}

/// What a [`SharedState`] holds.
#[verifier::ext_equal]
pub struct SharedModel {
    pub running: bool,
    pub mode: Mode,
    pub switch_monitor: bool,
    pub wake_pending: bool,
    pub cap_x: i32,
    pub cap_y: i32,
    pub cap_w: i32,
    pub cap_h: i32,
    pub output_index: i32,
    pub output_count: i32,
    pub frame: frame::FrameModel,
}

impl View for SharedState {
    type V = SharedModel;

    open spec fn view(&self) -> SharedModel {
        SharedModel {
            running: self.running,
            mode: self.mode,
            switch_monitor: self.switch_monitor,
            wake_pending: self.wake_pending,
            cap_x: self.cap_x,
            cap_y: self.cap_y,
            cap_w: self.cap_w,
            cap_h: self.cap_h,
            output_index: self.output_index,
            output_count: self.output_count,
            frame: self.frame@,
        }
    }
}

/// Most monitors that are ever counted.
pub const MAX_OUTPUTS: u32 = 16;

/// A capture size that is either unknown or small enough for its rows and its bytes to be counted.
pub open spec fn capturable(w: int, h: int) -> bool {
    w > 0 && h > 0 ==> w * 4 <= i32::MAX && frame::addressable(w, h)
}

impl SharedModel {
    /// The size of the captured area is known.
    pub open spec fn size_known(self) -> bool {
        self.cap_w > 0 && self.cap_h > 0
    }

    /// What holds of the shared state at all times: there is at least one monitor, the selected
    /// one is among them, the capture size can be handled and the frame buffer holds its picture.
    pub open spec fn wf(self) -> bool {
        &&& 1 <= self.output_count <= MAX_OUTPUTS
        &&& 0 <= self.output_index < self.output_count
        &&& capturable(self.cap_w as int, self.cap_h as int)
        &&& self.frame.wf()
    }

    /// The state at the start of the program.
    pub open spec fn initial() -> SharedModel {
        SharedModel {
            running: true,
            mode: Mode::Dxgi,
            switch_monitor: false,
            wake_pending: false,
            cap_x: 0,
            cap_y: 0,
            cap_w: 0,
            cap_h: 0,
            output_index: 0,
            output_count: 1,
            frame: frame::FrameModel { data: Seq::empty(), w: 0, h: 0 },
        }
    }

    /// The state after a frame was published.
    pub open spec fn published(self, src: Seq<u8>, w: i32, h: i32, stride: int) -> SharedModel {
        SharedModel {
            frame: self.frame.stored(src, w, h, stride),
            wake_pending: true,
            ..self
        }
    }

    /// The window has to be told of a frame that is published now.
    pub open spec fn must_tell(self) -> bool {
        !self.wake_pending
    }

    /// The state after the window began to draw the frame that it was told of.
    pub open spec fn woken(self) -> SharedModel {
        SharedModel { wake_pending: false, ..self }
    }
}

impl SharedState {
    /// The state at the start of the program: running, Desktop Duplication first, nothing
    /// captured yet.
    pub fn new() -> (s: SharedState)
        ensures
            s@ == SharedModel::initial(),
            s@.wf(),
    {
        SharedState {
            running: true,
            mode: Mode::Dxgi,
            switch_monitor: false,
            wake_pending: false,
            cap_x: 0,
            cap_y: 0,
            cap_w: 0,
            cap_h: 0,
            output_index: 0,
            output_count: 1,
            frame: FrameBuf::new(),
        }
    }

    /// Publishes a captured frame. Says whether the window has to be told of it: it is told only
    /// if it has drawn the frame that it was told of last.
    pub fn publish_frame(&mut self, src: &[u8], w: i32, h: i32, src_stride: i32) -> (post: bool)
        requires
            frame::holds_picture(src@.len(), w as int, h as int, src_stride as int),
        ensures
            final(self)@ == old(self)@.published(src@, w, h, src_stride as int),
            final(self)@.frame.wf(),
            post == !old(self).wake_pending,
            post == old(self)@.must_tell(),
    {
        self.frame.store(src, w, h, src_stride);
        let pending: bool = self.wake_pending;
        self.wake_pending = true;
        !pending
    }

    /// The window begins to draw: the next published frame has to be announced again.
    pub fn take_wake(&mut self)
        ensures
            final(self)@ == old(self)@.woken(),
    {
        self.wake_pending = false;
    }
}

/// A picture as the capture thread hands it over for publishing.
pub struct Shot {
    pub src: Seq<u8>,
    pub w: i32,
    pub h: i32,
    pub stride: int,
}

/// The state after the pictures of `shots` were published one after the other, with no drawing in
/// between, and how often the window was told.
pub open spec fn publish_all(s: SharedModel, shots: Seq<Shot>) -> (SharedModel, nat)
    decreases shots.len(),
{
    if shots.len() == 0 {
        (s, 0)
    } else {
        let (mid, posts) = publish_all(s, shots.drop_last());
        let last = shots.last();
        (mid.published(last.src, last.w, last.h, last.stride), posts + if mid.must_tell() {
            1nat
        } else {
            0nat
        })
    }
}

/// The window is woken exactly once, however many frames land before it draws: of the frames
/// published after it began its last drawing only the first is announced.
pub proof fn law_window_is_woken_once(s: SharedModel, shots: Seq<Shot>)
    requires
        shots.len() > 0,
    ensures
        publish_all(s.woken(), shots).1 == 1,
        publish_all(s.woken(), shots).0.wake_pending,
    decreases shots.len(),
{
    if shots.len() > 1 {
        law_window_is_woken_once(s, shots.drop_last());
    } else {
        assert(publish_all(s.woken(), shots.drop_last()) == (s.woken(), 0nat));
    }
}

/// The frame buffer never shrinks and always holds the picture that it announces, whatever sizes
/// the published pictures have.
pub proof fn law_frame_buffer_never_overflows(s: SharedModel, shots: Seq<Shot>)
    requires
        s.frame.wf(),
        forall|i: int|
            0 <= i < shots.len() ==> frame::holds_picture(
                (#[trigger] shots[i]).src.len(),
                shots[i].w as int,
                shots[i].h as int,
                shots[i].stride,
            ),
    ensures
        publish_all(s, shots).0.frame.wf(),
        publish_all(s, shots).0.frame.data.len() >= s.frame.data.len(),
    decreases shots.len(),
{
    if shots.len() > 0 {
        let rest = shots.drop_last();
        assert forall|i: int| 0 <= i < rest.len() implies frame::holds_picture(
            (#[trigger] rest[i]).src.len(),
            rest[i].w as int,
            rest[i].h as int,
            rest[i].stride,
        ) by {
            assert(rest[i] == shots[i]);
        }
        law_frame_buffer_never_overflows(s, rest);
        let last = shots.last();
        assert(last == shots[shots.len() - 1]);
        assert(frame::frame_bytes(last.w as int, last.h as int) >= 0) by (nonlinear_arith)
            requires
                last.w >= 0,
                last.h >= 0,
        ;
    }
}

/// The monitor after monitor `index` of `count`, the first one again after the last.
pub open spec fn next_index(index: int, count: int) -> int {
    (index + 1) % count
}

/// Computes the monitor to show when the user asks for the next one.
pub fn next_output(index: i32, count: i32) -> (next: i32)
    requires
        0 <= index < count,
    ensures
        next == next_index(index as int, count as int),
        0 <= next < count,
{
    (index + 1) % count
}

/// The monitor after `presses` requests for the next one.
pub open spec fn index_after(index: int, count: int, presses: nat) -> int
    decreases presses,
{
    if presses == 0 {
        index
    } else {
        next_index(index_after(index, count, (presses - 1) as nat), count)
    }
}

/// Asking for the next monitor walks through the monitors in order and comes back to where it
/// began only after all of them.
pub proof fn law_next_monitor_cycles(index: int, count: int, presses: nat)
    requires
        0 <= index < count,
    ensures
        index_after(index, count, presses) == (index + presses) % count,
        index_after(index, count, count as nat) == index,
        0 < presses < count ==> index_after(index, count, presses) != index,
{
    lemma_index_after(index, count, presses);
    lemma_index_after(index, count, count as nat);
    assert((index + count) % count == index && (0 < presses < count ==> (index + presses) % count
        != index)) by (nonlinear_arith)
        requires
            0 <= index < count,
            presses >= 0,
    ;
}

/// Every monitor can be reached from every other: asking for the next one often enough, and fewer
/// times than there are monitors, leads there.
pub proof fn law_every_monitor_is_reached(index: int, target: int, count: int)
    requires
        0 <= index < count,
        0 <= target < count,
    ensures
        0 <= (target - index) % count < count,
        index_after(index, count, ((target - index) % count) as nat) == target,
{
    let k = (target - index) % count;
    assert(0 <= k < count && (index + k) % count == target) by (nonlinear_arith)
        requires
            0 <= index < count,
            0 <= target < count,
            k == (target - index) % count,
    ;
    lemma_index_after(index, count, k as nat);
}

proof fn lemma_index_after(index: int, count: int, presses: nat)
    requires
        0 <= index < count,
    ensures
        index_after(index, count, presses) == (index + presses) % count,
    decreases presses,
{
    if presses == 0 {
        vstd::arithmetic::div_mod::lemma_small_mod(index as nat, count as nat);
    } else {
        lemma_index_after(index, count, (presses - 1) as nat);
        vstd::arithmetic::div_mod::lemma_add_mod_noop(index + presses - 1, 1, count);
        vstd::arithmetic::div_mod::lemma_add_mod_noop((index + presses - 1) % count, 1, count);
        vstd::arithmetic::div_mod::lemma_mod_twice(index + presses - 1, count);
    }
}

/// Publishing takes the picture over and leaves all else alone, but that the window now has a frame
/// to draw; drawing takes back exactly that.
pub proof fn law_publishing_changes_the_frame_alone(
    s: SharedModel,
    src: Seq<u8>,
    w: i32,
    h: i32,
    stride: int,
)
    requires
        w >= 0,
        h >= 0,
    ensures
        ({
            let after = s.published(src, w, h, stride);
            &&& after.frame.w == w
            &&& after.frame.h == h
            &&& frame::rows_taken_over(
                s.frame.data,
                after.frame.data,
                src,
                w as int,
                h as int,
                stride,
            )
            &&& after == (SharedModel { frame: after.frame, wake_pending: true, ..s })
        }),
        !s.woken().wake_pending,
        s.woken() == (SharedModel { wake_pending: s.woken().wake_pending, ..s }),
        s.woken().must_tell(),
        !s.published(src, w, h, stride).must_tell(),
        s.must_tell() <==> !s.wake_pending,
{
    frame::law_every_row_is_kept(s.frame, src, w, h, stride, Seq::empty());
}

/// A size is known exactly if both sides are positive, and every known size can be captured whose
/// rows fit 32 bits and whose bytes the machine can count: any monitor of up to 16384 by 16384
/// pixels, in particular.
pub proof fn law_ordinary_sizes_can_be_captured(s: SharedModel, w: int, h: int)
    ensures
        s.size_known() <==> s.cap_w > 0 && s.cap_h > 0,
        capturable(w, h) <==> (w <= 0 || h <= 0 || (w * 4 <= i32::MAX && w * h * 4 <= usize::MAX)),
        w <= 16384 && h <= 16384 ==> capturable(w, h),
{
    assert(0 < w <= 16384 && 0 < h <= 16384 ==> w * h * 4 <= 0x4000_0000) by (nonlinear_arith);
    assert(w > 0 && h > 0 ==> w * 4 <= w * h * 4) by (nonlinear_arith);
}

} // verus!
