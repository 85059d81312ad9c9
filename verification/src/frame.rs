//! The captured picture that the capture thread hands to the window.

use vstd::prelude::*;
use vstd::arithmetic::div_mod::lemma_fundamental_div_mod_converse;

verus! {

/// A picture of `w` by `h` pixels of four bytes each, in the first `w * h * 4` bytes of `data`.
pub struct FrameBuf {
    pub data: Vec<u8>,
    pub w: i32,
    pub h: i32,
}

/// What a [`FrameBuf`] holds.
#[verifier::ext_equal]
pub struct FrameModel {
    pub data: Seq<u8>,
    pub w: i32,
    pub h: i32,
}

impl View for FrameBuf {
    type V = FrameModel;

    open spec fn view(&self) -> FrameModel {
        FrameModel { data: self.data@, w: self.w, h: self.h }
    }
}

/// Bytes of a picture of `w` by `h` pixels.
pub open spec fn frame_bytes(w: int, h: int) -> int {
    w * h * 4
}

/// A size whose byte count and row length this machine can express.
pub open spec fn addressable(w: int, h: int) -> bool {
    &&& w >= 0
    &&& h >= 0
    &&& w * 4 <= usize::MAX
    &&& frame_bytes(w, h) <= usize::MAX
}

/// The first bytes of `old_data` replaced by `new_data`, which may be longer.
pub open spec fn overwritten(old_data: Seq<u8>, new_data: Seq<u8>) -> Seq<u8> {
    if new_data.len() < old_data.len() {
        new_data + old_data.skip(new_data.len() as int)
    } else {
        new_data
    }
}

/// The `w` by `h` picture whose row `y` starts at byte `y * stride` of `src`, without the gaps
/// between the rows.
pub open spec fn packed(src: Seq<u8>, w: int, h: int, stride: int) -> Seq<u8> {
    Seq::new(
        frame_bytes(w, h) as nat,
        |i: int| src[(i / (w * 4)) * stride + i % (w * 4)],
    )
}

/// `src` holds every row of a `w` by `h` picture with the given stride.
pub open spec fn holds_picture(len: nat, w: int, h: int, stride: int) -> bool {
    &&& addressable(w, h)
    &&& stride >= 0 || h <= 1
    &&& h > 0 ==> (h - 1) * stride + w * 4 <= len
}

impl FrameModel {
    /// The buffer holds all of the picture that it announces.
    pub open spec fn wf(self) -> bool {
        &&& addressable(self.w as int, self.h as int)
        &&& frame_bytes(self.w as int, self.h as int) <= self.data.len()
    }

    /// There is a picture to show.
    pub open spec fn has_picture(self) -> bool {
        self.w > 0 && self.h > 0
    }

    /// The bytes of the picture.
    pub open spec fn pixels(self) -> Seq<u8> {
        self.data.take(frame_bytes(self.w as int, self.h as int))
    }

    /// What a reader with the buffer `local` gets: the size of the picture, if there is one, and
    /// its bytes at the front of the buffer.
    pub open spec fn read_by(self, local: Seq<u8>) -> (Option<(i32, i32)>, Seq<u8>) {
        if self.has_picture() {
            (Some((self.w, self.h)), overwritten(local, self.pixels()))
        } else {
            (None, local)
        }
    }

    /// The buffer after a picture was stored in it.
    pub open spec fn stored(self, src: Seq<u8>, w: i32, h: i32, stride: int) -> FrameModel {
        FrameModel {
            data: overwritten(self.data, packed(src, w as int, h as int, stride)),
            w,
            h,
        }
    }
}

/// Byte count of a picture of `w` by `h` pixels.
pub fn byte_count(w: i32, h: i32) -> (n: usize)
    requires
        addressable(w as int, h as int),
    ensures
        n == frame_bytes(w as int, h as int),
{
    assert(0 <= w * h <= w * h * 4) by (nonlinear_arith)
        requires
            w >= 0,
            h >= 0,
    ;
    (w as usize) * (h as usize) * 4
}

/// A buffer lengthened with zero bytes to at least `needed` bytes.
pub open spec fn grown(buf: Seq<u8>, needed: int) -> Seq<u8> {
    if buf.len() < needed {
        buf + Seq::new((needed - buf.len()) as nat, |i: int| 0u8)
    } else {
        buf
    }
}

/// Lengthens a buffer with zero bytes to at least `needed` bytes.
pub fn grow(buf: &mut Vec<u8>, needed: usize)
    ensures
        final(buf)@ == grown(old(buf)@, needed as int),
{
    if buf.len() < needed {
        buf.resize(needed, 0);
        assert forall|i: int| 0 <= i < old(buf)@.len() implies buf@[i] == old(buf)@[i] by {
            assert(buf@.subrange(0, old(buf)@.len() as int)[i] == buf@[i]);
        }
        assert(buf@ =~= grown(old(buf)@, needed as int));
    }
}

/// Copies `n` bytes of `src`, from byte `from` on, to `dst`, from byte `to` on.
fn copy_bytes(dst: &mut Vec<u8>, to: usize, src: &[u8], from: usize, n: usize)
    requires
        to + n <= old(dst)@.len(),
        from + n <= src@.len(),
    ensures
        final(dst)@.len() == old(dst)@.len(),
        forall|i: int|
            0 <= i < old(dst)@.len() ==> final(dst)@[i] == (if to <= i < to + n {
                src@[from + (i - to)]
            } else {
                old(dst)@[i]
            }),
{
    let mut k: usize = 0;
    while k < n
        invariant
            k <= n,
            to + n <= dst.len(),
            from + n <= src.len(),
            dst@.len() == old(dst)@.len(),
            forall|i: int|
                0 <= i < old(dst)@.len() ==> dst@[i] == (if to <= i < to + k {
                    src@[from + (i - to)]
                } else {
                    old(dst)@[i]
                }),
        decreases n - k,
    {
        dst[to + k] = src[from + k];
        k = k + 1;
    }
}

/// Where byte `y * row + x` of a packed picture comes from.
proof fn lemma_packed_at(src: Seq<u8>, w: int, h: int, stride: int, y: int, x: int)
    requires
        w >= 0,
        0 <= y < h,
        0 <= x < w * 4,
    ensures
        0 <= y * (w * 4) + x < frame_bytes(w, h),
        packed(src, w, h, stride)[y * (w * 4) + x] == src[y * stride + x],
{
    let row = w * 4;
    assert(y * row + x < h * row) by (nonlinear_arith)
        requires
            y + 1 <= h,
            0 <= x < row,
    ;
    assert(h * row == w * h * 4 && 0 <= y * row) by (nonlinear_arith)
        requires
            row == w * 4,
            y >= 0,
            row >= 0,
    ;
    lemma_fundamental_div_mod_converse(y * row + x, row, y, x);
}

/// A buffer whose first rows were copied one by one holds the packed picture.
proof fn lemma_rows_make_picture(
    old_data: Seq<u8>,
    data: Seq<u8>,
    src: Seq<u8>,
    w: int,
    h: int,
    stride: int,
)
    requires
        w >= 0,
        h >= 0,
        data.len() == (if old_data.len() < frame_bytes(w, h) {
            frame_bytes(w, h)
        } else {
            old_data.len() as int
        }),
        forall|i: int| frame_bytes(w, h) <= i < data.len() ==> data[i] == old_data[i],
        forall|y: int, x: int|
            0 <= y < h && 0 <= x < w * 4 ==> data[#[trigger] (y * (w * 4) + x)] == src[y * stride + x],
    ensures
        data =~= overwritten(old_data, packed(src, w, h, stride)),
{
    let row = w * 4;
    let p = packed(src, w, h, stride);
    assert(frame_bytes(w, h) >= 0) by (nonlinear_arith)
        requires
            w >= 0,
            h >= 0,
    ;
    assert forall|i: int| 0 <= i < frame_bytes(w, h) implies data[i] == p[i] by {
        assert(row > 0 && h * row == w * h * 4) by (nonlinear_arith)
            requires
                row == w * 4,
                w >= 0,
                0 <= i < w * h * 4,
        ;
        let y = i / row;
        let x = i % row;
        assert(i == y * row + x && 0 <= x < row && 0 <= y < h) by (nonlinear_arith)
            requires
                row > 0,
                y == i / row,
                x == i % row,
                0 <= i < h * row,
        ;
        assert(data[y * (w * 4) + x] == src[y * stride + x]);
    }
}

impl FrameBuf {
    /// An empty buffer that announces no picture.
    pub fn new() -> (f: FrameBuf)
        ensures
            f@ == (FrameModel { data: Seq::empty(), w: 0, h: 0 }),
            f@.wf(),
    {
        FrameBuf { data: Vec::new(), w: 0, h: 0 }
    }

    /// Stores a picture: the buffer grows on demand and never shrinks, the rows are packed
    /// without gaps, and the new size is announced.
    pub fn store(&mut self, src: &[u8], w: i32, h: i32, src_stride: i32)
        requires
            holds_picture(src@.len(), w as int, h as int, src_stride as int),
        ensures
            final(self)@ == old(self)@.stored(src@, w, h, src_stride as int),
            final(self)@.wf(),
            final(self)@.pixels() == packed(src@, w as int, h as int, src_stride as int),
    {
        let needed: usize = byte_count(w, h);
        let ghost stride = src_stride as int;
        let ghost row = w * 4;
        let ghost old_data = self.data@;
        grow(&mut self.data, needed);
        let dst_stride: usize = (w as usize) * 4;
        assert(h * row == needed) by (nonlinear_arith)
            requires
                row == w * 4,
                needed == w * h * 4,
        ;
        if src_stride >= 0 && src_stride as usize == dst_stride {
            assert(if h > 0 { (h - 1) * stride + row == needed } else { needed == 0 })
                by (nonlinear_arith)
                requires
                    h >= 0,
                    stride == row,
                    h * row == needed,
            ;
            copy_bytes(&mut self.data, 0, src, 0, needed);
            proof {
                assert forall|y: int, x: int| 0 <= y < h && 0 <= x < w * 4 implies self.data@[
                #[trigger] (y * (w * 4) + x)] == src@[y * stride + x] by {
                    lemma_packed_at(src@, w as int, h as int, stride, y, x);
                }
            }
        } else {
            let mut y: usize = 0;
            while y < h as usize
                invariant
                    y <= h,
                    holds_picture(src@.len(), w as int, h as int, src_stride as int),
                    stride == src_stride,
                    row == w * 4,
                    dst_stride == row,
                    h * row == needed,
                    needed == frame_bytes(w as int, h as int),
                    self.data@.len() == (if old_data.len() < needed { needed as nat } else { old_data.len() }),
                    forall|i: int| needed <= i < self.data@.len() ==> self.data@[i] == old_data[i],
                    forall|r: int, x: int|
                        0 <= r < y && 0 <= x < w * 4 ==> self.data@[#[trigger] (r * (w * 4) + x)]
                            == src@[r * stride + x],
                decreases h - y,
            {
                assert(0 <= y * stride <= (h - 1) * stride) by (nonlinear_arith)
                    requires
                        0 <= y <= h - 1,
                        stride >= 0 || h <= 1,
                ;
                assert((h - 1) * stride + row <= src.len());
                assert(0 <= y * row && y * row + row <= h * row) by (nonlinear_arith)
                    requires
                        0 <= y <= h - 1,
                        row >= 0,
                ;
                let s: usize = if y == 0 {
                    0
                } else {
                    y * (src_stride as usize)
                };
                let d: usize = y * dst_stride;
                let ghost before = self.data@;
                copy_bytes(&mut self.data, d, src, s, dst_stride);
                proof {
                    assert forall|r: int, x: int| 0 <= r < y + 1 && 0 <= x < w * 4 implies self.data@[
                    #[trigger] (r * (w * 4) + x)] == src@[r * stride + x] by {
                        lemma_packed_at(src@, w as int, h as int, stride, r, x);
                        if r < y {
                            assert(r * row + x < y * row) by (nonlinear_arith)
                                requires
                                    r + 1 <= y,
                                    0 <= x < row,
                            ;
                            assert(before[r * (w * 4) + x] == src@[r * stride + x]);
                        }
                    }
                }
                y = y + 1;
            }
        }
        proof {
            lemma_rows_make_picture(old_data, self.data@, src@, w as int, h as int, stride);
        }
        self.w = w;
        self.h = h;
        assert(self@.pixels() =~= packed(src@, w as int, h as int, stride));
    }

    /// Copies the picture, if there is one, to the front of `local` and gives its size.
    pub fn read_into(&self, local: &mut Vec<u8>) -> (size: Option<(i32, i32)>)
        requires
            self@.wf(),
        ensures
            self@.has_picture() ==> size == Some((self.w, self.h)) && final(local)@ == overwritten(
                old(local)@,
                self@.pixels(),
            ),
            !self@.has_picture() ==> size.is_none() && final(local)@ == old(local)@,
            (size, final(local)@) == self@.read_by(old(local)@),
    {
        if self.w > 0 && self.h > 0 {
            let needed: usize = byte_count(self.w, self.h);
            grow(local, needed);
            copy_bytes(local, 0, &self.data, 0, needed);
            assert(local@ =~= overwritten(old(local)@, self@.pixels()));
            Some((self.w, self.h))
        } else {
            None
        }
    }
}

/// What the window reads is what was captured last: after a picture was stored, a read gives its
/// size and leaves exactly its rows at the front of the reader's buffer, whatever either buffer
/// held before.
pub proof fn law_read_gives_what_was_stored(
    before: FrameModel,
    src: Seq<u8>,
    w: i32,
    h: i32,
    stride: int,
    local: Seq<u8>,
)
    requires
        holds_picture(src.len(), w as int, h as int, stride),
        w > 0,
        h > 0,
    ensures
        ({
            let after = before.stored(src, w, h, stride);
            &&& after.wf()
            &&& after.has_picture()
            &&& after.pixels() == packed(src, w as int, h as int, stride)
            &&& overwritten(local, after.pixels()).take(frame_bytes(w as int, h as int)) == packed(
                src,
                w as int,
                h as int,
                stride,
            )
            &&& forall|y: int, x: int|
                0 <= y < h && 0 <= x < w * 4 ==> overwritten(local, after.pixels())[#[trigger] (y * (w * 4)
                    + x)] == src[y * stride + x]
        }),
{
    let after = before.stored(src, w, h, stride);
    let p = packed(src, w as int, h as int, stride);
    assert(frame_bytes(w as int, h as int) >= 0) by (nonlinear_arith)
        requires
            w > 0,
            h > 0,
    ;
    assert(after.pixels() =~= p);
    assert(overwritten(local, p).take(frame_bytes(w as int, h as int)) =~= p);
    assert forall|y: int, x: int| 0 <= y < h && 0 <= x < w * 4 implies overwritten(local, p)[
    #[trigger] (y * (w * 4) + x)] == src[y * stride + x] by {
        lemma_packed_at(src, w as int, h as int, stride, y, x);
    }
}

/// `data` holds the rows of a `w` by `h` picture one after the other: row `y` is the one that
/// starts at byte `y * stride` of `src`. What `before` held behind the picture is still there.
pub open spec fn rows_taken_over(
    before: Seq<u8>,
    data: Seq<u8>,
    src: Seq<u8>,
    w: int,
    h: int,
    stride: int,
) -> bool {
    &&& data.len() == (if before.len() < w * h * 4 {
        w * h * 4
    } else {
        before.len() as int
    })
    &&& forall|y: int, x: int|
        0 <= y < h && 0 <= x < w * 4 ==> data[#[trigger] (y * (w * 4) + x)] == src[y * stride + x]
    &&& forall|i: int| w * h * 4 <= i < before.len() ==> #[trigger] data[i] == before[i]
}

/// Every row of a stored picture is kept, for every size and stride: the buffer then holds the rows
/// in order, announces the size of the picture and has grown as far as needed; and a reader gets
/// that size and those rows, unless the picture is empty.
pub proof fn law_every_row_is_kept(
    before: FrameModel,
    src: Seq<u8>,
    w: i32,
    h: i32,
    stride: int,
    local: Seq<u8>,
)
    requires
        w >= 0,
        h >= 0,
    ensures
        ({
            let after = before.stored(src, w, h, stride);
            let (size, read) = after.read_by(local);
            &&& after.w == w
            &&& after.h == h
            &&& rows_taken_over(before.data, after.data, src, w as int, h as int, stride)
            &&& if w > 0 && h > 0 {
                &&& size == Some((w, h))
                &&& rows_taken_over(local, read, src, w as int, h as int, stride)
            } else {
                size.is_none() && read == local
            }
        }),
{
    let after = before.stored(src, w, h, stride);
    let p = packed(src, w as int, h as int, stride);
    assert(w * h * 4 >= 0) by (nonlinear_arith)
        requires
            w >= 0,
            h >= 0,
    ;
    assert(after.pixels() =~= p);
    assert forall|y: int, x: int| 0 <= y < h && 0 <= x < w * 4 implies after.data[#[trigger] (y * (w
        * 4) + x)] == src[y * stride + x] && overwritten(local, p)[y * (w * 4) + x] == src[y
        * stride + x] by {
        lemma_packed_at(src, w as int, h as int, stride, y, x);
    }
}

/// A lengthened buffer keeps what it held, is long enough, and is no longer than it was or has to
/// be; what is new in it is zero.
pub proof fn law_growing_keeps_the_bytes(buf: Seq<u8>, needed: int)
    ensures
        grown(buf, needed).len() == (if buf.len() < needed {
            needed
        } else {
            buf.len() as int
        }),
        forall|i: int| 0 <= i < buf.len() ==> #[trigger] grown(buf, needed)[i] == buf[i],
        forall|i: int| buf.len() <= i < needed ==> #[trigger] grown(buf, needed)[i] == 0,
{
}

/// A source holds a picture exactly if all of its rows lie in it and its bytes can be counted: so
/// every source with complete rows can be stored.
pub proof fn law_complete_pictures_can_be_stored(len: nat, w: int, h: int, stride: int)
    ensures
        holds_picture(len, w, h, stride) <==> {
            &&& w >= 0
            &&& h >= 0
            &&& w * 4 <= usize::MAX
            &&& w * h * 4 <= usize::MAX
            &&& stride >= 0 || h <= 1
            &&& h > 0 ==> (h - 1) * stride + w * 4 <= len
        },
{
}

} // verus!
