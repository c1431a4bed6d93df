//! Frame-buffer sink: the single authoritative mirror of what the display
//! currently shows, exposed to the host for inspection.
//!
//! The buffer is a fixed-length row-major array of `WIDTH * HEIGHT` cells,
//! one 24-bit packed RGB value per cell, stored in the low bits of a `u32`.
//! It is zeroed at construction and overwritten by the two write protocols:
//! incremental per-pixel drawing and bulk whole-frame blitting.

use crate::color::{decode16_b, decode16_g, decode16_r, Color};
use crate::HarnessError;
use vstd::prelude::*;

verus! {

/// Width of the display in pixels. Must match the console's own display.
pub const WIDTH: usize = 240;

/// Height of the display in pixels. Must match the console's own display.
pub const HEIGHT: usize = 160;

/// Number of cells in the frame buffer.
pub const BUF_SIZE: usize = WIDTH * HEIGHT;

/// The 24-bit packed RGB form: red in bits 16..24, green in 8..16, blue in
/// 0..8, the top byte zero.
pub open spec fn pack_rgb_spec(r: u8, g: u8, b: u8) -> u32 {
    (((r as u32) << 16) | ((g as u32) << 8)) | (b as u32)
}

/// The cell value a native packed color is stored as: its widened
/// 8-bit-per-channel triple, packed into 24 bits.
pub open spec fn color_cell(c: Color) -> u32 {
    pack_rgb_spec(decode16_r(c.packed()), decode16_g(c.packed()), decode16_b(c.packed()))
}

/// One incremental draw request: a coordinate and an 8-bit-per-channel color.
#[derive(Clone, Copy, Debug, PartialEq, Eq, Structural)]
pub struct DrawOp {
    pub x: usize,
    pub y: usize,
    pub r: u8,
    pub g: u8,
    pub b: u8,
}

/// Whether a draw request lies inside the display rectangle.
pub open spec fn in_bounds(op: DrawOp) -> bool {
    op.x < WIDTH && op.y < HEIGHT
}

/// The buffer after a sequence of draw requests, applied in order; later
/// writes land on top of earlier ones.
pub open spec fn apply_draws(s: Seq<u32>, ops: Seq<DrawOp>) -> Seq<u32>
    decreases ops.len(),
{
    if ops.len() == 0 {
        s
    } else {
        apply_draws(
            s.update(ops[0].y * WIDTH + ops[0].x, pack_rgb_spec(ops[0].r, ops[0].g, ops[0].b)),
            ops.drop_first(),
        )
    }
}

/// How many leading draw requests lie in bounds: everything before the
/// first out-of-range one.
pub open spec fn valid_prefix_len(ops: Seq<DrawOp>) -> int
    decreases ops.len(),
{
    if ops.len() == 0 || !in_bounds(ops[0]) {
        0
    } else {
        1 + valid_prefix_len(ops.drop_first())
    }
}

/// The pixels of a whole-frame snapshot once its pairs are expanded: entry
/// `2*i` is the first pixel of pair `i`, entry `2*i + 1` the second.
pub open spec fn expanded(pairs: Seq<(Color, Color)>) -> Seq<Color> {
    Seq::new(
        2 * pairs.len(),
        |i: int|
            if i % 2 == 0 {
                pairs[i / 2].0
            } else {
                pairs[i / 2].1
            },
    )
}

/// How many cells a snapshot of `n` pairs fills: the whole buffer, or less
/// when the snapshot falls short (the zip truncates to the shorter side).
pub open spec fn blit_len(n_pairs: int) -> int {
    if 2 * n_pairs <= BUF_SIZE {
        2 * n_pairs
    } else {
        BUF_SIZE as int
    }
}

/// The buffer after a whole-frame blit: expanded pixels zipped row-major
/// against the display rectangle, cells past the snapshot left unchanged.
pub open spec fn blit_result(s: Seq<u32>, pairs: Seq<(Color, Color)>) -> Seq<u32> {
    Seq::new(
        s.len(),
        |i: int|
            if i < blit_len(pairs.len() as int) {
                color_cell(expanded(pairs)[i])
            } else {
                s[i]
            },
    )
}

/// The frame buffer for the display. One cell is a 24-bit packed RGB value.
pub struct MockDisplay {
    pub buf: Vec<u32>,
}

impl MockDisplay {
    /// The sink's one structural invariant: the buffer spans the display.
    pub open spec fn wf(self) -> bool {
        self.buf@.len() == BUF_SIZE
    }

    /// A fresh sink: every cell zero until the first frame lands.
    pub fn new() -> (d: MockDisplay)
        ensures
            d.wf(),
            forall|i: int| 0 <= i < BUF_SIZE ==> d.buf@[i] == 0u32,
    {
        let mut buf: Vec<u32> = Vec::new();
        while buf.len() < BUF_SIZE
            invariant
                buf@.len() <= BUF_SIZE,
                forall|i: int| 0 <= i < buf@.len() ==> buf@[i] == 0u32,
            decreases BUF_SIZE - buf@.len(),
        {
            buf.push(0u32);
        }
        MockDisplay { buf }
    }

    /// Zero-fills the buffer, as if the sink had just been constructed.
    pub fn clear(&mut self)
        ensures
            final(self).wf(),
            forall|i: int| 0 <= i < BUF_SIZE ==> final(self).buf@[i] == 0u32,
    {
        let fresh = MockDisplay::new();
        self.buf = fresh.buf;
    }

    /// Writes one pixel at `(x, y)`. A coordinate outside the display is
    /// reported as `OutOfRange` and leaves the buffer untouched.
    pub fn draw_point(&mut self, x: usize, y: usize, r: u8, g: u8, b: u8) -> (res: Result<
        (),
        HarnessError,
    >)
        requires
            old(self).wf(),
        ensures
            final(self).wf(),
            x < WIDTH && y < HEIGHT ==> res == Ok::<(), HarnessError>(()) && final(self).buf@
                == old(self).buf@.update(y * WIDTH + x, pack_rgb_spec(r, g, b)),
            !(x < WIDTH && y < HEIGHT) ==> res == Err::<(), HarnessError>(HarnessError::OutOfRange)
                && final(self).buf@ == old(self).buf@,
    {
        if x < WIDTH && y < HEIGHT {
            let v = rgb888_storage(r, g, b);
            let i = y * WIDTH + x;
            self.buf[i] = v;
            Ok(())
        } else {
            Err(HarnessError::OutOfRange)
        }
    }

    /// Applies the draw requests in order; later entries at a coordinate
    /// overwrite earlier ones. Stops at the first out-of-range request,
    /// reporting `OutOfRange` with the preceding writes applied.
    pub fn draw_many(&mut self, ops: &Vec<DrawOp>) -> (res: Result<(), HarnessError>)
        requires
            old(self).wf(),
        ensures
            final(self).wf(),
            final(self).buf@ == apply_draws(old(self).buf@, ops@.take(valid_prefix_len(ops@))),
            res == Ok::<(), HarnessError>(()) <==> valid_prefix_len(ops@) == ops@.len(),
            res is Err ==> res == Err::<(), HarnessError>(HarnessError::OutOfRange),
    {
        let mut k: usize = 0;
        proof {
            assert(ops@.take(0) =~= Seq::<DrawOp>::empty());
        }
        while k < ops.len()
            invariant
                self.wf(),
                k <= ops@.len(),
                forall|j: int| 0 <= j < k ==> in_bounds(ops@[j]),
                self.buf@ == apply_draws(old(self).buf@, ops@.take(k as int)),
            decreases ops@.len() - k,
        {
            let op = ops[k];
            if !(op.x < WIDTH && op.y < HEIGHT) {
                proof {
                    lemma_valid_prefix_stops(ops@, k as int);
                }
                return Err(HarnessError::OutOfRange);
            }
            let v = rgb888_storage(op.r, op.g, op.b);
            let i = op.y * WIDTH + op.x;
            self.buf[i] = v;
            proof {
                assert(ops@.take(k + 1) =~= ops@.take(k as int).push(ops@[k as int]));
                lemma_apply_draws_push(old(self).buf@, ops@.take(k as int), ops@[k as int]);
            }
            k = k + 1;
        }
        proof {
            lemma_valid_prefix_full(ops@);
            assert(ops@.take(ops@.len() as int) =~= ops@);
        }
        Ok(())
    }

    /// Blits a whole-frame snapshot, delivered as pairs of adjacent pixels.
    /// Expanded pixels are zipped row-major against the display rectangle;
    /// a snapshot short of `WIDTH * HEIGHT` pixels fills only its own
    /// length, and pixels beyond the rectangle are dropped.
    pub fn blit_frame(&mut self, pairs: &Vec<(Color, Color)>) -> (res: Result<(), HarnessError>)
        requires
            old(self).wf(),
        ensures
            final(self).wf(),
            final(self).buf@ == blit_result(old(self).buf@, pairs@),
            res == Ok::<(), HarnessError>(()),
    {
        let mut k: usize = 0;
        let n_pairs: usize = if pairs.len() < BUF_SIZE / 2 {
            pairs.len()
        } else {
            BUF_SIZE / 2
        };
        while k < n_pairs
            invariant
                self.wf(),
                k <= n_pairs,
                n_pairs <= pairs@.len(),
                2 * n_pairs == blit_len(pairs@.len() as int),
                forall|i: int| 0 <= i < 2 * k ==> self.buf@[i] == color_cell(expanded(pairs@)[i]),
                forall|i: int| 2 * k <= i < BUF_SIZE ==> self.buf@[i] == old(self).buf@[i],
            decreases n_pairs - k,
        {
            let pair = pairs[k];
            let (r0, g0, b0) = pair.0.to_rgb();
            let v0 = pack_rgb(r0, g0, b0);
            self.buf[2 * k] = v0;
            let (r1, g1, b1) = pair.1.to_rgb();
            let v1 = pack_rgb(r1, g1, b1);
            self.buf[2 * k + 1] = v1;
            k = k + 1;
        }
        proof {
            assert(self.buf@ =~= blit_result(old(self).buf@, pairs@));
        }
        Ok(())
    }

    /// A copy of the buffer's raw pixel values, length `WIDTH * HEIGHT`,
    /// for the host to inspect; mutating the copy cannot touch the sink.
    pub fn get_frame(&self) -> (frame: Vec<u32>)
        requires
            self.wf(),
        ensures
            frame@ == self.buf@,
    {
        let mut frame: Vec<u32> = Vec::new();
        let mut k: usize = 0;
        while k < self.buf.len()
            invariant
                k <= self.buf@.len(),
                frame@ == self.buf@.take(k as int),
            decreases self.buf@.len() - k,
        {
            frame.push(self.buf[k]);
            proof {
                assert(self.buf@.take(k + 1) =~= self.buf@.take(k as int).push(self.buf@[k as int]));
            }
            k = k + 1;
        }
        proof {
            assert(self.buf@.take(self.buf@.len() as int) =~= self.buf@);
        }
        frame
    }
}

/// Packs an 8-bit-per-channel color into a 24-bit cell value.
pub fn pack_rgb(r: u8, g: u8, b: u8) -> (v: u32)
    ensures
        v == pack_rgb_spec(r, g, b),
{
    (((r as u32) << 16) | ((g as u32) << 8)) | (b as u32)
}

/// Relies on embedded_graphics::pixelcolor::Rgb888 and IntoStorage: the raw
/// storage of an 8-bit-per-channel color is `r << 16 | g << 8 | b`.
#[verifier::external_body]
fn rgb888_storage(r: u8, g: u8, b: u8) -> (v: u32)
    ensures
        v == pack_rgb_spec(r, g, b),
{
    embedded_graphics::prelude::IntoStorage::into_storage(
        embedded_graphics::pixelcolor::Rgb888::new(r, g, b),
    )
}

/// Applying one more draw request updates the cell it aims at.
proof fn lemma_apply_draws_push(s: Seq<u32>, ops: Seq<DrawOp>, op: DrawOp)
    ensures
        apply_draws(s, ops.push(op)) == apply_draws(s, ops).update(
            op.y * WIDTH + op.x,
            pack_rgb_spec(op.r, op.g, op.b),
        ),
    decreases ops.len(),
{
    if ops.len() == 0 {
        let c = op.y * WIDTH + op.x;
        let v = pack_rgb_spec(op.r, op.g, op.b);
        assert(ops.push(op)[0] == op);
        assert(ops.push(op).drop_first() =~= Seq::<DrawOp>::empty());
        assert(apply_draws(s, ops.push(op)) == apply_draws(s.update(c, v), ops.push(op).drop_first()));
        assert(apply_draws(s.update(c, v), Seq::<DrawOp>::empty()) == s.update(c, v));
        assert(apply_draws(s, ops) == s);
    } else {
        let c0 = ops[0].y * WIDTH + ops[0].x;
        let v0 = pack_rgb_spec(ops[0].r, ops[0].g, ops[0].b);
        let s1 = s.update(c0, v0);
        assert(ops.push(op)[0] == ops[0]);
        assert(ops.push(op).drop_first() =~= ops.drop_first().push(op));
        assert(apply_draws(s, ops.push(op)) == apply_draws(s1, ops.drop_first().push(op)));
        lemma_apply_draws_push(s1, ops.drop_first(), op);
        assert(apply_draws(s, ops) == apply_draws(s1, ops.drop_first()));
    }
}

/// When every request up to `k` is in bounds and request `k` is not, the
/// valid prefix ends exactly at `k`.
proof fn lemma_valid_prefix_stops(ops: Seq<DrawOp>, k: int)
    requires
        0 <= k < ops.len(),
        forall|j: int| 0 <= j < k ==> in_bounds(ops[j]),
        !in_bounds(ops[k]),
    ensures
        valid_prefix_len(ops) == k,
    decreases k,
{
    if k == 0 {
    } else {
        lemma_valid_prefix_stops(ops.drop_first(), k - 1);
    }
}

/// When every request is in bounds the valid prefix is the whole sequence.
proof fn lemma_valid_prefix_full(ops: Seq<DrawOp>)
    requires
        forall|j: int| 0 <= j < ops.len() ==> in_bounds(ops[j]),
    ensures
        valid_prefix_len(ops) == ops.len(),
    decreases ops.len(),
{
    if ops.len() > 0 {
        lemma_valid_prefix_full(ops.drop_first());
    }
}

/// Law: a cell that no request aims at keeps its value.
pub proof fn lemma_draws_leave_untouched(s: Seq<u32>, ops: Seq<DrawOp>, c: int)
    requires
        s.len() == BUF_SIZE,
        0 <= c < s.len(),
        forall|j: int| 0 <= j < ops.len() ==> in_bounds(ops[j]),
        forall|j: int| 0 <= j < ops.len() ==> ops[j].y * WIDTH + ops[j].x != c,
    ensures
        apply_draws(s, ops)[c] == s[c],
    decreases ops.len(),
{
    if ops.len() > 0 {
        let s1 = s.update(ops[0].y * WIDTH + ops[0].x, pack_rgb_spec(ops[0].r, ops[0].g, ops[0].b));
        assert(forall|j: int| 0 <= j < ops.drop_first().len() ==> in_bounds(ops.drop_first()[j]));
        assert(forall|j: int|
            0 <= j < ops.drop_first().len() ==> ops.drop_first()[j].y * WIDTH
                + ops.drop_first()[j].x != c);
        lemma_draws_leave_untouched(s1, ops.drop_first(), c);
    }
}

/// Law: the last request aimed at a cell decides that cell -- every later
/// request goes elsewhere, so earlier writes are overwritten, never blended.
pub proof fn lemma_last_write_wins(s: Seq<u32>, ops: Seq<DrawOp>, k: int)
    requires
        s.len() == BUF_SIZE,
        forall|j: int| 0 <= j < ops.len() ==> in_bounds(ops[j]),
        0 <= k < ops.len(),
        forall|j: int|
            k < j < ops.len() ==> ops[j].y * WIDTH + ops[j].x != ops[k].y * WIDTH + ops[k].x,
    ensures
        apply_draws(s, ops)[ops[k].y * WIDTH + ops[k].x] == pack_rgb_spec(
            ops[k].r,
            ops[k].g,
            ops[k].b,
        ),
    decreases k,
{
    let c = ops[k].y * WIDTH + ops[k].x;
    let s1 = s.update(ops[0].y * WIDTH + ops[0].x, pack_rgb_spec(ops[0].r, ops[0].g, ops[0].b));
    if k == 0 {
        if ops.len() == 1 {
            assert(apply_draws(s1, ops.drop_first()) == s1);
        } else {
            assert(forall|j: int|
                0 <= j < ops.drop_first().len() ==> ops.drop_first()[j].y * WIDTH
                    + ops.drop_first()[j].x != c);
            lemma_draws_leave_untouched(s1, ops.drop_first(), c);
        }
    } else {
        assert(ops.drop_first()[k - 1] == ops[k]);
        assert(forall|j: int|
            k - 1 < j < ops.drop_first().len() ==> ops.drop_first()[j].y * WIDTH
                + ops.drop_first()[j].x != c);
        lemma_last_write_wins(s1, ops.drop_first(), k - 1);
    }
}

/// Law: a snapshot of exactly `WIDTH * HEIGHT` pixels after pair-expansion
/// fills every cell of the buffer, row-major.
pub proof fn lemma_blit_full_coverage(s: Seq<u32>, pairs: Seq<(Color, Color)>, i: int)
    requires
        s.len() == BUF_SIZE,
        2 * pairs.len() == BUF_SIZE,
        0 <= i < BUF_SIZE,
    ensures
        blit_result(s, pairs)[i] == color_cell(expanded(pairs)[i]),
{
}

} // verus!
