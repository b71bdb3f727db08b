use vstd::prelude::*;
use crate::error::GpuError;

verus! {

/// The colour of one RGB565 pixel as stored little-endian in two bytes.
pub open spec fn le16(lo: u8, hi: u8) -> u16 {
    (lo as u16) | ((hi as u16) << 8u16)
}

/// The pixels that a little-endian byte sequence holds, two bytes each.
pub open spec fn pixels_of(bytes: Seq<u8>, n: nat) -> Seq<u16> {
    Seq::new(n, |i: int| le16(bytes[2 * i], bytes[2 * i + 1]))
}

/// An RGB565 encoded buffer holding a frame that can be sent to a display.
///
/// Each pixel is stored as two little-endian bytes, row by row, so the typed
/// pixel view and the byte view share one backing store.
pub struct FrameBuffer {
    raw_bytes: Vec<u8>,
    width: usize,
    height: usize,
}

impl FrameBuffer {
    pub closed spec fn spec_width(&self) -> nat {
        self.width as nat
    }

    pub closed spec fn spec_height(&self) -> nat {
        self.height as nat
    }

    pub closed spec fn byte_seq(&self) -> Seq<u8> {
        self.raw_bytes@
    }

    /// The byte store holds exactly two bytes per pixel.
    pub open spec fn wf(&self) -> bool {
        self.byte_seq().len() == self.spec_width() * self.spec_height() * 2
    }

    /// The pixels, row-major, index `y * width + x`.
    pub open spec fn pixels(&self) -> Seq<u16> {
        pixels_of(self.byte_seq(), self.spec_width() * self.spec_height())
    }

    /// The pixel at column `x`, row `y`.
    pub open spec fn pixel(&self, x: int, y: int) -> u16 {
        self.pixels()[y * self.spec_width() + x]
    }

    /// Creates a frame buffer of the given dimensions with every pixel zero.
    pub fn new(width: usize, height: usize) -> (r: FrameBuffer)
        requires
            width * height * 2 <= usize::MAX,
        ensures
            r.wf(),
            r.spec_width() == width,
            r.spec_height() == height,
            r.pixels() == Seq::new((width * height) as nat, |i: int| 0u16),
            forall|i: int| 0 <= i < r.byte_seq().len() ==> r.byte_seq()[i] == 0u8,
    {
        proof {
            assert(width * height * 2 == (width * height) * 2) by (nonlinear_arith);
        }
        let n: usize = width * height * 2;
        let raw_bytes: Vec<u8> = vec![0u8; n];
        let r = FrameBuffer { raw_bytes, width, height };
        proof {
            assert forall|i: int| 0 <= i < r.byte_seq().len() implies r.byte_seq()[i] == 0u8 by {
                assert(cloned(0u8, r.raw_bytes@[i]));
            }
            assert(le16(0u8, 0u8) == 0u16) by (bit_vector);
            assert(r.pixels() =~= Seq::new((width * height) as nat, |i: int| 0u16));
        }
        r
    }

    pub fn width(&self) -> (r: usize)
        ensures
            r == self.spec_width(),
    {
        self.width
    }

    pub fn height(&self) -> (r: usize)
        ensures
            r == self.spec_height(),
    {
        self.height
    }

    /// The frame as raw little-endian bytes, two per pixel.
    pub fn bytes(&self) -> (r: &[u8])
        ensures
            r@ == self.byte_seq(),
            self.wf() ==> self.pixels() == pixels_of(r@, self.spec_width() * self.spec_height()),
    {
        self.raw_bytes.as_slice()
    }

    /// Mutable access to the raw bytes. The slice cannot change length, so the
    /// buffer keeps its dimensions and its two bytes per pixel.
    pub fn bytes_mut(&mut self) -> (r: &mut [u8])
        ensures
            r@ == old(self).byte_seq(),
            final(r)@ == final(self).byte_seq(),
            final(self).spec_width() == old(self).spec_width(),
            final(self).spec_height() == old(self).spec_height(),
    {
        self.raw_bytes.as_mut_slice()
    }

    /// Tells whether the byte store holds exactly two bytes per pixel.
    pub fn is_consistent(&self) -> (r: bool)
        ensures
            r == self.wf(),
    {
        let len: usize = self.raw_bytes.len();
        match self.width.checked_mul(self.height) {
            Some(n) => match n.checked_mul(2) {
                Some(m) => len == m,
                None => false,
            },
            None => false,
        }
    }

    /// Writes pixel `idx` (row-major) without any bounds policy of its own.
    pub(crate) fn put(&mut self, idx: usize, color: u16)
        requires
            old(self).wf(),
            idx < old(self).spec_width() * old(self).spec_height(),
        ensures
            final(self).wf(),
            final(self).spec_width() == old(self).spec_width(),
            final(self).spec_height() == old(self).spec_height(),
            final(self).pixels() == old(self).pixels().update(idx as int, color),
    {
        let ghost before = self.pixels();
        let len: usize = self.raw_bytes.len();
        let lo: u8 = #[verifier::truncate] (color as u8);
        let hi: u8 = #[verifier::truncate] ((color >> 8u16) as u8);
        assert(le16(lo, hi) == color) by (bit_vector)
            requires
                lo == #[verifier::truncate] (color as u8),
                hi == #[verifier::truncate] ((color >> 8u16) as u8),
        ;
        self.raw_bytes.set(2 * idx, lo);
        self.raw_bytes.set(2 * idx + 1, hi);
        proof {
            assert forall|j: int| 0 <= j < before.len() implies #[trigger] self.pixels()[j]
                == before.update(idx as int, color)[j] by {
                if j != idx {
                    assert(2 * j != 2 * idx && 2 * j + 1 != 2 * idx + 1);
                    assert(2 * j != 2 * idx + 1 && 2 * j + 1 != 2 * idx);
                }
            }
            assert(self.pixels() =~= before.update(idx as int, color));
        }
    }

    /// Writes the pixel at column `x`, row `y`, both inside the buffer.
    pub(crate) fn put_xy(&mut self, x: usize, y: usize, color: u16)
        requires
            old(self).wf(),
            x < old(self).spec_width(),
            y < old(self).spec_height(),
        ensures
            final(self).wf(),
            final(self).spec_width() == old(self).spec_width(),
            final(self).spec_height() == old(self).spec_height(),
            forall|px: int, py: int|
                0 <= px < final(self).spec_width() && 0 <= py < final(self).spec_height()
                    ==> #[trigger] final(self).pixel(px, py) == if px == x && py == y {
                    color
                } else {
                    old(self).pixel(px, py)
                },
    {
        let len: usize = self.raw_bytes.len();
        proof {
            lemma_index_in_grid(x as int, y as int, self.width as int, self.height as int);
        }
        let idx: usize = y * self.width + x;
        self.put(idx, color);
        proof {
            let w = self.width as int;
            let h = self.height as int;
            assert forall|px: int, py: int|
                0 <= px < w && 0 <= py < h implies #[trigger] self.pixel(px, py) == if px == x
                && py == y {
                color
            } else {
                old(self).pixel(px, py)
            } by {
                lemma_index_in_grid(px, py, w, h);
                if px != x || py != y {
                    lemma_index_injective(px, py, x as int, y as int, w);
                }
            }
        }
    }

    /// Reads the pixel at column `x`, row `y`.
    pub fn pixel_at(&self, x: usize, y: usize) -> (r: Result<u16, GpuError>)
        requires
            self.wf(),
        ensures
            x >= self.spec_width() || y >= self.spec_height() ==> r == Err::<u16, GpuError>(
                GpuError::OutOfBounds,
            ),
            x < self.spec_width() && y < self.spec_height() ==> r == Ok::<u16, GpuError>(
                self.pixels()[y * self.spec_width() + x],
            ),
    {
        if x >= self.width || y >= self.height {
            return Err(GpuError::OutOfBounds);
        }
        let len: usize = self.raw_bytes.len();
        proof {
            lemma_index_in_grid(x as int, y as int, self.width as int, self.height as int);
        }
        let idx: usize = y * self.width + x;
        let lo = self.raw_bytes[2 * idx];
        let hi = self.raw_bytes[2 * idx + 1];
        Ok((lo as u16) | ((hi as u16) << 8u16))
    }

    /// Writes the pixel at column `x`, row `y`; nothing is written off the buffer.
    pub fn set_pixel(&mut self, x: usize, y: usize, color: u16) -> (r: Result<(), GpuError>)
        requires
            old(self).wf(),
        ensures
            final(self).wf(),
            final(self).spec_width() == old(self).spec_width(),
            final(self).spec_height() == old(self).spec_height(),
            x >= old(self).spec_width() || y >= old(self).spec_height() ==> {
                &&& r == Err::<(), GpuError>(GpuError::OutOfBounds)
                &&& final(self).pixels() == old(self).pixels()
            },
            x < old(self).spec_width() && y < old(self).spec_height() ==> {
                &&& r == Ok::<(), GpuError>(())
                &&& final(self).pixels() == old(self).pixels().update(
                    y * old(self).spec_width() + x,
                    color,
                )
            },
    {
        if x >= self.width || y >= self.height {
            return Err(GpuError::OutOfBounds);
        }
        let len: usize = self.raw_bytes.len();
        proof {
            lemma_index_in_grid(x as int, y as int, self.width as int, self.height as int);
        }
        let idx: usize = y * self.width + x;
        self.put(idx, color);
        Ok(())
    }

    /// The pixels decoded from the byte store, row-major.
    pub fn pixel_values(&self) -> (r: Vec<u16>)
        requires
            self.wf(),
        ensures
            r@ == self.pixels(),
    {
        let n: usize = self.raw_bytes.len() / 2;
        let mut r: Vec<u16> = Vec::new();
        let mut i: usize = 0;
        while i < n
            invariant
                self.wf(),
                n == self.spec_width() * self.spec_height(),
                self.raw_bytes@.len() == 2 * n,
                2 * n <= usize::MAX,
                i <= n,
                r@ == self.pixels().subrange(0, i as int),
            decreases n - i,
        {
            let lo = self.raw_bytes[2 * i];
            let hi = self.raw_bytes[2 * i + 1];
            r.push((lo as u16) | ((hi as u16) << 8u16));
            i = i + 1;
            assert(r@ =~= self.pixels().subrange(0, i as int));
        }
        assert(r@ =~= self.pixels());
        r
    }
}

/// A cell of a `width` by `height` grid has a row-major index inside the grid.
pub proof fn lemma_index_in_grid(x: int, y: int, w: int, h: int)
    requires
        0 <= x < w,
        0 <= y < h,
    ensures
        0 <= y * w <= y * w + x < w * h,
{
    assert(0 <= y * w) by (nonlinear_arith)
        requires
            0 <= y,
            0 < w,
    ;
    assert(y * w + x < w * h) by (nonlinear_arith)
        requires
            0 <= x < w,
            0 <= y < h,
    ;
}

/// Distinct cells of a grid of the given width have distinct row-major indices.
pub proof fn lemma_index_injective(x1: int, y1: int, x2: int, y2: int, w: int)
    requires
        0 <= x1 < w,
        0 <= x2 < w,
        0 <= y1,
        0 <= y2,
        x1 != x2 || y1 != y2,
    ensures
        y1 * w + x1 != y2 * w + x2,
{
    if y1 < y2 {
        assert(y1 * w + w <= y2 * w) by (nonlinear_arith)
            requires
                y1 < y2,
                0 < w,
        ;
    } else if y2 < y1 {
        assert(y2 * w + w <= y1 * w) by (nonlinear_arith)
            requires
                y2 < y1,
                0 < w,
        ;
    }
}

} // verus!
