//! The raw-frame model: dimensions plus an RGBA pixel buffer.
//!
//! A raw frame is row-major 8-bit RGBA with no padding, so its buffer holds
//! exactly `4 * width * height` bytes; that invariant is carried by the type.
//! A frame with a zero dimension is the sentinel for "capture denied", not a
//! valid empty image.

use vstd::prelude::*;

use crate::geometry::CropRect;

verus! {

/// An uncompressed RGBA frame. The buffer length always equals
/// `4 * width * height`.
#[derive(Debug)]
pub struct RawFrame {
    width: u32,
    height: u32,
    pixels: Vec<u8>,
}

/// The byte of `src` (a `src_width`-wide RGBA buffer) that lands at
/// position `i` of the crop described by `r`.
pub open spec fn spec_crop_byte(src: Seq<u8>, src_width: u32, r: CropRect, i: int) -> u8 {
    let p = i / 4;
    let k = i % 4;
    let row = p / (r.width as int);
    let col = p % (r.width as int);
    src[4 * ((r.y + row) * src_width + r.x + col) + k]
}

/// The pixel bytes of the crop described by `r`, taken from `src`.
pub open spec fn spec_crop(src: Seq<u8>, src_width: u32, r: CropRect) -> Seq<u8> {
    Seq::new((4 * r.width * r.height) as nat, |i: int| spec_crop_byte(src, src_width, r, i))
}

impl RawFrame {
    #[verifier::type_invariant]
    spec fn wf(self) -> bool {
        self.pixels@.len() == 4 * self.width * self.height
    }

    /// The frame width in pixels.
    pub closed spec fn spec_width(self) -> u32 {
        self.width
    }

    /// The frame height in pixels.
    pub closed spec fn spec_height(self) -> u32 {
        self.height
    }

    /// The pixel bytes, row-major RGBA.
    pub closed spec fn spec_pixels(self) -> Seq<u8> {
        self.pixels@
    }

    /// A zero-dimension frame stands for "capture denied".
    pub open spec fn spec_denied(self) -> bool {
        self.spec_width() == 0 || self.spec_height() == 0
    }

    /// Build a frame from its parts; rejects a buffer whose length does not
    /// match the dimensions.
    pub fn new(width: u32, height: u32, pixels: Vec<u8>) -> (r: Option<RawFrame>)
        ensures
            match r {
                Some(f) => {
                    &&& f.spec_width() == width
                    &&& f.spec_height() == height
                    &&& f.spec_pixels() == pixels@
                    &&& pixels@.len() == 4 * width * height
                },
                None => pixels@.len() != 4 * width * height,
            },
    {
        proof {
            assert((width as int) * (height as int) <= 0xffff_ffff * 0xffff_ffff)
                by (nonlinear_arith)
                requires
                    0 <= width as int <= 0xffff_ffff,
                    0 <= height as int <= 0xffff_ffff,
            ;
            assert(4 * ((width as int) * (height as int)) == 4 * width * height)
                by (nonlinear_arith);
        }
        let area: u64 = (width as u64) * (height as u64);
        match area.checked_mul(4) {
            Some(need) => {
                if pixels.len() as u64 == need {
                    proof {
                        assert(pixels@.len() == need as int);
                        assert(need as int == 4 * ((width as int) * (height as int)));
                        assert(pixels@.len() == 4 * width * height);
                    }
                    Some(RawFrame { width, height, pixels })
                } else {
                    None
                }
            },
            None => {
                let buffer_len = pixels.len();
                proof {
                    assert(buffer_len <= usize::MAX);
                    assert(pixels@.len() != 4 * width * height);
                }
                None
            },
        }
    }

    /// The frame width in pixels.
    pub fn width(&self) -> (r: u32)
        ensures
            r == self.spec_width(),
    {
        self.width
    }

    /// The frame height in pixels.
    pub fn height(&self) -> (r: u32)
        ensures
            r == self.spec_height(),
    {
        self.height
    }

    /// The pixel bytes, row-major RGBA: always exactly
    /// `4 * width * height` of them.
    pub fn pixels(&self) -> (r: &Vec<u8>)
        ensures
            r@ == self.spec_pixels(),
            r@.len() == 4 * self.spec_width() * self.spec_height(),
    {
        proof {
            use_type_invariant(self);
        }
        &self.pixels
    }

    /// Whether this frame is the "capture denied" sentinel.
    pub fn is_denied(&self) -> (r: bool)
        ensures
            r == self.spec_denied(),
    {
        self.width == 0 || self.height == 0
    }

    /// Copy out the rectangle `r`, which must lie fully inside the frame.
    /// The result is a well-formed frame of exactly the rectangle's size.
    pub fn crop(&self, r: CropRect) -> (out: RawFrame)
        requires
            r.width > 0,
            r.height > 0,
            r.x + r.width <= self.spec_width(),
            r.y + r.height <= self.spec_height(),
        ensures
            out.spec_width() == r.width,
            out.spec_height() == r.height,
            out.spec_pixels() == spec_crop(self.spec_pixels(), self.spec_width(), r),
    {
        proof {
            use_type_invariant(self);
        }
        let w: usize = self.width as usize;
        let n: usize = self.pixels.len();
        let mut out: Vec<u8> = Vec::new();
        let mut row: u32 = 0;
        while row < r.height
            invariant
                r.width > 0,
                r.height > 0,
                r.x + r.width <= self.width,
                r.y + r.height <= self.height,
                w == self.width,
                n == self.pixels@.len(),
                self.pixels@.len() == 4 * self.width * self.height,
                row <= r.height,
                out@.len() == 4 * ((r.width as int) * (row as int)),
                forall|i: int|
                    0 <= i < out@.len() ==> out@[i] == spec_crop_byte(
                        self.pixels@,
                        self.width,
                        r,
                        i,
                    ),
            decreases r.height - row,
        {
            let mut col: u32 = 0;
            while col < r.width
                invariant
                    r.width > 0,
                    r.height > 0,
                    r.x + r.width <= self.width,
                    r.y + r.height <= self.height,
                    w == self.width,
                    n == self.pixels@.len(),
                    self.pixels@.len() == 4 * self.width * self.height,
                    row < r.height,
                    col <= r.width,
                    out@.len() == 4 * ((r.width as int) * (row as int) + col),
                    forall|i: int|
                        0 <= i < out@.len() ==> out@[i] == spec_crop_byte(
                            self.pixels@,
                            self.width,
                            r,
                            i,
                        ),
                decreases r.width - col,
            {
                proof {
                    lemma_src_index_inside(
                        self.width as int,
                        self.height as int,
                        r,
                        row as int,
                        col as int,
                    );
                    assert(4 * ((self.width as int) * (self.height as int)) == 4 * self.width
                        * self.height) by (nonlinear_arith);
                    lemma_out_index_maps(r, row as int, col as int, 0);
                    lemma_out_index_maps(r, row as int, col as int, 1);
                    lemma_out_index_maps(r, row as int, col as int, 2);
                    lemma_out_index_maps(r, row as int, col as int, 3);
                }
                let sr: usize = (r.y + row) as usize;
                let sc: usize = (r.x + col) as usize;
                proof {
                    assert((sr as int) * (w as int) + (sc as int) < (self.width as int) * (
                    self.height as int));
                    assert((self.width as int) * (self.height as int) <= self.pixels@.len());
                    assert(4 * ((sr as int) * (w as int) + (sc as int)) + 3 < self.pixels@.len());
                }
                let base: usize = 4 * (sr * w + sc);
                out.push(self.pixels[base]);
                out.push(self.pixels[base + 1]);
                out.push(self.pixels[base + 2]);
                out.push(self.pixels[base + 3]);
                col = col + 1;
            }
            proof {
                assert(4 * ((r.width as int) * (row as int) + r.width) == 4 * ((r.width as int) * (
                (row + 1) as int))) by (nonlinear_arith);
            }
            row = row + 1;
        }
        proof {
            assert(4 * ((r.width as int) * (r.height as int)) == 4 * r.width * r.height)
                by (nonlinear_arith);
            assert(out@ =~= spec_crop(self.pixels@, self.width, r));
        }
        let cropped = RawFrame { width: r.width, height: r.height, pixels: out };
        cropped
    }
}

/// The byte range read for source pixel (`r.y + row`, `r.x + col`) lies
/// inside a `width` by `height` RGBA buffer when the rectangle does.
proof fn lemma_src_index_inside(width: int, height: int, r: CropRect, row: int, col: int)
    requires
        0 <= row < r.height,
        0 <= col < r.width,
        r.x + r.width <= width,
        r.y + r.height <= height,
    ensures
        0 <= (r.y + row) * width,
        (r.y + row) * width + r.x + col < width * height,
        4 * ((r.y + row) * width + r.x + col) + 3 < 4 * (width * height),
        0 <= width * height,
{
    let sr = r.y + row;
    let sc = r.x + col;
    assert(0 <= sr * width && sr * width + sc < width * height) by (nonlinear_arith)
        requires
            0 <= sr,
            0 <= sc,
            sr < height,
            sc < width,
            sc >= 0,
    ;
    assert(4 * (sr * width + sc) + 3 < 4 * (width * height)) by (nonlinear_arith)
        requires
            sr * width + sc < width * height,
    ;
    assert(0 <= width * height) by (nonlinear_arith)
        requires
            0 <= width,
            0 <= height,
    ;
}

/// Output position `4 * (r.width * row + col) + k` decodes back to pixel
/// (`row`, `col`) and channel `k`.
proof fn lemma_out_index_maps(r: CropRect, row: int, col: int, k: int)
    requires
        0 <= row < r.height,
        0 <= col < r.width,
        0 <= k < 4,
    ensures
        (4 * ((r.width as int) * row + col) + k) / 4 == (r.width as int) * row + col,
        (4 * ((r.width as int) * row + col) + k) % 4 == k,
        ((r.width as int) * row + col) / (r.width as int) == row,
        ((r.width as int) * row + col) % (r.width as int) == col,
{
    let p = (r.width as int) * row + col;
    let i = 4 * p + k;
    assert(0 <= p) by (nonlinear_arith)
        requires
            0 <= row,
            0 <= col,
            r.width > 0,
            p == (r.width as int) * row + col,
    ;
    assert(i / 4 == p && i % 4 == k) by (nonlinear_arith)
        requires
            0 <= k < 4,
            0 <= p,
            i == 4 * p + k,
    ;
    assert(p / (r.width as int) == row && p % (r.width as int) == col) by (nonlinear_arith)
        requires
            0 <= col < r.width,
            0 <= row,
            p == (r.width as int) * row + col,
    ;
}

} // verus!
