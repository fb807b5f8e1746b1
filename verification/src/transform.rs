//! The geometric transform pipeline of the image source: resize, crop, the
//! two flips and the three right-angle rotations.
//!
//! Crop, flips and rotations are verified pixel shuffles with exact cell
//! contracts. Resizing interpolates between pixels and is delegated to the
//! `image` crate behind a trusted wrapper; its result is named, not spelled
//! out.

use vstd::prelude::*;

use crate::coordinates::Coordinates;
use crate::pixel::lemma_flat_index;
use crate::pixel::lemma_row_major;
use crate::pixel::pixels_of;
use crate::pixel::raw_of;
use crate::pixel::Grid;
use crate::pixel::Pixel;
use crate::pixel::PixelBuffer;

verus! {

/// A pixel shuffle that reorders the grid without resampling.
#[derive(Copy, Clone, Eq, PartialEq, Structural, Debug)]
pub enum Reorient {
    FlipHorizontal,
    FlipVertical,
    Rotate90,
    Rotate180,
    Rotate270,
}

/// Output dimensions of a reorientation: rotations by a quarter turn swap
/// width and height, everything else keeps them.
pub open spec fn reoriented_dims(t: Reorient, w: int, h: int) -> (int, int) {
    match t {
        Reorient::Rotate90 => (h, w),
        Reorient::Rotate270 => (h, w),
        _ => (w, h),
    }
}

/// The source cell that fills output cell `(x, y)` of a reorientation of a
/// `w` by `h` grid. Rotations are clockwise.
pub open spec fn reorient_source(t: Reorient, w: int, h: int, x: int, y: int) -> (int, int) {
    match t {
        Reorient::FlipHorizontal => (w - 1 - x, y),
        Reorient::FlipVertical => (x, h - 1 - y),
        Reorient::Rotate90 => (y, h - 1 - x),
        Reorient::Rotate180 => (w - 1 - x, h - 1 - y),
        Reorient::Rotate270 => (w - 1 - y, x),
    }
}

/// Width of the crop to the rectangle from `min` inclusive to `max`
/// exclusive, clamped to the grid.
pub open spec fn crop_len(extent: int, min: int, max: int) -> int {
    if min < extent && min < max {
        (if max <= extent {
            max
        } else {
            extent
        }) - min
    } else {
        0
    }
}

impl Grid {
    /// The reoriented grid: output cell `(x, y)` holds the source cell's
    /// pixel.
    pub open spec fn reoriented(self, t: Reorient) -> Grid {
        let dims = reoriented_dims(t, self.width, self.height);
        Grid {
            width: dims.0,
            height: dims.1,
            pixels: Seq::new(
                (dims.0 * dims.1) as nat,
                |k: int|
                    {
                        let src = reorient_source(t, self.width, self.height, k % dims.0, k / dims.0);
                        self.pixel(src.0, src.1)
                    },
            ),
        }
    }

    /// The grid cropped to the rectangle from `min` inclusive to `max`
    /// exclusive, intersected with the grid: output cell `(x, y)` holds the
    /// source cell `(min.x + x, min.y + y)`.
    pub open spec fn cropped(self, min: Coordinates, max: Coordinates) -> Grid {
        let w2 = crop_len(self.width, min.x as int, max.x as int);
        let h2 = crop_len(self.height, min.y as int, max.y as int);
        Grid {
            width: w2,
            height: h2,
            pixels: Seq::new(
                (w2 * h2) as nat,
                |k: int| self.pixel(min.x + k % w2, min.y + k / w2),
            ),
        }
    }
}

impl Grid {
    /// The grid resized to fit within the target bounds: what the trusted
    /// resampler returns for its raw RGBA layout.
    pub open spec fn resized(self, target_w: u32, target_h: u32, gaussian: bool) -> Grid {
        let out = resized_rgba(
            raw_of(self.pixels),
            self.width as u32,
            self.height as u32,
            target_w,
            target_h,
            gaussian,
        );
        Grid { width: out.0 as int, height: out.1 as int, pixels: pixels_of(out.2) }
    }
}

/// A positive cell count means both dimensions are positive.
pub proof fn lemma_positive_area(w: int, h: int, k: int)
    requires
        0 <= k < w * h,
        w >= 0,
        h >= 0,
    ensures
        w > 0 && h > 0,
{
    if w == 0 || h == 0 {
        assert(w * h == 0) by (nonlinear_arith)
            requires w == 0 || h == 0;
    }
}

impl PixelBuffer {
    /// The reoriented buffer. Rotations are clockwise.
    pub fn reoriented(&self, t: Reorient) -> (r: PixelBuffer)
        requires
            self@.wf(),
        ensures
            r@ == self@.reoriented(t),
            r@.wf(),
    {
        let w = self.width;
        let h = self.height;
        let (w2, h2) = match t {
            Reorient::Rotate90 => (h, w),
            Reorient::Rotate270 => (h, w),
            _ => (w, h),
        };
        let total = self.pixels.len();
        proof {
            assert(w2 as int * h2 as int == w as int * h as int) by (nonlinear_arith)
                requires (w2 == w && h2 == h) || (w2 == h && h2 == w);
        }
        let ghost target = self@.reoriented(t);
        let mut out: Vec<Pixel> = Vec::new();
        let mut k: usize = 0;
        while k < total
            invariant
                self@.wf(),
                w == self.width && h == self.height,
                total == self.pixels@.len(),
                total == w2 as int * h2 as int,
                reoriented_dims(t, w as int, h as int) == (w2 as int, h2 as int),
                target == self@.reoriented(t),
                0 <= k <= total,
                out@.len() == k,
                forall|j: int| 0 <= j < k ==> out@[j] == target.pixels[j],
            decreases total - k,
        {
            proof {
                lemma_positive_area(w2 as int, h2 as int, k as int);
                lemma_flat_index(k as int, w2 as int, h2 as int);
            }
            let x = k % (w2 as usize);
            let y = k / (w2 as usize);
            let (sx, sy) = match t {
                Reorient::FlipHorizontal => ((w as usize) - 1 - x, y),
                Reorient::FlipVertical => (x, (h as usize) - 1 - y),
                Reorient::Rotate90 => (y, (h as usize) - 1 - x),
                Reorient::Rotate180 => ((w as usize) - 1 - x, (h as usize) - 1 - y),
                Reorient::Rotate270 => ((w as usize) - 1 - y, x),
            };
            proof {
                assert((sx as int, sy as int) == reorient_source(
                    t,
                    w as int,
                    h as int,
                    x as int,
                    y as int,
                ));
                lemma_row_major(sx as int, sy as int, w as int, h as int);
            }
            let src = sy * (w as usize) + sx;
            out.push(self.pixels[src]);
            k = k + 1;
        }
        let r = PixelBuffer { width: w2, height: h2, pixels: out };
        proof {
            assert(out@ =~= target.pixels);
            assert(r@ =~= target);
        }
        r
    }

    /// The buffer cropped to the rectangle from `min` inclusive to `max`
    /// exclusive, intersected with the buffer.
    pub fn cropped(&self, min: Coordinates, max: Coordinates) -> (r: PixelBuffer)
        requires
            self@.wf(),
        ensures
            r@ == self@.cropped(min, max),
            r@.wf(),
    {
        let w = self.width;
        let h = self.height;
        let w2: u32 = if min.x < w && min.x < max.x {
            (if max.x <= w {
                max.x
            } else {
                w
            }) - min.x
        } else {
            0
        };
        let h2: u32 = if min.y < h && min.y < max.y {
            (if max.y <= h {
                max.y
            } else {
                h
            }) - min.y
        } else {
            0
        };
        let cap = self.pixels.len();
        proof {
            assert(w2 as int * h2 as int <= w as int * h as int) by (nonlinear_arith)
                requires 0 <= w2 as int <= w as int && 0 <= h2 as int <= h as int;
        }
        let total = (w2 as usize) * (h2 as usize);
        let ghost target = self@.cropped(min, max);
        let mut out: Vec<Pixel> = Vec::new();
        let mut k: usize = 0;
        while k < total
            invariant
                self@.wf(),
                w == self.width && h == self.height,
                total == w2 as int * h2 as int,
                w2 as int == crop_len(w as int, min.x as int, max.x as int),
                h2 as int == crop_len(h as int, min.y as int, max.y as int),
                w2 <= w && h2 <= h,
                self.pixels@.len() == w as int * h as int <= usize::MAX,
                w2 > 0 ==> min.x as int + w2 as int <= w,
                h2 > 0 ==> min.y as int + h2 as int <= h,
                target == self@.cropped(min, max),
                0 <= k <= total,
                out@.len() == k,
                forall|j: int| 0 <= j < k ==> out@[j] == target.pixels[j],
            decreases total - k,
        {
            proof {
                lemma_positive_area(w2 as int, h2 as int, k as int);
                lemma_flat_index(k as int, w2 as int, h2 as int);
            }
            let x = k % (w2 as usize);
            let y = k / (w2 as usize);
            let sx = (min.x as usize) + x;
            let sy = (min.y as usize) + y;
            proof {
                assert((sx as int) < (w as int) && (sy as int) < (h as int));
                lemma_row_major(sx as int, sy as int, w as int, h as int);
            }
            let src = sy * (w as usize) + sx;
            out.push(self.pixels[src]);
            k = k + 1;
        }
        let r = PixelBuffer { width: w2, height: h2, pixels: out };
        proof {
            assert(out@ =~= target.pixels);
            assert(r@ =~= target);
        }
        r
    }
}

/// What resizing a raw RGBA buffer returns: the output dimensions and bytes.
/// Interpolation is deterministic in the input alone, so the result has a
/// name rather than a page of arithmetic.
pub uninterp spec fn resized_rgba(
    bytes: Seq<u8>,
    width: u32,
    height: u32,
    target_w: u32,
    target_h: u32,
    gaussian: bool,
) -> (u32, u32, Seq<u8>);

/// Relies on `image::DynamicImage::resize`: deterministic resampling
/// (Gaussian or Catmull-Rom) that preserves aspect ratio within the target
/// bounds; and on `image::RgbaImage::from_raw` / `to_rgba8` / `into_raw`,
/// whose raw buffer is the row-major 4-byte-per-pixel RGBA layout of
/// exactly `width * height` pixels.
#[verifier::external_body]
fn resize_rgba_raw(bytes: Vec<u8>, width: u32, height: u32, target_w: u32, target_h: u32, gaussian: bool) -> (r: (
    u32,
    u32,
    Vec<u8>,
))
    requires
        bytes@.len() == 4 * (width as int * height as int),
    ensures
        (r.0, r.1, r.2@) == resized_rgba(bytes@, width, height, target_w, target_h, gaussian),
        r.2@.len() == 4 * (r.0 as int * r.1 as int),
{
    let buffer = image::RgbaImage::from_raw(width, height, bytes).unwrap();
    let filter = if gaussian {
        image::imageops::FilterType::Gaussian
    } else {
        image::imageops::FilterType::CatmullRom
    };
    let resized = image::DynamicImage::ImageRgba8(buffer).resize(target_w, target_h, filter);
    let out = resized.to_rgba8();
    let (w, h) = out.dimensions();
    (w, h, out.into_raw())
}

impl PixelBuffer {
    /// The buffer resized to fit within the target bounds, aspect ratio
    /// preserved, with the chosen interpolation (Gaussian when `gaussian`,
    /// Catmull-Rom otherwise).
    pub fn resized(&self, target_w: u32, target_h: u32, gaussian: bool) -> (r: PixelBuffer)
        requires
            self@.wf(),
        ensures
            r@.wf(),
            r@ == self@.resized(target_w, target_h, gaussian),
    {
        let bytes = self.to_rgba_bytes();
        let (w2, h2, out_bytes) = resize_rgba_raw(
            bytes,
            self.width,
            self.height,
            target_w,
            target_h,
            gaussian,
        );
        match PixelBuffer::from_rgba_bytes(&out_bytes, w2, h2) {
            Some(b) => {
                proof {
                    assert(b@ =~= self@.resized(target_w, target_h, gaussian));
                }
                b
            },
            None => {
                proof {
                    assert(false);
                }
                vstd::pervasive::unreached()
            },
        }
    }
}

} // verus!
