//! The pixel buffer the generator walks: a width, a height, and a row-major
//! grid of RGBA pixels, immutable once built.
//!
//! The mathematical model is [`Grid`]; [`PixelBuffer`] is its executable
//! carrier. Raw byte conversions connect the buffer to the 4-byte-per-pixel
//! RGBA layout that image decoding and resizing hand over.

use vstd::arithmetic::div_mod::lemma_fundamental_div_mod_converse;
use vstd::prelude::*;

verus! {

/// One pixel: red, green, blue, alpha.
#[derive(Copy, Clone, Eq, PartialEq, Structural, Debug)]
pub struct Pixel {
    pub r: u8,
    pub g: u8,
    pub b: u8,
    pub a: u8,
}

/// The mathematical view of a pixel buffer: dimensions and the row-major
/// pixel sequence.
#[verifier::ext_equal]
pub struct Grid {
    pub width: int,
    pub height: int,
    pub pixels: Seq<Pixel>,
}

impl Grid {
    /// Well-formed: the sequence holds exactly one pixel per grid cell and
    /// the dimensions are protocol-bound to the 32-bit range.
    pub open spec fn wf(self) -> bool {
        &&& self.pixels.len() == self.width * self.height
        &&& 0 <= self.width <= u32::MAX
        &&& 0 <= self.height <= u32::MAX
    }

    /// The pixel of cell `(x, y)`, row-major.
    pub open spec fn pixel(self, x: int, y: int) -> Pixel
        recommends
            0 <= x < self.width,
            0 <= y < self.height,
    {
        self.pixels[y * self.width + x]
    }
}

/// A row-major grid of RGBA pixels.
pub struct PixelBuffer {
    pub width: u32,
    pub height: u32,
    pub pixels: Vec<Pixel>,
}

impl View for PixelBuffer {
    type V = Grid;

    open spec fn view(&self) -> Grid {
        Grid { width: self.width as int, height: self.height as int, pixels: self.pixels@ }
    }
}

/// Row-major index arithmetic: cell `(x, y)` lies in the grid and is
/// recovered from its flat index.
pub proof fn lemma_row_major(x: int, y: int, w: int, h: int)
    requires
        0 <= x < w,
        0 <= y < h,
    ensures
        0 <= y * w + x < w * h,
        (y * w + x) % w == x,
        (y * w + x) / w == y,
{
    assert(0 <= y * w + x < w * h) by (nonlinear_arith)
        requires 0 <= x < w && 0 <= y < h;
    lemma_fundamental_div_mod_converse(y * w + x, w, y, x);
}

/// A flat index below `w * h` has its row below `h`.
pub proof fn lemma_flat_index(k: int, w: int, h: int)
    requires
        0 < w,
        0 <= k < w * h,
    ensures
        0 <= k % w < w,
        0 <= k / w < h,
        (k / w) * w + (k % w) == k,
{
    vstd::arithmetic::div_mod::lemma_fundamental_div_mod(k, w);
    vstd::arithmetic::div_mod::lemma_mod_bound(k, w);
    vstd::arithmetic::div_mod::lemma_div_pos_is_pos(k, w);
    let q = k / w;
    let r = k % w;
    assert(q * w == w * q) by (nonlinear_arith);
    if q >= h {
        assert(w * q >= w * h) by (nonlinear_arith)
            requires q >= h && w > 0;
        assert(w * h == h * w) by (nonlinear_arith);
        assert(k == w * q + r);
        assert(false);
    }
}

/// The 4-byte RGBA layout of a pixel sequence, row-major, channels in order.
pub open spec fn raw_of(pixels: Seq<Pixel>) -> Seq<u8> {
    Seq::new(
        4 * pixels.len(),
        |i: int|
            {
                let p = pixels[i / 4];
                if i % 4 == 0 {
                    p.r
                } else if i % 4 == 1 {
                    p.g
                } else if i % 4 == 2 {
                    p.b
                } else {
                    p.a
                }
            },
    )
}

/// The pixel sequence a 4-byte RGBA layout stands for.
pub open spec fn pixels_of(bytes: Seq<u8>) -> Seq<Pixel> {
    Seq::new(
        bytes.len() / 4,
        |i: int| Pixel { r: bytes[4 * i], g: bytes[4 * i + 1], b: bytes[4 * i + 2], a: bytes[4 * i + 3] },
    )
}

impl PixelBuffer {
    /// The buffer with the given dimensions, or `None` when the pixel count
    /// does not match.
    pub fn new(width: u32, height: u32, pixels: Vec<Pixel>) -> (r: Option<PixelBuffer>)
        ensures
            r matches Some(b) ==> b@ == (Grid {
                width: width as int,
                height: height as int,
                pixels: pixels@,
            }) && b@.wf(),
            r is None <==> pixels@.len() != width as int * height as int,
    {
        let count = pixels.len();
        match (width as usize).checked_mul(height as usize) {
            Some(n) => {
                if n == count {
                    Some(PixelBuffer { width, height, pixels })
                } else {
                    None
                }
            },
            None => None,
        }
    }

    /// The buffer read from a raw 4-byte-per-pixel RGBA layout, or `None`
    /// when the byte count does not match the dimensions.
    pub fn from_rgba_bytes(bytes: &Vec<u8>, width: u32, height: u32) -> (r: Option<PixelBuffer>)
        ensures
            r matches Some(b) ==> b@ == (Grid {
                width: width as int,
                height: height as int,
                pixels: pixels_of(bytes@),
            }) && b@.wf(),
            r is None <==> bytes@.len() != 4 * (width as int * height as int),
    {
        let len = bytes.len();
        let cells = match (width as usize).checked_mul(height as usize) {
            Some(n) => n,
            None => {
                proof {
                    let t = width as int * height as int;
                    assert(t <= 4 * t) by (nonlinear_arith)
                        requires t >= 0;
                }
                return None;
            },
        };
        let total = match cells.checked_mul(4) {
            Some(n) => n,
            None => {
                return None;
            },
        };
        if len != total {
            return None;
        }
        let mut pixels: Vec<Pixel> = Vec::new();
        let mut i: usize = 0;
        while i < cells
            invariant
                0 <= i <= cells,
                cells == width as int * height as int,
                total == 4 * cells <= usize::MAX,
                bytes@.len() == total,
                pixels@.len() == i,
                forall|k: int| 0 <= k < i ==> pixels@[k] == pixels_of(bytes@)[k],
            decreases cells - i,
        {
            let p = Pixel {
                r: bytes[4 * i],
                g: bytes[4 * i + 1],
                b: bytes[4 * i + 2],
                a: bytes[4 * i + 3],
            };
            pixels.push(p);
            i = i + 1;
        }
        proof {
            assert(pixels@ =~= pixels_of(bytes@));
        }
        Some(PixelBuffer { width, height, pixels })
    }

    /// The raw 4-byte-per-pixel RGBA layout of the buffer.
    pub fn to_rgba_bytes(&self) -> (r: Vec<u8>)
        ensures
            r@ == raw_of(self.pixels@),
    {
        let n = self.pixels.len();
        let mut bytes: Vec<u8> = Vec::new();
        let mut i: usize = 0;
        while i < n
            invariant
                0 <= i <= n,
                n == self.pixels@.len(),
                bytes@.len() == 4 * i,
                forall|k: int| 0 <= k < 4 * i ==> bytes@[k] == raw_of(self.pixels@)[k],
            decreases n - i,
        {
            let p = self.pixels[i];
            bytes.push(p.r);
            bytes.push(p.g);
            bytes.push(p.b);
            bytes.push(p.a);
            i = i + 1;
            proof {
                assert forall|k: int| 4 * (i - 1) <= k < 4 * i implies bytes@[k] == raw_of(
                    self.pixels@,
                )[k] by {
                    lemma_fundamental_div_mod_converse(k, 4, i - 1, k - 4 * (i - 1));
                }
            }
        }
        bytes
    }
}

} // verus!
