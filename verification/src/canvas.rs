//! The supersampled pixel grid and its row-major indexing.

use vstd::prelude::*;

verus! {

/// Bytes per pixel slot: red, green, blue, alpha.
pub const CHANNELS: usize = 4;

/// Why a canvas cannot be built.
#[derive(Clone, Copy, Debug, PartialEq, Eq, Structural)]
pub enum CanvasError {
    /// The width, the height or the supersampling factor is zero.
    ZeroDimension,
    /// The byte length of the pixel buffer exceeds `isize::MAX`, the most a
    /// vector can hold.
    TooLarge,
}

/// The target resolution, the supersampling factor and the supersampled
/// dimensions derived from them.
#[derive(Clone, Copy, Debug, PartialEq, Eq, Structural)]
pub struct Canvas {
    /// Target width in pixels.
    pub w: usize,
    /// Target height in pixels.
    pub h: usize,
    /// Samples per target pixel along each axis.
    pub supersampling: usize,
    /// Supersampled width, `supersampling * w`.
    pub sw: usize,
    /// Supersampled height, `supersampling * h`.
    pub sh: usize,
}

/// The byte length of a buffer for the given dimensions, as a mathematical
/// integer.
pub open spec fn buffer_len_of(w: int, h: int, supersampling: int) -> int {
    (supersampling * w) * (supersampling * h) * 4
}

impl Canvas {
    /// All dimensions are positive, the supersampled dimensions are the
    /// products they are named after, and a vector can hold the buffer.
    pub open spec fn wf(&self) -> bool {
        &&& self.w >= 1
        &&& self.h >= 1
        &&& self.supersampling >= 1
        &&& self.sw == self.supersampling * self.w
        &&& self.sh == self.supersampling * self.h
        &&& self.sw * self.sh * 4 <= isize::MAX
    }

    /// Number of supersampled pixels, `sw * sh`.
    pub open spec fn spec_pixel_count(&self) -> int {
        self.sw * self.sh
    }

    /// Byte length of the pixel buffer, `sw * sh * 4`.
    pub open spec fn spec_buffer_len(&self) -> int {
        self.sw * self.sh * 4
    }

    /// The column of the pixel with linear index `i`: `i mod sw`.
    pub open spec fn column_of(&self, i: int) -> usize {
        (i % (self.sw as int)) as usize
    }

    /// The row of the pixel with linear index `i`: `i / sw`.
    pub open spec fn row_of(&self, i: int) -> usize {
        (i / (self.sw as int)) as usize
    }

    /// The canvas for a `w` by `h` image sampled `supersampling` times along
    /// each axis, or the reason why there is none: `ZeroDimension` when one
    /// of the three is zero, else `TooLarge` when
    /// `(supersampling * w) * (supersampling * h) * 4` exceeds `isize::MAX`.
    pub open spec fn spec_new(w: usize, h: usize, supersampling: usize) -> Result<
        Canvas,
        CanvasError,
    > {
        if w == 0 || h == 0 || supersampling == 0 {
            Err(CanvasError::ZeroDimension)
        } else if buffer_len_of(w as int, h as int, supersampling as int) > isize::MAX {
            Err(CanvasError::TooLarge)
        } else {
            Ok(
                Canvas {
                    w,
                    h,
                    supersampling,
                    sw: (supersampling * w) as usize,
                    sh: (supersampling * h) as usize,
                },
            )
        }
    }

    /// Builds the canvas for a `w` by `h` image sampled `supersampling` times
    /// along each axis, and refuses dimensions that have no pixel buffer.
    pub fn new(w: usize, h: usize, supersampling: usize) -> (r: Result<Canvas, CanvasError>)
        ensures
            r == Canvas::spec_new(w, h, supersampling),
            r matches Ok(canvas) ==> canvas.wf(),
    {
        if w == 0 || h == 0 || supersampling == 0 {
            return Err(CanvasError::ZeroDimension);
        }
        let ghost sw_int: int = supersampling * w;
        let ghost sh_int: int = supersampling * h;
        assert(sw_int >= 1 && sh_int >= 1) by (nonlinear_arith)
            requires
                sw_int == supersampling * w,
                sh_int == supersampling * h,
                w >= 1,
                h >= 1,
                supersampling >= 1,
        ;
        assert(sw_int * sh_int >= sw_int && sw_int * sh_int >= sh_int) by (nonlinear_arith)
            requires
                sw_int >= 1,
                sh_int >= 1,
        ;
        let sw = match supersampling.checked_mul(w) {
            Some(sw) => sw,
            None => {
                return Err(CanvasError::TooLarge);
            },
        };
        let sh = match supersampling.checked_mul(h) {
            Some(sh) => sh,
            None => {
                return Err(CanvasError::TooLarge);
            },
        };
        let pixels = match sw.checked_mul(sh) {
            Some(pixels) => pixels,
            None => {
                return Err(CanvasError::TooLarge);
            },
        };
        match pixels.checked_mul(CHANNELS) {
            Some(bytes) if bytes <= isize::MAX as usize => Ok(
                Canvas { w, h, supersampling, sw, sh },
            ),
            _ => Err(CanvasError::TooLarge),
        }
    }

    /// Number of supersampled pixels.
    pub fn pixel_count(&self) -> (n: usize)
        requires
            self.wf(),
        ensures
            n == self.spec_pixel_count(),
    {
        self.sw * self.sh
    }

    /// Byte length of the pixel buffer.
    pub fn buffer_len(&self) -> (n: usize)
        requires
            self.wf(),
        ensures
            n == self.spec_buffer_len(),
    {
        self.sw * self.sh * CHANNELS
    }

    /// The column and row of the pixel with linear index `i`, rows first:
    /// the row is `i / sw` and the column is `i mod sw`.
    pub fn position(&self, i: usize) -> (p: (usize, usize))
        requires
            self.wf(),
            i < self.spec_pixel_count(),
        ensures
            p.0 == i % self.sw,
            p.1 == i / self.sw,
            p.0 == self.column_of(i as int),
            p.1 == self.row_of(i as int),
            p.0 < self.sw,
            p.1 < self.sh,
            p.1 * self.sw + p.0 == i,
    {
        let py = i / self.sw;
        proof {
            lemma_row_in_range(i as int, self.sw as int, self.sh as int);
        }
        let px = i - py * self.sw;
        (px, py)
    }
}

/// Supersampling keeps the shape of the image: the supersampled width is to
/// the supersampled height as the target width is to the target height.
pub proof fn lemma_aspect_kept(canvas: Canvas)
    requires
        canvas.wf(),
    ensures
        canvas.sw * canvas.h == canvas.sh * canvas.w,
{
    assert((canvas.supersampling * canvas.w) * canvas.h == (canvas.supersampling * canvas.h)
        * canvas.w) by (nonlinear_arith);
}

/// Dividing a linear index below `sw * sh` by `sw` gives a row below `sh`,
/// and the row and the remainder rebuild the index.
pub proof fn lemma_row_in_range(i: int, sw: int, sh: int)
    requires
        sw >= 1,
        0 <= i < sw * sh,
    ensures
        0 <= i / sw < sh,
        0 <= i % sw < sw,
        (i / sw) * sw + i % sw == i,
        i - (i / sw) * sw == i % sw,
{
    vstd::arithmetic::div_mod::lemma_fundamental_div_mod(i, sw);
    vstd::arithmetic::div_mod::lemma_div_pos_is_pos(i, sw);
    vstd::arithmetic::div_mod::lemma_mod_bound(i, sw);
    if i / sw >= sh {
        assert((i / sw) * sw >= sh * sw) by (nonlinear_arith)
            requires
                i / sw >= sh,
                sw >= 1,
        ;
    }
}

} // verus!
