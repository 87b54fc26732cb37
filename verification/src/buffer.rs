//! Buffers of pixels that are addressed by row.
//!
//! [`PixelBuffer`] is what every buffer offers, [`XBuffer`](xbuffer::XBuffer)
//! the buffer on the heap, and [`ShmVec`](wbuffer::ShmVec) the buffer in a
//! shared mapping.
use vstd::prelude::*;

pub mod errno;
pub mod util;
pub mod wbuffer;
pub mod xbuffer;

pub use xbuffer::{XBuffer, BGRX};

verus! {

/// The number of bytes that one pixel takes in every format of this library.
pub const PIXEL_SIZE: usize = 4;

/// Dimensions whose bytes no allocation can hold.
#[derive(Clone, Copy, Debug, PartialEq, Eq, Structural)]
pub struct DimensionError {
    /// The width that was asked for.
    pub width: usize,
    /// The height that was asked for.
    pub height: usize,
}

/// A row that the buffer does not have.
#[derive(Clone, Copy, Debug, PartialEq, Eq, Structural)]
pub struct IndexError {
    /// The row that was asked for.
    pub row: usize,
    /// The number of rows that the buffer has.
    pub height: usize,
}

/// A pixel of red, green, blue and alpha, one byte each, whatever the order
/// in which its format lays them down.
pub trait Pixel: Sized {
    /// The red of the pixel.
    spec fn spec_red(&self) -> u8;

    /// The green of the pixel.
    spec fn spec_green(&self) -> u8;

    /// The blue of the pixel.
    spec fn spec_blue(&self) -> u8;

    /// The alpha of the pixel.
    spec fn spec_alpha(&self) -> u8;

    /// The red of the pixel.
    fn red(&self) -> (r: u8)
        ensures
            r == self.spec_red(),
    ;

    /// The green of the pixel.
    fn green(&self) -> (g: u8)
        ensures
            g == self.spec_green(),
    ;

    /// The blue of the pixel.
    fn blue(&self) -> (b: u8)
        ensures
            b == self.spec_blue(),
    ;

    /// The alpha of the pixel.
    fn alpha(&self) -> (a: u8)
        ensures
            a == self.spec_alpha(),
    ;

    /// Stores the red of the pixel; the other channels stay.
    fn set_red(&mut self, r: u8)
        ensures
            final(self).spec_red() == r,
            final(self).spec_green() == old(self).spec_green(),
            final(self).spec_blue() == old(self).spec_blue(),
            final(self).spec_alpha() == old(self).spec_alpha(),
    ;

    /// Stores the green of the pixel; the other channels stay.
    fn set_green(&mut self, g: u8)
        ensures
            final(self).spec_red() == old(self).spec_red(),
            final(self).spec_green() == g,
            final(self).spec_blue() == old(self).spec_blue(),
            final(self).spec_alpha() == old(self).spec_alpha(),
    ;

    /// Stores the blue of the pixel; the other channels stay.
    fn set_blue(&mut self, b: u8)
        ensures
            final(self).spec_red() == old(self).spec_red(),
            final(self).spec_green() == old(self).spec_green(),
            final(self).spec_blue() == b,
            final(self).spec_alpha() == old(self).spec_alpha(),
    ;

    /// Stores the alpha of the pixel; the other channels stay.
    fn set_alpha(&mut self, a: u8)
        ensures
            final(self).spec_red() == old(self).spec_red(),
            final(self).spec_green() == old(self).spec_green(),
            final(self).spec_blue() == old(self).spec_blue(),
            final(self).spec_alpha() == a,
    ;
}

/// Whether every channel of the pixel is zero.
pub open spec fn is_zero<T: Pixel>(pixel: T) -> bool {
    &&& pixel.spec_red() == 0
    &&& pixel.spec_green() == 0
    &&& pixel.spec_blue() == 0
    &&& pixel.spec_alpha() == 0
}

/// Whether `pixels` are `width` times `height` pixels, every channel of each
/// of them zero.
pub open spec fn is_blank<T: Pixel>(pixels: Seq<T>, width: usize, height: usize) -> bool {
    &&& pixels.len() == width * height
    &&& forall|i: int| 0 <= i < pixels.len() ==> is_zero(#[trigger] pixels[i])
}

/// A buffer of `width` by `height` pixels in one piece of memory, row after
/// row: row `i` is the pixels from `width * i` up to `width * (i + 1)`.
pub trait PixelBuffer<T: Pixel>: Sized {
    /// What every buffer keeps to: it has as many pixels as its dimensions
    /// say, and their bytes fit.
    spec fn wf(&self) -> bool;

    /// The number of pixels in a row.
    spec fn spec_width(&self) -> usize;

    /// The number of rows.
    spec fn spec_height(&self) -> usize;

    /// The pixels, row after row.
    spec fn pixels(&self) -> Seq<T>;

    /// A buffer has as many pixels as its dimensions say, and their bytes
    /// fit.
    proof fn lemma_shape(&self)
        requires
            self.wf(),
        ensures
            self.pixels().len() == self.spec_width() * self.spec_height(),
            dimensions_fit(self.spec_width(), self.spec_height()),
    ;

    /// A buffer of `width` by `height` pixels, every channel of each zero.
    /// Dimensions that do not fit are refused.
    fn with_size(width: usize, height: usize) -> (made: Result<Self, DimensionError>)
        ensures
            dimensions_fit(width, height) <==> made is Ok,
            made matches Err(e) ==> e == (DimensionError { width, height }),
            made matches Ok(buffer) ==> {
                &&& buffer.wf()
                &&& buffer.spec_width() == width
                &&& buffer.spec_height() == height
                &&& is_blank(buffer.pixels(), width, height)
            },
    ;

    /// A buffer of the new dimensions in place of this one, every channel of
    /// each pixel zero: what the buffer held is lost. Dimensions that do not
    /// fit are refused, and the buffer is lost with them.
    fn resize(self, new_width: usize, new_height: usize) -> (made: Result<Self, DimensionError>)
        ensures
            dimensions_fit(new_width, new_height) <==> made is Ok,
            made matches Err(e) ==> e == (DimensionError { width: new_width, height: new_height }),
            made matches Ok(buffer) ==> {
                &&& buffer.wf()
                &&& buffer.spec_width() == new_width
                &&& buffer.spec_height() == new_height
                &&& is_blank(buffer.pixels(), new_width, new_height)
            },
    ;

    /// The number of rows.
    fn height(&self) -> (height: usize)
        ensures
            height == self.spec_height(),
    ;

    /// The number of pixels in a row.
    fn width(&self) -> (width: usize)
        ensures
            width == self.spec_width(),
    ;

    /// The pixels of row `row`. Refused where the buffer has no such row.
    fn row(&self, row: usize) -> (pixels: Result<&[T], IndexError>)
        requires
            self.wf(),
        ensures
            row < self.spec_height() <==> pixels is Ok,
            pixels matches Err(e) ==> e == (IndexError { row, height: self.spec_height() }),
            pixels matches Ok(part) ==> {
                &&& part@.len() == self.spec_width()
                &&& part@ == self.pixels().subrange(
                    self.spec_width() * row,
                    self.spec_width() * (row + 1),
                )
            },
    ;

    /// The pixels of row `row`, to be written through. Refused where the
    /// buffer has no such row. The other rows stay as they are.
    fn row_mut(&mut self, row: usize) -> (pixels: Result<&mut [T], IndexError>)
        requires
            old(self).wf(),
        ensures
            row < old(self).spec_height() <==> pixels is Ok,
            pixels matches Err(e) ==> e == (IndexError { row, height: old(self).spec_height() })
                && *final(self) == *old(self),
            pixels matches Ok(part) ==> {
                &&& part@.len() == old(self).spec_width()
                &&& part@ == old(self).pixels().subrange(
                    old(self).spec_width() * row,
                    old(self).spec_width() * (row + 1),
                )
                &&& final(self).pixels() == old(self).pixels().subrange(
                    0,
                    old(self).spec_width() * row,
                ) + final(part)@ + old(self).pixels().subrange(
                    old(self).spec_width() * (row + 1),
                    old(self).pixels().len() as int,
                )
                &&& final(self).spec_width() == old(self).spec_width()
                &&& final(self).spec_height() == old(self).spec_height()
                &&& final(part)@.len() == part@.len() ==> final(self).wf()
            },
    ;
}

/// The number of bytes that `width` times `height` pixels take.
pub open spec fn byte_size(width: nat, height: nat) -> nat {
    width * height * 4
}

/// Whether a buffer of these dimensions can exist: the bytes of its pixels
/// must not be more than one allocation or one mapping can hold.
pub open spec fn dimensions_fit(width: usize, height: usize) -> bool {
    byte_size(width as nat, height as nat) <= isize::MAX
}

/// The number of bytes that a buffer of these dimensions takes, or the error
/// for dimensions that do not fit. No product is left to wrap around.
pub fn checked_byte_size(width: usize, height: usize) -> (size: Result<usize, DimensionError>)
    ensures
        dimensions_fit(width, height) ==> size == Ok::<usize, DimensionError>(
            byte_size(width as nat, height as nat) as usize,
        ),
        !dimensions_fit(width, height) ==> size == Err::<usize, DimensionError>(
            DimensionError { width, height },
        ),
{
    let limit: usize = isize::MAX as usize;
    let too_large = Err(DimensionError { width, height });
    match width.checked_mul(height) {
        Some(pixels) => match pixels.checked_mul(PIXEL_SIZE) {
            Some(bytes) => if bytes <= limit {
                Ok(bytes)
            } else {
                too_large
            },
            None => too_large,
        },
        None => {
            assert(width * height * 4 >= width * height) by (nonlinear_arith);
            too_large
        },
    }
}

/// A row of a buffer lies within the buffer: the pixels before the end of row
/// `row` are no more than the pixels of `height` rows, and the row begins
/// `width` pixels before it ends.
pub proof fn lemma_row_within(row: nat, width: nat, height: nat)
    requires
        row < height,
    ensures
        0 <= row * width,
        row * width + width <= width * height,
        (row + 1) * width == row * width + width,
        width * row == row * width,
        width * (row + 1) == row * width + width,
{
    assert(0 <= row * width) by (nonlinear_arith);
    assert((row + 1) * width == row * width + width) by (nonlinear_arith);
    assert((row + 1) * width <= height * width) by (nonlinear_arith)
        requires
            row + 1 <= height,
    ;
    assert(height * width == width * height) by (nonlinear_arith);
    assert(width * row == row * width) by (nonlinear_arith);
    assert(width * (row + 1) == (row + 1) * width) by (nonlinear_arith);
}

/// The bytes of a row lie within the bytes of the buffer, four for each
/// pixel: row `row` begins at byte `row * width * 4` and ends `width * 4`
/// bytes later, where the next row begins.
pub proof fn lemma_row_bytes_within(row: nat, width: nat, height: nat)
    requires
        row < height,
    ensures
        0 <= row * width <= row * width * 4,
        row * width * 4 + width * 4 == (row + 1) * width * 4,
        (row * width + width) * 4 == (row + 1) * width * 4,
        (row + 1) * width * 4 <= byte_size(width, height),
{
    lemma_row_within(row, width, height);
    assert(row * width <= row * width * 4) by (nonlinear_arith)
        requires
            0 <= row * width,
    ;
    assert(row * width * 4 + width * 4 == (row + 1) * width * 4) by (nonlinear_arith);
    assert((row * width + width) * 4 == (row + 1) * width * 4) by (nonlinear_arith);
    assert((row * width + width) * 4 <= width * height * 4);
}

/// The part of `slice` from `start` up to `end`, to be written through. What
/// lies before and behind it stays as it is.
pub(crate) fn subslice_mut<T>(slice: &mut [T], start: usize, end: usize) -> (part: &mut [T])
    requires
        start <= end <= old(slice)@.len(),
    ensures
        part@ == old(slice)@.subrange(start as int, end as int),
        final(slice)@ == old(slice)@.subrange(0, start as int) + final(part)@ + old(
            slice,
        )@.subrange(end as int, old(slice)@.len() as int),
{
    let (_, rest) = slice.split_at_mut(start);
    let (part, _) = rest.split_at_mut(end - start);
    part
}

} // verus!
