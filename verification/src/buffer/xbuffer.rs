//! The pixel buffer on the heap, in the byte order that an X server takes.
use vstd::prelude::*;

use crate::buffer::{
    byte_size, checked_byte_size, dimensions_fit, is_blank, is_zero, lemma_row_within,
    subslice_mut, DimensionError, IndexError, Pixel, PixelBuffer,
};

verus! {

/// A pixel of four bytes in the order blue, green, red, and a fourth byte
/// that stands where alpha would.
#[derive(Clone, Copy, Debug)]
pub struct BGRX([u8; 4]);

impl BGRX {
    /// The four bytes of the pixel, as they lie in memory.
    pub closed spec fn view(&self) -> Seq<u8> {
        self.0@
    }

    /// The four bytes of the pixel, as they lie in memory.
    pub fn bytes(&self) -> (bytes: [u8; 4])
        ensures
            bytes@ == self@,
    {
        self.0
    }

    /// A pixel has four bytes.
    pub proof fn lemma_len(&self)
        ensures
            self@.len() == 4,
    {
    }
}

impl Default for BGRX {
    /// The pixel whose four bytes are zero.
    fn default() -> (pixel: BGRX)
        ensures
            pixel@ == seq![0u8, 0u8, 0u8, 0u8],
            is_zero(pixel),
    {
        let pixel = BGRX([0u8, 0u8, 0u8, 0u8]);
        assert(pixel@ =~= seq![0u8, 0u8, 0u8, 0u8]);
        pixel
    }
}

impl Pixel for BGRX {
    open spec fn spec_red(&self) -> u8 {
        self@[2]
    }

    open spec fn spec_green(&self) -> u8 {
        self@[1]
    }

    open spec fn spec_blue(&self) -> u8 {
        self@[0]
    }

    open spec fn spec_alpha(&self) -> u8 {
        self@[3]
    }

    fn red(&self) -> (r: u8)
        ensures
            r == self@[2],
    {
        self.0[2]
    }

    fn green(&self) -> (g: u8)
        ensures
            g == self@[1],
    {
        self.0[1]
    }

    fn blue(&self) -> (b: u8)
        ensures
            b == self@[0],
    {
        self.0[0]
    }

    fn alpha(&self) -> (a: u8)
        ensures
            a == self@[3],
    {
        self.0[3]
    }

    fn set_red(&mut self, r: u8)
        ensures
            final(self)@ == old(self)@.update(2, r),
    {
        self.0[2] = r;
    }

    fn set_green(&mut self, g: u8)
        ensures
            final(self)@ == old(self)@.update(1, g),
    {
        self.0[1] = g;
    }

    fn set_blue(&mut self, b: u8)
        ensures
            final(self)@ == old(self)@.update(0, b),
    {
        self.0[0] = b;
    }

    fn set_alpha(&mut self, a: u8)
        ensures
            final(self)@ == old(self)@.update(3, a),
    {
        self.0[3] = a;
    }
}

/// The bytes of `pixels` in one sequence: the four bytes of the first pixel,
/// then those of the second, and so on.
pub open spec fn flat_bytes(pixels: Seq<BGRX>) -> Seq<u8> {
    Seq::new(pixels.len() * 4, |i: int| pixels[i / 4]@[i % 4])
}

/// The bytes of zero pixels are zero: where every channel of each of `pixels`
/// is zero, so is every one of their bytes.
pub proof fn lemma_blank_bytes(pixels: Seq<BGRX>, width: usize, height: usize)
    requires
        is_blank(pixels, width, height),
    ensures
        flat_bytes(pixels) == Seq::new(byte_size(width as nat, height as nat), |i: int| 0u8),
{
    let zeros = Seq::new(byte_size(width as nat, height as nat), |i: int| 0u8);
    assert(flat_bytes(pixels).len() == zeros.len()) by (nonlinear_arith)
        requires
            flat_bytes(pixels).len() == pixels.len() * 4,
            pixels.len() == width * height,
            zeros.len() == width * height * 4,
    ;
    assert forall|i: int| 0 <= i < flat_bytes(pixels).len() implies flat_bytes(pixels)[i]
        == 0u8 by {
        let pixel = pixels[i / 4];
        assert(is_zero(pixel));
        pixel.lemma_len();
    }
    assert(flat_bytes(pixels) =~= zeros);
}

/// A buffer of pixels on the heap. Indexing it by a row gives the pixels of
/// that row.
#[derive(Debug)]
pub struct XBuffer {
    backing: Vec<BGRX>,
    height: usize,
    width: usize,
}

impl XBuffer {
    /// The pixels, row after row.
    pub closed spec fn view(&self) -> Seq<BGRX> {
        self.backing@
    }

    /// As many zero pixels as `width` by `height` take, in `backing`.
    fn blank(backing: Vec<BGRX>, width: usize, height: usize) -> (made: Result<
        XBuffer,
        DimensionError,
    >)
        ensures
            dimensions_fit(width, height) <==> made is Ok,
            made matches Err(e) ==> e == (DimensionError { width, height }),
            made matches Ok(buffer) ==> {
                &&& buffer.wf()
                &&& buffer.spec_width() == width
                &&& buffer.spec_height() == height
                &&& is_blank(buffer.pixels(), width, height)
            },
    {
        match checked_byte_size(width, height) {
            Ok(_) => {
                assert(width * height <= width * height * 4) by (nonlinear_arith);
                let mut backing = backing;
                backing.clear();
                backing.resize(width * height, BGRX::default());
                Ok(XBuffer { backing, height, width })
            },
            Err(e) => Err(e),
        }
    }

    /// All the pixels, row after row, as they lie in memory: nothing is
    /// copied.
    pub fn as_pixels(&self) -> (pixels: &[BGRX])
        ensures
            pixels@ == self@,
    {
        self.backing.as_slice()
    }

    /// The pixels of row `index`, to be written through: what indexing by a
    /// row gives where the row is to be written, but that a row beyond the
    /// height is refused. The other rows stay as they are.
    pub fn index_mut(&mut self, index: usize) -> (pixels: Result<&mut [BGRX], IndexError>)
        requires
            old(self).wf(),
        ensures
            index < old(self).spec_height() <==> pixels is Ok,
            pixels matches Err(e) ==> e == (IndexError { row: index, height: old(self).spec_height() })
                && *final(self) == *old(self),
            pixels matches Ok(part) ==> {
                &&& part@.len() == old(self).spec_width()
                &&& part@ == old(self).pixels().subrange(
                    old(self).spec_width() * index,
                    old(self).spec_width() * (index + 1),
                )
                &&& final(self).pixels() == old(self).pixels().subrange(
                    0,
                    old(self).spec_width() * index,
                ) + final(part)@ + old(self).pixels().subrange(
                    old(self).spec_width() * (index + 1),
                    old(self).pixels().len() as int,
                )
                &&& final(self).spec_width() == old(self).spec_width()
                &&& final(self).spec_height() == old(self).spec_height()
                &&& final(part)@.len() == part@.len() ==> final(self).wf()
            },
    {
        self.row_mut(index)
    }

    /// All the bytes of the pixels, row after row and pixel after pixel, in
    /// the order in which an X server takes them, in a vector of their own.
    pub fn as_slice(&self) -> (bytes: Vec<u8>)
        requires
            self.wf(),
        ensures
            bytes@ == flat_bytes(self@),
            bytes@.len() == byte_size(self.spec_width() as nat, self.spec_height() as nat),
    {
        let n = self.backing.len();
        let mut bytes: Vec<u8> = Vec::with_capacity(n * 4);
        let mut i: usize = 0;
        while i < n
            invariant
                n == self.backing@.len(),
                n * 4 <= isize::MAX,
                i <= n,
                bytes@.len() == i * 4,
                forall|j: int| 0 <= j < i * 4 ==> bytes@[j] == self.backing@[j / 4]@[j % 4],
            decreases n - i,
        {
            let pixel = self.backing[i].bytes();
            bytes.push(pixel[0]);
            bytes.push(pixel[1]);
            bytes.push(pixel[2]);
            bytes.push(pixel[3]);
            i += 1;
        }
        assert(bytes@ =~= flat_bytes(self@));
        bytes
    }
}

impl Default for XBuffer {
    /// The buffer of no pixels.
    fn default() -> (buffer: XBuffer)
        ensures
            buffer.wf(),
            buffer.spec_width() == 0,
            buffer.spec_height() == 0,
            buffer@.len() == 0,
    {
        XBuffer { backing: Vec::new(), height: 0, width: 0 }
    }
}

impl PixelBuffer<BGRX> for XBuffer {
    closed spec fn wf(&self) -> bool {
        &&& self.backing@.len() == self.width * self.height
        &&& dimensions_fit(self.width, self.height)
    }

    closed spec fn spec_width(&self) -> usize {
        self.width
    }

    closed spec fn spec_height(&self) -> usize {
        self.height
    }

    open spec fn pixels(&self) -> Seq<BGRX> {
        self@
    }

    proof fn lemma_shape(&self) {
    }

    fn with_size(width: usize, height: usize) -> (made: Result<Self, DimensionError>) {
        XBuffer::blank(Vec::new(), width, height)
    }

    fn resize(self, new_width: usize, new_height: usize) -> (made: Result<Self, DimensionError>) {
        XBuffer::blank(self.backing, new_width, new_height)
    }

    fn height(&self) -> (height: usize) {
        self.height
    }

    fn width(&self) -> (width: usize) {
        self.width
    }

    fn row(&self, row: usize) -> (pixels: Result<&[BGRX], IndexError>) {
        if row < self.height {
            proof {
                lemma_row_within(row as nat, self.width as nat, self.height as nat);
            }
            let start = row * self.width;
            Ok(vstd::slice::slice_subrange(self.backing.as_slice(), start, start + self.width))
        } else {
            Err(IndexError { row, height: self.height })
        }
    }

    fn row_mut(&mut self, row: usize) -> (pixels: Result<&mut [BGRX], IndexError>) {
        if row < self.height {
            proof {
                lemma_row_within(row as nat, self.width as nat, self.height as nat);
            }
            let start = row * self.width;
            let end = start + self.width;
            Ok(subslice_mut(self.backing.as_mut_slice(), start, end))
        } else {
            Err(IndexError { row, height: self.height })
        }
    }
}

impl std::ops::Index<usize> for XBuffer {
    type Output = [BGRX];

    /// The pixels of row `index`, for a row that the buffer has.
    fn index(&self, index: usize) -> (pixels: &[BGRX])
        ensures
            pixels@.len() == self.spec_width(),
            pixels@ == self.pixels().subrange(
                self.spec_width() * index,
                self.spec_width() * (index + 1),
            ),
    {
        proof {
            lemma_row_within(index as nat, self.width as nat, self.height as nat);
        }
        let start = index * self.width;
        vstd::slice::slice_subrange(self.backing.as_slice(), start, start + self.width)
    }
}

impl vstd::std_specs::core::IndexSpecImpl<usize> for XBuffer {
    /// A buffer is indexed by a row that it has.
    open spec fn index_req(&self, index: &usize) -> bool {
        self.wf() && *index < self.spec_height()
    }
}

} // verus!
