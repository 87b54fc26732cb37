//! The pixel buffer that lives in a shared mapping over an anonymous file.
//!
//! A [`ShmVec`] owns the descriptor and the mapping together. It makes no
//! system call: [`ShmVec::next_request`] says what to ask of the operating
//! system next, and [`ShmVec::created`], [`ShmVec::truncated`] and
//! [`ShmVec::mapped`] take the answers. Whoever drives the buffer asks until
//! there is nothing left to ask.
use vstd::prelude::*;

use crate::buffer::errno::{MAP_SHARED, PROT_READ, PROT_WRITE};
use crate::buffer::util::{
    create_flags, create_temp_file, ftrunc_error_of, map_file, map_flags, map_offset,
    map_protection, memfd_error_of, mmap_error_of, placeholder_name, truncate_file, Descriptor,
    FTruncError, MMapError, MMapSegment, MemFdError,
};
use crate::buffer::{
    byte_size, checked_byte_size, dimensions_fit, lemma_row_bytes_within, lemma_row_within,
    subslice_mut, DimensionError, IndexError,
};

verus! {

/// Where a buffer stands between nothing and a mapping.
#[derive(Clone, Copy, Debug, PartialEq, Eq, Structural)]
pub enum Phase {
    /// No file has been created.
    Unopened,
    /// The file exists; its length has not been set.
    Created,
    /// The file has a length; none of it is mapped.
    Sized,
    /// The file is mapped.
    Mapped,
    /// The mapping and the descriptor have been given up.
    Released,
}

/// What comes next for a buffer, by kind.
#[derive(Clone, Copy, Debug, PartialEq, Eq, Structural)]
pub enum Step {
    /// Create the anonymous file.
    Create,
    /// Set the length of the file.
    SetLength,
    /// Map the file.
    MapFile,
    /// Unmap the region.
    Unmap,
    /// Close the descriptor.
    Close,
    /// Nothing: the buffer is where it is meant to be.
    Nothing,
}

/// What to ask of the operating system.
#[derive(Debug)]
#[allow(inconsistent_fields)]
pub enum Request {
    /// `memfd_create(name, flags)`. Answer with [`ShmVec::created`].
    CreateFile { name: &'static str, flags: u32 },
    /// `ftruncate(fd, length)`. Answer with [`ShmVec::truncated`].
    SetLength { fd: i32, length: i64 },
    /// `mmap(null, size, protection, flags, fd, offset)`. Answer with
    /// [`ShmVec::mapped`].
    MapFile { fd: i32, size: usize, protection: i32, flags: i32, offset: i64 },
    /// `munmap` of the region of this segment. The buffer has let go of it.
    Unmap { segment: MMapSegment },
    /// `close` of this descriptor. The buffer has let go of it.
    Close { file: Descriptor },
}

/// Why the bytes of a buffer were not reached.
#[derive(Clone, Copy, Debug, PartialEq, Eq, Structural)]
pub enum AccessError {
    /// The buffer has no mapping of its dimensions: it was never mapped, it
    /// was resized or a step on the way failed, or it was released.
    Unmapped,
    /// The buffer has no such row.
    Row(IndexError),
    /// The row has no such pixel: `column` is not below `width`.
    Column { column: usize, width: usize },
}

/// What the presentation side needs to show the bytes of a buffer: the file
/// and its size for the pool, the place of the image in it, and the handle of
/// the caller, as it was given.
#[derive(Debug)]
pub struct Registration<'a, Q> {
    /// The descriptor of the file that is mapped.
    pub fd: i32,
    /// The number of bytes of the file.
    pub capacity: usize,
    /// The byte of the file at which the image begins.
    pub offset: usize,
    /// The number of pixels in a row of the image.
    pub width: usize,
    /// The number of rows of the image.
    pub height: usize,
    /// The number of bytes from one row to the next.
    pub stride: usize,
    /// The handle that the buffer was made with.
    pub handle: &'a Q,
}

/// What a buffer holds of the operating system.
#[derive(Debug)]
enum Backing {
    Unopened,
    Created { file: Descriptor },
    Sized { file: Descriptor },
    Mapped { file: Descriptor, segment: MMapSegment },
    Released,
}

/// A buffer of pixels in a shared mapping, `width` pixels by `height` rows of
/// four bytes each, row after row.
#[derive(Debug)]
pub struct ShmVec<Q> {
    backing: Backing,
    width: usize,
    height: usize,
    size: usize,
    closing: bool,
    published: bool,
    handle: Q,
}

impl<Q> ShmVec<Q> {
    /// Where the buffer stands.
    pub closed spec fn phase(&self) -> Phase {
        match self.backing {
            Backing::Unopened => Phase::Unopened,
            Backing::Created { .. } => Phase::Created,
            Backing::Sized { .. } => Phase::Sized,
            Backing::Mapped { .. } => Phase::Mapped,
            Backing::Released => Phase::Released,
        }
    }

    /// The descriptor that the buffer holds, if it holds one.
    pub closed spec fn descriptor(&self) -> Option<Descriptor> {
        match self.backing {
            Backing::Created { file } => Some(file),
            Backing::Sized { file } => Some(file),
            Backing::Mapped { file, .. } => Some(file),
            _ => None,
        }
    }

    /// The bytes of the mapping; none where the buffer has no mapping.
    pub closed spec fn view(&self) -> Seq<u8> {
        match self.backing {
            Backing::Mapped { segment, .. } => segment@,
            _ => Seq::empty(),
        }
    }

    /// The number of pixels in a row.
    pub closed spec fn spec_width(&self) -> usize {
        self.width
    }

    /// The number of rows.
    pub closed spec fn spec_height(&self) -> usize {
        self.height
    }

    /// Whether the buffer has been released.
    pub closed spec fn spec_is_closing(&self) -> bool {
        self.closing
    }

    /// Whether the bytes are registered with the presentation side.
    pub closed spec fn spec_is_published(&self) -> bool {
        self.published
    }

    /// The handle that the buffer was made with.
    pub closed spec fn spec_handle(&self) -> Q {
        self.handle
    }

    /// The number of bytes that the pixels of the buffer take.
    pub open spec fn spec_size(&self) -> nat {
        byte_size(self.spec_width() as nat, self.spec_height() as nat)
    }

    /// Whether the pixels can be read and written: the buffer is mapped, the
    /// mapping has the size of its dimensions, and it has not been released.
    pub open spec fn spec_is_ready(&self) -> bool {
        &&& self.phase() == Phase::Mapped
        &&& !self.spec_is_closing()
        &&& self@.len() == self.spec_size()
    }

    /// What every buffer keeps to: its dimensions fit, a mapping covers the
    /// whole file and nothing else, and only bytes that can be reached are
    /// registered.
    pub closed spec fn wf(&self) -> bool {
        &&& dimensions_fit(self.width, self.height)
        &&& self.size == byte_size(self.width as nat, self.height as nat)
        &&& self.backing matches Backing::Mapped { file, segment } ==> segment@.len()
            == file.length()
        &&& self.published ==> self.spec_is_ready()
    }

    /// Whether two buffers differ in nothing but the bytes of their mapping.
    pub open spec fn same_but_bytes(&self, other: &Self) -> bool {
        &&& self.phase() == other.phase()
        &&& self.descriptor() == other.descriptor()
        &&& self.spec_width() == other.spec_width()
        &&& self.spec_height() == other.spec_height()
        &&& self.spec_is_closing() == other.spec_is_closing()
        &&& self.spec_is_published() == other.spec_is_published()
        &&& self.spec_handle() == other.spec_handle()
    }

    /// Where row `row` begins among the bytes.
    pub open spec fn row_start(&self, row: int) -> int {
        row * self.spec_width() * 4
    }

    /// Where the pixel at `column` of row `row` begins among the bytes.
    pub open spec fn pixel_start(&self, row: int, column: int) -> int {
        (row * self.spec_width() + column) * 4
    }

    /// What reaching for row `row` fails with, if it fails.
    pub open spec fn row_error(&self, row: usize) -> Option<AccessError> {
        if !self.spec_is_ready() {
            Some(AccessError::Unmapped)
        } else if row >= self.spec_height() {
            Some(AccessError::Row(IndexError { row, height: self.spec_height() }))
        } else {
            None
        }
    }

    /// What reaching for the pixel at `column` of row `row` fails with, if it
    /// fails.
    pub open spec fn pixel_error(&self, row: usize, column: usize) -> Option<AccessError> {
        if self.row_error(row) is Some {
            self.row_error(row)
        } else if column >= self.spec_width() {
            Some(AccessError::Column { column, width: self.spec_width() })
        } else {
            None
        }
    }

    /// What comes next: towards a mapping of the size of the dimensions, or,
    /// once released, towards nothing held. A mapping of another size is
    /// unmapped before the length of the file is set anew, and a descriptor
    /// is closed only when nothing is mapped.
    pub open spec fn next_step(&self) -> Step {
        match self.phase() {
            Phase::Unopened => if self.spec_is_closing() {
                Step::Nothing
            } else {
                Step::Create
            },
            Phase::Created => if self.spec_is_closing() {
                Step::Close
            } else {
                Step::SetLength
            },
            Phase::Sized => if self.spec_is_closing() {
                Step::Close
            } else if self.descriptor().unwrap().length() == self.spec_size() {
                Step::MapFile
            } else {
                Step::SetLength
            },
            Phase::Mapped => if self.spec_is_ready() {
                Step::Nothing
            } else {
                Step::Unmap
            },
            Phase::Released => Step::Nothing,
        }
    }

    /// A buffer of `width` by `height` pixels that holds nothing yet. The
    /// dimensions are refused where their bytes do not fit; `handle` is kept
    /// as it is, for the presentation side.
    pub fn with_size(width: usize, height: usize, handle: Q) -> (made: Result<Self, DimensionError>)
        ensures
            dimensions_fit(width, height) <==> made is Ok,
            made matches Err(e) ==> e == (DimensionError { width, height }),
            made matches Ok(buffer) ==> {
                &&& buffer.wf()
                &&& buffer.phase() == Phase::Unopened
                &&& buffer.spec_width() == width
                &&& buffer.spec_height() == height
                &&& !buffer.spec_is_closing()
                &&& !buffer.spec_is_published()
                &&& buffer.spec_handle() == handle
            },
    {
        match checked_byte_size(width, height) {
            Ok(size) => Ok(
                ShmVec {
                    backing: Backing::Unopened,
                    width,
                    height,
                    size,
                    closing: false,
                    published: false,
                    handle,
                },
            ),
            Err(e) => Err(e),
        }
    }

    /// The number of pixels in a row.
    #[verifier::when_used_as_spec(spec_width)]
    pub fn width(&self) -> (width: usize)
        ensures
            width == self.spec_width(),
    {
        self.width
    }

    /// The number of rows.
    #[verifier::when_used_as_spec(spec_height)]
    pub fn height(&self) -> (height: usize)
        ensures
            height == self.spec_height(),
    {
        self.height
    }

    /// The handle that the buffer was made with.
    pub fn handle(&self) -> (handle: &Q)
        ensures
            *handle == self.spec_handle(),
    {
        &self.handle
    }

    /// Whether the buffer has been released.
    #[verifier::when_used_as_spec(spec_is_closing)]
    pub fn is_closing(&self) -> (closing: bool)
        ensures
            closing == self.spec_is_closing(),
    {
        self.closing
    }

    /// Whether the bytes are registered with the presentation side.
    #[verifier::when_used_as_spec(spec_is_published)]
    pub fn is_published(&self) -> (published: bool)
        ensures
            published == self.spec_is_published(),
    {
        self.published
    }

    /// Where the buffer stands.
    pub fn current_phase(&self) -> (phase: Phase)
        ensures
            phase == self.phase(),
    {
        match &self.backing {
            Backing::Unopened => Phase::Unopened,
            Backing::Created { .. } => Phase::Created,
            Backing::Sized { .. } => Phase::Sized,
            Backing::Mapped { .. } => Phase::Mapped,
            Backing::Released => Phase::Released,
        }
    }

    /// Whether the pixels can be read and written.
    #[verifier::when_used_as_spec(spec_is_ready)]
    pub fn is_ready(&self) -> (ready: bool)
        requires
            self.wf(),
        ensures
            ready == self.spec_is_ready(),
    {
        match &self.backing {
            Backing::Mapped { segment, .. } => !self.closing && segment.len() == self.size,
            _ => false,
        }
    }

    /// The number of bytes that are mapped; 0 where nothing is.
    pub fn capacity(&self) -> (capacity: usize)
        ensures
            capacity == self@.len(),
    {
        match &self.backing {
            Backing::Mapped { segment, .. } => segment.len(),
            _ => 0,
        }
    }

    /// The number of bytes that can be read and written as pixels: those of
    /// the dimensions where the buffer is ready, none where it is not.
    pub fn len(&self) -> (len: usize)
        requires
            self.wf(),
        ensures
            len == if self.spec_is_ready() { self.spec_size() } else { 0 },
            len <= self@.len(),
    {
        if self.is_ready() {
            self.size
        } else {
            0
        }
    }

    /// What to ask of the operating system next, or `None` where the buffer
    /// is where it is meant to be. A request to create, to set the length or
    /// to map leaves the buffer as it is, until the answer is given. A request
    /// to unmap or to close hands over what is to be given up: the buffer no
    /// longer holds it.
    pub fn next_request(&mut self) -> (request: Option<Request>)
        requires
            old(self).wf(),
        ensures
            final(self).wf(),
            final(self).spec_width() == old(self).spec_width(),
            final(self).spec_height() == old(self).spec_height(),
            final(self).spec_is_closing() == old(self).spec_is_closing(),
            final(self).spec_handle() == old(self).spec_handle(),
            match old(self).next_step() {
                Step::Create => {
                    &&& request matches Some(Request::CreateFile { name, flags })
                    &&& name@ == placeholder_name()
                    &&& flags == 0
                    &&& *final(self) == *old(self)
                },
                Step::SetLength => {
                    &&& request matches Some(Request::SetLength { fd, length })
                    &&& fd == old(self).descriptor().unwrap().fd()
                    &&& length == old(self).spec_size()
                    &&& *final(self) == *old(self)
                },
                Step::MapFile => {
                    &&& request matches Some(
                        Request::MapFile { fd, size, protection, flags, offset },
                    )
                    &&& fd == old(self).descriptor().unwrap().fd()
                    &&& size == old(self).spec_size()
                    &&& protection == PROT_READ | PROT_WRITE
                    &&& flags == MAP_SHARED
                    &&& offset == 0
                    &&& *final(self) == *old(self)
                },
                Step::Unmap => {
                    &&& request matches Some(Request::Unmap { segment })
                    &&& segment@ == old(self)@
                    &&& final(self).phase() == Phase::Sized
                    &&& final(self).descriptor() == old(self).descriptor()
                    &&& !final(self).spec_is_published()
                },
                Step::Close => {
                    &&& request matches Some(Request::Close { file })
                    &&& Some(file) == old(self).descriptor()
                    &&& final(self).phase() == Phase::Released
                    &&& !final(self).spec_is_published()
                },
                Step::Nothing => request is None && *final(self) == *old(self),
            },
            old(self).next_step() == Step::Unmap || old(self).next_step() == Step::Close
                ==> final(self).requests_left() == old(self).requests_left() - 1,
            old(self).next_step() == Step::Nothing <==> old(self).requests_left() == 0,
    {
        let mut backing = Backing::Released;
        std::mem::swap(&mut self.backing, &mut backing);
        match backing {
            Backing::Unopened => {
                self.backing = Backing::Unopened;
                if self.closing {
                    None
                } else {
                    Some(Request::CreateFile { name: "placeholder", flags: create_flags() })
                }
            },
            Backing::Created { file } => {
                if self.closing {
                    Some(Request::Close { file })
                } else {
                    let request = Request::SetLength { fd: file.fd(), length: self.size as i64 };
                    self.backing = Backing::Created { file };
                    Some(request)
                }
            },
            Backing::Sized { file } => {
                if self.closing {
                    Some(Request::Close { file })
                } else if file.length() == self.size as i64 {
                    let request = Request::MapFile {
                        fd: file.fd(),
                        size: self.size,
                        protection: map_protection(),
                        flags: map_flags(),
                        offset: map_offset(),
                    };
                    self.backing = Backing::Sized { file };
                    Some(request)
                } else {
                    let request = Request::SetLength { fd: file.fd(), length: self.size as i64 };
                    self.backing = Backing::Sized { file };
                    Some(request)
                }
            },
            Backing::Mapped { file, segment } => {
                if !self.closing && segment.len() == self.size {
                    self.backing = Backing::Mapped { file, segment };
                    None
                } else {
                    self.backing = Backing::Sized { file };
                    self.published = false;
                    Some(Request::Unmap { segment })
                }
            },
            Backing::Released => None,
        }
    }

    /// Takes the answer to a request to create the file: what `memfd_create`
    /// returned, and the error code it left where that is -1. After a success
    /// the buffer holds the descriptor; after a failure it is as it was.
    pub fn created(&mut self, ret: i32, errno: i32) -> (done: Result<(), MemFdError>)
        requires
            old(self).wf(),
            old(self).phase() == Phase::Unopened,
        ensures
            final(self).wf(),
            ret == -1 ==> done == Err::<(), MemFdError>(memfd_error_of(errno))
                && *final(self) == *old(self),
            ret != -1 ==> {
                &&& done == Ok::<(), MemFdError>(())
                &&& final(self).phase() == Phase::Created
                &&& final(self).descriptor() matches Some(file)
                &&& file.fd() == ret
                &&& file.length() == 0
                &&& !old(self).spec_is_closing() ==> final(self).requests_left() == old(
                    self,
                ).requests_left() - 1
                &&& final(self).spec_width() == old(self).spec_width()
                &&& final(self).spec_height() == old(self).spec_height()
                &&& final(self).spec_is_closing() == old(self).spec_is_closing()
                &&& final(self).spec_is_published() == old(self).spec_is_published()
                &&& final(self).spec_handle() == old(self).spec_handle()
            },
    {
        match create_temp_file(ret, errno) {
            Ok(file) => {
                self.backing = Backing::Created { file };
                Ok(())
            },
            Err(kind) => Err(kind),
        }
    }

    /// Takes the answer to a request to set the length of the file to
    /// `length`: what `ftruncate` returned, and the error code it left where
    /// that is -1. After a success the file has that length; after a failure
    /// the buffer is as it was: it holds the descriptor and no mapping.
    pub fn truncated(&mut self, length: i64, ret: i32, errno: i32) -> (done: Result<
        (),
        FTruncError,
    >)
        requires
            old(self).wf(),
            old(self).phase() == Phase::Created || old(self).phase() == Phase::Sized,
        ensures
            final(self).wf(),
            ret == -1 ==> done == Err::<(), FTruncError>(ftrunc_error_of(errno))
                && *final(self) == *old(self),
            ret != -1 ==> {
                &&& done == Ok::<(), FTruncError>(())
                &&& final(self).phase() == Phase::Sized
                &&& final(self).descriptor() matches Some(file)
                &&& file.fd() == old(self).descriptor().unwrap().fd()
                &&& file.length() == length
                &&& old(self).next_step() == Step::SetLength && length == old(self).spec_size()
                    ==> final(self).requests_left() == old(self).requests_left() - 1
                &&& final(self).spec_width() == old(self).spec_width()
                &&& final(self).spec_height() == old(self).spec_height()
                &&& final(self).spec_is_closing() == old(self).spec_is_closing()
                &&& final(self).spec_is_published() == old(self).spec_is_published()
                &&& final(self).spec_handle() == old(self).spec_handle()
            },
    {
        let mut backing = Backing::Released;
        std::mem::swap(&mut self.backing, &mut backing);
        match backing {
            Backing::Created { file } => {
                let mut file = file;
                let done = truncate_file(&mut file, length, ret, errno);
                if done.is_ok() {
                    self.backing = Backing::Sized { file };
                } else {
                    self.backing = Backing::Created { file };
                }
                done
            },
            Backing::Sized { file } => {
                let mut file = file;
                let done = truncate_file(&mut file, length, ret, errno);
                self.backing = Backing::Sized { file };
                done
            },
            _ => vstd::pervasive::unreached(),
        }
    }

    /// Takes the answer to a request to map `size` bytes of the file: the
    /// region that `mmap` returned, or the error code it left where it failed.
    /// After a success the buffer holds the region, every byte of it set to
    /// zero; after a failure it is as it was: it holds the descriptor and no
    /// mapping.
    pub fn mapped(&mut self, size: usize, outcome: Result<&'static mut [u8], i32>) -> (done: Result<
        (),
        MMapError,
    >)
        requires
            old(self).wf(),
            old(self).phase() == Phase::Sized,
            outcome matches Ok(region) ==> region@.len() == size && size == old(
                self,
            ).descriptor().unwrap().length(),
        ensures
            final(self).wf(),
            outcome matches Err(errno) ==> done == Err::<(), MMapError>(mmap_error_of(errno))
                && *final(self) == *old(self),
            outcome is Ok ==> {
                &&& done == Ok::<(), MMapError>(())
                &&& final(self).phase() == Phase::Mapped
                &&& final(self)@ == Seq::new(size as nat, |i: int| 0u8)
                &&& old(self).next_step() == Step::MapFile ==> final(self).spec_is_ready()
                    && final(self).requests_left() == 0
                &&& final(self).descriptor() == old(self).descriptor()
                &&& final(self).spec_width() == old(self).spec_width()
                &&& final(self).spec_height() == old(self).spec_height()
                &&& final(self).spec_is_closing() == old(self).spec_is_closing()
                &&& final(self).spec_is_published() == old(self).spec_is_published()
                &&& final(self).spec_handle() == old(self).spec_handle()
            },
    {
        let mut backing = Backing::Released;
        std::mem::swap(&mut self.backing, &mut backing);
        match backing {
            Backing::Sized { file } => {
                let mut file = file;
                match map_file(&mut file, size, outcome) {
                    Ok(segment) => {
                        let mut segment = segment;
                        segment.clear();
                        self.backing = Backing::Mapped { file, segment };
                        Ok(())
                    },
                    Err(kind) => {
                        self.backing = Backing::Sized { file };
                        Err(kind)
                    },
                }
            },
            _ => vstd::pervasive::unreached(),
        }
    }

    /// Releases the buffer: from now on its bytes are not reached, and
    /// [`ShmVec::next_request`] leads to unmapping what is mapped and then to
    /// closing the descriptor. Nothing is handed over here, and a buffer that
    /// holds nothing stays where it is.
    pub fn release(&mut self)
        requires
            old(self).wf(),
        ensures
            final(self).wf(),
            final(self).spec_is_closing(),
            !final(self).spec_is_published(),
            !final(self).spec_is_ready(),
            final(self).phase() == old(self).phase(),
            final(self).descriptor() == old(self).descriptor(),
            final(self)@ == old(self)@,
            final(self).spec_width() == old(self).spec_width(),
            final(self).spec_height() == old(self).spec_height(),
            final(self).spec_handle() == old(self).spec_handle(),
    {
        self.closing = true;
        self.published = false;
    }

    /// Gives the buffer new dimensions. Dimensions that do not fit are
    /// refused, and the buffer is as it was. Else the pixels are lost: where
    /// the mapping has the size of the new dimensions every byte is set to
    /// zero, and where it has not the buffer is not ready until
    /// [`ShmVec::next_request`] has led to a new mapping. A registration of
    /// the bytes stays only where the number of bytes stays.
    pub fn resize(&mut self, width: usize, height: usize) -> (done: Result<(), DimensionError>)
        requires
            old(self).wf(),
        ensures
            final(self).wf(),
            !dimensions_fit(width, height) ==> done == Err::<(), DimensionError>(
                DimensionError { width, height },
            ) && *final(self) == *old(self),
            dimensions_fit(width, height) ==> {
                &&& done == Ok::<(), DimensionError>(())
                &&& final(self).spec_width() == width
                &&& final(self).spec_height() == height
                &&& final(self).phase() == old(self).phase()
                &&& final(self).descriptor() == old(self).descriptor()
                &&& final(self).spec_is_closing() == old(self).spec_is_closing()
                &&& final(self).spec_handle() == old(self).spec_handle()
                &&& final(self)@ == if final(self).spec_is_ready() {
                    Seq::new(old(self)@.len(), |i: int| 0u8)
                } else {
                    old(self)@
                }
                &&& final(self).spec_is_published() == (old(self).spec_is_published()
                    && final(self).spec_size() == old(self).spec_size())
            },
    {
        match checked_byte_size(width, height) {
            Ok(size) => {
                if size != self.size {
                    self.published = false;
                }
                self.width = width;
                self.height = height;
                self.size = size;
                let closing = self.closing;
                match &mut self.backing {
                    Backing::Mapped { segment, .. } => {
                        if !closing && segment.len() == size {
                            segment.clear();
                        }
                    },
                    _ => {},
                }
                Ok(())
            },
            Err(e) => Err(e),
        }
    }

    /// How many requests, each answered with a success, lead the buffer to
    /// where it is meant to be: three from nothing to a mapping, two from a
    /// mapping to nothing held.
    pub open spec fn requests_left(&self) -> nat {
        match self.phase() {
            Phase::Unopened => if self.spec_is_closing() {
                0
            } else {
                3
            },
            Phase::Created => if self.spec_is_closing() {
                1
            } else {
                2
            },
            Phase::Sized => if self.spec_is_closing() {
                1
            } else if self.descriptor().unwrap().length() == self.spec_size() {
                1
            } else {
                2
            },
            Phase::Mapped => if self.spec_is_ready() {
                0
            } else if self.spec_is_closing() {
                2
            } else {
                3
            },
            Phase::Released => 0,
        }
    }

    /// Notes that the bytes have been registered with the presentation side.
    /// Refused where the buffer is not ready.
    pub fn publish(&mut self) -> (done: Result<(), AccessError>)
        requires
            old(self).wf(),
        ensures
            final(self).wf(),
            final(self)@ == old(self)@,
            old(self).spec_is_ready() ==> done == Ok::<(), AccessError>(())
                && final(self).spec_is_published(),
            !old(self).spec_is_ready() ==> done == Err::<(), AccessError>(AccessError::Unmapped)
                && *final(self) == *old(self),
            final(self).phase() == old(self).phase(),
            final(self).descriptor() == old(self).descriptor(),
            final(self).spec_width() == old(self).spec_width(),
            final(self).spec_height() == old(self).spec_height(),
            final(self).spec_is_closing() == old(self).spec_is_closing(),
            final(self).spec_handle() == old(self).spec_handle(),
    {
        if self.is_ready() {
            self.published = true;
            Ok(())
        } else {
            Err(AccessError::Unmapped)
        }
    }

    /// What to hand to the presentation side so that it shows the bytes, or
    /// `None` where the buffer is not ready or has no pixel. The image begins
    /// at the first byte of the file and a row of it takes four bytes for each
    /// pixel.
    pub fn registration(&self) -> (registration: Option<Registration<'_, Q>>)
        requires
            self.wf(),
        ensures
            registration is Some <==> self.spec_is_ready() && self.spec_size() > 0,
            registration matches Some(r) ==> {
                &&& self.descriptor() matches Some(file)
                &&& r.fd == file.fd()
                &&& r.capacity == self.spec_size()
                &&& r.offset == 0
                &&& r.width == self.spec_width()
                &&& r.height == self.spec_height()
                &&& r.stride == self.spec_width() * 4
                &&& *r.handle == self.spec_handle()
            },
    {
        match &self.backing {
            Backing::Mapped { file, segment } => {
                if !self.closing && segment.len() == self.size && self.size > 0 {
                    proof {
                        let w = self.width as nat;
                        let h = self.height as nat;
                        assert(w * 4 <= w * h * 4) by (nonlinear_arith)
                            requires
                                w * h * 4 > 0,
                        ;
                    }
                    Some(
                        Registration {
                            fd: file.fd(),
                            capacity: self.size,
                            offset: 0,
                            width: self.width,
                            height: self.height,
                            stride: self.width * 4,
                            handle: &self.handle,
                        },
                    )
                } else {
                    None
                }
            },
            _ => None,
        }
    }

    /// All the bytes of the pixels, row after row. Refused where the buffer
    /// is not ready.
    pub fn as_slice(&self) -> (bytes: Result<&[u8], AccessError>)
        requires
            self.wf(),
        ensures
            self.spec_is_ready() ==> (bytes matches Ok(all) && all@ == self@),
            !self.spec_is_ready() ==> bytes == Err::<&[u8], AccessError>(AccessError::Unmapped),
    {
        match &self.backing {
            Backing::Mapped { segment, .. } => {
                if !self.closing && segment.len() == self.size {
                    Ok(segment.as_slice())
                } else {
                    Err(AccessError::Unmapped)
                }
            },
            _ => Err(AccessError::Unmapped),
        }
    }

    /// The bytes of row `row`: four for each pixel of the row. Refused where
    /// the buffer is not ready or has no such row.
    pub fn row(&self, row: usize) -> (bytes: Result<&[u8], AccessError>)
        requires
            self.wf(),
        ensures
            self.row_error(row) matches Some(e) ==> bytes == Err::<&[u8], AccessError>(e),
            self.row_error(row) is None ==> (bytes matches Ok(part) && part@ == self@.subrange(
                self.row_start(row as int),
                self.row_start(row + 1),
            ) && part@.len() == self.spec_width() * 4),
    {
        match &self.backing {
            Backing::Mapped { segment, .. } => {
                if self.closing || segment.len() != self.size {
                    Err(AccessError::Unmapped)
                } else if row >= self.height {
                    Err(AccessError::Row(IndexError { row, height: self.height }))
                } else {
                    proof {
                        lemma_row_bytes_within(row as nat, self.width as nat, self.height as nat);
                    }
                    let start = row * self.width * 4;
                    let end = start + self.width * 4;
                    Ok(vstd::slice::slice_subrange(segment.as_slice(), start, end))
                }
            },
            _ => Err(AccessError::Unmapped),
        }
    }

    /// The bytes of row `row`, to be written through: four for each pixel of
    /// the row. Refused where the buffer is not ready or has no such row. The
    /// other rows stay as they are.
    pub fn row_mut(&mut self, row: usize) -> (bytes: Result<&mut [u8], AccessError>)
        requires
            old(self).wf(),
        ensures
            old(self).row_error(row) matches Some(e) ==> bytes == Err::<&mut [u8], AccessError>(e)
                && *final(self) == *old(self),
            old(self).row_error(row) is None ==> {
                &&& bytes matches Ok(part)
                &&& part@ == old(self)@.subrange(
                    old(self).row_start(row as int),
                    old(self).row_start(row + 1),
                )
                &&& part@.len() == old(self).spec_width() * 4
                &&& final(self)@ == old(self)@.subrange(0, old(self).row_start(row as int))
                    + final(part)@ + old(self)@.subrange(
                    old(self).row_start(row + 1),
                    old(self)@.len() as int,
                )
                &&& final(self).same_but_bytes(old(self))
                &&& final(part)@.len() == part@.len() ==> final(self).wf()
            },
    {
        let closing = self.closing;
        let size = self.size;
        let width = self.width;
        let height = self.height;
        match &mut self.backing {
            Backing::Mapped { segment, .. } => {
                if closing || segment.len() != size {
                    Err(AccessError::Unmapped)
                } else if row >= height {
                    Err(AccessError::Row(IndexError { row, height }))
                } else {
                    proof {
                        lemma_row_bytes_within(row as nat, width as nat, height as nat);
                    }
                    let start = row * width * 4;
                    let end = start + width * 4;
                    Ok(subslice_mut(segment.as_mut_slice(), start, end))
                }
            },
            _ => Err(AccessError::Unmapped),
        }
    }

    /// The four bytes of the pixel at `column` of row `row`, as they lie in
    /// the mapping. Refused where the buffer is not ready or has no such
    /// pixel.
    pub fn get(&self, row: usize, column: usize) -> (pixel: Result<[u8; 4], AccessError>)
        requires
            self.wf(),
        ensures
            self.pixel_error(row, column) matches Some(e) ==> pixel == Err::<[u8; 4], AccessError>(
                e,
            ),
            self.pixel_error(row, column) is None ==> (pixel matches Ok(bytes) && bytes@
                == self@.subrange(
                self.pixel_start(row as int, column as int),
                self.pixel_start(row as int, column as int) + 4,
            )),
    {
        match &self.backing {
            Backing::Mapped { segment, .. } => {
                if self.closing || segment.len() != self.size {
                    Err(AccessError::Unmapped)
                } else if row >= self.height {
                    Err(AccessError::Row(IndexError { row, height: self.height }))
                } else if column >= self.width {
                    Err(AccessError::Column { column, width: self.width })
                } else {
                    proof {
                        lemma_row_within(row as nat, self.width as nat, self.height as nat);
                    }
                    let at = (row * self.width + column) * 4;
                    let bytes = [
                        segment.get(at),
                        segment.get(at + 1),
                        segment.get(at + 2),
                        segment.get(at + 3),
                    ];
                    assert(bytes@ =~= self@.subrange(at as int, at + 4));
                    Ok(bytes)
                }
            },
            _ => Err(AccessError::Unmapped),
        }
    }

    /// Stores the four bytes of `pixel` at `column` of row `row`. Refused
    /// where the buffer is not ready or has no such pixel. Every other pixel
    /// stays as it is.
    pub fn set(&mut self, row: usize, column: usize, pixel: [u8; 4]) -> (done: Result<
        (),
        AccessError,
    >)
        requires
            old(self).wf(),
        ensures
            final(self).wf(),
            final(self).same_but_bytes(old(self)),
            old(self).pixel_error(row, column) matches Some(e) ==> done == Err::<(), AccessError>(e)
                && *final(self) == *old(self),
            old(self).pixel_error(row, column) is None ==> {
                let at = old(self).pixel_start(row as int, column as int);
                &&& done == Ok::<(), AccessError>(())
                &&& final(self)@ == old(self)@.subrange(0, at) + pixel@ + old(self)@.subrange(
                    at + 4,
                    old(self)@.len() as int,
                )
            },
    {
        let closing = self.closing;
        let size = self.size;
        let width = self.width;
        let height = self.height;
        match &mut self.backing {
            Backing::Mapped { segment, .. } => {
                if closing || segment.len() != size {
                    Err(AccessError::Unmapped)
                } else if row >= height {
                    Err(AccessError::Row(IndexError { row, height }))
                } else if column >= width {
                    Err(AccessError::Column { column, width })
                } else {
                    proof {
                        lemma_row_within(row as nat, width as nat, height as nat);
                    }
                    let at = (row * width + column) * 4;
                    let ghost before = segment@;
                    segment.set(at, pixel[0]);
                    segment.set(at + 1, pixel[1]);
                    segment.set(at + 2, pixel[2]);
                    segment.set(at + 3, pixel[3]);
                    assert(segment@ =~= before.subrange(0, at as int) + pixel@ + before.subrange(
                        at + 4,
                        before.len() as int,
                    ));
                    Ok(())
                }
            },
            _ => Err(AccessError::Unmapped),
        }
    }
}

/// A buffer that has been released, or that holds no mapping, refuses every
/// reach for its bytes: no row and no pixel of it is read or written.
pub proof fn lemma_no_access_without_mapping<Q>(buffer: ShmVec<Q>, row: usize, column: usize)
    requires
        buffer.spec_is_closing() || buffer.phase() != Phase::Mapped,
    ensures
        !buffer.spec_is_ready(),
        buffer.row_error(row) == Some(AccessError::Unmapped),
        buffer.pixel_error(row, column) == Some(AccessError::Unmapped),
{
}

/// A buffer holds a descriptor from the creation of the file until the
/// descriptor is handed over to be closed, and holds bytes only while it is
/// mapped.
pub proof fn lemma_what_is_held<Q>(buffer: ShmVec<Q>)
    ensures
        buffer.descriptor() is Some <==> buffer.phase() == Phase::Created || buffer.phase()
            == Phase::Sized || buffer.phase() == Phase::Mapped,
        buffer.phase() != Phase::Mapped ==> buffer@.len() == 0,
{
}

/// The order of the steps. The file is mapped, and its length is set, only
/// while nothing is mapped: there are never two mappings of one descriptor,
/// and no mapping outlives the length it was made for. The descriptor is
/// closed only while nothing is mapped: unmapping comes first.
pub proof fn lemma_step_order<Q>(buffer: ShmVec<Q>)
    ensures
        buffer.next_step() == Step::Create ==> buffer.phase() == Phase::Unopened,
        buffer.next_step() == Step::SetLength ==> buffer.descriptor() is Some && buffer@.len() == 0,
        buffer.next_step() == Step::MapFile ==> buffer.phase() == Phase::Sized && buffer@.len() == 0
            && buffer.descriptor().unwrap().length() == buffer.spec_size(),
        buffer.next_step() == Step::Close ==> buffer.descriptor() is Some && buffer@.len() == 0,
        buffer.next_step() == Step::Unmap <==> buffer.phase() == Phase::Mapped
            && !buffer.spec_is_ready(),
{
}

/// Once released, a buffer is led to give up all it holds and nothing else:
/// what is mapped is unmapped, then the descriptor is closed, and nothing is
/// created, sized or mapped again.
pub proof fn lemma_release_gives_up<Q>(buffer: ShmVec<Q>)
    requires
        buffer.spec_is_closing(),
    ensures
        buffer.phase() == Phase::Mapped ==> buffer.next_step() == Step::Unmap,
        buffer.phase() == Phase::Created || buffer.phase() == Phase::Sized ==> buffer.next_step()
            == Step::Close,
        buffer.phase() == Phase::Unopened || buffer.phase() == Phase::Released
            ==> buffer.next_step() == Step::Nothing,
{
}

/// A failure to set the length, whatever its error code, leaves no mapping
/// and loses no descriptor. `before` is a buffer that awaits the answer,
/// `after` the buffer as the failure leaves it, which is as it was: it is not ready, it holds the same
/// descriptor and no bytes, and a release leads to closing that descriptor.
pub proof fn lemma_failed_truncate<Q>(before: ShmVec<Q>, after: ShmVec<Q>)
    requires
        before.phase() == Phase::Created || before.phase() == Phase::Sized,
        after == before,
    ensures
        !after.spec_is_ready(),
        after@.len() == 0,
        after.descriptor() is Some,
        after.descriptor() == before.descriptor(),
        after.spec_is_closing() ==> after.next_step() == Step::Close,
        !after.spec_is_closing() ==> after.next_step() == Step::SetLength || after.next_step()
            == Step::MapFile,
{
}

} // verus!
