//! The decisions around the three system calls that make a shared mapping:
//! creating an anonymous file, setting its length, and mapping it.
//!
//! Each call is made by the caller of this library. What is decided here is
//! what to hand to the call, and what its answer means: the return value and,
//! where that is -1, the error code that the call left behind.
use vstd::prelude::*;
use vstd::string::StringSliceAdditionalSpecFns;

use crate::buffer::errno::{
    eacces, eagain, ebadf, eexist, efault, efbig, eintr, einval, eio, emfile, enfile, enodev,
    enomem, eoverflow, eperm, etxtbsy, map_shared, prot_read, prot_write, EACCES, EAGAIN, EBADF,
    EEXIST, EFAULT, EFBIG, EINTR, EINVAL, EIO, EMFILE, ENFILE, ENODEV, ENOMEM, EOVERFLOW, EPERM,
    ETXTBSY, MAP_SHARED, PROT_READ, PROT_WRITE,
};

verus! {

/// Why no anonymous file was created.
#[derive(Clone, Copy, Debug, PartialEq, Eq, Structural)]
pub enum MemFdError {
    /// The name cannot be handed to the call.
    NameError,
    /// The call refused its arguments. Every failure that the call is not
    /// known for counts as this one.
    ArgumentError,
    /// The process or the system has no descriptor left.
    FdLimitReached,
    /// The system has no memory left for the file.
    OutOfMem,
    /// The caller may not create such a file.
    PermError,
}

/// Why the length of a file was not set.
#[derive(Clone, Copy, Debug, PartialEq, Eq, Structural)]
pub enum FTruncError {
    /// A signal interrupted the call. The caller may ask again.
    Interrupted,
    /// The length is larger than a file may be.
    LengthError,
    /// The device failed, or the system could not change the file for a
    /// reason of its own. Every failure that the call is not known for counts
    /// as this one.
    IoError,
    /// The descriptor is not open for writing.
    BadFd,
    /// The length is negative, or the descriptor is none of a file: the system
    /// gives one code for both.
    BadLengthOrBadFd,
}

/// Why a file was not mapped.
#[derive(Clone, Copy, Debug, PartialEq, Eq, Structural)]
pub enum MMapError {
    /// The file does not allow the protection that was asked for.
    ProtectionError,
    /// A limit on memory, locks, mappings or open files was reached.
    LimitError,
    /// The descriptor is not one that can be mapped.
    BadFd,
    /// The address range is taken.
    MappingConflict,
    /// The call refused its arguments. Every failure that the call is not
    /// known for counts as this one.
    ArgumentError,
    /// The file system of the file does not map memory.
    FsError,
    /// A seal or a mount option forbids the mapping.
    PermError,
}

/// The kind of failure that `errno` stands for after creating an anonymous
/// file failed. A code that the call is not known to give counts as refused
/// arguments.
pub open spec fn memfd_error_of(errno: i32) -> MemFdError {
    if errno == EPERM {
        MemFdError::PermError
    } else if errno == ENOMEM {
        MemFdError::OutOfMem
    } else if errno == EFAULT {
        MemFdError::NameError
    } else if errno == EINVAL {
        MemFdError::ArgumentError
    } else if errno == ENFILE || errno == EMFILE {
        MemFdError::FdLimitReached
    } else {
        MemFdError::ArgumentError
    }
}

/// The kind of failure that `errno` stands for after setting a length failed.
/// A code that the call is not known to give counts as a failure of the
/// device: the file is as it was, and asking again is not known to help.
pub open spec fn ftrunc_error_of(errno: i32) -> FTruncError {
    if errno == EINTR {
        FTruncError::Interrupted
    } else if errno == EIO {
        FTruncError::IoError
    } else if errno == EBADF {
        FTruncError::BadFd
    } else if errno == EINVAL {
        FTruncError::BadLengthOrBadFd
    } else if errno == EFBIG {
        FTruncError::LengthError
    } else {
        FTruncError::IoError
    }
}

/// The kind of failure that `errno` stands for after mapping failed. A code
/// that the call is not known to give counts as refused arguments.
pub open spec fn mmap_error_of(errno: i32) -> MMapError {
    if errno == EACCES {
        MMapError::ProtectionError
    } else if errno == EAGAIN || errno == ENFILE || errno == ENOMEM || errno == EOVERFLOW {
        MMapError::LimitError
    } else if errno == EBADF || errno == ETXTBSY {
        MMapError::BadFd
    } else if errno == EEXIST {
        MMapError::MappingConflict
    } else if errno == EINVAL {
        MMapError::ArgumentError
    } else if errno == ENODEV {
        MMapError::FsError
    } else if errno == EPERM {
        MMapError::PermError
    } else {
        MMapError::ArgumentError
    }
}

/// Names the failure behind the error code of a failed `memfd_create`,
/// whatever the code.
pub fn memfd_error(errno: i32) -> (kind: MemFdError)
    ensures
        kind == memfd_error_of(errno),
{
    if errno == eperm() {
        MemFdError::PermError
    } else if errno == enomem() {
        MemFdError::OutOfMem
    } else if errno == efault() {
        MemFdError::NameError
    } else if errno == einval() {
        MemFdError::ArgumentError
    } else if errno == enfile() || errno == emfile() {
        MemFdError::FdLimitReached
    } else {
        MemFdError::ArgumentError
    }
}

/// Names the failure behind the error code of a failed `ftruncate`, whatever
/// the code.
pub fn ftrunc_error(errno: i32) -> (kind: FTruncError)
    ensures
        kind == ftrunc_error_of(errno),
{
    if errno == eintr() {
        FTruncError::Interrupted
    } else if errno == eio() {
        FTruncError::IoError
    } else if errno == ebadf() {
        FTruncError::BadFd
    } else if errno == einval() {
        FTruncError::BadLengthOrBadFd
    } else if errno == efbig() {
        FTruncError::LengthError
    } else {
        FTruncError::IoError
    }
}

/// Names the failure behind the error code of a failed `mmap`, whatever the
/// code.
pub fn mmap_error(errno: i32) -> (kind: MMapError)
    ensures
        kind == mmap_error_of(errno),
{
    if errno == eacces() {
        MMapError::ProtectionError
    } else if errno == eagain() || errno == enfile() || errno == enomem() || errno == eoverflow() {
        MMapError::LimitError
    } else if errno == ebadf() || errno == etxtbsy() {
        MMapError::BadFd
    } else if errno == eexist() {
        MMapError::MappingConflict
    } else if errno == einval() {
        MMapError::ArgumentError
    } else if errno == enodev() {
        MMapError::FsError
    } else if errno == eperm() {
        MMapError::PermError
    } else {
        MMapError::ArgumentError
    }
}

/// An open descriptor of an anonymous file, with the length that the file was
/// given. Whoever holds the value owns the descriptor: it is neither copied
/// nor cloned, and it leaves the library only to be closed.
#[derive(Debug)]
pub struct Descriptor {
    fd: i32,
    length: i64,
}

impl Descriptor {
    /// The number of the descriptor.
    pub closed spec fn spec_fd(&self) -> i32 {
        self.fd
    }

    /// The length that the file was last given; 0 for a file just created.
    pub closed spec fn spec_length(&self) -> i64 {
        self.length
    }

    /// The number of the descriptor, as the system calls take it.
    #[verifier::when_used_as_spec(spec_fd)]
    pub fn fd(&self) -> (fd: i32)
        ensures
            fd == self.spec_fd(),
    {
        self.fd
    }

    /// The length that the file was last given; 0 for a file just created.
    #[verifier::when_used_as_spec(spec_length)]
    pub fn length(&self) -> (length: i64)
        ensures
            length == self.spec_length(),
    {
        self.length
    }
}

/// A mapped region of memory. A segment is made of what a mapping returned,
/// by [`map_file`] alone, and its bytes are read and written through it only:
/// the region never leaves the segment.
#[derive(Debug)]
pub struct MMapSegment(&'static mut [u8]);

impl MMapSegment {
    /// The bytes of the region, in the order of their addresses.
    pub closed spec fn view(&self) -> Seq<u8> {
        self.0@
    }

    /// The number of bytes in the region.
    pub fn len(&self) -> (n: usize)
        ensures
            n == self@.len(),
    {
        self.0.len()
    }

    /// The bytes of the region.
    pub fn as_slice(&self) -> (bytes: &[u8])
        ensures
            bytes@ == self@,
    {
        self.0
    }

    /// The bytes of the region, to be written through.
    pub fn as_mut_slice(&mut self) -> (bytes: &mut [u8])
        ensures
            bytes@ == old(self)@,
            final(self)@ == final(bytes)@,
    {
        &mut *self.0
    }

    /// The byte at `index`.
    pub fn get(&self, index: usize) -> (byte: u8)
        requires
            index < self@.len(),
        ensures
            byte == self@[index as int],
    {
        self.0[index]
    }

    /// Stores `byte` at `index`.
    pub fn set(&mut self, index: usize, byte: u8)
        requires
            index < old(self)@.len(),
        ensures
            final(self)@ == old(self)@.update(index as int, byte),
    {
        self.0[index] = byte;
    }

    /// Sets every byte of the region to zero.
    pub fn clear(&mut self)
        ensures
            final(self)@ == Seq::new(old(self)@.len(), |i: int| 0u8),
    {
        let n = self.0.len();
        let mut i: usize = 0;
        while i < n
            invariant
                n == self.0@.len(),
                n == old(self)@.len(),
                i <= n,
                forall|j: int| 0 <= j < i ==> self.0@[j] == 0,
            decreases n - i,
        {
            self.0[i] = 0;
            i += 1;
        }
        assert(self.0@ =~= Seq::new(old(self)@.len(), |i: int| 0u8));
    }
}

/// The name that a file is created under when the caller gives none.
pub open spec fn placeholder_name() -> Seq<char> {
    "placeholder"@
}

/// Whether a name can be handed to the call that creates the file: it can
/// unless one of its bytes is zero.
pub open spec fn name_is_valid(name: &str) -> bool {
    forall|i: int| 0 <= i < name.spec_bytes().len() ==> name.spec_bytes()[i] != 0
}

/// The name to create an anonymous file under: `name`, or the placeholder
/// where there is none. A name with a zero byte in it is refused.
pub fn temp_file_name<'a>(name: Option<&'a str>) -> (checked: Result<&'a str, MemFdError>)
    ensures
        match name {
            Some(given) => if name_is_valid(given) {
                checked == Ok::<&str, MemFdError>(given)
            } else {
                checked == Err::<&str, MemFdError>(MemFdError::NameError)
            },
            None => checked matches Ok(chosen) && chosen@ == placeholder_name(),
        },
{
    match name {
        Some(given) => {
            let bytes = given.as_bytes();
            let mut i: usize = 0;
            while i < bytes.len()
                invariant
                    name == Some(given),
                    bytes@ == given.spec_bytes(),
                    i <= bytes@.len(),
                    forall|j: int| 0 <= j < i ==> bytes@[j] != 0,
                decreases bytes@.len() - i,
            {
                if bytes[i] == 0 {
                    assert(given.spec_bytes()[i as int] == 0);
                    return Err(MemFdError::NameError);
                }
                i += 1;
            }
            Ok(given)
        },
        None => Ok("placeholder"),
    }
}

/// Decides what creating the anonymous file came to. `ret` is what
/// `memfd_create` returned and `errno` the error code it left where `ret` is
/// -1; any other `ret` is the new descriptor, of a file of length 0.
pub fn create_temp_file(ret: i32, errno: i32) -> (created: Result<Descriptor, MemFdError>)
    ensures
        ret == -1 ==> created == Err::<Descriptor, MemFdError>(memfd_error_of(errno)),
        ret != -1 ==> (created matches Ok(file) && file.fd() == ret && file.length() == 0),
{
    if ret == -1 {
        Err(memfd_error(errno))
    } else {
        Ok(Descriptor { fd: ret, length: 0 })
    }
}

/// Decides what setting the length of `file` to `length` came to. `ret` is
/// what `ftruncate` returned and `errno` the error code it left where `ret` is
/// -1. The file has the new length after a success, and is as it was after a
/// failure.
pub fn truncate_file(file: &mut Descriptor, length: i64, ret: i32, errno: i32) -> (done: Result<
    (),
    FTruncError,
>)
    ensures
        final(file).fd() == old(file).fd(),
        ret == -1 ==> done == Err::<(), FTruncError>(ftrunc_error_of(errno))
            && *final(file) == *old(file),
        ret != -1 ==> done == Ok::<(), FTruncError>(()) && final(file).length() == length,
{
    if ret == -1 {
        Err(ftrunc_error(errno))
    } else {
        file.length = length;
        Ok(())
    }
}

/// The flags that an anonymous file is created with: none.
pub fn create_flags() -> (flags: u32)
    ensures
        flags == 0,
{
    0
}

/// The place in the file at which a mapping begins: its first byte.
pub fn map_offset() -> (offset: i64)
    ensures
        offset == 0,
{
    0
}

/// The protection that a mapping is asked for: its pages may be read and
/// written.
pub fn map_protection() -> (protection: i32)
    ensures
        protection == PROT_READ | PROT_WRITE,
        protection == 3,
{
    assert(1i32 | 2i32 == 3i32) by (bit_vector);
    prot_read() | prot_write()
}

/// The flags that a mapping is asked for: it is shared, so that what is
/// written reaches whoever else maps the file.
pub fn map_flags() -> (flags: i32)
    ensures
        flags == MAP_SHARED,
{
    map_shared()
}

/// Decides what mapping `size` bytes of `file` came to. `outcome` is the
/// region that `mmap` returned, or the error code it left where it failed.
/// The file is as it was either way.
pub fn map_file(
    file: &mut Descriptor,
    size: usize,
    outcome: Result<&'static mut [u8], i32>,
) -> (mapped: Result<MMapSegment, MMapError>)
    requires
        outcome matches Ok(region) ==> region@.len() == size,
    ensures
        *final(file) == *old(file),
        outcome matches Ok(region) ==> (mapped matches Ok(segment) && segment@ == region@),
        outcome matches Err(errno) ==> mapped == Err::<MMapSegment, MMapError>(
            mmap_error_of(errno),
        ),
{
    match outcome {
        Ok(region) => Ok(MMapSegment(region)),
        Err(errno) => Err(mmap_error(errno)),
    }
}

} // verus!
