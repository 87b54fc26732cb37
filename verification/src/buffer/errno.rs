//! The numbers of the operating system that the decisions of this library
//! read: error codes, and the flags of a shared read-write mapping.
//!
//! The contracts of the library speak of the constants below. The running code
//! takes each number from `libc`, through one function per constant whose
//! contract is believed, not proved: that `libc` gives the constant this
//! number. The numbers are those of Linux on x86_64; all but `EOVERFLOW` are
//! the same on every Linux target of `libc`.
use vstd::prelude::*;

verus! {

/// Operation not permitted.
pub const EPERM: i32 = 1;

/// Interrupted system call.
pub const EINTR: i32 = 4;

/// Input/output error.
pub const EIO: i32 = 5;

/// Bad file descriptor.
pub const EBADF: i32 = 9;

/// Resource temporarily unavailable.
pub const EAGAIN: i32 = 11;

/// Cannot allocate memory.
pub const ENOMEM: i32 = 12;

/// Permission denied.
pub const EACCES: i32 = 13;

/// Bad address.
pub const EFAULT: i32 = 14;

/// File exists.
pub const EEXIST: i32 = 17;

/// No such device.
pub const ENODEV: i32 = 19;

/// Invalid argument.
pub const EINVAL: i32 = 22;

/// Too many open files in the system.
pub const ENFILE: i32 = 23;

/// Too many open files in the process.
pub const EMFILE: i32 = 24;

/// Text file busy.
pub const ETXTBSY: i32 = 26;

/// File too large.
pub const EFBIG: i32 = 27;

/// Value too large for the data type.
pub const EOVERFLOW: i32 = 75;

/// Pages may be read.
pub const PROT_READ: i32 = 1;

/// Pages may be written.
pub const PROT_WRITE: i32 = 2;

/// Writes to the mapping reach the file and every other mapping of it.
pub const MAP_SHARED: i32 = 1;

/// `libc::EPERM`. Believed: `libc` defines it as 1.
#[verifier::external_body]
pub(crate) fn eperm() -> (code: i32)
    ensures
        code == EPERM,
{
    libc::EPERM
}

/// `libc::EINTR`. Believed: `libc` defines it as 4.
#[verifier::external_body]
pub(crate) fn eintr() -> (code: i32)
    ensures
        code == EINTR,
{
    libc::EINTR
}

/// `libc::EIO`. Believed: `libc` defines it as 5.
#[verifier::external_body]
pub(crate) fn eio() -> (code: i32)
    ensures
        code == EIO,
{
    libc::EIO
}

/// `libc::EBADF`. Believed: `libc` defines it as 9.
#[verifier::external_body]
pub(crate) fn ebadf() -> (code: i32)
    ensures
        code == EBADF,
{
    libc::EBADF
}

/// `libc::EAGAIN`. Believed: `libc` defines it as 11.
#[verifier::external_body]
pub(crate) fn eagain() -> (code: i32)
    ensures
        code == EAGAIN,
{
    libc::EAGAIN
}

/// `libc::ENOMEM`. Believed: `libc` defines it as 12.
#[verifier::external_body]
pub(crate) fn enomem() -> (code: i32)
    ensures
        code == ENOMEM,
{
    libc::ENOMEM
}

/// `libc::EACCES`. Believed: `libc` defines it as 13.
#[verifier::external_body]
pub(crate) fn eacces() -> (code: i32)
    ensures
        code == EACCES,
{
    libc::EACCES
}

/// `libc::EFAULT`. Believed: `libc` defines it as 14.
#[verifier::external_body]
pub(crate) fn efault() -> (code: i32)
    ensures
        code == EFAULT,
{
    libc::EFAULT
}

/// `libc::EEXIST`. Believed: `libc` defines it as 17.
#[verifier::external_body]
pub(crate) fn eexist() -> (code: i32)
    ensures
        code == EEXIST,
{
    libc::EEXIST
}

/// `libc::ENODEV`. Believed: `libc` defines it as 19.
#[verifier::external_body]
pub(crate) fn enodev() -> (code: i32)
    ensures
        code == ENODEV,
{
    libc::ENODEV
}

/// `libc::EINVAL`. Believed: `libc` defines it as 22.
#[verifier::external_body]
pub(crate) fn einval() -> (code: i32)
    ensures
        code == EINVAL,
{
    libc::EINVAL
}

/// `libc::ENFILE`. Believed: `libc` defines it as 23.
#[verifier::external_body]
pub(crate) fn enfile() -> (code: i32)
    ensures
        code == ENFILE,
{
    libc::ENFILE
}

/// `libc::EMFILE`. Believed: `libc` defines it as 24.
#[verifier::external_body]
pub(crate) fn emfile() -> (code: i32)
    ensures
        code == EMFILE,
{
    libc::EMFILE
}

/// `libc::ETXTBSY`. Believed: `libc` defines it as 26.
#[verifier::external_body]
pub(crate) fn etxtbsy() -> (code: i32)
    ensures
        code == ETXTBSY,
{
    libc::ETXTBSY
}

/// `libc::EFBIG`. Believed: `libc` defines it as 27.
#[verifier::external_body]
pub(crate) fn efbig() -> (code: i32)
    ensures
        code == EFBIG,
{
    libc::EFBIG
}

/// `libc::EOVERFLOW`. Believed: `libc` defines it as 75, which it does for
/// Linux on x86_64 (and on every other Linux target but mips and sparc).
#[verifier::external_body]
pub(crate) fn eoverflow() -> (code: i32)
    ensures
        code == EOVERFLOW,
{
    libc::EOVERFLOW
}

/// `libc::PROT_READ`. Believed: `libc` defines it as 1.
#[verifier::external_body]
pub(crate) fn prot_read() -> (flag: i32)
    ensures
        flag == PROT_READ,
{
    libc::PROT_READ
}

/// `libc::PROT_WRITE`. Believed: `libc` defines it as 2.
#[verifier::external_body]
pub(crate) fn prot_write() -> (flag: i32)
    ensures
        flag == PROT_WRITE,
{
    libc::PROT_WRITE
}

/// `libc::MAP_SHARED`. Believed: `libc` defines it as 1.
#[verifier::external_body]
pub(crate) fn map_shared() -> (flag: i32)
    ensures
        flag == MAP_SHARED,
{
    libc::MAP_SHARED
}

} // verus!
