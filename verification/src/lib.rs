//! A two-dimensional pixel buffer whose bytes can be handed, as they lie, to a
//! display server: either from the heap or from a shared mapping over an
//! anonymous file.
//!
//! * [`pixel`]: pixel formats and the channel tokens that address one byte of a
//!   pixel without knowing where it lies.
//! * [`buffer`]: the row-indexable buffer over one contiguous allocation, the
//!   decisions around the three system calls that make a shared mapping, and
//!   the buffer that lives in such a mapping.
//!
//! The library makes no system call. It says what to ask of the operating
//! system and takes the answer as plain values; whoever drives it makes the
//! calls.
pub mod buffer;
pub mod pixel;
