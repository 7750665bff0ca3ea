//! A safety layer around a shared counting-semaphore primitive provided by
//! the host operating system.
//!
//! The layer makes three hazards structurally impossible: operating on a
//! semaphore object before it has been initialized, initializing the same
//! object more than once, and tearing an object down while operations may
//! still be pending against it.  The OS calls themselves are delegated to a
//! caller-supplied service; everything this crate decides on the way to and
//! from that service is verified.

pub use refs::{
    dec_spec, digit_char, display_ev, i32_dec_spec, i32_decimal, plain_display_spec,
    ready_display_spec, u32_decimal, SemaphoreRef,
};

pub mod anonymous;
pub mod counter;
pub mod named;
pub mod non_named;
pub mod os;
pub mod plaster;
mod refs;
pub mod unnamed;
