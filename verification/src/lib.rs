//! A growable byte buffer whose storage is an anonymous virtual-memory mapping.
//!
//! The buffer is meant as the linear memory of a virtual machine. It owns at
//! most one mapping at a time and offers three operations: allocate,
//! reallocate with the overlapping prefix kept, and erase.

pub mod error;
pub mod model;
pub mod os;
pub mod mmap;
pub mod bytebuf;

pub use crate::bytebuf::{ByteBuf, MmapByteBuf};
pub use crate::error::AllocationError;
pub use crate::mmap::Mmap;
