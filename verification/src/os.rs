//! The boundary to the operating system's mapping facility, reached through
//! the `memmap2` crate. Nothing in this file is proved: each contract states
//! what the named outside function does.

use std::ops::{Deref, DerefMut};
use vstd::prelude::*;
use crate::model::zeros;

verus! {

/// `memmap2::MmapMut`: an owned, writable memory mapping. Dropping the value
/// unmaps the region; if the operating system refuses to unmap it, the drop
/// panics.
#[verifier::external_type_specification]
#[verifier::external_body]
pub struct ExMmapMut(memmap2::MmapMut);

/// `std::io::Error`: the error that `memmap2` reports when the system call
/// fails.
#[verifier::external_type_specification]
#[verifier::external_body]
pub struct ExIoError(std::io::Error);

/// The bytes of a mapping, in address order: what `MmapMut` dereferences to.
pub uninterp spec fn mapped_bytes(map: memmap2::MmapMut) -> Seq<u8>;

/// `memmap2::MmapMut::map_anon`: asks the operating system for a private,
/// anonymous, readable and writable mapping of `len` bytes that is backed by
/// no file.
///
/// On success the mapping has exactly `len` bytes. That all of them are zero
/// is the operating system's guarantee for anonymous mappings. Whether the
/// request succeeds is up to the operating system.
#[verifier::external_body]
pub(crate) fn map_anon(len: usize) -> (outcome: Result<memmap2::MmapMut, std::io::Error>)
    requires
        0 < len <= isize::MAX,
    ensures
        outcome matches Ok(map) ==> mapped_bytes(map) == zeros(len as nat),
{
    memmap2::MmapMut::map_anon(len)
}

/// `<memmap2::MmapMut as Deref>::deref`: the mapping's bytes as a slice.
#[verifier::external_body]
pub(crate) fn bytes(map: &memmap2::MmapMut) -> (slice: &[u8])
    ensures
        slice@ == mapped_bytes(*map),
{
    map.deref()
}

/// `<memmap2::MmapMut as DerefMut>::deref_mut`: the mapping's bytes as a
/// writable slice. What is written through the slice is what the mapping
/// holds afterwards; a slice cannot change its length, so neither does the
/// mapping. The call does not panic.
#[verifier::external_body]
pub(crate) fn bytes_mut(map: &mut memmap2::MmapMut) -> (slice: &mut [u8])
    ensures
        slice@ == mapped_bytes(*old(map)),
        mapped_bytes(*final(map)) == final(slice)@,
        mapped_bytes(*final(map)).len() == mapped_bytes(*old(map)).len(),
    no_unwind
{
    map.deref_mut()
}

/// `<[u8]>::as_ptr` on the slice that `MmapMut` dereferences to: the address
/// of the mapping's first byte, as an integer. Nothing is claimed of its
/// value.
#[verifier::external_body]
pub(crate) fn base_address(map: &memmap2::MmapMut) -> (addr: usize)
{
    map.as_ptr() as usize
}

} // verus!
