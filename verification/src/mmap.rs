//! A single mapping: a fixed-size region of zero-initialised memory.

use vstd::prelude::*;
use crate::error::AllocationError;
use crate::model::zeros;
use crate::os::{base_address, bytes, bytes_mut, map_anon, mapped_bytes};

verus! {

/// An owned region of memory obtained from the operating system.
///
/// Address and length do not change while the value lives. The region is
/// released when the value is dropped. Should the operating system refuse
/// the release, the program panics rather than go on with a leaked region.
#[derive(Debug)]
pub struct Mmap {
    map: memmap2::MmapMut,
    addr: usize,
    len: usize,
}

impl View for Mmap {
    type V = Seq<u8>;

    /// The bytes of the region.
    closed spec fn view(&self) -> Seq<u8> {
        mapped_bytes(self.map)
    }
}

impl Mmap {
    #[verifier::type_invariant]
    spec fn inv(self) -> bool {
        &&& self.len == mapped_bytes(self.map).len()
        &&& 0 < self.len <= isize::MAX
        &&& self.addr != 0
    }

    /// The address of the first byte.
    pub closed spec fn spec_addr(&self) -> usize {
        self.addr
    }

    /// Creates a mapping of `len` bytes, all zero.
    ///
    /// A length of zero or above `isize::MAX` is refused before the operating
    /// system is asked. For any other length the operating system decides.
    pub fn new(len: usize) -> (r: Result<Mmap, AllocationError>)
        ensures
            match r {
                Ok(m) => 0 < len <= isize::MAX && m@ == zeros(len as nat) && m.spec_addr() != 0,
                Err(e) => e.explains(len),
            },
    {
        if len > isize::MAX as usize {
            return Err(AllocationError::LengthTooLarge);
        }
        if len == 0 {
            return Err(AllocationError::ZeroLength);
        }
        Mmap::from_outcome(len, map_anon(len))
    }

    /// Turns the operating system's answer to a request for `len` bytes
    /// into a mapping or an error.
    fn from_outcome(len: usize, outcome: Result<memmap2::MmapMut, std::io::Error>) -> (r: Result<
        Mmap,
        AllocationError,
    >)
        requires
            0 < len <= isize::MAX,
            outcome matches Ok(map) ==> mapped_bytes(map).len() == len,
        ensures
            outcome is Err ==> r == Err::<Mmap, AllocationError>(AllocationError::MapFailed),
            outcome matches Ok(map) ==> match r {
                Ok(m) => m@ == mapped_bytes(map) && m.spec_addr() != 0,
                Err(e) => e == AllocationError::NullAddress,
            },
    {
        match outcome {
            Err(_) => Err(AllocationError::MapFailed),
            Ok(map) => {
                let addr = base_address(&map);
                Mmap::at_address(map, addr, len)
            },
        }
    }

    /// Takes ownership of a mapping of `len` bytes that starts at `addr`,
    /// unless `addr` is zero.
    fn at_address(map: memmap2::MmapMut, addr: usize, len: usize) -> (r: Result<
        Mmap,
        AllocationError,
    >)
        requires
            0 < len <= isize::MAX,
            mapped_bytes(map).len() == len,
        ensures
            addr == 0 ==> r == Err::<Mmap, AllocationError>(AllocationError::NullAddress),
            addr != 0 ==> r == Ok::<Mmap, AllocationError>(Mmap { map, addr, len }),
    {
        if addr == 0 {
            Err(AllocationError::NullAddress)
        } else {
            Ok(Mmap { map, addr, len })
        }
    }

    /// The number of bytes in the region.
    pub fn len(&self) -> (n: usize)
        ensures
            n == self@.len(),
            0 < n <= isize::MAX,
    {
        proof {
            use_type_invariant(self);
        }
        self.len
    }

    /// The address of the first byte. It is never zero.
    pub fn addr(&self) -> (a: usize)
        ensures
            a == self.spec_addr(),
            a != 0,
    {
        proof {
            use_type_invariant(self);
        }
        self.addr
    }

    /// The whole region, for reading.
    pub fn as_slice(&self) -> (slice: &[u8])
        ensures
            slice@ == self@,
    {
        bytes(&self.map)
    }

    /// The whole region, for writing. Address and length stay as they are;
    /// the region holds afterwards what the slice holds.
    pub fn as_slice_mut(&mut self) -> (slice: &mut [u8])
        ensures
            slice@ == old(self)@,
            final(self)@ == final(slice)@,
            final(self)@.len() == old(self)@.len(),
            final(self).spec_addr() == old(self).spec_addr(),
    {
        proof {
            use_type_invariant(&*self);
        }
        bytes_mut(&mut self.map)
    }
}

} // verus!
