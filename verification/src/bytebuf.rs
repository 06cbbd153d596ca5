//! The growable buffer.

use vstd::prelude::*;
use crate::error::AllocationError;
use crate::mmap::Mmap;
use crate::model::{carried_over, lemma_carried_over_zeros, lemma_resized_from_empty, resized, zeros};

verus! {

/// A non-owning description of a buffer's contents: where they start and how
/// long they are.
///
/// A description is good until the buffer it was taken from is reallocated or
/// erased. An empty buffer is described by address zero and length zero.
#[derive(Clone, Copy, Debug, PartialEq, Eq, Structural)]
pub struct ByteBuf {
    /// The address of the first byte, zero for an empty buffer.
    pub addr: usize,
    /// The number of bytes.
    pub len: usize,
}

/// A byte buffer that owns at most one mapping.
///
/// The buffer is either empty, owning no mapping, or sized, owning exactly
/// one mapping of as many bytes as the buffer is long.
#[derive(Debug)]
pub struct MmapByteBuf {
    mmap: Option<Mmap>,
}

impl View for MmapByteBuf {
    type V = Seq<u8>;

    /// The bytes of the buffer; none when it is empty.
    closed spec fn view(&self) -> Seq<u8> {
        match self.mmap {
            Some(m) => m@,
            None => Seq::empty(),
        }
    }
}

/// Overwrites the start of `dst` with the start of `src`, as far as both
/// reach.
fn copy_prefix(dst: &mut [u8], src: &[u8])
    ensures
        final(dst)@.len() == old(dst)@.len(),
        forall|i: int|
            0 <= i < old(dst)@.len() ==> #[trigger] final(dst)@[i] == if i < src@.len() {
                src@[i]
            } else {
                old(dst)@[i]
            },
{
    let amount: usize = if src.len() < dst.len() {
        src.len()
    } else {
        dst.len()
    };
    let mut i: usize = 0;
    while i < amount
        invariant
            i <= amount,
            amount <= src@.len(),
            amount <= dst@.len(),
            dst@.len() == old(dst)@.len(),
            forall|j: int| 0 <= j < i ==> #[trigger] dst@[j] == src@[j],
            forall|j: int| i <= j < dst@.len() ==> #[trigger] dst@[j] == old(dst)@[j],
        decreases amount - i,
    {
        dst[i] = src[i];
        i = i + 1;
    }
}

impl MmapByteBuf {
    /// The description of the buffer's current contents.
    pub closed spec fn spec_byte_buf(&self) -> ByteBuf {
        match self.mmap {
            Some(m) => (ByteBuf { addr: m.spec_addr(), len: m@.len() as usize }),
            None => (ByteBuf { addr: 0, len: 0 }),
        }
    }

    /// A buffer that owns no mapping.
    pub fn empty() -> (buf: Self)
        ensures
            buf@ == Seq::<u8>::empty(),
            buf.spec_byte_buf() == (ByteBuf { addr: 0, len: 0 }),
    {
        MmapByteBuf { mmap: None }
    }

    /// A buffer of `len` zero bytes.
    ///
    /// A length of zero gives the empty buffer and always succeeds. Any other
    /// length asks the operating system for a mapping.
    pub fn new(len: usize) -> (r: Result<Self, AllocationError>)
        ensures
            match r {
                Ok(buf) => {
                    &&& len <= isize::MAX
                    &&& buf@ == zeros(len as nat)
                    &&& buf.spec_byte_buf().len == len
                    &&& buf.spec_byte_buf().addr == 0 <==> len == 0
                },
                Err(e) => len != 0 && e.explains(len),
            },
    {
        let mmap = if len == 0 {
            None
        } else {
            match Mmap::new(len) {
                Ok(m) => Some(m),
                Err(e) => {
                    return Err(e);
                },
            }
        };
        Ok(MmapByteBuf { mmap })
    }

    /// Brings the buffer to `initial` bytes, as `realloc` does. The hint
    /// `_maximum` is accepted and not acted on.
    pub fn allocate(&mut self, initial: usize, _maximum: Option<usize>) -> (r: Result<
        ByteBuf,
        AllocationError,
    >)
        ensures
            match r {
                Ok(view) => {
                    &&& initial <= isize::MAX
                    &&& final(self)@ == resized(old(self)@, initial as nat)
                    &&& old(self)@.len() == 0 ==> final(self)@ == zeros(initial as nat)
                    &&& view == final(self).spec_byte_buf()
                    &&& view.len == initial
                    &&& view.addr == 0 <==> initial == 0
                },
                Err(e) => {
                    &&& *final(self) == *old(self)
                    &&& initial != 0
                    &&& e.explains(initial)
                },
            },
    {
        self.realloc(initial)
    }

    /// Brings the buffer to `new_len` bytes.
    ///
    /// The bytes that both the old and the new length cover are kept, bytes
    /// beyond `new_len` are dropped, and added bytes are zero. Length zero
    /// releases the mapping and always succeeds. The old mapping is given up
    /// only once the new one exists and holds the kept bytes. On failure the
    /// buffer is left exactly as it was.
    pub fn realloc(&mut self, new_len: usize) -> (r: Result<ByteBuf, AllocationError>)
        ensures
            match r {
                Ok(view) => {
                    &&& new_len <= isize::MAX
                    &&& final(self)@ == resized(old(self)@, new_len as nat)
                    &&& old(self)@.len() == 0 ==> final(self)@ == zeros(new_len as nat)
                    &&& view == final(self).spec_byte_buf()
                    &&& view.len == new_len
                    &&& view.addr == 0 <==> new_len == 0
                },
                Err(e) => {
                    &&& *final(self) == *old(self)
                    &&& new_len != 0
                    &&& e.explains(new_len)
                },
            },
    {
        if new_len == 0 {
            self.mmap = None;
            proof {
                assert(self@ =~= resized(old(self)@, 0));
            }
            return Ok(self.byte_buf());
        }
        proof {
            lemma_carried_over_zeros(self@, new_len as nat);
            lemma_resized_from_empty(new_len as nat);
        }
        self.install(Mmap::new(new_len))
    }

    /// Settles a request for a new mapping once its outcome is known.
    ///
    /// If the request failed, its error is handed on and the buffer is left
    /// exactly as it was. If it gave a mapping, the start of the buffer's
    /// bytes is copied over the start of the mapping as far as both reach,
    /// the buffer gives up its old mapping and owns the new one, and the
    /// description of the new contents is returned.
    pub fn install(&mut self, outcome: Result<Mmap, AllocationError>) -> (r: Result<
        ByteBuf,
        AllocationError,
    >)
        ensures
            match outcome {
                Ok(m) => {
                    &&& r matches Ok(view)
                    &&& final(self)@ == carried_over(old(self)@, m@)
                    &&& view == final(self).spec_byte_buf()
                    &&& view.len == m@.len()
                    &&& view.addr == m.spec_addr()
                },
                Err(e) => {
                    &&& r == Err::<ByteBuf, AllocationError>(e)
                    &&& *final(self) == *old(self)
                },
            },
    {
        let mut new_mmap = match outcome {
            Ok(m) => m,
            Err(e) => {
                return Err(e);
            },
        };
        if let Some(cur_mmap) = self.mmap.take() {
            copy_prefix(new_mmap.as_slice_mut(), cur_mmap.as_slice());
        }
        self.mmap = Some(new_mmap);
        proof {
            assert(self@ =~= carried_over(old(self)@, outcome->Ok_0@));
        }
        Ok(self.byte_buf())
    }

    /// Sets every byte to zero and keeps the length.
    ///
    /// An empty buffer is left as it is. A sized buffer gives up its mapping
    /// first and asks for a fresh one of the same length afterwards, so that
    /// two mappings of full size never exist side by side. If the fresh
    /// mapping cannot be had, the buffer is left empty.
    pub fn erase(&mut self) -> (r: Result<(), AllocationError>)
        ensures
            old(self)@.len() == 0 ==> r is Ok && *final(self) == *old(self),
            match r {
                Ok(_) => {
                    &&& final(self)@ == zeros(old(self)@.len())
                    &&& final(self)@.len() == old(self)@.len()
                    &&& forall|i: int| 0 <= i < final(self)@.len() ==> final(self)@[i] == 0u8
                },
                Err(e) => {
                    &&& old(self)@.len() > 0
                    &&& final(self)@ == Seq::<u8>::empty()
                    &&& final(self).spec_byte_buf() == (ByteBuf { addr: 0, len: 0 })
                    &&& e.is_mapping_failed()
                },
            },
    {
        let len = match &self.mmap {
            Some(m) => m.len(),
            None => 0,
        };
        if len > 0 {
            self.mmap = None;
            proof {
                lemma_carried_over_zeros(self@, len as nat);
                lemma_resized_from_empty(len as nat);
            }
            match self.install(Mmap::new(len)) {
                Ok(_) => {},
                Err(e) => {
                    return Err(e);
                },
            }
        }
        Ok(())
    }

    /// The number of bytes in the buffer.
    pub fn len(&self) -> (n: usize)
        ensures
            n == self@.len(),
            n <= isize::MAX,
    {
        match &self.mmap {
            Some(m) => m.len(),
            None => 0,
        }
    }

    /// Whether the buffer owns no mapping and so has no bytes.
    pub fn is_empty(&self) -> (b: bool)
        ensures
            b == (self@.len() == 0),
    {
        self.len() == 0
    }

    /// The description of the buffer's current contents.
    pub fn byte_buf(&self) -> (view: ByteBuf)
        ensures
            view == self.spec_byte_buf(),
            view.len == self@.len(),
            view.addr == 0 <==> self@.len() == 0,
    {
        match &self.mmap {
            Some(m) => ByteBuf { addr: m.addr(), len: m.len() },
            None => ByteBuf { addr: 0, len: 0 },
        }
    }

    /// The buffer's bytes, for reading.
    pub fn as_slice(&self) -> (slice: &[u8])
        ensures
            slice@ == self@,
    {
        match &self.mmap {
            Some(m) => m.as_slice(),
            None => &[],
        }
    }

    /// The buffer's bytes, for writing. The buffer keeps its length and its
    /// place and holds afterwards what the slice holds.
    pub fn as_slice_mut(&mut self) -> (slice: &mut [u8])
        ensures
            slice@ == old(self)@,
            final(self)@ == final(slice)@,
            final(self)@.len() == old(self)@.len(),
            final(self).spec_byte_buf() == old(self).spec_byte_buf(),
    {
        match &mut self.mmap {
            Some(m) => m.as_slice_mut(),
            None => &mut [],
        }
    }
}

} // verus!
