//! Why a mapping could not be created.

use vstd::prelude::*;

verus! {

/// The reason a request for a mapping was turned down.
///
/// The first two variants are faults of the requested length and are found
/// before the operating system is asked. The last two report that the
/// operating system did not hand out a usable region.
#[derive(Clone, Copy, Debug, PartialEq, Eq, Structural)]
pub enum AllocationError {
    /// The requested length is larger than `isize::MAX`.
    LengthTooLarge,
    /// The requested length is zero.
    ZeroLength,
    /// The operating system declined to create the mapping.
    MapFailed,
    /// The operating system handed out a region at address zero.
    NullAddress,
}

impl AllocationError {
    /// The length itself was unacceptable.
    pub open spec fn is_invalid_length(self) -> bool {
        self == AllocationError::LengthTooLarge || self == AllocationError::ZeroLength
    }

    /// The length was acceptable, but no usable region was obtained.
    pub open spec fn is_mapping_failed(self) -> bool {
        self == AllocationError::MapFailed || self == AllocationError::NullAddress
    }

    /// Whether this is the error that a failed request for `len` bytes
    /// reports: the fault of the length where it has one, and otherwise one
    /// of the two failures of the operating system.
    pub open spec fn explains(self, len: usize) -> bool {
        if len > isize::MAX {
            self == AllocationError::LengthTooLarge
        } else if len == 0 {
            self == AllocationError::ZeroLength
        } else {
            self.is_mapping_failed()
        }
    }

    /// The text that `message` returns for each variant.
    pub open spec fn message_text(self) -> Seq<char> {
        match self {
            AllocationError::LengthTooLarge => "`len` should not exceed `isize::max_value()`"@,
            AllocationError::ZeroLength => "`len` should be greater than 0"@,
            AllocationError::MapFailed => "mmap returned an error"@,
            AllocationError::NullAddress => "mmap returned 0"@,
        }
    }

    /// Whether the error is a fault of the requested length.
    pub fn invalid_length(&self) -> (b: bool)
        ensures
            b == self.is_invalid_length(),
    {
        match self {
            AllocationError::LengthTooLarge => true,
            AllocationError::ZeroLength => true,
            AllocationError::MapFailed => false,
            AllocationError::NullAddress => false,
        }
    }

    /// Whether the operating system failed to provide a usable region.
    pub fn mapping_failed(&self) -> (b: bool)
        ensures
            b == self.is_mapping_failed(),
    {
        match self {
            AllocationError::LengthTooLarge => false,
            AllocationError::ZeroLength => false,
            AllocationError::MapFailed => true,
            AllocationError::NullAddress => true,
        }
    }

    /// A human-readable cause.
    pub fn message(&self) -> (text: &'static str)
        ensures
            text@ == self.message_text(),
    {
        match self {
            AllocationError::LengthTooLarge => "`len` should not exceed `isize::max_value()`",
            AllocationError::ZeroLength => "`len` should be greater than 0",
            AllocationError::MapFailed => "mmap returned an error",
            AllocationError::NullAddress => "mmap returned 0",
        }
    }
}

/// The error of a failed request for `len` bytes names a fault of the length
/// exactly when `len` is zero or above `isize::MAX`; for every other length
/// it reports that the operating system provided no usable region.
pub proof fn lemma_explains_kind(e: AllocationError, len: usize)
    requires
        e.explains(len),
    ensures
        e.is_invalid_length() <==> len == 0 || len > isize::MAX,
        e.is_mapping_failed() <==> 0 < len <= isize::MAX,
        e.is_invalid_length() != e.is_mapping_failed(),
{
}

} // verus!
