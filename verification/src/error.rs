//! The failures the allocator reports to its callers.

use vstd::prelude::*;

verus! {

/// A recoverable allocator failure.
#[derive(Clone, Copy, Debug, PartialEq, Eq, Structural)]
pub enum AllocError {
    /// The engine found no free block satisfying the request.
    NoMemory,
    /// The usage counter would have overflowed past the address
    /// space; the engine has already handed the memory out.
    MemoryOverlap,
}

} // verus!
