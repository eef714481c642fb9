//! The host's memory gateway: the only allocator for buffers handed back to
//! the host.

use vstd::prelude::*;

verus! {

/// The allocator capability that the host hands over at attach time. The
/// host decides every answer: a verified caller handles each of them.
pub trait MemoryManager {
    /// Asks the host for a block of `size` bytes: its address, or `None`
    /// when the host refuses.
    fn alloc_memory(&self, size: usize) -> Option<usize>;

    /// Gives a block back to the host.
    fn free_memory(&self, ptr: usize);

    /// Asks the host for a block of exactly `size` bytes, and hands back its
    /// answer.
    fn alloc_blob(&self, size: usize) -> (r: Option<usize>) {
        self.alloc_memory(size)
    }

    /// Asks the host for room for `size` UTF-16 code units: a block of
    /// exactly `str_bytes(size)` bytes, and hands back its answer. A count
    /// whose byte size does not fit in `usize` is refused without asking.
    fn alloc_str(&self, size: usize) -> (r: Option<usize>)
        ensures
            size > usize::MAX / 2 ==> r is None,
    {
        match str_bytes(size) {
            Some(bytes) => self.alloc_memory(bytes),
            None => None,
        }
    }
}

/// The byte size of `len` UTF-16 code units, two bytes each, where it fits
/// in `usize`.
pub fn str_bytes(len: usize) -> (r: Option<usize>)
    ensures
        r == (if len <= usize::MAX / 2 {
            Some((2 * len) as usize)
        } else {
            None::<usize>
        }),
{
    if len <= usize::MAX / 2 {
        Some(2 * len)
    } else {
        None
    }
}

} // verus!
