//! Memory layout: the heap placed after the kernel image, and the shared
//! message area for the firmware placed after the heap.
use vstd::prelude::*;

verus! {

/// Size of the heap: 128 MiB.
pub const HEAP_SIZE: usize = 134217728;

pub fn heap_size() -> (r: usize)
    ensures
        r == HEAP_SIZE,
{
    HEAP_SIZE
}

/// First address past the heap that starts at `heap_start`.
pub fn heap_end(heap_start: usize) -> (r: usize)
    requires
        heap_start + HEAP_SIZE + 1 <= usize::MAX,
    ensures
        r == heap_start + HEAP_SIZE + 1,
{
    heap_start + heap_size() + 1
}

/// Address of the message area shared with the firmware: the first 16-byte
/// boundary strictly past the end of the heap.
pub fn mailbox_heap_location(heap_start: usize) -> (r: usize)
    requires
        heap_start + HEAP_SIZE + 17 <= usize::MAX,
    ensures
        r % 16 == 0,
        heap_start + HEAP_SIZE + 1 < r <= heap_start + HEAP_SIZE + 17,
        r == (heap_start + HEAP_SIZE + 1) + (16 - (heap_start + HEAP_SIZE + 1) % 16),
{
    let end = heap_end(heap_start);
    end + (16 - end % 16)
}

} // verus!
