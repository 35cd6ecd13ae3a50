//! Which addresses to touch in order to have a range of memory in the cache.

use vstd::prelude::*;

verus! {

/// The number of bytes in a cache line.
pub const CACHE_LINE_SIZE: usize = 64;

/// The number of addresses from `start` on, one cache line apart, that lie
/// before `end`.
pub open spec fn line_count(start: int, end: int) -> int {
    if start < end {
        (end - start + CACHE_LINE_SIZE - 1) / (CACHE_LINE_SIZE as int)
    } else {
        0
    }
}

/// The number of cache lines to fetch for the memory from `start` up to `end`:
/// one at `start`, and one for each whole line further on that still lies
/// before `end`.
pub fn prefetch_lines(start: usize, end: usize) -> (lines: usize)
    ensures
        lines == line_count(start as int, end as int),
{
    if start < end {
        let len: usize = end - start;
        if len % CACHE_LINE_SIZE == 0 {
            len / CACHE_LINE_SIZE
        } else {
            len / CACHE_LINE_SIZE + 1
        }
    } else {
        0
    }
}

/// The address to fetch for cache line `line`, which lies before `end`.
pub fn prefetch_address(start: usize, end: usize, line: usize) -> (address: usize)
    requires
        line < line_count(start as int, end as int),
    ensures
        address == start + line * CACHE_LINE_SIZE,
        start <= address < end,
{
    start + line * CACHE_LINE_SIZE
}

/// The lines fetched are those that start before the end of the memory, and no
/// others.
pub proof fn law_lines_end_with_the_memory(start: int, end: int, line: int)
    requires
        line >= 0,
    ensures
        line < line_count(start, end) <==> start + line * CACHE_LINE_SIZE < end,
{
}

/// Every byte of the memory lies less than one cache line behind an address
/// that is fetched.
pub proof fn law_every_byte_is_fetched(start: int, end: int, address: int)
    requires
        start <= address < end,
    ensures
        exists|line: int|
            0 <= line < line_count(start, end) && start + #[trigger] (line * CACHE_LINE_SIZE)
                <= address < start + line * CACHE_LINE_SIZE + CACHE_LINE_SIZE,
{
    let line = (address - start) / (CACHE_LINE_SIZE as int);
    assert(start + line * CACHE_LINE_SIZE <= address < start + line * CACHE_LINE_SIZE
        + CACHE_LINE_SIZE);
}

} // verus!
