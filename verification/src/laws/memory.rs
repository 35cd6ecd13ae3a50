//! Which addresses are fetched into the cache.

use vstd::prelude::*;

use crate::prefetch::{prefetch_address, prefetch_lines};

verus! {

/// From `start` on, every 64th address before `end` is fetched, and no other.
pub proof fn law_every_64th_address_is_fetched(start: usize, end: usize, lines: usize, line: usize)
    requires
        call_ensures(prefetch_lines, (start, end), lines),
    ensures
        call_requires(prefetch_lines, (start, end)),
        line < lines <==> start + 64 * line < end,
        line < lines ==> call_requires(prefetch_address, (start, end, line)),
{
}

/// The address that is fetched for a line.
pub proof fn law_address_of_a_line(start: usize, end: usize, line: usize, address: usize)
    requires
        call_ensures(prefetch_address, (start, end, line), address),
    ensures
        start + 64 * line < end ==> call_requires(prefetch_address, (start, end, line)),
        address == start + 64 * line,
{
}

} // verus!
