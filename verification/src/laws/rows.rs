//! Rows that are worked on in chunks.

use vstd::prelude::*;

use arrow_array::BooleanArray;

use crate::outside::boolean_items;
use crate::rows::{
    chunk_len, chunk_start, compute_row_chunks, compute_rows, join_rows, joined,
    law_chunks_partition_rows, lemma_ceiling_quotient, lemma_chunk_starts, row_chunks,
    used_threads, RowChunk,
};

verus! {

/// The chunks are all the rows, each of them once and in order, and no chunk is
/// empty.
pub proof fn law_chunks_are_the_rows(num_rows: usize, threads: usize, chunks: Vec<RowChunk>)
    requires
        call_ensures(row_chunks, (num_rows, threads), chunks),
    ensures
        call_requires(row_chunks, (num_rows, threads)),
        num_rows == 0 <==> chunks@.len() == 0,
        num_rows > 0 ==> chunks@[0].start == 0 && chunks@[chunks@.len() - 1].end == num_rows,
        forall|i: int| 0 <= i < chunks@.len() ==> (#[trigger] chunks@[i]).start < chunks@[i].end,
        forall|i: int|
            0 < i < chunks@.len() ==> (#[trigger] chunks@[i]).start == chunks@[i - 1].end,
{
    if num_rows > 0 {
        lemma_chunk_starts(num_rows as nat, threads as nat);
        assert(chunks@[0].start == 0);
    }
}

/// Fewer than 4096 rows are one chunk. Otherwise there are no more chunks than
/// threads, or than rows, and every chunk but the last has as many rows as it
/// takes for that, and not one more.
pub proof fn law_chunks_are_as_small_as_can_be(
    num_rows: usize,
    threads: usize,
    chunks: Vec<RowChunk>,
    i: int,
)
    requires
        call_ensures(row_chunks, (num_rows, threads), chunks),
        0 <= i < chunks@.len(),
    ensures
        num_rows < 4096 || threads <= 1 ==> chunks@.len() == 1,
        num_rows >= 4096 && threads >= 1 ==> {
            let used = if threads < num_rows {
                threads as int
            } else {
                num_rows as int
            };
            let rows = chunks@[i].end - chunks@[i].start;
            &&& chunks@.len() <= used
            &&& (rows - 1) * used < num_rows
            &&& i < chunks@.len() - 1 ==> rows * used >= num_rows
        },
{
    let n = num_rows as nat;
    let t = threads as nat;
    lemma_chunk_starts(n, t);
    law_chunks_partition_rows(n, t);
    let used = used_threads(n, t);
    let len = chunk_len(n, t);
    let rows = chunks@[i].end - chunks@[i].start;
    lemma_ceiling_quotient(n, used);
    assert((i + 1) * len == i * len + len) by (nonlinear_arith);
    assert(rows <= len);
    assert((rows - 1) * used <= (len - 1) * used) by (nonlinear_arith)
        requires
            rows <= len,
            used >= 0,
    ;
    if i < chunks@.len() - 1 {
        assert(chunk_start(n, t, i + 1) == (i + 1) * len);
        assert(rows == len);
    }
}

/// The answers for a run of rows are those of its rows, in order.
pub proof fn law_answers_of_a_run<F: Fn(usize) -> bool>(
    start: usize,
    end: usize,
    row_is_ok: F,
    rows: Vec<bool>,
    row: usize,
)
    requires
        start <= end,
        call_ensures(compute_rows::<F>, (start, end, &row_is_ok), rows),
    ensures
        (forall|row: usize| start <= row < end ==> call_requires(row_is_ok, (row,)))
            ==> call_requires(compute_rows::<F>, (start, end, &row_is_ok)),
        rows@.len() == end - start,
        start <= row < end ==> call_ensures(row_is_ok, (row,), rows@[row - start]),
{
    if start <= row < end {
        assert(call_ensures(row_is_ok, ((start + (row - start)) as usize,), rows@[row - start]));
    }
}

/// The number of answers in the first `n` parts.
pub open spec fn answers_in(parts: Seq<Vec<bool>>, n: int) -> int
    decreases n,
{
    if n <= 0 {
        0
    } else {
        answers_in(parts, n - 1) + parts[n - 1]@.len()
    }
}

proof fn lemma_joined_items(parts: Seq<Vec<bool>>, i: int, k: int)
    requires
        0 <= i < parts.len(),
        0 <= k < parts[i]@.len(),
    ensures
        0 <= answers_in(parts, i),
        answers_in(parts, i) + k < joined(parts).len(),
        joined(parts)[answers_in(parts, i) + k] == parts[i]@[k],
    decreases parts.len(),
{
    let before = parts.drop_last();
    lemma_joined_len(before);
    lemma_answers_in(parts, before.len() as int);
    lemma_answers_in(parts, i);
    if i < before.len() {
        lemma_joined_items(before, i, k);
    }
}

proof fn lemma_joined_len(parts: Seq<Vec<bool>>)
    ensures
        joined(parts).len() == answers_in(parts, parts.len() as int),
    decreases parts.len(),
{
    if parts.len() > 0 {
        lemma_joined_len(parts.drop_last());
        lemma_answers_in(parts, parts.len() - 1);
    }
}

proof fn lemma_answers_in(parts: Seq<Vec<bool>>, n: int)
    requires
        n < parts.len(),
    ensures
        answers_in(parts.drop_last(), n) == answers_in(parts, n),
    decreases n,
{
    if n > 0 {
        lemma_answers_in(parts, n - 1);
    }
}

/// Joined, the answers of the parts follow one another, none is left out and
/// none is null.
pub proof fn law_joined_answers(parts: Vec<Vec<bool>>, rows: BooleanArray, i: int, k: int)
    requires
        call_ensures(join_rows, (&parts,), rows),
    ensures
        call_requires(join_rows, (&parts,)),
        boolean_items(rows).len() == answers_in(parts@, parts@.len() as int),
        0 <= i < parts@.len() && 0 <= k < parts@[i]@.len() ==> boolean_items(rows)[answers_in(
            parts@,
            i,
        ) + k] == Some(parts@[i]@[k]),
{
    lemma_joined_len(parts@);
    if 0 <= i < parts@.len() && 0 <= k < parts@[i]@.len() {
        lemma_joined_items(parts@, i, k);
    }
}

/// However many threads there are, each row gets its own answer, and no row
/// goes without.
pub proof fn law_each_row_gets_its_answer<F: Fn(usize) -> bool>(
    num_rows: usize,
    threads: usize,
    row_is_ok: F,
    rows: BooleanArray,
    row: usize,
)
    requires
        call_ensures(compute_row_chunks::<F>, (num_rows, threads, row_is_ok), rows),
    ensures
        (forall|row: usize| row < num_rows ==> call_requires(row_is_ok, (row,)))
            ==> call_requires(compute_row_chunks::<F>, (num_rows, threads, row_is_ok)),
        boolean_items(rows).len() == num_rows,
        row < num_rows ==> exists|ok: bool|
            boolean_items(rows)[row as int] == Some(ok) && #[trigger] call_ensures(
                row_is_ok,
                (row,),
                ok,
            ),
{
    if row < num_rows {
        let item = boolean_items(rows)[row as int];
        assert(item is Some);
        assert(call_ensures(row_is_ok, (row,), item->0));
    }
}

} // verus!
