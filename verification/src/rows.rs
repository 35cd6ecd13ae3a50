//! Computing one answer for each row, in chunks of rows that can be worked on
//! side by side.

use vstd::prelude::*;

use arrow_array::BooleanArray;

use crate::outside::{boolean_array, boolean_items};

verus! {

/// Below this number of rows the rows are one chunk: threads are not worth
/// their overhead.
pub const IS_FINITE_MIN_ROWS_FOR_THREADING: usize = 4096;

/// A run of rows, from `start` up to but not including `end`.
#[derive(Clone, Copy, Debug, PartialEq, Eq, Structural)]
pub struct RowChunk {
    pub start: usize,
    pub end: usize,
}

/// How many of `threads` threads work on `num_rows` rows.
pub open spec fn used_threads(num_rows: nat, threads: nat) -> nat {
    if num_rows < IS_FINITE_MIN_ROWS_FOR_THREADING || threads == 0 {
        1
    } else if threads < num_rows {
        threads
    } else {
        num_rows
    }
}

/// The number of rows in every chunk but the last.
pub open spec fn chunk_len(num_rows: nat, threads: nat) -> nat {
    ceiling_quotient(num_rows, used_threads(num_rows, threads))
}

/// The number of chunks.
pub open spec fn chunk_count(num_rows: nat, threads: nat) -> nat {
    if num_rows == 0 {
        0
    } else {
        ceiling_quotient(num_rows, chunk_len(num_rows, threads))
    }
}

/// The row at which chunk `i` starts, for `i` up to the number of chunks.
pub open spec fn chunk_start(num_rows: nat, threads: nat, i: int) -> int {
    let start = i * chunk_len(num_rows, threads);
    if start < num_rows {
        start
    } else {
        num_rows as int
    }
}

/// `a / b`, rounded up.
pub open spec fn ceiling_quotient(a: nat, b: nat) -> nat
    recommends
        b > 0,
{
    ((a + b - 1) / (b as int)) as nat
}

/// The sequences, one after another.
pub open spec fn joined(parts: Seq<Vec<bool>>) -> Seq<bool>
    decreases parts.len(),
{
    if parts.len() == 0 {
        seq![]
    } else {
        joined(parts.drop_last()) + parts.last()@
    }
}

pub(crate) proof fn lemma_ceiling_quotient(a: nat, b: nat)
    requires
        b > 0,
    ensures
        ceiling_quotient(a, b) * b >= a,
        a > 0 ==> (ceiling_quotient(a, b) - 1) * b < a,
        a > 0 ==> ceiling_quotient(a, b) > 0,
        a >= b ==> ceiling_quotient(a, b) <= a,
{
    let q = (a + b - 1) / (b as int);
    let r = (a + b - 1) % (b as int);
    vstd::arithmetic::div_mod::lemma_fundamental_div_mod(a + b - 1, b as int);
    vstd::arithmetic::div_mod::lemma_div_pos_is_pos(a + b - 1, b as int);
    assert(q * b == b * q) by (nonlinear_arith);
    assert((q - 1) * b == q * b - b) by (nonlinear_arith);
    if a > 0 {
        assert(q > 0) by (nonlinear_arith)
            requires
                q >= 0,
                b > 0,
                a > 0,
                a + b - 1 == b * q + r,
                r < b,
        ;
    }
    if a >= b {
        assert(q <= a) by (nonlinear_arith)
            requires
                b > 0,
                a >= b,
                a + b - 1 == b * q + r,
                r >= 0,
        ;
    }
}

/// `a / b`, rounded up.
fn div_ceil(a: usize, b: usize) -> (quotient: usize)
    requires
        b > 0,
    ensures
        quotient == ceiling_quotient(a as nat, b as nat),
{
    let quotient = a / b;
    proof {
        let q = a as int / b as int;
        let r = a as int % b as int;
        vstd::arithmetic::div_mod::lemma_fundamental_div_mod(a as int, b as int);
        if r == 0 {
            vstd::arithmetic::div_mod::lemma_fundamental_div_mod_converse(
                a + b - 1,
                b as int,
                q,
                b - 1,
            );
        } else {
            assert(b * (q + 1) == b * q + b) by (nonlinear_arith);
            vstd::arithmetic::div_mod::lemma_fundamental_div_mod_converse(
                a + b - 1,
                b as int,
                q + 1,
                r - 1,
            );
            assert(q < a) by (nonlinear_arith)
                requires
                    q >= 0,
                    b > 0,
                    r > 0,
                    a == b * q + r,
            ;
        }
    }
    if a % b == 0 {
        quotient
    } else {
        quotient + 1
    }
}

/// The facts about chunk boundaries that the loops below use.
pub(crate) proof fn lemma_chunk_starts(num_rows: nat, threads: nat)
    requires
        num_rows > 0,
    ensures
        used_threads(num_rows, threads) > 0,
        0 < chunk_len(num_rows, threads) <= num_rows,
        chunk_count(num_rows, threads) > 0,
        chunk_start(num_rows, threads, 0) == 0,
        chunk_start(num_rows, threads, chunk_count(num_rows, threads) as int) == num_rows,
        forall|i: int|
            0 <= i < chunk_count(num_rows, threads) ==> #[trigger] chunk_start(
                num_rows,
                threads,
                i,
            ) == i * chunk_len(num_rows, threads),
        forall|i: int|
            0 <= i < chunk_count(num_rows, threads) ==> #[trigger] chunk_start(
                num_rows,
                threads,
                i,
            ) < chunk_start(num_rows, threads, i + 1),
        forall|i: int|
            0 <= i < chunk_count(num_rows, threads) ==> #[trigger] chunk_start(
                num_rows,
                threads,
                i,
            ) < num_rows,
{
    let used = used_threads(num_rows, threads);
    let len = chunk_len(num_rows, threads);
    let count = chunk_count(num_rows, threads);
    assert(used <= num_rows);
    lemma_ceiling_quotient(num_rows, used);
    lemma_ceiling_quotient(num_rows, len);
    assert forall|i: int| 0 <= i < count implies #[trigger] (i * len) <= (count - 1) * len && (i + 1)
        * len == i * len + len by {
        assert(i * len <= (count - 1) * len) by (nonlinear_arith)
            requires
                i <= count - 1,
                len >= 0,
        ;
        assert((i + 1) * len == i * len + len) by (nonlinear_arith);
    }
    assert forall|i: int| 0 <= i < count implies #[trigger] chunk_start(num_rows, threads, i) == i
        * len && chunk_start(num_rows, threads, i) < chunk_start(num_rows, threads, i + 1) by {
        assert(i * len <= (count - 1) * len && (i + 1) * len == i * len + len);
    }
    assert(0 * len == 0) by (nonlinear_arith);
}

/// The chunks into which `num_rows` rows are cut for `threads` threads, in
/// order.
pub fn row_chunks(num_rows: usize, threads: usize) -> (chunks: Vec<RowChunk>)
    ensures
        chunks@.len() == chunk_count(num_rows as nat, threads as nat),
        forall|i: int|
            0 <= i < chunks@.len() ==> (#[trigger] chunks@[i]).start == chunk_start(
                num_rows as nat,
                threads as nat,
                i,
            ) && chunks@[i].end == chunk_start(num_rows as nat, threads as nat, i + 1),
{
    let mut chunks: Vec<RowChunk> = Vec::new();
    if num_rows == 0 {
        return chunks;
    }
    let ghost n = num_rows as nat;
    let ghost t = threads as nat;
    proof {
        lemma_chunk_starts(n, t);
    }
    let used: usize = if num_rows < IS_FINITE_MIN_ROWS_FOR_THREADING || threads == 0 {
        1
    } else if threads < num_rows {
        threads
    } else {
        num_rows
    };
    let len: usize = div_ceil(num_rows, used);
    let mut start: usize = 0;
    while start < num_rows
        invariant
            num_rows > 0,
            n == num_rows,
            t == threads,
            len == chunk_len(n, t),
            chunks@.len() <= chunk_count(n, t),
            start == chunk_start(n, t, chunks@.len() as int),
            start < num_rows <==> chunks@.len() < chunk_count(n, t),
            forall|i: int|
                0 <= i < chunks@.len() ==> (#[trigger] chunks@[i]).start == chunk_start(n, t, i)
                    && chunks@[i].end == chunk_start(n, t, i + 1),
        decreases num_rows - start,
    {
        proof {
            lemma_chunk_starts(n, t);
            let i = chunks@.len() as int;
            assert((i + 1) * chunk_len(n, t) == i * chunk_len(n, t) + chunk_len(n, t))
                by (nonlinear_arith);
            assert(chunk_start(n, t, i) < chunk_start(n, t, i + 1));
        }
        let end: usize = if num_rows - start > len {
            start + len
        } else {
            num_rows
        };
        let ghost before = chunks@;
        chunks.push(RowChunk { start, end });
        proof {
            assert(forall|i: int| 0 <= i < before.len() ==> chunks@[i] == #[trigger] before[i]);
            let i = chunks@.len() as int;
            if i < chunk_count(n, t) {
                assert(chunk_start(n, t, i) < n);
            }
        }
        start = end;
    }
    chunks
}

/// Runs `row_is_ok` on the rows from `start` up to `end`.
pub fn compute_rows<F: Fn(usize) -> bool>(start: usize, end: usize, row_is_ok: &F) -> (rows: Vec<
    bool,
>)
    requires
        start <= end,
        forall|row: usize| start <= row < end ==> call_requires(*row_is_ok, (row,)),
    ensures
        rows@.len() == end - start,
        forall|i: int|
            0 <= i < end - start ==> call_ensures(
                *row_is_ok,
                ((start + i) as usize,),
                #[trigger] rows@[i],
            ),
{
    let mut rows: Vec<bool> = Vec::new();
    let mut row: usize = start;
    while row < end
        invariant
            start <= row <= end,
            forall|row: usize| start <= row < end ==> call_requires(*row_is_ok, (row,)),
            rows@.len() == row - start,
            forall|i: int|
                0 <= i < row - start ==> call_ensures(
                    *row_is_ok,
                    ((start + i) as usize,),
                    #[trigger] rows@[i],
                ),
        decreases end - row,
    {
        let ok = row_is_ok(row);
        rows.push(ok);
        row = row + 1;
    }
    rows
}

/// What holds of every answer of every chunk holds of the joined answers.
proof fn lemma_joined(
    num_rows: nat,
    threads: nat,
    parts: Seq<Vec<bool>>,
    holds: spec_fn(int, bool) -> bool,
)
    requires
        num_rows > 0,
        parts.len() <= chunk_count(num_rows, threads),
        forall|i: int|
            0 <= i < parts.len() ==> (#[trigger] parts[i])@.len() == chunk_start(
                num_rows,
                threads,
                i + 1,
            ) - chunk_start(num_rows, threads, i),
        forall|i: int, k: int|
            0 <= i < parts.len() && 0 <= k < parts[i]@.len() ==> holds(
                chunk_start(num_rows, threads, i) + k,
                #[trigger] parts[i]@[k],
            ),
    ensures
        joined(parts).len() == chunk_start(num_rows, threads, parts.len() as int),
        forall|row: int|
            0 <= row < joined(parts).len() ==> holds(row, #[trigger] joined(parts)[row]),
    decreases parts.len(),
{
    lemma_chunk_starts(num_rows, threads);
    if parts.len() > 0 {
        let before = parts.drop_last();
        let last = parts.len() - 1;
        assert(forall|i: int| 0 <= i < before.len() ==> before[i] == #[trigger] parts[i]);
        lemma_joined(num_rows, threads, before, holds);
        assert forall|row: int| 0 <= row < joined(parts).len() implies holds(
            row,
            #[trigger] joined(parts)[row],
        ) by {
            let start = chunk_start(num_rows, threads, last);
            if row >= start {
                assert(joined(parts)[row] == parts[last]@[row - start]);
                assert(holds(start + (row - start), parts[last]@[row - start]));
            } else {
                assert(joined(parts)[row] == joined(before)[row]);
            }
        }
    }
}

/// Joins the answers of the chunks, in order.
pub fn join_rows(parts: &Vec<Vec<bool>>) -> (rows: BooleanArray)
    ensures
        boolean_items(rows) == joined(parts@).map_values(|row: bool| Some(row)),
{
    let mut rows: Vec<bool> = Vec::new();
    let mut i: usize = 0;
    assert(joined(parts@.take(0)) =~= seq![]);
    while i < parts.len()
        invariant
            i <= parts@.len(),
            rows@ == joined(parts@.take(i as int)),
        decreases parts@.len() - i,
    {
        assert(parts@.take(i + 1).drop_last() =~= parts@.take(i as int));
        rows.extend_from_slice(parts[i].as_slice());
        assert(rows@ =~= joined(parts@.take(i + 1)));
        i = i + 1;
    }
    assert(parts@.take(i as int) =~= parts@);
    boolean_array(rows)
}

/// Runs `row_is_ok` on every row, chunk by chunk. The chunks do not touch one
/// another: [`compute_rows`] can as well run on all of them at a time, each
/// with a thread of its own, before [`join_rows`].
pub fn compute_row_chunks<F: Fn(usize) -> bool>(
    num_rows: usize,
    threads: usize,
    row_is_ok: F,
) -> (rows: BooleanArray)
    requires
        forall|row: usize| 0 <= row < num_rows ==> call_requires(row_is_ok, (row,)),
    ensures
        boolean_items(rows).len() == num_rows,
        forall|row: int|
            0 <= row < num_rows ==> {
                &&& #[trigger] boolean_items(rows)[row] is Some
                &&& call_ensures(row_is_ok, (row as usize,), boolean_items(rows)[row]->0)
            },
{
    let chunks = row_chunks(num_rows, threads);
    let ghost n = num_rows as nat;
    let ghost t = threads as nat;
    let mut parts: Vec<Vec<bool>> = Vec::new();
    let mut i: usize = 0;
    while i < chunks.len()
        invariant
            i <= chunks@.len(),
            n == num_rows,
            t == threads,
            chunks@.len() == chunk_count(n, t),
            forall|i: int|
                0 <= i < chunks@.len() ==> (#[trigger] chunks@[i]).start == chunk_start(n, t, i)
                    && chunks@[i].end == chunk_start(n, t, i + 1),
            forall|row: usize| 0 <= row < num_rows ==> call_requires(row_is_ok, (row,)),
            parts@.len() == i,
            forall|i: int|
                0 <= i < parts@.len() ==> (#[trigger] parts@[i])@.len() == chunk_start(n, t, i + 1)
                    - chunk_start(n, t, i),
            forall|i: int, k: int|
                0 <= i < parts@.len() && 0 <= k < parts@[i]@.len() ==> call_ensures(
                    row_is_ok,
                    ((chunk_start(n, t, i) + k) as usize,),
                    #[trigger] parts@[i]@[k],
                ),
        decreases chunks@.len() - i,
    {
        proof {
            if n > 0 {
                lemma_chunk_starts(n, t);
                assert(chunk_start(n, t, i as int) < chunk_start(n, t, i + 1));
            }
        }
        let chunk: RowChunk = chunks[i];
        let part = compute_rows(chunk.start, chunk.end, &row_is_ok);
        let ghost before = parts@;
        parts.push(part);
        assert(forall|i: int| 0 <= i < before.len() ==> parts@[i] == #[trigger] before[i]);
        i = i + 1;
    }
    proof {
        let holds = |row: int, ok: bool| call_ensures(row_is_ok, (row as usize,), ok);
        if n > 0 {
            lemma_chunk_starts(n, t);
            lemma_joined(n, t, parts@, holds);
            assert forall|row: int| 0 <= row < num_rows implies call_ensures(
                row_is_ok,
                (row as usize,),
                #[trigger] joined(parts@)[row],
            ) by {
                assert(holds(row, joined(parts@)[row]));
            }
        }
    }
    join_rows(&parts)
}

/// The chunks cover every row exactly once: the first starts at row 0, each
/// ends where the next one starts, the last ends after the last row, and none
/// is empty. There are no more of them than threads, where there are any.
pub proof fn law_chunks_partition_rows(num_rows: nat, threads: nat)
    requires
        num_rows > 0,
    ensures
        chunk_start(num_rows, threads, 0) == 0,
        chunk_start(num_rows, threads, chunk_count(num_rows, threads) as int) == num_rows,
        forall|i: int|
            0 <= i < chunk_count(num_rows, threads) ==> #[trigger] chunk_start(
                num_rows,
                threads,
                i,
            ) < chunk_start(num_rows, threads, i + 1),
        0 < chunk_count(num_rows, threads) <= used_threads(num_rows, threads),
        threads > 0 ==> chunk_count(num_rows, threads) <= threads,
{
    lemma_chunk_starts(num_rows, threads);
    let used = used_threads(num_rows, threads);
    let len = chunk_len(num_rows, threads);
    let count = chunk_count(num_rows, threads);
    lemma_ceiling_quotient(num_rows, used);
    lemma_ceiling_quotient(num_rows, len);
    assert(count <= used) by (nonlinear_arith)
        requires
            (count - 1) * len < num_rows,
            used * len >= num_rows,
            len > 0,
    ;
}

/// Too few rows for threads are one chunk.
pub proof fn law_few_rows_are_one_chunk(num_rows: nat, threads: nat)
    requires
        0 < num_rows < IS_FINITE_MIN_ROWS_FOR_THREADING,
    ensures
        chunk_count(num_rows, threads) == 1,
{
    law_chunks_partition_rows(num_rows, threads);
}

/// However many threads there are, the answers of the chunks, joined, are the
/// answers row by row.
pub proof fn law_chunks_give_the_answer_of_each_row(
    num_rows: nat,
    threads: nat,
    parts: Seq<Vec<bool>>,
    answer: spec_fn(int) -> bool,
)
    requires
        parts.len() == chunk_count(num_rows, threads),
        forall|i: int|
            0 <= i < parts.len() ==> (#[trigger] parts[i])@ == Seq::new(
                (chunk_start(num_rows, threads, i + 1) - chunk_start(num_rows, threads, i)) as nat,
                |k: int| answer(chunk_start(num_rows, threads, i) + k),
            ),
    ensures
        joined(parts) == Seq::new(num_rows, answer),
{
    if num_rows > 0 {
        lemma_chunk_starts(num_rows, threads);
        let holds = |row: int, ok: bool| ok == answer(row);
        lemma_joined(num_rows, threads, parts, holds);
        assert forall|row: int| 0 <= row < num_rows implies #[trigger] joined(parts)[row] == answer(
            row,
        ) by {
            assert(holds(row, joined(parts)[row]));
        }
    }
    assert(joined(parts) =~= Seq::new(num_rows, answer));
}

} // verus!
