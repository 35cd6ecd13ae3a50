//! Which rows of a list of vectors are finite.

use vstd::arithmetic::power::pow;
use vstd::prelude::*;

use arrow::buffer::NullBuffer;
use arrow_array::BooleanArray;

use crate::array::{
    is_valid_at, lemma_slice, validity, validity_fits, Array, ArrayView, FixedSizeListArray,
    FixedSizeListView, PrimitiveArray, PrimitiveArrayView, PrimitiveType,
};
use crate::numbers::{bits_are_finite, little_endian, value_bits};
use crate::outside::{boolean_items, parse_usize, usize_of_text};
use crate::rows::compute_row_chunks;

verus! {

/// The number of threads where none is asked for.
pub const DEFAULT_IS_FINITE_THREADS: usize = 8;

/// The number of threads that a setting asks for, if it asks for any.
pub open spec fn requested_threads(value: Option<Seq<char>>) -> Option<usize> {
    match value {
        Some(text) => match usize_of_text(text) {
            Some(threads) => if threads > 0 {
                Some(threads)
            } else {
                None
            },
            None => None,
        },
        None => None,
    }
}

/// The number of threads to use, from the value of `LANCE_IS_FINITE_THREADS` if
/// it is set. A value that is no positive number counts as unset.
pub fn is_finite_threads_from_env(value: Option<String>) -> (threads: usize)
    ensures
        threads == match requested_threads(
            match value {
                Some(text) => Some(text@),
                None => None,
            },
        ) {
            Some(threads) => threads,
            None => DEFAULT_IS_FINITE_THREADS,
        },
        threads > 0,
{
    match value {
        Some(text) => match parse_usize(&text) {
            Some(threads) => if threads > 0 {
                threads
            } else {
                DEFAULT_IS_FINITE_THREADS
            },
            None => DEFAULT_IS_FINITE_THREADS,
        },
        None => DEFAULT_IS_FINITE_THREADS,
    }
}

/// Whether the values are of a type that has infinities.
pub open spec fn holds_floats(values: ArrayView) -> bool {
    match values {
        ArrayView::Primitive(array) => array.data_type == PrimitiveType::Float16 || array.data_type
            == PrimitiveType::Float32 || array.data_type == PrimitiveType::Float64,
        ArrayView::Other { .. } => false,
    }
}

/// Whether value `i`, should it not be null, is finite.
pub open spec fn value_is_finite(values: ArrayView, i: int) -> bool {
    match values {
        ArrayView::Primitive(array) => bits_are_finite(array.data_type, value_bits(array, i)),
        ArrayView::Other { .. } => true,
    }
}

/// Whether neither the row nor any of its values is null.
pub open spec fn row_has_no_nulls(lists: FixedSizeListView, row: int) -> bool {
    &&& is_valid_at(lists.validity, row)
    &&& forall|i: int|
        row * lists.value_length <= i < row * lists.value_length + lists.value_length
            ==> #[trigger] is_valid_at(lists.values.validity(), i)
}

/// Whether all values of a row, should they not be null, are finite.
pub open spec fn row_values_are_finite(lists: FixedSizeListView, row: int) -> bool {
    forall|i: int|
        row * lists.value_length <= i < row * lists.value_length + lists.value_length
            ==> #[trigger] value_is_finite(lists.values, i)
}

/// Whether a row is finite: neither it nor any of its values is null, and all
/// its values are finite.
pub open spec fn row_is_finite(lists: FixedSizeListView, row: int) -> bool {
    row_has_no_nulls(lists, row) && row_values_are_finite(lists, row)
}

/// For each row, whether neither it nor any of its values is null.
pub open spec fn null_free_rows(lists: FixedSizeListView) -> Seq<Option<bool>> {
    Seq::new(lists.len, |row: int| Some(row_has_no_nulls(lists, row)))
}

/// For each row, whether it is finite.
pub open spec fn finite_rows(lists: FixedSizeListView) -> Seq<Option<bool>> {
    Seq::new(lists.len, |row: int| Some(row_is_finite(lists, row)))
}

proof fn lemma_little_endian_bound(bytes: Seq<u8>)
    ensures
        little_endian(bytes) < pow(256, bytes.len()),
    decreases bytes.len(),
{
    reveal(pow);
    if bytes.len() > 0 {
        lemma_little_endian_bound(bytes.drop_first());
    }
}

/// Reads `width` bytes from `start` on as a number, the least significant byte
/// first.
fn read_little_endian(data: &Vec<u8>, start: usize, width: usize) -> (bits: u64)
    requires
        width <= 8,
        start + width <= data.len(),
    ensures
        bits == little_endian(data@.subrange(start as int, start + width)),
{
    let mut bits: u64 = 0;
    let mut left: usize = width;
    while left > 0
        invariant
            left <= width <= 8,
            start + width <= data.len(),
            bits == little_endian(data@.subrange(start + left, start + width)),
        decreases left,
    {
        let ghost tail = data@.subrange(start + left, start + width);
        let ghost longer = data@.subrange(start + left - 1, start + width);
        proof {
            assert(longer.drop_first() =~= tail);
            lemma_little_endian_bound(longer);
            assert(pow(256, longer.len()) <= 0x1_0000_0000_0000_0000) by {
                reveal_with_fuel(pow, 9);
            }
        }
        left = left - 1;
        bits = bits * 256 + data[start + left] as u64;
    }
    bits
}

/// Whether a value of the type, with these bits, is finite.
fn are_finite(data_type: PrimitiveType, bits: u64) -> (finite: bool)
    ensures
        finite == bits_are_finite(data_type, bits as nat),
{
    match data_type {
        PrimitiveType::Float16 => (bits / 0x400) % 0x20 != 0x1f,
        PrimitiveType::Float32 => (bits / 0x80_0000) % 0x100 != 0xff,
        PrimitiveType::Float64 => (bits / 0x10_0000_0000_0000) % 0x800 != 0x7ff,
        _ => true,
    }
}

/// Whether slot `i` holds a value.
fn is_valid(nulls: &Option<NullBuffer>, i: usize) -> (valid: bool)
    requires
        validity(*nulls) matches Some(bits) ==> i < bits.len(),
    ensures
        valid == is_valid_at(validity(*nulls), i as int),
{
    match nulls {
        Some(nulls) => nulls.is_valid(i),
        None => true,
    }
}

/// The values of row `row` lie among all the values.
proof fn lemma_row_in_bounds(lists: FixedSizeListView, row: int)
    requires
        lists.wf(),
        0 <= row < lists.len,
    ensures
        0 <= row * lists.value_length,
        row * lists.value_length + lists.value_length <= lists.values.len(),
{
    assert(0 <= row * lists.value_length) by (nonlinear_arith)
        requires
            0 <= row,
            lists.value_length >= 0,
    ;
    assert(row * lists.value_length + lists.value_length <= lists.len * lists.value_length)
        by (nonlinear_arith)
        requires
            0 <= row < lists.len,
            lists.value_length >= 0,
    ;
}

/// Whether neither the row nor any of its values is null.
fn no_nulls_in_row(fsl: &FixedSizeListArray, row: usize) -> (none: bool)
    requires
        fsl.wf(),
        row < fsl.len,
    ensures
        none == row_has_no_nulls(fsl@, row as int),
{
    proof {
        lemma_row_in_bounds(fsl@, row as int);
    }
    if !is_valid(&fsl.nulls, row) {
        return false;
    }
    let nulls = match &fsl.values {
        Array::Primitive(array) => &array.nulls,
        Array::Other { nulls, .. } => nulls,
    };
    let dim: usize = fsl.value_length as usize;
    let start: usize = row * dim;
    let end: usize = start + dim;
    let mut i: usize = start;
    while i < end
        invariant
            start <= i <= end,
            start == row * fsl@.value_length,
            end == start + fsl@.value_length,
            end <= fsl@.values.len(),
            validity(*nulls) == fsl@.values.validity(),
            validity_fits(fsl@.values.validity(), fsl@.values.len()),
            forall|k: int| start <= k < i ==> #[trigger] is_valid_at(fsl@.values.validity(), k),
        decreases end - i,
    {
        if !is_valid(nulls, i) {
            assert(!is_valid_at(fsl@.values.validity(), i as int));
            return false;
        }
        i = i + 1;
    }
    true
}

/// Whether row `row` is finite, for the values of a type of numbers.
fn typed_row_is_finite(fsl: &FixedSizeListArray, array: &PrimitiveArray, row: usize) -> (finite: bool)
    requires
        fsl.wf(),
        fsl@.values == ArrayView::Primitive(array@),
        row < fsl.len,
    ensures
        finite == row_is_finite(fsl@, row as int),
{
    proof {
        lemma_row_in_bounds(fsl@, row as int);
    }
    if !no_nulls_in_row(fsl, row) {
        return false;
    }
    let dim: usize = fsl.value_length as usize;
    let width: usize = array.data_type.byte_width();
    let start: usize = row * dim;
    let end: usize = start + dim;
    let mut i: usize = start;
    while i < end
        invariant
            start <= i <= end,
            start == row * fsl@.value_length,
            end == start + fsl@.value_length,
            end <= array@.len,
            fsl@.values == ArrayView::Primitive(array@),
            array.wf(),
            width == array.data_type.width(),
            forall|k: int| start <= k < i ==> #[trigger] value_is_finite(fsl@.values, k),
        decreases end - i,
    {
        assert(i * width + width <= array.data.len()) by (nonlinear_arith)
            requires
                i + 1 <= array@.len,
                array.data.len() == array@.len * width,
        ;
        assert(0 <= i * width) by (nonlinear_arith);
        let bits: u64 = read_little_endian(&array.data, i * width, width);
        if !are_finite(array.data_type, bits) {
            assert(!value_is_finite(fsl@.values, i as int));
            return false;
        }
        i = i + 1;
    }
    true
}

/// Which rows are finite, for the values of a type of numbers.
fn is_finite_typed(fsl: &FixedSizeListArray, array: &PrimitiveArray) -> (finite: BooleanArray)
    requires
        fsl.wf(),
        fsl@.values == ArrayView::Primitive(array@),
    ensures
        boolean_items(finite) == finite_rows(fsl@),
{
    let row_is_ok = |row: usize| -> (ok: bool)
        requires
            fsl.wf(),
            fsl@.values == ArrayView::Primitive(array@),
            row < fsl.len,
        ensures
            ok == row_is_finite(fsl@, row as int),
        { typed_row_is_finite(fsl, array, row) };
    let finite = compute_row_chunks(fsl.len, DEFAULT_IS_FINITE_THREADS, row_is_ok);
    assert(boolean_items(finite) =~= finite_rows(fsl@));
    finite
}

/// Which rows have no nulls: those that are finite, where the values are of a
/// type without infinities.
pub fn is_finite_no_float(fsl: &FixedSizeListArray) -> (finite: BooleanArray)
    requires
        fsl.wf(),
    ensures
        boolean_items(finite) == null_free_rows(fsl@),
        !holds_floats(fsl@.values) ==> boolean_items(finite) == finite_rows(fsl@),
{
    let row_is_ok = |row: usize| -> (ok: bool)
        requires
            fsl.wf(),
            row < fsl.len,
        ensures
            ok == row_has_no_nulls(fsl@, row as int),
        { no_nulls_in_row(fsl, row) };
    let finite = compute_row_chunks(fsl.len, DEFAULT_IS_FINITE_THREADS, row_is_ok);
    assert(boolean_items(finite) =~= null_free_rows(fsl@));
    proof {
        if !holds_floats(fsl@.values) {
            assert(null_free_rows(fsl@) =~= finite_rows(fsl@));
        }
    }
    finite
}

/// Checks, for each row, whether it is finite. The answer has as many items as
/// there are rows, none of them null: `true` for a finite row, `false` for one
/// that is null, or holds a null or a value that is not finite.
pub fn is_finite(fsl: &FixedSizeListArray) -> (finite: BooleanArray)
    requires
        fsl.wf(),
    ensures
        boolean_items(finite) == finite_rows(fsl@),
{
    match &fsl.values {
        Array::Primitive(array) => match array.data_type {
            PrimitiveType::Float16 | PrimitiveType::Float32 | PrimitiveType::Float64 =>
                is_finite_typed(fsl, array),
            _ => is_finite_no_float(fsl),
        },
        Array::Other { .. } => is_finite_no_float(fsl),
    }
}

/// Checks whether one row is finite.
pub fn is_finite_row(fsl: &FixedSizeListArray, row: usize) -> (finite: bool)
    requires
        fsl.wf(),
        row < fsl.len,
    ensures
        finite == row_is_finite(fsl@, row as int),
{
    match &fsl.values {
        Array::Primitive(array) => typed_row_is_finite(fsl, array, row),
        Array::Other { .. } => no_nulls_in_row(fsl, row),
    }
}

/// A null row is not finite, and neither is a row that holds a null, whatever
/// its values are.
pub proof fn law_nulls_are_not_finite(lists: FixedSizeListView, row: int, i: int)
    requires
        lists.wf(),
        0 <= row < lists.len,
        !is_valid_at(lists.validity, row) || (row * lists.value_length <= i < row
            * lists.value_length + lists.value_length && !is_valid_at(lists.values.validity(), i)),
    ensures
        !row_is_finite(lists, row),
{
}

/// A row that holds a value that is not finite is not finite itself.
pub proof fn law_one_value_spoils_its_row(lists: FixedSizeListView, row: int, i: int)
    requires
        lists.wf(),
        0 <= row < lists.len,
        row * lists.value_length <= i < row * lists.value_length + lists.value_length,
        !value_is_finite(lists.values, i),
    ensures
        !row_is_finite(lists, row),
{
}

/// Where the values are of a type without infinities, only nulls count.
pub proof fn law_only_nulls_count_without_floats(lists: FixedSizeListView, row: int)
    requires
        lists.wf(),
        0 <= row < lists.len,
        !holds_floats(lists.values),
    ensures
        row_is_finite(lists, row) <==> row_has_no_nulls(lists, row),
{
}

/// A finite row has no nulls, and to look for nulls alone gives the finite rows
/// just where the values of all rows without nulls are finite.
pub proof fn law_finite_rows_among_those_without_nulls(lists: FixedSizeListView)
    requires
        lists.wf(),
    ensures
        forall|row: int|
            0 <= row < lists.len && #[trigger] row_is_finite(lists, row) ==> row_has_no_nulls(
                lists,
                row,
            ),
        null_free_rows(lists) == finite_rows(lists) <==> (forall|row: int|
            0 <= row < lists.len && #[trigger] row_has_no_nulls(lists, row)
                ==> row_values_are_finite(lists, row)),
{
    let same = forall|row: int|
        0 <= row < lists.len && #[trigger] row_has_no_nulls(lists, row) ==> row_values_are_finite(
            lists,
            row,
        );
    if same {
        assert(null_free_rows(lists) =~= finite_rows(lists));
    }
    if null_free_rows(lists) == finite_rows(lists) {
        assert forall|row: int|
            0 <= row < lists.len && #[trigger] row_has_no_nulls(
                lists,
                row,
            ) implies row_values_are_finite(lists, row) by {
            assert(null_free_rows(lists)[row] == finite_rows(lists)[row]);
        }
    }
}

/// A row is as finite in a slice of the lists as it is among all of them.
pub proof fn law_slices_keep_their_answers(
    lists: FixedSizeListView,
    offset: nat,
    len: nat,
    row: int,
)
    requires
        lists.wf(),
        offset + len <= lists.len,
        0 <= row < len,
    ensures
        lists.slice(offset, len).wf(),
        row_has_no_nulls(lists.slice(offset, len), row) <==> row_has_no_nulls(lists, offset + row),
        row_is_finite(lists.slice(offset, len), row) <==> row_is_finite(lists, offset + row),
{
    let slice = lists.slice(offset, len);
    let size = lists.value_length;
    lemma_slice(lists, offset, len);
    lemma_row_in_bounds(slice, row);
    lemma_row_in_bounds(lists, offset + row);
    assert((offset + row) * size == offset * size + row * size) by (nonlinear_arith);
    assert forall|i: int| row * size <= i < row * size + size implies is_valid_at(
        slice.values.validity(),
        i,
    ) == is_valid_at(lists.values.validity(), offset * size + i) && value_is_finite(slice.values, i)
        == value_is_finite(lists.values, offset * size + i) by {
        if let ArrayView::Primitive(array) = lists.values {
            lemma_slice_values(array, (offset * size) as nat, (len * size) as nat, i);
        }
    }
    if row_has_no_nulls(slice, row) {
        assert forall|k: int|
            (offset + row) * size <= k < (offset + row) * size + size implies #[trigger] is_valid_at(
            lists.values.validity(),
            k,
        ) by {
            assert(is_valid_at(slice.values.validity(), k - offset * size));
        }
    }
    if row_has_no_nulls(lists, offset + row) {
        assert forall|k: int| row * size <= k < row * size + size implies #[trigger] is_valid_at(
            slice.values.validity(),
            k,
        ) by {
            assert(is_valid_at(lists.values.validity(), offset * size + k));
        }
    }
    if row_values_are_finite(slice, row) {
        assert forall|k: int|
            (offset + row) * size <= k < (offset + row) * size
                + size implies #[trigger] value_is_finite(lists.values, k) by {
            assert(value_is_finite(slice.values, k - offset * size));
        }
    }
    if row_values_are_finite(lists, offset + row) {
        assert forall|k: int| row * size <= k < row * size + size implies #[trigger] value_is_finite(
            slice.values,
            k,
        ) by {
            assert(value_is_finite(lists.values, offset * size + k));
        }
    }
}

/// Value `i` of a slice has the bits that it has among all the values.
proof fn lemma_slice_values(array: PrimitiveArrayView, offset: nat, len: nat, i: int)
    requires
        array.wf(),
        offset + len <= array.len,
        0 <= i < len,
    ensures
        value_bits(array.slice(offset, len), i) == value_bits(array, offset + i),
{
    let width = array.data_type.width();
    assert((offset + i) * width == offset * width + i * width) by (nonlinear_arith);
    assert(i * width + width <= len * width) by (nonlinear_arith)
        requires
            i + 1 <= len,
    ;
    assert(0 <= i * width) by (nonlinear_arith)
        requires
            0 <= i,
    ;
    assert(offset * width + len * width <= array.len * width) by (nonlinear_arith)
        requires
            offset + len <= array.len,
    ;
    assert(array.slice(offset, len).data.subrange(i * width, i * width + width)
        =~= array.data.subrange((offset + i) * width, (offset + i) * width + width));
}

} // verus!
