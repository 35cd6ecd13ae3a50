//! Which rows are finite.

use vstd::prelude::*;

use arrow_array::BooleanArray;

use crate::array::{
    is_valid_at, Array, ArrayView, FixedSizeListArray, PrimitiveArray, PrimitiveType,
};
use crate::finite::{
    is_finite, is_finite_no_float, is_finite_row, is_finite_threads_from_env, row_has_no_nulls,
    row_is_finite, value_is_finite,
};
use crate::laws::messages::{law_decimal, lemma_worth, worth};
use crate::laws::{bitmap_of, lists_fit, numbers_fit, valid_at};
use crate::numbers::little_endian;
use crate::outside::{all_digits, boolean_items};
use crate::text::decimal;

verus! {

/// Whether all bits of the exponent of number `i` are ones, as in an infinity
/// and in what is no number. An IEEE 754 number has its sign in the highest bit
/// of its last byte; 5, 8 or 11 bits of exponent follow, for a number of 2, 4 or
/// 8 bytes. Other numbers have no exponent.
pub open spec fn exponent_is_ones(numbers: PrimitiveArray, i: int) -> bool {
    let data = numbers.data@;
    match numbers.data_type {
        PrimitiveType::Float16 => data[2 * i + 1] % 128 >= 124,
        PrimitiveType::Float32 => data[4 * i + 3] % 128 == 127 && data[4 * i + 2] >= 128,
        PrimitiveType::Float64 => data[8 * i + 7] % 128 == 127 && data[8 * i + 6] >= 240,
        _ => false,
    }
}

/// The number that two bytes hold.
pub(crate) proof fn lemma_two_bytes(bytes: Seq<u8>)
    requires
        bytes.len() == 2,
    ensures
        little_endian(bytes) == bytes[0] + 256 * bytes[1],
{
    let rest = bytes.drop_first();
    reveal_with_fuel(little_endian, 3);
    assert(rest.drop_first().len() == 0);
}

/// The number that four bytes hold.
pub(crate) proof fn lemma_four_bytes(bytes: Seq<u8>)
    requires
        bytes.len() == 4,
    ensures
        little_endian(bytes) == bytes[0] + 0x100 * bytes[1] + 0x1_0000 * bytes[2] + 0x100_0000
            * bytes[3],
{
    let rest = bytes.drop_first();
    lemma_two_bytes(rest.drop_first());
    reveal_with_fuel(little_endian, 3);
}

/// The number that eight bytes hold.
pub(crate) proof fn lemma_eight_bytes(bytes: Seq<u8>)
    requires
        bytes.len() == 8,
    ensures
        little_endian(bytes) == bytes[0] + 0x100 * bytes[1] + 0x1_0000 * bytes[2] + 0x100_0000
            * bytes[3] + 0x1_0000_0000 * bytes[4] + 0x100_0000_0000 * bytes[5] + 0x1_0000_0000_0000
            * bytes[6] + 0x100_0000_0000_0000 * bytes[7],
{
    let a = bytes.drop_first();
    let b = a.drop_first();
    let c = b.drop_first();
    let d = c.drop_first();
    lemma_four_bytes(d);
    reveal_with_fuel(little_endian, 5);
}

/// A number is finite unless all bits of its exponent are ones.
proof fn lemma_value_is_finite(numbers: PrimitiveArray, i: int)
    requires
        numbers_fit(numbers),
        0 <= i < numbers.len,
    ensures
        value_is_finite(ArrayView::Primitive(numbers@), i) == !exponent_is_ones(numbers, i),
{
    let data = numbers.data@;
    match numbers.data_type {
        PrimitiveType::Float16 => {
            lemma_two_bytes(data.subrange(i * 2, i * 2 + 2));
            let low = data[2 * i] as int;
            let high = data[2 * i + 1] as int;
            assert((low + 256 * high) / 0x400 == high / 4);
        },
        PrimitiveType::Float32 => {
            lemma_four_bytes(data.subrange(i * 4, i * 4 + 4));
            let low = data[4 * i] + 0x100 * data[4 * i + 1];
            let mid = data[4 * i + 2] as int;
            let high = data[4 * i + 3] as int;
            assert((low + 0x1_0000 * mid + 0x100_0000 * high) / 0x80_0000 == mid / 128 + 2 * high);
        },
        PrimitiveType::Float64 => {
            lemma_eight_bytes(data.subrange(i * 8, i * 8 + 8));
            let low = data[8 * i] + 0x100 * data[8 * i + 1] + 0x1_0000 * data[8 * i + 2] + 0x100_0000
                * data[8 * i + 3] + 0x1_0000_0000 * data[8 * i + 4] + 0x100_0000_0000 * data[8 * i
                + 5];
            let mid = data[8 * i + 6] as int;
            let high = data[8 * i + 7] as int;
            assert(0 <= low < 0x1_0000_0000_0000);
            assert((low + 0x1_0000_0000_0000 * mid + 0x100_0000_0000_0000 * high)
                / 0x10_0000_0000_0000 == mid / 16 + 16 * high);
        },
        _ => {},
    }
}

/// Whether a row is not null and holds no null.
pub open spec fn nothing_is_null(fsl: FixedSizeListArray, row: int) -> bool {
    &&& valid_at(fsl.nulls, row)
    &&& forall|i: int|
        row * fsl.value_length <= i < (row + 1) * fsl.value_length ==> #[trigger] valid_at(
            bitmap_of(fsl.values),
            i,
        )
}

/// Whether a row is not null, holds no null, and holds no number whose exponent
/// is all ones.
pub open spec fn nothing_is_null_or_infinite(fsl: FixedSizeListArray, row: int) -> bool {
    &&& nothing_is_null(fsl, row)
    &&& fsl.values matches Array::Primitive(numbers) ==> forall|i: int|
        row * fsl.value_length <= i < (row + 1) * fsl.value_length ==> !#[trigger] exponent_is_ones(
            numbers,
            i,
        )
}

proof fn lemma_row(fsl: FixedSizeListArray, row: int)
    requires
        lists_fit(fsl),
        0 <= row < fsl.len,
    ensures
        row_has_no_nulls(fsl@, row) == nothing_is_null(fsl, row),
        row_is_finite(fsl@, row) == nothing_is_null_or_infinite(fsl, row),
{
    let size = fsl.value_length as int;
    assert((row + 1) * size == row * size + size) by (nonlinear_arith);
    assert(0 <= row * size && row * size + size <= fsl.len * size) by (nonlinear_arith)
        requires
            0 <= row < fsl.len,
            size >= 0,
    ;
    assert forall|i: int|
        #![trigger is_valid_at(fsl@.values.validity(), i)]
        #![trigger valid_at(bitmap_of(fsl.values), i)]
        is_valid_at(fsl@.values.validity(), i) == valid_at(bitmap_of(fsl.values), i) by {}
    assert(row_has_no_nulls(fsl@, row) == nothing_is_null(fsl, row));
    if let Array::Primitive(numbers) = fsl.values {
        assert forall|i: int|
            #![trigger value_is_finite(fsl@.values, i)]
            #![trigger exponent_is_ones(numbers, i)]
            row * size <= i < row * size + size implies value_is_finite(fsl@.values, i)
            == !exponent_is_ones(numbers, i) by {
            lemma_value_is_finite(numbers, i);
        }
    }
}

/// Every array of lists is answered row by row: `true` where the row is not
/// null, holds no null, and holds no number whose exponent is all ones, and
/// `false` elsewhere, whatever the number and the length of the rows.
pub proof fn law_is_finite(fsl: FixedSizeListArray, finite: BooleanArray, row: int)
    requires
        lists_fit(fsl),
        0 <= row < fsl.len,
        call_ensures(is_finite, (&fsl,), finite),
    ensures
        call_requires(is_finite, (&fsl,)),
        boolean_items(finite).len() == fsl.len,
        boolean_items(finite)[row] == Some(nothing_is_null_or_infinite(fsl, row)),
{
    lemma_row(fsl, row);
}

/// A row by itself is answered in the same way.
pub proof fn law_is_finite_row(fsl: FixedSizeListArray, row: usize, finite: bool)
    requires
        lists_fit(fsl),
        row < fsl.len,
        call_ensures(is_finite_row, (&fsl, row), finite),
    ensures
        call_requires(is_finite_row, (&fsl, row)),
        finite == nothing_is_null_or_infinite(fsl, row as int),
{
    lemma_row(fsl, row as int);
}

/// To look for nulls alone gives `true` where the row is not null and holds no
/// null, and `false` elsewhere, whatever the number and the length of the rows.
pub proof fn law_is_finite_no_float(fsl: FixedSizeListArray, finite: BooleanArray, row: int)
    requires
        lists_fit(fsl),
        0 <= row < fsl.len,
        call_ensures(is_finite_no_float, (&fsl,), finite),
    ensures
        call_requires(is_finite_no_float, (&fsl,)),
        boolean_items(finite).len() == fsl.len,
        boolean_items(finite)[row] == Some(nothing_is_null(fsl, row)),
{
    lemma_row(fsl, row);
}

/// No lists have no answers.
pub proof fn law_no_rows_have_no_answers(
    fsl: FixedSizeListArray,
    finite: BooleanArray,
    no_float: BooleanArray,
)
    requires
        lists_fit(fsl),
        fsl.len == 0,
        call_ensures(is_finite, (&fsl,), finite),
        call_ensures(is_finite_no_float, (&fsl,), no_float),
    ensures
        call_requires(is_finite, (&fsl,)),
        call_requires(is_finite_no_float, (&fsl,)),
        boolean_items(finite).len() == 0,
        boolean_items(no_float).len() == 0,
{
}

/// What follows a plus sign at the start of a text, or else the whole text.
pub open spec fn behind_the_sign(text: Seq<char>) -> Seq<char> {
    if text.len() > 0 && text[0] == '+' {
        text.subrange(1, text.len() as int)
    } else {
        text
    }
}

/// Whether a text consists of decimal digits, one or more.
pub open spec fn is_number(text: Seq<char>) -> bool {
    text.len() > 0 && forall|i: int| 0 <= i < text.len() ==> '0' <= #[trigger] text[i] <= '9'
}

/// A setting of a positive number, in decimal digits with or without a plus
/// sign, asks for as many threads; with any other setting, and with none, there
/// are 8.
pub proof fn law_threads(value: Option<String>, threads: usize)
    requires
        call_ensures(is_finite_threads_from_env, (value,), threads),
    ensures
        call_requires(is_finite_threads_from_env, (value,)),
        value is None ==> threads == 8,
        value matches Some(text) ==> if is_number(behind_the_sign(text@)) && 0 < worth(
            behind_the_sign(text@),
        ) <= usize::MAX {
            threads == worth(behind_the_sign(text@))
        } else {
            threads == 8
        },
{
    if let Some(text) = value {
        let digits = behind_the_sign(text@);
        if text@.len() > 0 {
            assert(text@.drop_first() =~= text@.subrange(1, text@.len() as int));
        }
        if all_digits(digits) {
            lemma_worth(digits);
        }
    }
}

/// A positive number of threads that is written in decimal is what is used.
pub proof fn law_threads_as_written(text: String, n: usize, threads: usize)
    requires
        n > 0,
        text@ == decimal(n as nat),
        call_ensures(is_finite_threads_from_env, (Some(text),), threads),
    ensures
        threads == n,
{
    law_decimal(n as nat);
    assert('0' <= text@[0] <= '9');
    law_threads(Some(text), threads);
}

} // verus!
