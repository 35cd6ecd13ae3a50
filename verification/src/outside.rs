//! What the arrow crates and the standard library do for this library. The
//! contracts in this file are trusted.

use vstd::prelude::*;

use arrow::array::ArrayData;
use arrow::buffer::{Buffer, NullBuffer};
use arrow::compute::cast;
use arrow_array::cast::AsArray;
use arrow_array::types::UInt8Type;
use arrow_array::{make_array, Array, BooleanArray, FixedSizeListArray, StructArray};
use arrow_schema::{DataType, Field};
use std::sync::Arc;

use crate::array::{validity, ListField, PrimitiveArray, PrimitiveType};
use crate::numbers::as_bytes;
use crate::text::{decimal, signed_decimal};

verus! {

/// Arrow's validity bitmap.
#[verifier::external_type_specification]
#[verifier::external_body]
pub struct ExNullBuffer(NullBuffer);

/// Arrow's array of booleans.
#[verifier::external_type_specification]
#[verifier::external_body]
pub struct ExBooleanArray(BooleanArray);

/// The bits of a validity bitmap: `true` where the slot holds a value, `false`
/// where it is null.
pub uninterp spec fn null_bits(nulls: NullBuffer) -> Seq<bool>;

/// The items of a boolean array, `None` for a null.
pub uninterp spec fn boolean_items(array: BooleanArray) -> Seq<Option<bool>>;

/// `NullBuffer::len` is the number of bits.
pub assume_specification[ NullBuffer::len ](nulls: &NullBuffer) -> (len: usize)
    ensures
        len == null_bits(*nulls).len(),
;

/// `NullBuffer::is_valid` reads the bit at `idx`. It panics past the end.
pub assume_specification[ NullBuffer::is_valid ](nulls: &NullBuffer, idx: usize) -> (valid: bool)
    requires
        idx < null_bits(*nulls).len(),
    ensures
        valid == null_bits(*nulls)[idx as int],
;

/// `BooleanArray::from` on a vector keeps the booleans in order and makes
/// none of them null.
#[verifier::external_body]
pub(crate) fn boolean_array(values: Vec<bool>) -> (array: BooleanArray)
    ensures
        boolean_items(array) == values@.map_values(|value: bool| Some(value)),
{
    BooleanArray::from(values)
}

/// The text with which arrow refuses to cut `values_len` values into lists of
/// `size` values each, or `None` where it accepts.
pub open spec fn list_refusal(values_len: nat, size: int) -> Option<Seq<char>> {
    if size < 0 {
        Some("Invalid argument error: Size cannot be negative, got "@ + signed_decimal(size))
    } else if size == 0 && values_len != 0 {
        Some(
            "Invalid argument error: An degenerate FixedSizeListArray should have no underlying values, found "@
                + decimal(values_len) + " values"@,
        )
    } else if size > 0 && values_len % (size as nat) != 0 {
        Some(
            "Invalid argument error: Incorrect length of values buffer for FixedSizeListArray, expected a multiple of "@
                + decimal(size as nat) + " got "@ + decimal(values_len),
        )
    } else {
        None
    }
}

/// The number of lists of `size` values each in `values_len` values. Lists
/// without values cannot be counted by their values: there are none.
pub open spec fn list_count(values_len: nat, size: int) -> nat {
    if size <= 0 {
        0
    } else {
        values_len / (size as nat)
    }
}

/// `FixedSizeListArray::try_new` with a nullable field and no null lists: when
/// it succeeds, how many lists it makes, and the text of its error otherwise.
/// Of the values it looks only at the number and at their type, which has to be
/// the field's, so that it is handed as many values as there are, without
/// contents.
#[verifier::external_body]
pub(crate) fn fixed_size_lists(field: &ListField, values_len: usize, size: i32) -> (lists: Result<
    usize,
    String,
>)
    requires
        field.nullable,
    ensures
        match lists {
            Ok(count) => list_refusal(values_len as nat, size as int) is None && count == list_count(
                values_len as nat,
                size as int,
            ),
            Err(message) => list_refusal(values_len as nat, size as int) == Some(message@),
        },
{
    let values = StructArray::new_empty_fields(values_len, None);
    let field = Field::new(field.name.as_str(), values.data_type().clone(), field.nullable);
    match FixedSizeListArray::try_new(Arc::new(field), size, Arc::new(values), None) {
        Ok(list) => Ok(list.len()),
        Err(error) => Err(error.to_string()),
    }
}

/// `arrow::compute::cast` from another numeric type to `UInt8` succeeds and
/// gives the numbers as bytes: their whole parts, and nulls over zeros where
/// there was a null, or where no byte can hold the whole part. Arrow reads its
/// buffers in the byte order of the machine: this holds of machines that keep
/// the least significant byte first, for which arrow documents that numbers can
/// be copied byte for byte.
#[verifier::external_body]
pub(crate) fn cast_to_uint8(name: &str, array: &PrimitiveArray) -> (result: Result<
    (Vec<u8>, Option<NullBuffer>),
    String,
>)
    requires
        array.wf(),
        array.data_type != PrimitiveType::UInt8,
        name@ == array.data_type.spec_name(),
    ensures
        match result {
            Ok((data, nulls)) => data@ == as_bytes(array@).data && validity(nulls) == as_bytes(
                array@,
            ).validity,
            Err(_) => false,
        },
{
    let empty = match name.parse::<DataType>() {
        Ok(data_type) => ArrayData::builder(data_type).len(array.len).nulls(array.nulls.clone()),
        Err(error) => return Err(error.to_string()),
    };
    let values = match empty.add_buffer(Buffer::from(array.data.as_slice())).build() {
        Ok(values) => make_array(values),
        Err(error) => return Err(error.to_string()),
    };
    let bytes = match cast(&values, &DataType::UInt8) {
        Ok(bytes) => bytes,
        Err(error) => return Err(error.to_string()),
    };
    let bytes = bytes.as_primitive::<UInt8Type>();
    Ok((bytes.values().to_vec(), bytes.nulls().cloned()))
}

/// Whether every character is a decimal digit.
pub open spec fn all_digits(text: Seq<char>) -> bool {
    forall|i: int| 0 <= i < text.len() ==> '0' <= #[trigger] text[i] <= '9'
}

/// The number that decimal digits stand for.
pub open spec fn digits_value(digits: Seq<char>) -> nat
    decreases digits.len(),
{
    if digits.len() == 0 {
        0
    } else {
        digits_value(digits.drop_last()) * 10 + (digits.last() as nat - '0' as nat) as nat
    }
}

/// The number that a text holds: decimal digits, with or without a plus sign
/// before them, and nothing else, of a value that a `usize` can take.
pub open spec fn usize_of_text(text: Seq<char>) -> Option<usize> {
    let digits = if text.len() > 0 && text[0] == '+' {
        text.drop_first()
    } else {
        text
    };
    if digits.len() > 0 && all_digits(digits) && digits_value(digits) <= usize::MAX {
        Some(digits_value(digits) as usize)
    } else {
        None
    }
}

/// `str::parse` to `usize` accepts what [`usize_of_text`] describes and gives
/// its value.
#[verifier::external_body]
pub(crate) fn parse_usize(text: &String) -> (number: Option<usize>)
    ensures
        number == usize_of_text(text@),
{
    text.parse::<usize>().ok()
}

} // verus!
