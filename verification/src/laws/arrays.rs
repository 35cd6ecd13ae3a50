//! Arrays, put together from parts and cut into lists.

use vstd::prelude::*;

use arrow::buffer::NullBuffer;

use crate::array::{
    lemma_lists_hold_the_values, Array, DataType, FixedSizeListArray, ListField, PrimitiveArray,
    PrimitiveType,
};
use crate::error::Error;
use crate::laws::{bitmap_fits, bytes_in, count_of, lists_fit, same_values, values_fit};
use crate::text::decimal;

verus! {

/// A type has as many bytes as its numbers take, and the name that arrow gives
/// it.
pub proof fn law_widths_and_names(data_type: PrimitiveType, width: usize, name: &'static str)
    requires
        call_ensures(PrimitiveType::byte_width, (data_type,), width),
        call_ensures(PrimitiveType::name, (data_type,), name),
    ensures
        call_requires(PrimitiveType::byte_width, (data_type,)),
        call_requires(PrimitiveType::name, (data_type,)),
        width == bytes_in(data_type),
        data_type == PrimitiveType::Int8 ==> name@ == "Int8"@,
        data_type == PrimitiveType::Int16 ==> name@ == "Int16"@,
        data_type == PrimitiveType::Int32 ==> name@ == "Int32"@,
        data_type == PrimitiveType::Int64 ==> name@ == "Int64"@,
        data_type == PrimitiveType::UInt8 ==> name@ == "UInt8"@,
        data_type == PrimitiveType::UInt16 ==> name@ == "UInt16"@,
        data_type == PrimitiveType::UInt32 ==> name@ == "UInt32"@,
        data_type == PrimitiveType::UInt64 ==> name@ == "UInt64"@,
        data_type == PrimitiveType::Float16 ==> name@ == "Float16"@,
        data_type == PrimitiveType::Float32 ==> name@ == "Float32"@,
        data_type == PrimitiveType::Float64 ==> name@ == "Float64"@,
{
}

/// Numbers are put together from parts just where these fit, and are left as
/// they are.
pub proof fn law_numbers_from_parts(
    data_type: PrimitiveType,
    len: usize,
    data: Vec<u8>,
    nulls: Option<NullBuffer>,
    array: Option<PrimitiveArray>,
)
    requires
        call_ensures(PrimitiveArray::from_parts, (data_type, len, data, nulls), array),
    ensures
        call_requires(PrimitiveArray::from_parts, (data_type, len, data, nulls)),
        array is Some <==> data@.len() == len * bytes_in(data_type) && bitmap_fits(
            nulls,
            len as int,
        ),
        array matches Some(array) ==> array.data_type == data_type && array.len == len && array.data
            == data && array.nulls == nulls,
{
}

/// Other values are put together from parts just where these fit, and are left
/// as they are.
pub proof fn law_other_values_from_parts(
    name: String,
    len: usize,
    nulls: Option<NullBuffer>,
    array: Option<Array>,
)
    requires
        call_ensures(Array::other_from_parts, (name, len, nulls), array),
    ensures
        call_requires(Array::other_from_parts, (name, len, nulls)),
        array is Some <==> bitmap_fits(nulls, len as int),
        array matches Some(array) ==> array == (Array::Other { name, len, nulls }),
{
}

/// Lists are put together from parts just where these fit, and are left as they
/// are.
pub proof fn law_lists_from_parts(
    field: ListField,
    values: Array,
    value_length: i32,
    len: usize,
    nulls: Option<NullBuffer>,
    lists: Option<FixedSizeListArray>,
)
    requires
        values_fit(values),
        call_ensures(
            FixedSizeListArray::from_parts,
            (field, values, value_length, len, nulls),
            lists,
        ),
    ensures
        call_requires(FixedSizeListArray::from_parts, (field, values, value_length, len, nulls)),
        lists is Some <==> value_length >= 0 && count_of(values) == len * value_length
            && bitmap_fits(nulls, len as int),
        lists matches Some(lists) ==> lists.field == field && lists.values == values
            && lists.value_length == value_length && lists.len == len && lists.nulls == nulls,
{
}

/// The number and the type of the values of an array.
pub proof fn law_number_and_type(values: Array, len: usize, data_type: DataType)
    requires
        call_ensures(Array::len, (&values,), len),
        call_ensures(Array::data_type, (&values,), data_type),
    ensures
        call_requires(Array::len, (&values,)),
        call_requires(Array::data_type, (&values,)),
        len == count_of(values),
        match (values, data_type) {
            (Array::Primitive(numbers), DataType::Primitive(data_type)) => data_type
                == numbers.data_type,
            (Array::Other { name, .. }, DataType::Other(found)) => found@ == name@,
            _ => false,
        },
{
}

/// Values are cut into lists of a size just where the size divides their
/// number. The lists then hold all the values, one list after another, and none
/// of them is null. Without values, lists of size zero are none.
pub proof fn law_values_are_cut_into_lists(
    values: Array,
    size: i32,
    lists: Result<FixedSizeListArray, Error>,
)
    requires
        values_fit(values),
        call_ensures(FixedSizeListArray::try_new_from_values, (values, size), lists),
    ensures
        call_requires(FixedSizeListArray::try_new_from_values, (values, size)),
        lists is Ok <==> (size > 0 && count_of(values) % (size as int) == 0) || (size == 0
            && count_of(values) == 0),
        lists matches Ok(lists) ==> {
            &&& lists_fit(lists)
            &&& same_values(lists.values, values)
            &&& lists.value_length == size
            &&& lists.len * size == count_of(values)
            &&& size == 0 ==> lists.len == 0
            &&& lists.nulls is None
            &&& lists.field.name@ == "item"@
            &&& lists.field.nullable
        },
{
    if lists is Ok {
        lemma_lists_hold_the_values(count_of(values) as nat, size as int);
    }
}

/// How arrow words it that values cannot be cut into lists of a size.
pub proof fn law_why_values_are_not_cut(
    values: Array,
    size: i32,
    lists: Result<FixedSizeListArray, Error>,
)
    requires
        values_fit(values),
        call_ensures(FixedSizeListArray::try_new_from_values, (values, size), lists),
        lists is Err,
    ensures
        lists matches Err(Error::Arrow { message }) && {
            &&& size < 0 ==> message@ == "Invalid argument error: Size cannot be negative, got "@
                + (seq!['-'] + decimal((-size) as nat))
            &&& size == 0 ==> message@
                == "Invalid argument error: An degenerate FixedSizeListArray should have no underlying values, found "@
                + decimal(count_of(values) as nat) + " values"@
            &&& size > 0 ==> message@
                == "Invalid argument error: Incorrect length of values buffer for FixedSizeListArray, expected a multiple of "@
                + decimal(size as nat) + " got "@ + decimal(count_of(values) as nat)
        },
{
}

} // verus!
