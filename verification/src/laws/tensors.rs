//! Lists as tensors, and back.

use vstd::prelude::*;

use crate::array::{
    lemma_lists_are_counted, Array, DataType as ArrayDataType, FixedSizeListArray, PrimitiveArray,
    PrimitiveType,
};
use crate::convert::{bytes_to_array, law_lists_survive_as_tensor};
use crate::error::Error;
use crate::laws::{bytes_in, count_of, lists_fit, numbers_fit, same_values, values_fit};
use crate::pb::tensor::DataType;
use crate::pb::Tensor;
use crate::text::{decimal, list_text};

verus! {

/// The number by which a tensor says that its values are of a type of numbers,
/// if it can.
pub open spec fn number_of(data_type: PrimitiveType) -> Option<int> {
    match data_type {
        PrimitiveType::Float16 => Some(1),
        PrimitiveType::Float32 => Some(2),
        PrimitiveType::Float64 => Some(3),
        PrimitiveType::UInt8 => Some(4),
        PrimitiveType::UInt16 => Some(5),
        PrimitiveType::UInt32 => Some(6),
        PrimitiveType::UInt64 => Some(7),
        _ => None,
    }
}

/// A type of numbers becomes the type of tensors that is stored by its number,
/// and any other type is refused by its name, whether it is handed over or only
/// shown.
pub proof fn law_types_become_tensor_types(
    dt: ArrayDataType,
    shown: Result<DataType, Error>,
    handed_over: Result<DataType, Error>,
    number: i32,
    name: &'static str,
)
    requires
        call_ensures(DataType::try_from, (&dt,), shown),
        call_ensures(DataType::try_from_value, (dt,), handed_over),
        shown matches Ok(data_type) ==> call_ensures(DataType::number, (data_type,), number),
        dt matches ArrayDataType::Primitive(primitive) ==> call_ensures(
            PrimitiveType::name,
            (primitive,),
            name,
        ),
    ensures
        call_requires(DataType::try_from, (&dt,)),
        call_requires(DataType::try_from_value, (dt,)),
        match (shown, handed_over) {
            (Ok(shown), Ok(handed_over)) => shown == handed_over,
            (
                Err(Error::Index { message }),
                Err(Error::Index { message: other }),
            ) => message@ == other@,
            _ => false,
        },
        match dt {
            ArrayDataType::Primitive(primitive) => match shown {
                Ok(_) => number_of(primitive) == Some(number as int),
                Err(Error::Index { message }) => number_of(primitive) is None && message@
                    == "pb tensor type not supported: "@ + name@,
                Err(_) => false,
            },
            ArrayDataType::Other(other) => shown matches Err(Error::Index { message }) && message@
                == "pb tensor type not supported: "@ + other@,
        },
{
}

/// Types of tensors have the numbers from 0 to 7, and a number and its type
/// name one another.
pub proof fn law_numbers_of_tensor_types(
    number: i32,
    found: Option<DataType>,
    data_type: DataType,
    number_found: i32,
)
    requires
        call_ensures(DataType::from_number, (number,), found),
        call_ensures(DataType::number, (data_type,), number_found),
    ensures
        call_requires(DataType::from_number, (number,)),
        call_requires(DataType::number, (data_type,)),
        0 <= number_found <= 7,
        found is Some <==> 0 <= number <= 7,
        found == Some(data_type) <==> number_found == number,
        number_found == 0 <==> data_type == DataType::Bfloat16,
{
}

/// Every type of tensors but `Bfloat16` stands for the type of numbers that is
/// stored by its number.
pub proof fn law_tensor_types_stand_for_types(
    dt: DataType,
    number: i32,
    data_type: ArrayDataType,
)
    requires
        dt != DataType::Bfloat16,
        call_ensures(DataType::number, (dt,), number),
        call_ensures(ArrayDataType::from, (dt,), data_type),
    ensures
        call_requires(ArrayDataType::from, (dt,)),
        data_type matches ArrayDataType::Primitive(primitive) && number_of(primitive) == Some(
            number as int,
        ),
{
}

/// Lists of a type that tensors have are stored with the number of the type,
/// the number of lists and their length, of which the low 32 bits are kept, and
/// the bytes of the values as they are.
pub proof fn law_lists_are_stored(
    lists: FixedSizeListArray,
    tensor: Result<Tensor, Error>,
    name: &'static str,
)
    requires
        lists_fit(lists),
        lists.values matches Array::Primitive(numbers) ==> call_ensures(
            PrimitiveType::name,
            (numbers.data_type,),
            name,
        ),
        call_ensures(Tensor::try_from, (&lists,), tensor),
    ensures
        call_requires(Tensor::try_from, (&lists,)),
        match (lists.values, tensor) {
            (Array::Primitive(numbers), Ok(tensor)) => {
                &&& number_of(numbers.data_type) == Some(tensor.data_type as int)
                &&& tensor.shape@.len() == 2
                &&& tensor.shape@[0] == lists.len as int % 0x1_0000_0000
                &&& tensor.shape@[1] == lists.value_length
                &&& tensor.data@ == numbers.data@
            },
            (Array::Primitive(numbers), Err(Error::Index { message })) => number_of(
                numbers.data_type,
            ) is None && message@ == "pb tensor type not supported: "@ + name@,
            (Array::Other { name, .. }, Err(Error::Index { message })) => message@
                == "pb tensor type not supported: "@ + name@,
            _ => false,
        },
{
}

/// The bytes of the first `len` values are taken as they are, and those that
/// are missing are zeros.
pub proof fn law_bytes_are_read(
    data_type: PrimitiveType,
    bytes: Vec<u8>,
    len: usize,
    array: PrimitiveArray,
)
    requires
        len * bytes_in(data_type) <= isize::MAX,
        call_ensures(bytes_to_array, (data_type, &bytes, len), array),
    ensures
        call_requires(bytes_to_array, (data_type, &bytes, len)),
        numbers_fit(array),
        array.data_type == data_type,
        array.len == len,
        array.nulls is None,
        forall|i: int|
            0 <= i < array.data@.len() ==> (#[trigger] array.data@[i]) == if i < bytes@.len() {
                bytes@[i]
            } else {
                0
            },
{
}

/// Values are cut into the rows of a shape just where there are as many of them
/// as the rows have, and no row is longer than a list can be. The lists then
/// hold all the values, one row after another.
pub proof fn law_values_are_cut_into_rows(
    shape: Vec<u32>,
    values: Array,
    lists: Result<FixedSizeListArray, Error>,
)
    requires
        shape@.len() == 2,
        shape@[0] * shape@[1] <= usize::MAX,
        values_fit(values),
        call_ensures(FixedSizeListArray::try_from_values, (&shape, values), lists),
    ensures
        call_requires(FixedSizeListArray::try_from_values, (&shape, values)),
        lists is Ok <==> count_of(values) == shape@[0] * shape@[1] && shape@[1] <= i32::MAX,
        match lists {
            Ok(lists) => {
                &&& lists_fit(lists)
                &&& same_values(lists.values, values)
                &&& lists.value_length == shape@[1]
                &&& lists.len == if shape@[1] > 0 {
                    shape@[0] as int
                } else {
                    0
                }
                &&& lists.nulls is None
                &&& lists.field.name@ == "item"@
                &&& lists.field.nullable
            },
            Err(Error::Index { message }) => count_of(values) != shape@[0] * shape@[1] && message@
                == "Tensor shape "@ + list_text(shape@) + " does not match to data len: "@
                + decimal(count_of(values) as nat),
            Err(Error::Arrow { message }) => count_of(values) == shape@[0] * shape@[1] && message@
                == "Invalid argument error: Size cannot be negative, got "@ + (seq!['-'] + decimal(
                (0x1_0000_0000 - shape@[1]) as nat,
            )),
        },
{
    let rows = shape@[0] as nat;
    let size = shape@[1] as int;
    if size <= i32::MAX {
        lemma_lists_are_counted(rows, size);
        if size == 0 {
            assert(rows * size == 0) by (nonlinear_arith)
                requires
                    size == 0,
            ;
        }
    }
}

/// A tensor of two dimensions is read as lists, one for each of its rows, unless
/// they are longer than a list can be. The values have the type that is stored
/// by the number of the tensor, and its bytes; those that are missing are zeros.
/// Nothing is null, and the values are nullable items.
pub proof fn law_tensors_are_read(
    tensor: Tensor,
    data_type: PrimitiveType,
    lists: Result<FixedSizeListArray, Error>,
)
    requires
        tensor.shape@.len() == 2,
        number_of(data_type) == Some(tensor.data_type as int),
        tensor.shape@[0] * tensor.shape@[1] * bytes_in(data_type) <= isize::MAX,
        call_ensures(FixedSizeListArray::try_from, (&tensor,), lists),
    ensures
        call_requires(FixedSizeListArray::try_from, (&tensor,)),
        lists is Ok <==> tensor.shape@[1] <= i32::MAX,
        match lists {
            Ok(lists) => {
                &&& lists_fit(lists)
                &&& lists.value_length == tensor.shape@[1]
                &&& lists.len == if tensor.shape@[1] > 0 {
                    tensor.shape@[0] as int
                } else {
                    0
                }
                &&& lists.nulls is None
                &&& lists.field.name@ == "item"@
                &&& lists.field.nullable
                &&& lists.values matches Array::Primitive(numbers)
                &&& numbers.data_type == data_type
                &&& numbers.nulls is None
                &&& forall|i: int|
                    0 <= i < numbers.data@.len() ==> (#[trigger] numbers.data@[i]) == if i
                        < tensor.data@.len() {
                        tensor.data@[i]
                    } else {
                        0
                    }
            },
            Err(Error::Arrow { message }) => message@
                == "Invalid argument error: Size cannot be negative, got "@ + (seq!['-'] + decimal(
                (0x1_0000_0000 - tensor.shape@[1]) as nat,
            )),
            Err(_) => false,
        },
{
    let rows = tensor.shape@[0] as nat;
    let size = tensor.shape@[1] as int;
    if size <= i32::MAX {
        lemma_lists_are_counted(rows, size);
        if size == 0 {
            assert(rows * size == 0) by (nonlinear_arith)
                requires
                    size == 0,
            ;
        }
    }
}

/// A tensor of more or fewer dimensions than two is refused, with its shape.
pub proof fn law_other_shapes_are_refused(
    tensor: Tensor,
    lists: Result<FixedSizeListArray, Error>,
)
    requires
        tensor.shape@.len() != 2,
        call_ensures(FixedSizeListArray::try_from, (&tensor,), lists),
    ensures
        call_requires(FixedSizeListArray::try_from, (&tensor,)),
        lists matches Err(Error::Index { message }) && message@
            == "only accept 2-D tensor shape, got: "@ + list_text(tensor.shape@),
{
}

/// What was stored is read back: as many lists, of the same length, the same
/// type and the same bytes. Lists without values, and more lists than a shape
/// has room for, are left out.
pub proof fn law_stored_lists_are_read_back(
    lists: FixedSizeListArray,
    tensor: Tensor,
    back: Result<FixedSizeListArray, Error>,
)
    requires
        lists_fit(lists),
        0 < lists.value_length,
        lists.len < 0x1_0000_0000,
        call_ensures(Tensor::try_from, (&lists,), Ok::<Tensor, Error>(tensor)),
        call_ensures(FixedSizeListArray::try_from, (&tensor,), back),
    ensures
        back matches Ok(back) && {
            &&& back.len == lists.len
            &&& back.value_length == lists.value_length
            &&& back.nulls is None
            &&& lists.values matches Array::Primitive(numbers)
            &&& back.values matches Array::Primitive(found)
            &&& found.data_type == numbers.data_type
            &&& found.len == numbers.len
            &&& found.data@ == numbers.data@
            &&& found.nulls is None
        },
{
    law_lists_survive_as_tensor(lists@);
}

} // verus!
