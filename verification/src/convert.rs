//! Lists of vectors as tensors, and back.

use vstd::prelude::*;
use vstd::string::*;

use crate::array::{
    item_field, lemma_lists_are_counted, lemma_slice, lists_of, Array, ArrayView, DataTypeView,
    FixedSizeListArray, FixedSizeListView, PrimitiveArray, PrimitiveArrayView, PrimitiveType,
};
use crate::error::{Error, ErrorView};
use crate::pb::tensor::{primitive_type, DataType};
use crate::pb::{Tensor, TensorView};
use crate::text::{decimal, list_text, push_decimal, push_list};

verus! {

/// The number that the low 32 bits of `n` hold.
pub open spec fn low_u32(n: nat) -> u32 {
    (n % 0x1_0000_0000) as u32
}

/// The signed number that the low 32 bits of `n` hold.
pub open spec fn low_i32(n: nat) -> int {
    let low = n % 0x1_0000_0000;
    if low < 0x8000_0000 {
        low as int
    } else {
        low - 0x1_0000_0000
    }
}

/// The low 32 bits of a number, as a signed number.
pub(crate) fn as_i32(n: usize) -> (low: i32)
    ensures
        low == low_i32(n as nat),
{
    let wide: u64 = n as u64;
    assert(wide % 0x1_0000_0000u64 < 0x8000_0000u64 ==> (wide as i32) == wide % 0x1_0000_0000u64)
        by (bit_vector);
    assert(wide % 0x1_0000_0000u64 >= 0x8000_0000u64 ==> (wide as i32) == wide % 0x1_0000_0000u64
        - 0x1_0000_0000) by (bit_vector);
    wide as i32
}

/// The low 32 bits of a number.
fn as_u32(n: usize) -> (low: u32)
    ensures
        low == low_u32(n as nat),
{
    let wide: u64 = n as u64;
    assert((wide as u32) == wide % 0x1_0000_0000u64) by (bit_vector);
    wide as u32
}

/// The first `len` bytes, with zeros for those that are missing.
pub open spec fn padded(bytes: Seq<u8>, len: nat) -> Seq<u8> {
    Seq::new(
        len,
        |i: int|
            if i < bytes.len() {
                bytes[i]
            } else {
                0u8
            },
    )
}

/// The tensor that stores the lists: a row for each list, with the bytes of
/// the values as they are. What is null is not stored.
pub open spec fn tensor_of(lists: FixedSizeListView) -> Result<TensorView, ErrorView> {
    match DataType::of_array_type(lists.values.data_type()) {
        Ok(data_type) => Ok(
            TensorView {
                data_type: data_type.spec_number(),
                shape: seq![low_u32(lists.len), low_u32(lists.value_length as nat)],
                data: lists.values->Primitive_0.data,
            },
        ),
        Err(error) => Err(error),
    }
}

/// The values that the bytes of a tensor hold, as many as its shape asks for.
pub open spec fn values_of(tensor: TensorView) -> PrimitiveArrayView {
    let data_type = DataType::of_number(tensor.data_type)->0.array_type()->0;
    let len = tensor.shape[0] as nat * tensor.shape[1] as nat;
    PrimitiveArrayView {
        data_type,
        len,
        data: padded(tensor.data, len * data_type.width()),
        validity: None,
    }
}

/// Cuts the values into the rows that a shape of two dimensions gives them.
pub open spec fn rows_of(shape: Seq<u32>, values: ArrayView) -> Result<
    FixedSizeListView,
    ErrorView,
> {
    if values.len() != shape[0] as nat * shape[1] as nat {
        Err(
            ErrorView::Index {
                message: "Tensor shape "@ + list_text(shape) + " does not match to data len: "@
                    + decimal(values.len()),
            },
        )
    } else {
        lists_of(values, low_i32(shape[1] as nat))
    }
}

/// The lists that a tensor stores.
pub open spec fn list_of(tensor: TensorView) -> Result<FixedSizeListView, ErrorView> {
    if tensor.shape.len() != 2 {
        Err(
            ErrorView::Index {
                message: "only accept 2-D tensor shape, got: "@ + list_text(tensor.shape),
            },
        )
    } else {
        rows_of(tensor.shape, ArrayView::Primitive(values_of(tensor)))
    }
}

/// Whether the values of a tensor of two dimensions can be held as an array:
/// they are of a type that arrays have, and memory can hold them.
pub open spec fn has_values(tensor: TensorView) -> bool {
    &&& DataType::of_number(tensor.data_type) matches Some(data_type)
    &&& data_type.array_type() matches Some(primitive)
    &&& tensor.shape[0] * tensor.shape[1] * primitive.width() <= isize::MAX
}

impl Tensor {
    /// Stores the lists as a tensor: a row for each list, with the bytes of the
    /// values as they are. What is null is not stored.
    pub fn try_from(array: &FixedSizeListArray) -> (tensor: Result<Tensor, Error>)
        requires
            array.wf(),
        ensures
            match tensor {
                Ok(tensor) => tensor_of(array@) == Ok::<TensorView, ErrorView>(tensor@),
                Err(error) => tensor_of(array@) == Err::<TensorView, ErrorView>(error@),
            },
    {
        let data_type = match DataType::try_from(&array.values.data_type()) {
            Ok(data_type) => data_type,
            Err(error) => {
                return Err(error);
            },
        };
        let data = match &array.values {
            Array::Primitive(values) => values.data.clone(),
            Array::Other { .. } => Vec::new(),
        };
        let shape: Vec<u32> = vec![as_u32(array.len), as_u32(array.value_length as usize)];
        assert(shape@ =~= seq![low_u32(array@.len), low_u32(array@.value_length as nat)]);
        Ok(Tensor { data_type: data_type.number(), shape, data })
    }
}

/// The first `len` values that the bytes hold. Bytes that are missing count as
/// zeros, bytes past the last value do not count. This rule is the library's
/// own: nothing that it depends on reads such bytes. Values that were read in
/// another way, however many they are, can be handed to
/// [`FixedSizeListArray::try_from_values`], which tells whether they fit a
/// shape.
pub fn bytes_to_array(data_type: PrimitiveType, bytes: &Vec<u8>, len: usize) -> (array:
    PrimitiveArray)
    requires
        len * data_type.width() <= isize::MAX,
    ensures
        array.wf(),
        array@ == (PrimitiveArrayView {
            data_type,
            len: len as nat,
            data: padded(bytes@, len as nat * data_type.width()),
            validity: None,
        }),
{
    let size: usize = len * data_type.byte_width();
    let mut data: Vec<u8> = Vec::with_capacity(size);
    while data.len() < size
        invariant
            data@.len() <= size,
            data@ == padded(bytes@, data@.len()),
        decreases size - data@.len(),
    {
        let i: usize = data.len();
        let byte: u8 = if i < bytes.len() {
            bytes[i]
        } else {
            0
        };
        let ghost before = data@;
        data.push(byte);
        assert(data@ =~= padded(bytes@, before.len() + 1));
    }
    PrimitiveArray { data_type, len, data, nulls: None }
}

impl FixedSizeListArray {
    /// Cuts the values into the rows that a shape of two dimensions gives them.
    pub fn try_from_values(shape: &Vec<u32>, values: Array) -> (lists: Result<Self, Error>)
        requires
            shape@.len() == 2,
            shape@[0] * shape@[1] <= usize::MAX,
            values.wf(),
        ensures
            match lists {
                Ok(lists) => lists.wf() && rows_of(shape@, values@) == Ok::<
                    FixedSizeListView,
                    ErrorView,
                >(lists@),
                Err(error) => rows_of(shape@, values@) == Err::<FixedSizeListView, ErrorView>(
                    error@,
                ),
            },
    {
        let dim: usize = shape[1] as usize;
        let num_rows: usize = shape[0] as usize;
        assert(dim * num_rows == num_rows * dim) by (nonlinear_arith);
        let len: usize = values.len();
        if len != dim * num_rows {
            let mut message: String = "Tensor shape ".to_owned();
            push_list(&mut message, shape);
            message.append(" does not match to data len: ");
            push_decimal(&mut message, len as u64);
            return Err(Error::Index { message });
        }
        Self::try_new_from_values(values, as_i32(dim))
    }

    /// The lists that a tensor of two dimensions stores, one for each of its
    /// rows.
    pub fn try_from(tensor: &Tensor) -> (lists: Result<Self, Error>)
        requires
            tensor.shape@.len() == 2 ==> has_values(tensor@),
        ensures
            match lists {
                Ok(lists) => lists.wf() && list_of(tensor@) == Ok::<FixedSizeListView, ErrorView>(
                    lists@,
                ),
                Err(error) => list_of(tensor@) == Err::<FixedSizeListView, ErrorView>(error@),
            },
    {
        if tensor.shape.len() != 2 {
            let mut message: String = "only accept 2-D tensor shape, got: ".to_owned();
            push_list(&mut message, &tensor.shape);
            return Err(Error::Index { message });
        }
        let dim: usize = tensor.shape[1] as usize;
        let num_rows: usize = tensor.shape[0] as usize;
        let data_type = primitive_type(DataType::from_number(tensor.data_type).unwrap());
        proof {
            let width = data_type.width();
            let n = num_rows as int * dim as int;
            assert(0 <= n <= n * width) by (nonlinear_arith)
                requires
                    n == num_rows as int * dim as int,
                    width >= 1,
            ;
            assert(dim * num_rows == num_rows * dim) by (nonlinear_arith);
        }
        let values = bytes_to_array(data_type, &tensor.data, dim * num_rows);
        Self::try_from_values(&tensor.shape, Array::Primitive(values))
    }
}

/// What a tensor keeps of the lists: their values, with nothing null, as
/// nullable items.
pub open spec fn as_stored(lists: FixedSizeListView) -> FixedSizeListView {
    FixedSizeListView {
        field: item_field(),
        values: ArrayView::Primitive(
            PrimitiveArrayView { validity: None, ..lists.values->Primitive_0 },
        ),
        validity: None,
        ..lists
    }
}

/// What is stored as a tensor can be read back: the lists, of a type that
/// tensors have, come back with the same values, though with nothing null. The
/// shape has room for the number of lists, and lists without values, which
/// cannot be counted by their values, do not come back.
pub proof fn law_lists_survive_as_tensor(lists: FixedSizeListView)
    requires
        lists.wf(),
        lists.len <= u32::MAX,
        lists.value_length <= i32::MAX,
        lists.value_length > 0 || lists.len == 0,
        DataType::of_array_type(lists.values.data_type()) is Ok,
    ensures
        tensor_of(lists) is Ok,
        list_of(tensor_of(lists)->Ok_0) == Ok::<FixedSizeListView, ErrorView>(as_stored(lists)),
{
    let array = lists.values->Primitive_0;
    let tensor = tensor_of(lists)->Ok_0;
    let values = values_of(tensor);
    let size = lists.value_length;
    assert(tensor.shape[0] == lists.len && tensor.shape[1] == size);
    assert(values.data_type == array.data_type);
    assert(values.len == array.len);
    assert(values.data =~= array.data);
    assert(low_i32(tensor.shape[1] as nat) == size);
    lemma_lists_are_counted(lists.len, size);
    assert(list_of(tensor)->Ok_0 =~= as_stored(lists));
}

/// A tensor of two dimensions whose bytes are those that its shape asks for is
/// the tensor of the lists that it stores. Rows without values, or longer than
/// a list can be, are left out.
pub proof fn law_tensor_survives_as_lists(tensor: TensorView)
    requires
        tensor.shape.len() == 2,
        has_values(tensor),
        tensor.shape[1] <= i32::MAX,
        tensor.shape[1] > 0 || tensor.shape[0] == 0,
        tensor.data.len() == values_of(tensor).len * values_of(tensor).data_type.width(),
    ensures
        list_of(tensor) is Ok,
        tensor_of(list_of(tensor)->Ok_0) == Ok::<TensorView, ErrorView>(tensor),
{
    let values = values_of(tensor);
    let size = tensor.shape[1] as int;
    assert(low_i32(tensor.shape[1] as nat) == size);
    assert(values.data =~= tensor.data);
    lemma_lists_are_counted(tensor.shape[0] as nat, size);
    let lists = list_of(tensor)->Ok_0;
    assert(tensor_of(lists)->Ok_0.shape =~= tensor.shape);
    assert(tensor_of(lists)->Ok_0 =~= tensor);
}

/// A tensor whose values fill its shape is read without an error, unless its
/// rows are longer than a list can be: the shape then never fails to match the
/// data.
pub proof fn law_values_fill_the_shape(tensor: TensorView)
    requires
        tensor.shape.len() == 2,
        has_values(tensor),
    ensures
        list_of(tensor) is Ok <==> tensor.shape[1] <= i32::MAX,
        list_of(tensor) matches Err(error) ==> error is Arrow,
{
    lemma_lists_are_counted(tensor.shape[0] as nat, tensor.shape[1] as int);
}

/// A slice of lists is stored by itself: its tensor has the bytes of the slice
/// and no others, and the type that the tensor of all the lists has.
pub proof fn law_slices_are_stored_alone(lists: FixedSizeListView, offset: nat, len: nat)
    requires
        lists.wf(),
        offset + len <= lists.len,
        DataType::of_array_type(lists.values.data_type()) is Ok,
    ensures
        lists.slice(offset, len).wf(),
        tensor_of(lists) matches Ok(whole) && tensor_of(lists.slice(offset, len)) matches Ok(part)
            && {
            let row = (lists.value_length * lists.values->Primitive_0.data_type.width()) as int;
            &&& part.data_type == whole.data_type
            &&& part.shape == seq![low_u32(len), whole.shape[1]]
            &&& part.data == whole.data.subrange(offset * row, (offset + len) * row)
        },
{
    let size = lists.value_length;
    let width = lists.values->Primitive_0.data_type.width();
    lemma_slice(lists, offset, len);
    assert(offset * (size * width) == offset * size * width) by (nonlinear_arith);
    assert((offset + len) * (size * width) == offset * size * width + len * size * width)
        by (nonlinear_arith);
}

} // verus!
