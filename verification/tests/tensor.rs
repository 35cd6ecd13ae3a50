use arrow_array::{
    Array, Float16Array, Float32Array, Float64Array, Int8Array, UInt16Array, UInt32Array,
    UInt64Array, UInt8Array,
};
use half::f16;
use num_traits::identities::Zero;

use vector_utils::array::{
    Array as Values, DataType, FixedSizeListArray, ListField, PrimitiveArray, PrimitiveType,
};
use vector_utils::convert::bytes_to_array;
use vector_utils::error::Error;
use vector_utils::pb;

fn values(array: &dyn Array) -> Values {
    let data_type = match array.data_type() {
        arrow_schema::DataType::Int8 => PrimitiveType::Int8,
        arrow_schema::DataType::UInt8 => PrimitiveType::UInt8,
        arrow_schema::DataType::UInt16 => PrimitiveType::UInt16,
        arrow_schema::DataType::UInt32 => PrimitiveType::UInt32,
        arrow_schema::DataType::UInt64 => PrimitiveType::UInt64,
        arrow_schema::DataType::Float16 => PrimitiveType::Float16,
        arrow_schema::DataType::Float32 => PrimitiveType::Float32,
        arrow_schema::DataType::Float64 => PrimitiveType::Float64,
        other => panic!("{:?}", other),
    };
    let data = array.to_data().buffers()[0].to_vec();
    let nulls = array.nulls().cloned();
    Values::Primitive(PrimitiveArray::from_parts(data_type, array.len(), data, nulls).unwrap())
}

fn bytes(values: &Values) -> Vec<u8> {
    match values {
        Values::Primitive(array) => array.data.clone(),
        Values::Other { .. } => panic!("no bytes"),
    }
}

fn index_message(error: Error) -> String {
    match error {
        Error::Index { message } => message,
        other => panic!("{:?}", other),
    }
}

fn arrow_message(error: Error) -> String {
    match error {
        Error::Arrow { message } => message,
        other => panic!("{:?}", other),
    }
}

#[test]
fn test_fsl_to_tensor() {
    let fsl = FixedSizeListArray::try_new_from_values(
        values(&Float16Array::from(vec![f16::zero(); 20])),
        5,
    )
    .unwrap();
    let tensor = pb::Tensor::try_from(&fsl).unwrap();
    assert_eq!(tensor.data_type, pb::tensor::DataType::Float16 as i32);
    assert_eq!(tensor.shape, vec![4, 5]);
    assert_eq!(tensor.data.len(), 20 * 2);

    let fsl =
        FixedSizeListArray::try_new_from_values(values(&Float32Array::from(vec![0.0; 20])), 5)
            .unwrap();
    let tensor = pb::Tensor::try_from(&fsl).unwrap();
    assert_eq!(tensor.data_type, pb::tensor::DataType::Float32 as i32);
    assert_eq!(tensor.shape, vec![4, 5]);
    assert_eq!(tensor.data.len(), 20 * 4);

    let fsl =
        FixedSizeListArray::try_new_from_values(values(&Float64Array::from(vec![0.0; 20])), 5)
            .unwrap();
    let tensor = pb::Tensor::try_from(&fsl).unwrap();
    assert_eq!(tensor.data_type, pb::tensor::DataType::Float64 as i32);
    assert_eq!(tensor.shape, vec![4, 5]);
    assert_eq!(tensor.data.len(), 20 * 8);
}

#[test]
fn lists_of_every_tensor_type_come_back() {
    let arrays = vec![
        values(&UInt8Array::from(vec![1_u8, 2, 3, 4, 5, 255])),
        values(&UInt16Array::from(vec![1_u16, 2, 3, 4, 5, u16::MAX])),
        values(&UInt32Array::from(vec![1_u32, 2, 3, 4, 5, u32::MAX])),
        values(&UInt64Array::from(vec![1_u64, 2, 3, 4, 5, u64::MAX])),
        values(&Float16Array::from(vec![f16::NAN; 6])),
        values(&Float32Array::from(vec![1.5, -2.0, f32::INFINITY, 0.0, -0.0, 1e-40])),
        values(&Float64Array::from(vec![1.5, -2.0, f64::NAN, 0.0, -0.0, 1e-310])),
    ];
    for array in arrays {
        let data = bytes(&array);
        let lists = FixedSizeListArray::try_new_from_values(array, 3).unwrap();
        let tensor = pb::Tensor::try_from(&lists).unwrap();
        assert_eq!(tensor.data, data);
        let back = FixedSizeListArray::try_from(&tensor).unwrap();
        assert_eq!(back.len, 2);
        assert_eq!(back.value_length, 3);
        assert_eq!(bytes(&back.values), data);
        assert!(back.nulls.is_none());
        assert_eq!((back.field.name.as_str(), back.field.nullable), ("item", true));
        let again = pb::Tensor::try_from(&back).unwrap();
        assert_eq!(again.data_type, tensor.data_type);
        assert_eq!(again.shape, tensor.shape);
        assert_eq!(again.data, tensor.data);
    }
}

#[test]
fn nulls_are_not_stored() {
    let array = Float32Array::from(vec![Some(1.0), None]);
    let lists = FixedSizeListArray::try_new_from_values(values(&array), 1).unwrap();
    let tensor = pb::Tensor::try_from(&lists).unwrap();
    assert_eq!(tensor.data, vec![0, 0, 0x80, 0x3f, 0, 0, 0, 0]);
    let back = FixedSizeListArray::try_from(&tensor).unwrap();
    match back.values {
        Values::Primitive(array) => assert!(array.nulls.is_none()),
        Values::Other { .. } => panic!("no numbers"),
    }
}

#[test]
fn types_that_tensors_do_not_have() {
    let lists = FixedSizeListArray::try_new_from_values(
        values(&Int8Array::from(vec![1_i8, 2, 3, 4])),
        2,
    )
    .unwrap();
    let error = pb::Tensor::try_from(&lists).unwrap_err();
    assert_eq!(index_message(error), "pb tensor type not supported: Int8");

    let text = DataType::Other("LargeUtf8".to_string());
    let error = pb::tensor::DataType::try_from(&text).unwrap_err();
    assert_eq!(index_message(error), "pb tensor type not supported: LargeUtf8");
    let error = pb::tensor::DataType::try_from_value(text).unwrap_err();
    assert_eq!(index_message(error), "pb tensor type not supported: LargeUtf8");
}

#[test]
fn tensor_types_and_array_types() {
    let pairs = vec![
        (pb::tensor::DataType::Float16, PrimitiveType::Float16, 1),
        (pb::tensor::DataType::Float32, PrimitiveType::Float32, 2),
        (pb::tensor::DataType::Float64, PrimitiveType::Float64, 3),
        (pb::tensor::DataType::Uint8, PrimitiveType::UInt8, 4),
        (pb::tensor::DataType::Uint16, PrimitiveType::UInt16, 5),
        (pb::tensor::DataType::Uint32, PrimitiveType::UInt32, 6),
        (pb::tensor::DataType::Uint64, PrimitiveType::UInt64, 7),
    ];
    for (tensor_type, array_type, number) in pairs {
        assert!(matches!(DataType::from(tensor_type), DataType::Primitive(t) if t == array_type));
        let found = pb::tensor::DataType::try_from(&DataType::Primitive(array_type)).unwrap();
        assert_eq!(found, tensor_type);
        let found = pb::tensor::DataType::try_from_value(DataType::Primitive(array_type)).unwrap();
        assert_eq!(found, tensor_type);
        assert_eq!(tensor_type.number(), number);
        assert_eq!(tensor_type as i32, number);
        assert_eq!(pb::tensor::DataType::from_number(number), Some(tensor_type));
    }
    assert_eq!(pb::tensor::DataType::Bfloat16.number(), 0);
    assert_eq!(pb::tensor::DataType::from_number(0), Some(pb::tensor::DataType::Bfloat16));
    assert_eq!(pb::tensor::DataType::from_number(8), None);
    assert_eq!(pb::tensor::DataType::from_number(-1), None);
}

#[test]
fn tensors_of_other_shapes_are_refused() {
    let tensor = |shape: Vec<u32>| pb::Tensor { data_type: 2, shape, data: vec![0; 24] };
    let error = FixedSizeListArray::try_from(&tensor(vec![])).unwrap_err();
    assert_eq!(index_message(error), "only accept 2-D tensor shape, got: []");
    let error = FixedSizeListArray::try_from(&tensor(vec![6])).unwrap_err();
    assert_eq!(index_message(error), "only accept 2-D tensor shape, got: [6]");
    let error = FixedSizeListArray::try_from(&tensor(vec![10, 20, u32::MAX])).unwrap_err();
    let expected = format!("only accept 2-D tensor shape, got: {:?}", vec![10, 20, u32::MAX]);
    assert_eq!(index_message(error), expected);
}

#[test]
fn values_that_do_not_fill_the_shape_are_refused() {
    let array = values(&UInt8Array::from(vec![0_u8; 5]));
    let error = FixedSizeListArray::try_from_values(&vec![2, 3], array).unwrap_err();
    assert_eq!(
        index_message(error),
        "Tensor shape [2, 3] does not match to data len: 5"
    );
    let array = values(&UInt8Array::from(vec![0_u8; 6]));
    let lists = FixedSizeListArray::try_from_values(&vec![2, 3], array).unwrap();
    assert_eq!((lists.len, lists.value_length), (2, 3));
}

#[test]
fn missing_bytes_are_zeros_and_extra_bytes_do_not_count() {
    let array = bytes_to_array(PrimitiveType::UInt16, &vec![1, 2, 3], 3);
    assert_eq!((array.len, array.data), (3, vec![1, 2, 3, 0, 0, 0]));
    let array = bytes_to_array(PrimitiveType::UInt16, &vec![1, 2, 3, 4, 5], 1);
    assert_eq!((array.len, array.data), (1, vec![1, 2]));

    let tensor = pb::Tensor { data_type: 4, shape: vec![2, 2], data: vec![9; 3] };
    let lists = FixedSizeListArray::try_from(&tensor).unwrap();
    assert_eq!(lists.len, 2);
    assert_eq!(bytes(&lists.values), vec![9, 9, 9, 0]);
}

#[test]
fn rows_without_values_do_not_come_back() {
    let tensor = pb::Tensor { data_type: 2, shape: vec![3, 0], data: vec![] };
    let lists = FixedSizeListArray::try_from(&tensor).unwrap();
    assert_eq!((lists.len, lists.value_length), (0, 0));
}

#[test]
fn rows_that_are_too_long_are_refused() {
    let tensor = pb::Tensor { data_type: 2, shape: vec![0, 0x8000_0000], data: vec![] };
    let error = FixedSizeListArray::try_from(&tensor).unwrap_err();
    assert_eq!(
        arrow_message(error),
        "Invalid argument error: Size cannot be negative, got -2147483648"
    );
}

#[test]
fn values_that_cannot_be_cut_into_lists_are_refused() {
    let seven = || values(&UInt8Array::from(vec![0_u8; 7]));
    let error = FixedSizeListArray::try_new_from_values(seven(), -5).unwrap_err();
    assert_eq!(
        arrow_message(error),
        "Invalid argument error: Size cannot be negative, got -5"
    );
    let error = FixedSizeListArray::try_new_from_values(seven(), 0).unwrap_err();
    assert_eq!(
        arrow_message(error),
        "Invalid argument error: An degenerate FixedSizeListArray should have no underlying values, found 7 values"
    );
    let error = FixedSizeListArray::try_new_from_values(seven(), 2).unwrap_err();
    assert_eq!(
        arrow_message(error),
        "Invalid argument error: Incorrect length of values buffer for FixedSizeListArray, expected a multiple of 2 got 7"
    );
    let lists = FixedSizeListArray::try_new_from_values(seven(), 7).unwrap();
    assert_eq!((lists.len, lists.value_length), (1, 7));
}

#[test]
fn values_that_are_read_back_are_nullable_items() {
    let array = values(&UInt8Array::from(vec![1_u8, 2, 3, 4]));
    let field = ListField { name: "byte".to_string(), nullable: false };
    let lists = FixedSizeListArray::from_parts(field, array, 2, 2, None).unwrap();
    let tensor = pb::Tensor::try_from(&lists).unwrap();
    let back = FixedSizeListArray::try_from(&tensor).unwrap();
    assert_eq!((back.field.name.as_str(), back.field.nullable), ("item", true));
    assert_eq!(bytes(&back.values), vec![1, 2, 3, 4]);
}

#[test]
fn slices_are_stored_alone() {
    let array = UInt16Array::from((0..12).collect::<Vec<u16>>());
    let whole = FixedSizeListArray::try_new_from_values(values(&array), 3).unwrap();
    let whole = pb::Tensor::try_from(&whole).unwrap();
    assert_eq!(whole.shape, vec![4, 3]);
    let part = FixedSizeListArray::try_new_from_values(values(&array.slice(3, 6)), 3).unwrap();
    let part = pb::Tensor::try_from(&part).unwrap();
    assert_eq!((part.data_type, part.shape), (whole.data_type, vec![2, 3]));
    assert_eq!(part.data, whole.data[6..18].to_vec());
}
