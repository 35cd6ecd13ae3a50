use std::sync::Arc;

use arrow::buffer::NullBuffer;
use arrow_array::{
    Array, Float16Array, Float32Array, Float64Array, Int32Array, StringArray, UInt8Array,
};
use arrow_schema::{DataType, Field};
use half::f16;

use vector_utils::array::{
    Array as Values, FixedSizeListArray, ListField, PrimitiveArray, PrimitiveType,
};
use vector_utils::finite::{
    is_finite, is_finite_no_float, is_finite_row, is_finite_threads_from_env,
    DEFAULT_IS_FINITE_THREADS,
};
use vector_utils::prefetch::{prefetch_address, prefetch_lines};
use vector_utils::rows::{compute_row_chunks, compute_rows, join_rows, row_chunks, RowChunk};

fn values(array: &dyn Array) -> Values {
    let data_type = match array.data_type() {
        DataType::Int32 => PrimitiveType::Int32,
        DataType::UInt8 => PrimitiveType::UInt8,
        DataType::Float16 => PrimitiveType::Float16,
        DataType::Float32 => PrimitiveType::Float32,
        DataType::Float64 => PrimitiveType::Float64,
        other => {
            let nulls = array.nulls().cloned();
            return Values::other_from_parts(format!("{:?}", other), array.len(), nulls).unwrap();
        }
    };
    let data = array.to_data().buffers()[0].to_vec();
    let nulls = array.nulls().cloned();
    Values::Primitive(PrimitiveArray::from_parts(data_type, array.len(), data, nulls).unwrap())
}

fn lists(array: &arrow_array::FixedSizeListArray) -> FixedSizeListArray {
    let nulls = array.nulls().cloned();
    let length = array.value_length();
    let field = match array.data_type() {
        DataType::FixedSizeList(field, _) => field,
        other => panic!("{:?}", other),
    };
    let field = ListField { name: field.name().clone(), nullable: field.is_nullable() };
    let values = values(array.values());
    FixedSizeListArray::from_parts(field, values, length, array.len(), nulls).unwrap()
}

fn item() -> ListField {
    ListField { name: "item".to_string(), nullable: true }
}

fn answers(fsl: &FixedSizeListArray) -> Vec<bool> {
    let result = is_finite(fsl);
    assert_eq!(result.null_count(), 0);
    for row in 0..fsl.len {
        assert_eq!(is_finite_row(fsl, row), result.value(row));
    }
    result.values().iter().collect::<Vec<_>>()
}

#[test]
fn test_is_finite_f32_basic() {
    // 3 rows of dim 2: all-finite, contains NaN, contains +inf.
    let array = Float32Array::from(vec![1.0, 2.0, 3.0, f32::NAN, f32::INFINITY, 4.0]);
    let fsl = FixedSizeListArray::try_new_from_values(values(&array), 2).unwrap();
    let result = is_finite(&fsl);
    assert_eq!(result.values().iter().collect::<Vec<_>>(), vec![true, false, false]);
}

#[test]
fn test_is_finite_f16() {
    let array = Float16Array::from(vec![
        f16::from_f32(1.0),
        f16::from_f32(2.0),
        f16::NAN,
        f16::from_f32(2.0),
    ]);
    let fsl = FixedSizeListArray::try_new_from_values(values(&array), 2).unwrap();
    let result = is_finite(&fsl);
    assert_eq!(result.values().iter().collect::<Vec<_>>(), vec![true, false]);
}

#[test]
fn test_is_finite_row_null() {
    let array = Float32Array::from(vec![1.0, 2.0, 3.0, 4.0]);
    let field = Arc::new(Field::new("item", DataType::Float32, true));
    let row_nulls = NullBuffer::from(vec![true, false]);
    let fsl =
        arrow_array::FixedSizeListArray::try_new(field, 2, Arc::new(array), Some(row_nulls))
            .unwrap();
    let result = is_finite(&lists(&fsl));
    // The second row is null itself, whatever (finite) values it points at.
    assert_eq!(result.values().iter().collect::<Vec<_>>(), vec![true, false]);
}

#[test]
fn test_is_finite_child_null() {
    // Row 1's second element is null: the row must be false even though every
    // present value is finite.
    let array = Float32Array::from(vec![Some(1.0), Some(2.0), Some(3.0), None]);
    let fsl = FixedSizeListArray::try_new_from_values(values(&array), 2).unwrap();
    let result = is_finite(&fsl);
    assert_eq!(result.values().iter().collect::<Vec<_>>(), vec![true, false]);
}

#[test]
fn test_is_finite_large_matches_expected_across_chunks() {
    // Enough rows for several chunks, with rows that are not finite scattered
    // over all of them.
    const NUM_ROWS: usize = 10_000;
    const DIM: usize = 4;
    let mut data = vec![0.0f32; NUM_ROWS * DIM];
    let mut expected = vec![true; NUM_ROWS];
    for row in (0..NUM_ROWS).step_by(97) {
        data[row * DIM] = f32::NAN;
        expected[row] = false;
    }
    let array = Float32Array::from(data);
    let fsl = FixedSizeListArray::try_new_from_values(values(&array), DIM as i32).unwrap();
    let result = is_finite(&fsl);
    assert_eq!(result.values().iter().collect::<Vec<_>>(), expected);
}

#[test]
fn test_is_finite_empty() {
    let array = Float32Array::from(Vec::<f32>::new());
    let fsl = FixedSizeListArray::try_new_from_values(values(&array), 4).unwrap();
    let result = is_finite(&fsl);
    assert_eq!(result.len(), 0);
}

#[test]
fn every_half_precision_value_is_judged_as_half_judges_it() {
    let numbers: Vec<f16> = (0..=u16::MAX).map(f16::from_bits).collect();
    let expected: Vec<bool> = numbers.iter().map(|number| number.is_finite()).collect();
    let array = Float16Array::from(numbers);
    let fsl = FixedSizeListArray::try_new_from_values(values(&array), 1).unwrap();
    assert_eq!(answers(&fsl), expected);
}

#[test]
fn single_and_double_precision_edges() {
    let singles = vec![
        f32::MAX,
        f32::MIN,
        f32::MIN_POSITIVE,
        f32::from_bits(1),
        -0.0,
        f32::NEG_INFINITY,
        f32::from_bits(0x7f80_0001),
        f32::from_bits(0xffff_ffff),
    ];
    let expected = vec![true, true, true, true, true, false, false, false];
    let fsl =
        FixedSizeListArray::try_new_from_values(values(&Float32Array::from(singles)), 1).unwrap();
    assert_eq!(answers(&fsl), expected);

    let doubles = vec![
        f64::MAX,
        f64::MIN,
        f64::MIN_POSITIVE,
        f64::from_bits(1),
        -0.0,
        f64::NEG_INFINITY,
        f64::from_bits(0x7ff0_0000_0000_0001),
        f64::NAN,
    ];
    let fsl =
        FixedSizeListArray::try_new_from_values(values(&Float64Array::from(doubles)), 1).unwrap();
    assert_eq!(answers(&fsl), expected);
}

#[test]
fn other_values_are_finite_unless_null() {
    let array = Int32Array::from(vec![Some(i32::MAX), Some(-1), None, Some(0)]);
    let fsl = FixedSizeListArray::try_new_from_values(values(&array), 2).unwrap();
    assert_eq!(answers(&fsl), vec![true, false]);

    let array = UInt8Array::from(vec![0xff_u8; 6]);
    let fsl = FixedSizeListArray::try_new_from_values(values(&array), 3).unwrap();
    assert_eq!(answers(&fsl), vec![true, true]);

    let array = StringArray::from(vec![Some("a"), None, Some("inf"), Some("nan")]);
    let fsl = FixedSizeListArray::try_new_from_values(values(&array), 2).unwrap();
    assert_eq!(answers(&fsl), vec![false, true]);
}

#[test]
fn lists_without_values_are_finite_unless_null() {
    let field = Arc::new(Field::new("item", DataType::Float32, true));
    let none = Arc::new(Float32Array::from(Vec::<f32>::new()));
    let nulls = Some(NullBuffer::from(vec![true, false, true]));
    let fsl = arrow_array::FixedSizeListArray::try_new(field, 0, none, nulls).unwrap();
    assert_eq!(answers(&lists(&fsl)), vec![true, false, true]);
}

#[test]
fn sliced_lists_keep_their_rows() {
    let array = Float32Array::from(vec![
        Some(f32::NAN),
        Some(1.0),
        Some(2.0),
        None,
        Some(3.0),
        Some(4.0),
    ]);
    let field = Arc::new(Field::new("item", DataType::Float32, true));
    let fsl = arrow_array::FixedSizeListArray::try_new(field, 2, Arc::new(array), None).unwrap();
    assert_eq!(answers(&lists(&fsl)), vec![false, false, true]);
    assert_eq!(answers(&lists(&fsl.slice(1, 2))), vec![false, true]);
}

#[test]
fn parts_that_do_not_fit_are_refused() {
    assert!(PrimitiveArray::from_parts(PrimitiveType::Float32, 2, vec![0; 7], None).is_none());
    assert!(PrimitiveArray::from_parts(PrimitiveType::UInt64, usize::MAX, vec![], None).is_none());
    let nulls = Some(NullBuffer::from(vec![true; 3]));
    assert!(PrimitiveArray::from_parts(PrimitiveType::UInt8, 2, vec![0; 2], nulls).is_none());
    let nulls = Some(NullBuffer::from(vec![true; 3]));
    assert!(Values::other_from_parts("Utf8".to_string(), 2, nulls).is_none());

    let six = || values(&UInt8Array::from(vec![0_u8; 6]));
    assert!(FixedSizeListArray::from_parts(item(), six(), -1, 6, None).is_none());
    assert!(FixedSizeListArray::from_parts(item(), six(), 4, 1, None).is_none());
    let nulls = Some(NullBuffer::from(vec![true]));
    assert!(FixedSizeListArray::from_parts(item(), six(), 3, 2, nulls).is_none());
    assert!(FixedSizeListArray::from_parts(item(), six(), 3, 2, None).is_some());
}

#[test]
fn threads_from_the_environment() {
    let threads = |value: &str| is_finite_threads_from_env(Some(value.to_string()));
    assert_eq!(is_finite_threads_from_env(None), 8);
    assert_eq!(DEFAULT_IS_FINITE_THREADS, 8);
    assert_eq!(threads("16"), 16);
    assert_eq!(threads("+3"), 3);
    assert_eq!(threads("007"), 7);
    assert_eq!(threads("18446744073709551615"), usize::MAX);
    assert_eq!(threads("18446744073709551616"), 8);
    for value in ["", "0", "+", "-1", " 4", "4 ", "1_000", "four", "0x10", "\u{664}"] {
        assert_eq!(threads(value), 8);
    }
}

#[test]
fn chunks_of_rows() {
    assert_eq!(row_chunks(0, 8), vec![]);
    assert_eq!(row_chunks(4095, 8), vec![RowChunk { start: 0, end: 4095 }]);
    assert_eq!(row_chunks(5000, 0), vec![RowChunk { start: 0, end: 5000 }]);
    assert_eq!(row_chunks(5000, 1), vec![RowChunk { start: 0, end: 5000 }]);
    assert_eq!(
        row_chunks(4096, 3),
        vec![
            RowChunk { start: 0, end: 1366 },
            RowChunk { start: 1366, end: 2732 },
            RowChunk { start: 2732, end: 4096 },
        ]
    );
    assert_eq!(row_chunks(10_000, 8).len(), 8);
    assert_eq!(row_chunks(10_000, 8)[7], RowChunk { start: 8750, end: 10_000 });
    // Rounding up can leave threads without a chunk.
    assert_eq!(row_chunks(4096, 4000).len(), 2048);
    assert_eq!(row_chunks(4096, usize::MAX).len(), 4096);
}

#[test]
fn the_number_of_threads_does_not_change_the_answers() {
    let is_ok = |row: usize| row % 7 != 3;
    let expected: Vec<bool> = (0..5001).map(is_ok).collect();
    for threads in [1, 2, 8, 13, 5000, 1 << 40] {
        let rows = compute_row_chunks(5001, threads, is_ok);
        assert_eq!(rows.values().iter().collect::<Vec<_>>(), expected);
        let parts: Vec<Vec<bool>> = row_chunks(5001, threads)
            .into_iter()
            .map(|chunk| compute_rows(chunk.start, chunk.end, &is_ok))
            .collect();
        let rows = join_rows(&parts);
        assert_eq!(rows.values().iter().collect::<Vec<_>>(), expected);
    }
}

#[test]
fn cache_lines_to_fetch() {
    assert_eq!(prefetch_lines(1000, 1000), 0);
    assert_eq!(prefetch_lines(1000, 10), 0);
    assert_eq!(prefetch_lines(1000, 1001), 1);
    assert_eq!(prefetch_lines(1000, 1064), 1);
    assert_eq!(prefetch_lines(1000, 1065), 2);
    assert_eq!(prefetch_address(1000, 1065, 1), 1064);
    assert_eq!(prefetch_lines(0, usize::MAX), usize::MAX / 64 + 1);
    assert_eq!(prefetch_address(0, usize::MAX, usize::MAX / 64), usize::MAX - 63);
}

#[test]
fn nulls_alone_hide_what_is_not_finite() {
    let array = Float32Array::from(vec![Some(1.0), Some(f32::NAN), None, Some(2.0), Some(3.0), Some(4.0)]);
    let fsl = FixedSizeListArray::try_new_from_values(values(&array), 2).unwrap();
    assert_eq!(answers(&fsl), vec![false, false, true]);
    let result = is_finite_no_float(&fsl);
    assert_eq!(result.null_count(), 0);
    assert_eq!(result.values().iter().collect::<Vec<_>>(), vec![true, false, true]);

    let array = Int32Array::from(vec![Some(1), None, Some(2), Some(3)]);
    let fsl = FixedSizeListArray::try_new_from_values(values(&array), 2).unwrap();
    let result = is_finite_no_float(&fsl);
    assert_eq!(result.values().iter().collect::<Vec<_>>(), answers(&fsl));
}

#[test]
fn slices_keep_their_answers() {
    let array = Float32Array::from(
        (0..20).map(|i| if i % 7 == 3 { None } else { Some(i as f32) }).collect::<Vec<_>>(),
    );
    let field = Arc::new(Field::new("item", DataType::Float32, true));
    let row_nulls = NullBuffer::from((0..10).map(|i| i != 8).collect::<Vec<_>>());
    let whole =
        arrow_array::FixedSizeListArray::try_new(field, 2, Arc::new(array), Some(row_nulls))
            .unwrap();
    let all = answers(&lists(&whole));
    for (offset, len) in [(0, 10), (3, 4), (5, 5), (9, 1), (10, 0)] {
        let part = answers(&lists(&whole.slice(offset, len)));
        assert_eq!(part, all[offset..offset + len].to_vec());
    }
}
