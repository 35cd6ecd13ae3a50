use std::sync::Arc;

use arrow::compute::cast;
use arrow_array::{
    Array, ArrayRef, FixedSizeBinaryArray, Float16Array, Float32Array, Float64Array, Int16Array, Int32Array, Int64Array,
    Int8Array, StringArray, UInt16Array, UInt32Array, UInt64Array, UInt8Array,
};
use half::f16;

use vector_utils::array::{Array as Values, PrimitiveArray, PrimitiveType};
use vector_utils::error::Error;
use vector_utils::simple_index::{
    cast_query, first_node, DistanceType, HnswBuildParams, HnswQueryParams, OrderedNode, Query,
    SimpleIndex, SimpleIndexStatus, SimpleStore,
};

fn numbers(array: &dyn Array) -> PrimitiveArray {
    let data_type = match array.data_type() {
        arrow_schema::DataType::Int8 => PrimitiveType::Int8,
        arrow_schema::DataType::Int16 => PrimitiveType::Int16,
        arrow_schema::DataType::Int32 => PrimitiveType::Int32,
        arrow_schema::DataType::Int64 => PrimitiveType::Int64,
        arrow_schema::DataType::UInt8 => PrimitiveType::UInt8,
        arrow_schema::DataType::UInt16 => PrimitiveType::UInt16,
        arrow_schema::DataType::UInt32 => PrimitiveType::UInt32,
        arrow_schema::DataType::UInt64 => PrimitiveType::UInt64,
        arrow_schema::DataType::Float16 => PrimitiveType::Float16,
        arrow_schema::DataType::Float32 => PrimitiveType::Float32,
        arrow_schema::DataType::Float64 => PrimitiveType::Float64,
        other => panic!("{:?}", other),
    };
    let data = array.to_data().buffers()[0].to_vec();
    let nulls = array.nulls().cloned();
    PrimitiveArray::from_parts(data_type, array.len(), data, nulls).unwrap()
}

fn values(array: &dyn Array) -> Values {
    Values::Primitive(numbers(array))
}

/// Builds no graph: a search looks at every vector of the store.
fn no_graph(_store: &SimpleStore, params: HnswBuildParams) -> Result<(), Error> {
    assert_eq!(params, HnswBuildParams { ef_construction: 15, num_edges: 12 });
    Ok(())
}

fn vectors(store: &SimpleStore) -> (&PrimitiveArray, usize) {
    let storage = match store {
        SimpleStore::Float(storage) => storage,
        SimpleStore::Binary(storage) => storage,
    };
    match &storage.vectors.values {
        Values::Primitive(array) => (array, storage.vectors.value_length as usize),
        Values::Other { .. } => panic!("no numbers"),
    }
}

fn singles(data: &[u8]) -> Vec<f32> {
    data.chunks(4)
        .map(|bytes| f32::from_le_bytes([bytes[0], bytes[1], bytes[2], bytes[3]]))
        .collect()
}

/// Finds the nearest vector by looking at every one.
fn exhaustive(
    _graph: &(),
    query: Query<ArrayRef>,
    k: usize,
    params: HnswQueryParams,
    store: &SimpleStore,
) -> Result<Vec<OrderedNode>, Error> {
    assert_eq!(k, 1);
    let expected = HnswQueryParams { ef: 15, lower_bound: None, upper_bound: None, dist_q_c: 0 };
    assert_eq!(params, expected);
    let query = match query {
        Query::Numbers(numbers) => numbers,
        Query::Other(_) => return Err(Error::Index { message: "no numbers".to_string() }),
    };
    let (array, dim) = vectors(store);
    let distances: Vec<f32> = match store {
        SimpleStore::Float(_) => {
            let query = singles(&query.data);
            singles(&array.data)
                .chunks(dim)
                .map(|row| row.iter().zip(&query).map(|(a, b)| (a - b) * (a - b)).sum())
                .collect()
        }
        SimpleStore::Binary(_) => array
            .data
            .chunks(dim)
            .map(|row| {
                let bits: u32 = row.iter().zip(&query.data).map(|(a, b)| (a ^ b).count_ones()).sum();
                bits as f32
            })
            .collect(),
    };
    let mut nearest = 0;
    for (id, distance) in distances.iter().enumerate() {
        if *distance < distances[nearest] {
            nearest = id;
        }
    }
    Ok(vec![OrderedNode { id: nearest as u32, dist: distances[nearest].to_bits() }])
}

fn to_bytes(array: ArrayRef) -> Result<PrimitiveArray, String> {
    match cast(&array, &arrow_schema::DataType::UInt8) {
        Ok(bytes) => Ok(numbers(&bytes)),
        Err(error) => Err(error.to_string()),
    }
}

fn ask(index: &SimpleIndex<()>, query: PrimitiveArray) -> Result<(u32, u32), Error> {
    index.search(Query::Numbers(query), to_bytes, exhaustive)
}

fn build(centroids: ArrayRef, dim: usize, distance_type: DistanceType) -> SimpleIndex<()> {
    let status = SimpleIndexStatus::Enabled;
    SimpleIndex::may_train_index(status, values(&centroids), dim, distance_type, no_graph)
        .unwrap()
        .unwrap()
}

#[test]
fn test_simple_index_nearest_centroid() {
    let halves: ArrayRef = Arc::new(Float16Array::from(
        (0..100)
            .flat_map(|i| std::iter::repeat_n(f16::from_f32(i as f32), 16))
            .collect::<Vec<_>>(),
    ));
    let full: ArrayRef = Arc::new(Float32Array::from(
        (0..100).flat_map(|i| std::iter::repeat_n(i as f32, 16)).collect::<Vec<_>>(),
    ));
    for centroids in [halves, full] {
        let centroids = cast(&centroids, &arrow_schema::DataType::Float32).unwrap();
        let index = build(centroids, 16, DistanceType::L2);
        let query = numbers(&Float32Array::from(vec![42.1f32; 16]));
        let (id, _) = ask(&index, query).unwrap();
        assert_eq!(id, 42);
    }
}

#[test]
fn test_simple_index_nearest_centroid_binary() {
    let centroids: ArrayRef = Arc::new(UInt8Array::from(
        (0..100).flat_map(|i| std::iter::repeat_n(i as u8, 16)).collect::<Vec<_>>(),
    ));
    let index = build(centroids, 16, DistanceType::Hamming);
    let query = numbers(&UInt8Array::from(vec![42u8; 16]));
    let (id, dist) = ask(&index, query).unwrap();
    assert_eq!(id, 42);
    assert_eq!(f32::from_bits(dist), 0.0);
}

#[test]
fn test_simple_index_rejects_f64() {
    let centroids = Float64Array::from(vec![0.0; 1600]);
    let result = SimpleIndex::may_train_index(
        SimpleIndexStatus::from_env(None),
        values(&centroids),
        16,
        DistanceType::L2,
        no_graph,
    )
    .unwrap();
    assert!(result.is_none());
}

#[test]
fn test_simple_index_rejects_uint8_non_hamming() {
    let centroids = UInt8Array::from(vec![0u8; 1600]);
    let result = SimpleIndex::may_train_index(
        SimpleIndexStatus::from_env(None),
        values(&centroids),
        16,
        DistanceType::L2,
        no_graph,
    )
    .unwrap();
    assert!(result.is_none());
}

#[test]
fn double_precision_and_other_distances_are_rejected_whatever_the_setting() {
    for status in
        [SimpleIndexStatus::Auto, SimpleIndexStatus::Enabled, SimpleIndexStatus::Disabled]
    {
        let centroids = values(&Float64Array::from(vec![0.0; 1_000_000]));
        let store = SimpleStore::for_centroids(status, centroids, 100, DistanceType::L2);
        assert!(store.unwrap().is_none());
        for distance_type in [DistanceType::L2, DistanceType::Cosine, DistanceType::Dot] {
            let centroids = values(&UInt8Array::from(vec![0u8; 1_000_000]));
            let store = SimpleStore::for_centroids(status, centroids, 100, distance_type);
            assert!(store.unwrap().is_none());
        }
    }
    let text = StringArray::from(vec!["a", "b"]);
    let centroids = Values::other_from_parts("Utf8".to_string(), text.len(), None).unwrap();
    let status = SimpleIndexStatus::Enabled;
    let store = SimpleStore::for_centroids(status, centroids, 1, DistanceType::Hamming);
    assert!(store.unwrap().is_none());
}

#[test]
fn one_million_values_are_enough() {
    let train = |status: SimpleIndexStatus, len: usize| {
        let centroids = values(&Float32Array::from(vec![0.5; len]));
        SimpleIndex::may_train_index(status, centroids, 1, DistanceType::Dot, no_graph).unwrap()
    };
    assert!(train(SimpleIndexStatus::Auto, 999_999).is_none());
    let index = train(SimpleIndexStatus::Auto, 1_000_000).unwrap();
    assert_eq!(vectors(&index.store).0.len, 1_000_000);
    assert!(train(SimpleIndexStatus::Enabled, 10).is_some());
    assert!(train(SimpleIndexStatus::Disabled, 1_000_000).is_none());
}

#[test]
fn the_kind_of_store_follows_the_type() {
    let status = SimpleIndexStatus::Enabled;
    let halves = values(&Float16Array::from(vec![f16::ONE; 6]));
    let store = SimpleStore::for_centroids(status, halves, 3, DistanceType::Cosine);
    match store.unwrap().unwrap() {
        SimpleStore::Float(storage) => {
            assert_eq!(storage.distance_type, DistanceType::Cosine);
            assert_eq!((storage.vectors.len, storage.vectors.value_length), (2, 3));
        }
        SimpleStore::Binary(_) => panic!("binary"),
    }
    let bytes = values(&UInt8Array::from(vec![1u8; 6]));
    let store = SimpleStore::for_centroids(status, bytes, 2, DistanceType::Hamming);
    match store.unwrap().unwrap() {
        SimpleStore::Float(_) => panic!("float"),
        SimpleStore::Binary(storage) => {
            assert_eq!(storage.distance_type, DistanceType::Hamming);
            assert_eq!((storage.vectors.len, storage.vectors.value_length), (3, 2));
        }
    }
}

#[test]
fn centroids_of_another_dimension_are_an_error() {
    let status = SimpleIndexStatus::Enabled;
    for (dimension, expected) in [
        (4, "expected a multiple of 4 got 6"),
        (0, "found 6 values"),
        (0xffff_ffff, "Size cannot be negative, got -1"),
        (1 << 31, "Size cannot be negative, got -2147483648"),
    ] {
        let centroids = values(&Float32Array::from(vec![0.0; 6]));
        let store = SimpleStore::for_centroids(status, centroids, dimension, DistanceType::L2);
        match store.unwrap_err() {
            Error::Arrow { message } => assert!(message.ends_with(expected)),
            other => panic!("{:?}", other),
        }
    }
    // Only the low 32 bits of the dimension count.
    let centroids = values(&Float32Array::from(vec![0.0; 6]));
    let store = SimpleStore::for_centroids(status, centroids, (1 << 32) + 3, DistanceType::L2);
    assert_eq!(vectors(&store.unwrap().unwrap()).1, 3);
}

#[test]
fn a_graph_that_cannot_be_built_is_an_error() {
    let centroids = values(&Float32Array::from(vec![0.0; 6]));
    let result: Result<Option<SimpleIndex<()>>, Error> = SimpleIndex::may_train_index(
        SimpleIndexStatus::Enabled,
        centroids,
        3,
        DistanceType::L2,
        |_, _| Err(Error::Index { message: "no memory".to_string() }),
    );
    match result.unwrap_err() {
        Error::Index { message } => assert_eq!(message, "no memory"),
        other => panic!("{:?}", other),
    }
}

#[test]
fn a_binary_index_takes_numbers_as_bytes() {
    let centroids: ArrayRef = Arc::new(UInt8Array::from(
        (0..100).flat_map(|i| std::iter::repeat_n(i as u8, 16)).collect::<Vec<_>>(),
    ));
    let index = build(centroids, 16, DistanceType::Hamming);
    let query = numbers(&Float32Array::from(vec![42.9f32; 16]));
    let taken = index.store.take_query(query).unwrap();
    assert_eq!(taken.data_type, PrimitiveType::UInt8);
    assert_eq!(taken.data, vec![42u8; 16]);
    let query = numbers(&Float64Array::from(vec![42.0; 16]));
    let (id, dist) = ask(&index, query).unwrap();
    assert_eq!((id, f32::from_bits(dist)), (42, 0.0));

    // What a byte cannot hold becomes null.
    let query = numbers(&Float16Array::from(vec![f16::from_f32(-1.0), f16::from_f32(255.0)]));
    let taken = index.store.take_query(query).unwrap();
    assert_eq!((taken.len, taken.data[1]), (2, 255));
    let nulls = taken.nulls.unwrap();
    assert_eq!(nulls.iter().collect::<Vec<_>>(), vec![false, true]);
}

#[test]
fn a_query_that_fits_is_left_alone() {
    let bytes: ArrayRef = Arc::new(UInt8Array::from(vec![1u8; 4]));
    let binary = build(bytes, 2, DistanceType::Hamming);
    let taken = binary.store.take_query(numbers(&UInt8Array::from(vec![7u8, 9]))).unwrap();
    assert_eq!((taken.data_type, taken.data), (PrimitiveType::UInt8, vec![7, 9]));

    let floats: ArrayRef = Arc::new(Float32Array::from(vec![1.0; 4]));
    let float = build(floats, 2, DistanceType::L2);
    let taken = float.store.take_query(numbers(&UInt8Array::from(vec![7u8, 9]))).unwrap();
    assert_eq!((taken.data_type, taken.data), (PrimitiveType::UInt8, vec![7, 9]));
}

#[test]
fn every_half_precision_number_becomes_its_byte() {
    let bytes: ArrayRef = Arc::new(UInt8Array::from(vec![1u8; 4]));
    let binary = build(bytes, 2, DistanceType::Hamming);
    let halves: Vec<f16> = (0..=u16::MAX).map(f16::from_bits).collect();
    let expected: Vec<Option<u8>> = halves
        .iter()
        .map(|half| half.to_f32())
        .map(|number| if number > -1.0 && number < 256.0 { Some(number as u8) } else { None })
        .collect();
    let taken = binary.store.take_query(numbers(&Float16Array::from(halves))).unwrap();
    let nulls = taken.nulls.unwrap();
    for (i, byte) in expected.iter().enumerate() {
        assert_eq!(nulls.is_valid(i), byte.is_some());
        assert_eq!(taken.data[i], byte.unwrap_or(0));
    }
}

#[test]
fn integers_become_bytes_where_they_fit() {
    let bytes: ArrayRef = Arc::new(UInt8Array::from(vec![1u8; 4]));
    let binary = build(bytes, 2, DistanceType::Hamming);
    let check = |array: ArrayRef, expected: Vec<Option<u8>>| {
        let taken = binary.store.take_query(numbers(&array)).unwrap();
        let nulls = taken.nulls.unwrap();
        let found: Vec<Option<u8>> = (0..taken.len)
            .map(|i| if nulls.is_valid(i) { Some(taken.data[i]) } else { None })
            .collect();
        assert_eq!(found, expected);
    };
    check(Arc::new(Int8Array::from(vec![0, 127, -128])), vec![Some(0), Some(127), None]);
    check(Arc::new(Int16Array::from(vec![255, 256, -1])), vec![Some(255), None, None]);
    check(Arc::new(Int32Array::from(vec![Some(7), None])), vec![Some(7), None]);
    check(Arc::new(Int64Array::from(vec![i64::MIN, 255])), vec![None, Some(255)]);
    check(Arc::new(UInt16Array::from(vec![255, 256])), vec![Some(255), None]);
    check(Arc::new(UInt32Array::from(vec![1, 0x1_0000])), vec![Some(1), None]);
    check(Arc::new(UInt64Array::from(vec![9, 1 << 40])), vec![Some(9), None]);
    check(
        Arc::new(Float64Array::from(vec![-0.5, 255.9, 256.0, f64::NAN, 1e-320])),
        vec![Some(0), Some(255), None, None, Some(0)],
    );
}

#[test]
fn a_search_that_fails_is_an_error() {
    let floats: ArrayRef = Arc::new(Float32Array::from(vec![1.0; 4]));
    let index = build(floats, 2, DistanceType::L2);
    let query = numbers(&Float32Array::from(vec![1.0, 2.0]));
    let found = index.search(Query::Numbers(query), to_bytes, |_, _, _, _, _| {
        Err(Error::Index { message: "no graph".to_string() })
    });
    match found.unwrap_err() {
        Error::Index { message } => assert_eq!(message, "no graph"),
        other => panic!("{:?}", other),
    }
}

#[test]
fn the_first_node_counts() {
    let nodes = vec![OrderedNode { id: 3, dist: 5 }, OrderedNode { id: 1, dist: 2 }];
    assert_eq!(first_node(&nodes), (3, 5));
}

#[test]
fn status_from_the_environment() {
    let status = |value: &str| SimpleIndexStatus::from_env(Some(value.to_string()));
    assert_eq!(SimpleIndexStatus::from_env(None), SimpleIndexStatus::Auto);
    assert_eq!(status("enabled"), SimpleIndexStatus::Enabled);
    assert_eq!(status("disabled"), SimpleIndexStatus::Disabled);
    assert_eq!(status("auto"), SimpleIndexStatus::Auto);
    assert_eq!(status("Enabled"), SimpleIndexStatus::Auto);
    assert_eq!(status(""), SimpleIndexStatus::Auto);
}

fn hundred_bytes() -> SimpleIndex<()> {
    let centroids: ArrayRef = Arc::new(UInt8Array::from(
        (0..100).flat_map(|i| std::iter::repeat_n(i as u8, 16)).collect::<Vec<_>>(),
    ));
    build(centroids, 16, DistanceType::Hamming)
}

#[test]
fn a_query_is_answered_as_its_bytes() {
    let index = hundred_bytes();
    let bytes = numbers(&UInt8Array::from(vec![17u8; 16]));
    let expected = ask(&index, bytes).unwrap();
    assert_eq!(expected.0, 17);
    for query in [
        numbers(&Float32Array::from(vec![17.5f32; 16])),
        numbers(&Int64Array::from(vec![17i64; 16])),
        numbers(&UInt16Array::from(vec![17u16; 16])),
    ] {
        assert_eq!(ask(&index, query).unwrap(), expected);
    }
}

#[test]
fn a_query_is_answered_alike_each_time() {
    let index = hundred_bytes();
    for _ in 0..3 {
        let query = numbers(&Float32Array::from(vec![63.0f32; 16]));
        assert_eq!(ask(&index, query).unwrap(), (63, 0));
    }
}

#[test]
fn a_binary_index_takes_text_as_bytes() {
    let index = hundred_bytes();
    let query: ArrayRef = Arc::new(StringArray::from(vec!["42"; 16]));
    let (id, dist) = index.search(Query::Other(query), to_bytes, exhaustive).unwrap();
    assert_eq!((id, f32::from_bits(dist)), (42, 0.0));
}

#[test]
fn a_query_that_cannot_be_cast_is_not_searched_for() {
    let index = hundred_bytes();
    let query: ArrayRef = Arc::new(FixedSizeBinaryArray::from(vec![&[1u8, 2][..]]));
    let expected = to_bytes(query.clone()).unwrap_err();
    let found = index.search(Query::Other(query), to_bytes, |_, _, _, _, _| panic!("a search"));
    match found.unwrap_err() {
        Error::Index { message } => assert_eq!(message, expected),
        other => panic!("{:?}", other),
    }
}

#[test]
fn a_float_index_hands_on_what_it_cannot_read() {
    let floats: ArrayRef = Arc::new(Float32Array::from(vec![1.0; 4]));
    let index = build(floats, 2, DistanceType::L2);
    let query: ArrayRef = Arc::new(StringArray::from(vec!["a", "b"]));
    let found = index.search(
        Query::Other(query),
        |_: ArrayRef| panic!("a cast"),
        |_: &(), query: Query<ArrayRef>, _, _, _: &SimpleStore| match query {
            Query::Numbers(_) => panic!("numbers"),
            Query::Other(array) => {
                assert_eq!(array.len(), 2);
                Ok(vec![OrderedNode { id: 1, dist: 7 }])
            }
        },
    );
    assert_eq!(found.unwrap(), (1, 7));
}

#[test]
fn a_cast_gives_the_query_or_an_error() {
    let taken = cast_query(Ok(numbers(&UInt8Array::from(vec![7u8, 9])))).unwrap();
    assert_eq!((taken.data_type, taken.data), (PrimitiveType::UInt8, vec![7, 9]));
    match cast_query(Err("no bytes".to_string())).unwrap_err() {
        Error::Index { message } => assert_eq!(message, "no bytes"),
        other => panic!("{:?}", other),
    }
}

#[test]
fn enabled_agrees_with_auto_on_large_inputs() {
    for (len, dimension) in [(1_000_000, 10), (1_000_001, 10), (1_000_000, 0)] {
        let train = |status: SimpleIndexStatus| {
            let centroids = values(&Float32Array::from(vec![0.5; len]));
            SimpleStore::for_centroids(status, centroids, dimension, DistanceType::L2)
        };
        match (train(SimpleIndexStatus::Auto), train(SimpleIndexStatus::Enabled)) {
            (Ok(Some(auto)), Ok(Some(enabled))) => {
                assert_eq!(dimension * 100_000, len);
                assert_eq!(vectors(&auto).0.data, vectors(&enabled).0.data);
                assert_eq!(vectors(&auto).1, vectors(&enabled).1);
            }
            (Err(Error::Arrow { message: auto }), Err(Error::Arrow { message: enabled })) => {
                assert_eq!(auto, enabled)
            }
            _ => panic!("no agreement"),
        }
    }
}

#[test]
fn a_failing_cast_is_the_answer_of_an_index_over_nothing() {
    let none: ArrayRef = Arc::new(UInt8Array::from(Vec::<u8>::new()));
    let index = build(none, 2, DistanceType::Hamming);
    assert_eq!(vectors(&index.store).0.len, 0);
    let query: ArrayRef = Arc::new(FixedSizeBinaryArray::from(vec![&[1u8, 2][..]]));
    let expected = to_bytes(query.clone()).unwrap_err();
    let found = index.search(Query::Other(query), to_bytes, |_, _, _, _, _| Ok(Vec::new()));
    match found.unwrap_err() {
        Error::Index { message } => assert_eq!(message, expected),
        other => panic!("{:?}", other),
    }
}
