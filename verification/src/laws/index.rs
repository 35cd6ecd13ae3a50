//! When an index is trained, on what, and how.

use vstd::prelude::*;

use crate::array::{lemma_lists_hold_the_values, Array, PrimitiveType};
use crate::convert::low_i32;
use crate::error::Error;
use crate::laws::{count_of, lists_fit, same_values, values_fit};
use crate::simple_index::{
    store_of, DistanceType, HnswBuildParams, SimpleIndex, SimpleIndexStatus, SimpleStore,
};
use crate::text::decimal;

verus! {

/// The setting `enabled` asks for an index in any case, the setting `disabled`
/// for none, and all others, and no setting, leave it to the number of values.
pub proof fn law_settings(value: Option<String>, status: SimpleIndexStatus)
    requires
        call_ensures(SimpleIndexStatus::from_env, (value,), status),
    ensures
        call_requires(SimpleIndexStatus::from_env, (value,)),
        status == SimpleIndexStatus::Enabled <==> (value matches Some(text) && text@ == "enabled"@),
        status == SimpleIndexStatus::Disabled <==> (value matches Some(text) && text@
            == "disabled"@),
{
    reveal_strlit("enabled");
    reveal_strlit("disabled");
    assert("enabled"@.len() != "disabled"@.len());
}

/// Whether an index is asked for: in any case, or, unless it is not wanted at
/// all, with one million values or more.
pub open spec fn is_asked_for(status: SimpleIndexStatus, centroids: Array) -> bool {
    status == SimpleIndexStatus::Enabled || (status == SimpleIndexStatus::Auto && count_of(
        centroids,
    ) >= 1_000_000)
}

/// Whether there can be an index over the centroids: they are of half or single
/// precision, with any distance, or bytes, with the Hamming distance.
pub open spec fn can_be_indexed(centroids: Array, distance_type: DistanceType) -> bool {
    centroids matches Array::Primitive(numbers) && (numbers.data_type == PrimitiveType::Float16
        || numbers.data_type == PrimitiveType::Float32 || (numbers.data_type == PrimitiveType::UInt8
        && distance_type == DistanceType::Hamming))
}

/// The dimension as it is handed to arrow: the number that its low 32 bits hold
/// in two's complement.
pub open spec fn size_of_lists(dimension: usize) -> int {
    let low = dimension as int % 0x1_0000_0000;
    if low <= i32::MAX {
        low
    } else {
        low - 0x1_0000_0000
    }
}

/// Whether the dimension cuts the centroids into vectors, with none left over.
pub open spec fn is_cut_by(centroids: Array, dimension: usize) -> bool {
    let size = size_of_lists(dimension);
    (size > 0 && count_of(centroids) % size == 0) || (size == 0 && count_of(centroids) == 0)
}

/// Whether a store holds the centroids, cut into vectors of the dimension, and
/// the distance: bytes as bits, and other numbers as numbers.
pub open spec fn holds(
    store: SimpleStore,
    centroids: Array,
    dimension: usize,
    distance_type: DistanceType,
) -> bool {
    let storage = match store {
        SimpleStore::Float(storage) => storage,
        SimpleStore::Binary(storage) => storage,
    };
    &&& centroids matches Array::Primitive(numbers)
    &&& store is Binary <==> numbers.data_type == PrimitiveType::UInt8
    &&& storage.distance_type == distance_type
    &&& lists_fit(storage.vectors)
    &&& same_values(storage.vectors.values, centroids)
    &&& storage.vectors.value_length == size_of_lists(dimension)
    &&& storage.vectors.len * size_of_lists(dimension) == count_of(centroids)
    &&& size_of_lists(dimension) == 0 ==> storage.vectors.len == 0
    &&& storage.vectors.nulls is None
    &&& storage.vectors.field.name@ == "item"@
    &&& storage.vectors.field.nullable
}

/// Whether an error says that the dimension does not cut the centroids into
/// vectors, as arrow words it.
pub open spec fn says_why_not_cut(error: Error, centroids: Array, dimension: usize) -> bool {
    let size = size_of_lists(dimension);
    error matches Error::Arrow { message } && {
        &&& size < 0 ==> message@ == "Invalid argument error: Size cannot be negative, got "@ + (
        seq!['-'] + decimal((-size) as nat))
        &&& size == 0 ==> message@
            == "Invalid argument error: An degenerate FixedSizeListArray should have no underlying values, found "@
            + decimal(count_of(centroids) as nat) + " values"@
        &&& size > 0 ==> message@
            == "Invalid argument error: Incorrect length of values buffer for FixedSizeListArray, expected a multiple of "@
            + decimal(size as nat) + " got "@ + decimal(count_of(centroids) as nat)
    }
}

/// The size of the lists is the dimension, where a list can be so long.
pub proof fn law_dimension_is_the_size(dimension: usize)
    requires
        dimension <= i32::MAX,
    ensures
        size_of_lists(dimension) == dimension,
{
}

/// There is a store to train an index on just where an index is asked for and
/// can be. It holds the centroids, cut by the dimension, and the distance that
/// was given. Where the dimension does not cut them, that is the error.
pub proof fn law_store_of_centroids(
    status: SimpleIndexStatus,
    centroids: Array,
    dimension: usize,
    distance_type: DistanceType,
    store: Result<Option<SimpleStore>, Error>,
)
    requires
        values_fit(centroids),
        call_ensures(
            SimpleStore::for_centroids,
            (status, centroids, dimension, distance_type),
            store,
        ),
    ensures
        call_requires(
            SimpleStore::for_centroids,
            (status, centroids, dimension, distance_type),
        ),
        if !is_asked_for(status, centroids) || !can_be_indexed(centroids, distance_type) {
            store == Ok::<Option<SimpleStore>, Error>(None)
        } else if is_cut_by(centroids, dimension) {
            store matches Ok(Some(store)) && holds(store, centroids, dimension, distance_type)
        } else {
            store matches Err(error) && says_why_not_cut(error, centroids, dimension)
        },
{
    assert(low_i32(dimension as nat) == size_of_lists(dimension));
    if store matches Ok(Some(_)) {
        lemma_lists_hold_the_values(count_of(centroids) as nat, size_of_lists(dimension));
    }
}

/// A graph is built over the store, with 12 edges for each vector and 15
/// candidates to choose them from. What comes of it is an index over that same
/// store, or the error.
pub proof fn law_graph_is_built<G, F>(
    store: SimpleStore,
    index_vectors: F,
    index: Result<SimpleIndex<G>, Error>,
) where F: FnOnce(&SimpleStore, HnswBuildParams) -> Result<G, Error>
    requires
        call_ensures(SimpleIndex::<G>::try_new::<F>, (store, index_vectors), index),
    ensures
        ({
            let params = HnswBuildParams { ef_construction: 15, num_edges: 12 };
            &&& call_requires(index_vectors, (&store, params)) ==> call_requires(
                SimpleIndex::<G>::try_new::<F>,
                (store, index_vectors),
            )
            &&& index matches Ok(index) ==> index.store == store && call_ensures(
                index_vectors,
                (&store, params),
                Ok::<G, Error>(index.index),
            )
            &&& index matches Err(error) ==> call_ensures(
                index_vectors,
                (&store, params),
                Err::<G, Error>(error),
            )
        }),
{
}

/// No index is trained where none is asked for, or where there can be none.
pub proof fn law_no_index_is_trained<G, F>(
    status: SimpleIndexStatus,
    centroids: Array,
    dimension: usize,
    distance_type: DistanceType,
    index_vectors: F,
    index: Result<Option<SimpleIndex<G>>, Error>,
) where F: FnOnce(&SimpleStore, HnswBuildParams) -> Result<G, Error>
    requires
        values_fit(centroids),
        !is_asked_for(status, centroids) || !can_be_indexed(centroids, distance_type),
        call_ensures(
            SimpleIndex::<G>::may_train_index::<F>,
            (status, centroids, dimension, distance_type, index_vectors),
            index,
        ),
    ensures
        call_requires(
            SimpleIndex::<G>::may_train_index::<F>,
            (status, centroids, dimension, distance_type, index_vectors),
        ),
        index == Ok::<Option<SimpleIndex<G>>, Error>(None),
{
}

/// Where an index is asked for and can be, but the dimension does not cut the
/// centroids, that is the error.
pub proof fn law_centroids_of_another_dimension<G, F>(
    status: SimpleIndexStatus,
    centroids: Array,
    dimension: usize,
    distance_type: DistanceType,
    index_vectors: F,
    index: Result<Option<SimpleIndex<G>>, Error>,
) where F: FnOnce(&SimpleStore, HnswBuildParams) -> Result<G, Error>
    requires
        values_fit(centroids),
        is_asked_for(status, centroids),
        can_be_indexed(centroids, distance_type),
        !is_cut_by(centroids, dimension),
        call_ensures(
            SimpleIndex::<G>::may_train_index::<F>,
            (status, centroids, dimension, distance_type, index_vectors),
            index,
        ),
    ensures
        call_requires(
            SimpleIndex::<G>::may_train_index::<F>,
            (status, centroids, dimension, distance_type, index_vectors),
        ),
        index matches Err(error) && says_why_not_cut(error, centroids, dimension),
{
    assert(low_i32(dimension as nat) == size_of_lists(dimension));
}

/// Where an index is asked for and can be, and the dimension cuts the centroids,
/// a graph is built over a store that holds them and the distance that was
/// given, with 12 edges for each vector and 15 candidates to choose them from.
/// What comes of it is an index over that store, or the error.
pub proof fn law_index_is_trained<G, F>(
    status: SimpleIndexStatus,
    centroids: Array,
    dimension: usize,
    distance_type: DistanceType,
    index_vectors: F,
    index: Result<Option<SimpleIndex<G>>, Error>,
) where F: FnOnce(&SimpleStore, HnswBuildParams) -> Result<G, Error>
    requires
        values_fit(centroids),
        is_asked_for(status, centroids),
        can_be_indexed(centroids, distance_type),
        is_cut_by(centroids, dimension),
        call_ensures(
            SimpleIndex::<G>::may_train_index::<F>,
            (status, centroids, dimension, distance_type, index_vectors),
            index,
        ),
    ensures
        ({
            let params = HnswBuildParams { ef_construction: 15, num_edges: 12 };
            &&& (forall|store: SimpleStore|
                holds(store, centroids, dimension, distance_type) ==> #[trigger] call_requires(
                    index_vectors,
                    (&store, params),
                )) ==> call_requires(
                SimpleIndex::<G>::may_train_index::<F>,
                (status, centroids, dimension, distance_type, index_vectors),
            )
            &&& index != Ok::<Option<SimpleIndex<G>>, Error>(None)
            &&& index matches Ok(Some(index)) ==> holds(
                index.store,
                centroids,
                dimension,
                distance_type,
            ) && call_ensures(index_vectors, (&index.store, params), Ok::<G, Error>(index.index))
            &&& index matches Err(error) ==> exists|store: SimpleStore|
                holds(store, centroids, dimension, distance_type) && #[trigger] call_ensures(
                    index_vectors,
                    (&store, params),
                    Err::<G, Error>(error),
                )
        }),
{
    let size = size_of_lists(dimension);
    assert(low_i32(dimension as nat) == size);
    lemma_lists_hold_the_values(count_of(centroids) as nat, size);
    let expected = store_of(status, centroids@, dimension as nat, distance_type);
    assert forall|store: SimpleStore| #[trigger]
        store@ == expected->Ok_0->Some_0 && store.wf() implies holds(
        store,
        centroids,
        dimension,
        distance_type,
    ) by {}
}

} // verus!
