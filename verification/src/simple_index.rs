//! An index over centroids that speeds up finding the nearest one: when it is
//! worth training, what it is trained on and how it is asked.

use vstd::prelude::*;
use vstd::string::*;

use crate::array::{
    lemma_lists_hold_the_values, lists_of, Array, ArrayView, FixedSizeListArray, FixedSizeListView, PrimitiveArray,
    PrimitiveArrayView, PrimitiveType,
};
use crate::convert::{as_i32, low_i32};
use crate::error::{Error, ErrorView};
use crate::numbers::as_bytes;
use crate::outside::cast_to_uint8;

verus! {

/// How many values the centroids have to have together before an index over
/// them pays off.
pub const MIN_VALUES_FOR_INDEX: usize = 1_000_000;

/// Whether to train an index over centroids.
#[derive(Clone, Copy, Debug, PartialEq, Eq, Structural)]
pub enum SimpleIndexStatus {
    /// Where there are enough centroids.
    Auto,
    /// However many centroids there are.
    Enabled,
    /// Never.
    Disabled,
}

impl SimpleIndexStatus {
    /// What a setting asks for.
    pub open spec fn of_setting(value: Option<Seq<char>>) -> SimpleIndexStatus {
        if value == Some("enabled"@) {
            SimpleIndexStatus::Enabled
        } else if value == Some("disabled"@) {
            SimpleIndexStatus::Disabled
        } else {
            SimpleIndexStatus::Auto
        }
    }

    /// Whether to train an index over centroids of `num_values` values
    /// together.
    pub open spec fn wants(self, num_values: nat) -> bool {
        match self {
            SimpleIndexStatus::Auto => num_values >= MIN_VALUES_FOR_INDEX,
            SimpleIndexStatus::Enabled => true,
            SimpleIndexStatus::Disabled => false,
        }
    }

    /// What the value of `LANCE_USE_HNSW_SPEEDUP_INDEXING` asks for, if it is
    /// set.
    pub fn from_env(value: Option<String>) -> (status: SimpleIndexStatus)
        ensures
            status == Self::of_setting(
                match value {
                    Some(text) => Some(text@),
                    None => None,
                },
            ),
    {
        match value {
            Some(text) => {
                if text == "enabled".to_owned() {
                    SimpleIndexStatus::Enabled
                } else if text == "disabled".to_owned() {
                    SimpleIndexStatus::Disabled
                } else {
                    SimpleIndexStatus::Auto
                }
            },
            None => SimpleIndexStatus::Auto,
        }
    }
}

/// How far two vectors are from one another.
#[derive(Clone, Copy, Debug, PartialEq, Eq, Structural)]
pub enum DistanceType {
    L2,
    Cosine,
    Dot,
    Hamming,
}

/// Vectors as they are, and the distance between them.
#[derive(Debug)]
pub struct FlatStorage {
    pub vectors: FixedSizeListArray,
    pub distance_type: DistanceType,
}

/// The vectors that an index is over.
#[derive(Debug)]
pub enum SimpleStore {
    /// Vectors of floating point numbers.
    Float(FlatStorage),
    /// Vectors of bits, eight to a byte.
    Binary(FlatStorage),
}

/// A [`SimpleStore`] as mathematical values.
#[verifier::ext_equal]
pub enum SimpleStoreView {
    Float { vectors: FixedSizeListView, distance_type: DistanceType },
    Binary { vectors: FixedSizeListView, distance_type: DistanceType },
}

impl View for SimpleStore {
    type V = SimpleStoreView;

    open spec fn view(&self) -> SimpleStoreView {
        match self {
            SimpleStore::Float(store) => SimpleStoreView::Float {
                vectors: store.vectors@,
                distance_type: store.distance_type,
            },
            SimpleStore::Binary(store) => SimpleStoreView::Binary {
                vectors: store.vectors@,
                distance_type: store.distance_type,
            },
        }
    }
}

impl SimpleStoreView {
    /// The vectors.
    pub open spec fn vectors(self) -> FixedSizeListView {
        match self {
            SimpleStoreView::Float { vectors, .. } => vectors,
            SimpleStoreView::Binary { vectors, .. } => vectors,
        }
    }
}

/// The kinds of stores.
#[derive(Clone, Copy, Debug, PartialEq, Eq, Structural)]
pub enum StoreKind {
    Float,
    Binary,
}

/// The kind of store that holds the centroids, if an index can be over them.
pub open spec fn store_kind(centroids: ArrayView, distance_type: DistanceType) -> Option<StoreKind> {
    match centroids {
        ArrayView::Primitive(array) => match array.data_type {
            PrimitiveType::Float16 | PrimitiveType::Float32 => Some(StoreKind::Float),
            PrimitiveType::UInt8 => if distance_type == DistanceType::Hamming {
                Some(StoreKind::Binary)
            } else {
                None
            },
            _ => None,
        },
        ArrayView::Other { .. } => None,
    }
}

/// The store to train an index on, if one is to be trained.
pub open spec fn store_of(
    status: SimpleIndexStatus,
    centroids: ArrayView,
    dimension: nat,
    distance_type: DistanceType,
) -> Result<Option<SimpleStoreView>, ErrorView> {
    if !status.wants(centroids.len()) {
        Ok(None)
    } else {
        match store_kind(centroids, distance_type) {
            None => Ok(None),
            Some(kind) => match lists_of(centroids, low_i32(dimension)) {
                Err(error) => Err(error),
                Ok(vectors) => match kind {
                    StoreKind::Float => Ok(Some(SimpleStoreView::Float { vectors, distance_type })),
                    StoreKind::Binary => Ok(
                        Some(SimpleStoreView::Binary { vectors, distance_type }),
                    ),
                },
            },
        }
    }
}

impl SimpleStore {
    /// The parts fit one another.
    pub open spec fn wf(&self) -> bool {
        self@.vectors().wf()
    }

    /// The store to train an index on, if one is to be trained: where `status`
    /// asks for it, on centroids of half or single precision, or of bytes with
    /// the Hamming distance. `centroids` holds the values of all of them,
    /// `dimension` values each.
    pub fn for_centroids(
        status: SimpleIndexStatus,
        centroids: Array,
        dimension: usize,
        distance_type: DistanceType,
    ) -> (store: Result<Option<SimpleStore>, Error>)
        requires
            centroids.wf(),
        ensures
            match store {
                Ok(Some(store)) => store.wf() && store_of(
                    status,
                    centroids@,
                    dimension as nat,
                    distance_type,
                ) == Ok::<Option<SimpleStoreView>, ErrorView>(Some(store@)),
                Ok(None) => store_of(status, centroids@, dimension as nat, distance_type) == Ok::<
                    Option<SimpleStoreView>,
                    ErrorView,
                >(None),
                Err(error) => store_of(status, centroids@, dimension as nat, distance_type)
                    == Err::<Option<SimpleStoreView>, ErrorView>(error@),
            },
    {
        match status {
            SimpleIndexStatus::Auto => {
                if centroids.len() < MIN_VALUES_FOR_INDEX {
                    return Ok(None);
                }
            },
            SimpleIndexStatus::Disabled => {
                return Ok(None);
            },
            SimpleIndexStatus::Enabled => {},
        }
        let kind = match &centroids {
            Array::Primitive(array) => match (array.data_type, distance_type) {
                (PrimitiveType::Float16, _) | (PrimitiveType::Float32, _) => StoreKind::Float,
                (PrimitiveType::UInt8, DistanceType::Hamming) => StoreKind::Binary,
                _ => {
                    return Ok(None);
                },
            },
            Array::Other { .. } => {
                return Ok(None);
            },
        };
        match FixedSizeListArray::try_new_from_values(centroids, as_i32(dimension)) {
            Ok(vectors) => {
                let storage = FlatStorage { vectors, distance_type };
                match kind {
                    StoreKind::Float => Ok(Some(SimpleStore::Float(storage))),
                    StoreKind::Binary => Ok(Some(SimpleStore::Binary(storage))),
                }
            },
            Err(error) => Err(error),
        }
    }
}

/// How the graph of an index is built, as far as it is not left to whoever
/// builds it.
#[derive(Clone, Copy, Debug, PartialEq, Eq, Structural)]
pub struct HnswBuildParams {
    /// How many candidates to look at for each vector that is put in.
    pub ef_construction: usize,
    /// How many edges to give each vector.
    pub num_edges: usize,
}

/// How the graph of an index is searched. Distances are given by the bits of a
/// single precision number.
#[derive(Clone, Copy, Debug, PartialEq, Eq, Structural)]
pub struct HnswQueryParams {
    /// How many candidates to look at.
    pub ef: usize,
    /// The distance below which a vector does not count.
    pub lower_bound: Option<u32>,
    /// The distance from which on a vector does not count.
    pub upper_bound: Option<u32>,
    /// The distance between the query and its own centroid.
    pub dist_q_c: u32,
}

/// A vector that a search found.
#[derive(Clone, Copy, Debug, PartialEq, Eq, Structural)]
pub struct OrderedNode {
    /// The number of the vector.
    pub id: u32,
    /// Its distance from the query, by the bits of a single precision number.
    pub dist: u32,
}

/// How the graph of a [`SimpleIndex`] is built.
pub open spec fn build_params() -> HnswBuildParams {
    HnswBuildParams { ef_construction: 15, num_edges: 12 }
}

/// How the graph of a [`SimpleIndex`] is searched.
pub open spec fn query_params() -> HnswQueryParams {
    HnswQueryParams { ef: 15, lower_bound: None, upper_bound: None, dist_q_c: 0 }
}

/// How many vectors a [`SimpleIndex`] looks for.
pub const NUM_NEIGHBORS: usize = 1;

/// The query as the vectors of a store can be compared with it: a store of bits
/// takes bytes.
pub open spec fn query_for(
    store: SimpleStoreView,
    query: PrimitiveArrayView,
) -> PrimitiveArrayView {
    if store is Float || query.data_type == PrimitiveType::UInt8 {
        query
    } else {
        as_bytes(query)
    }
}

/// The vector that was found first, and its distance.
pub fn first_node(nodes: &Vec<OrderedNode>) -> (first: (u32, u32))
    requires
        nodes@.len() > 0,
    ensures
        first == (nodes@[0].id, nodes@[0].dist),
{
    (nodes[0].id, nodes[0].dist)
}

/// The query to search for after a cast to bytes: what the cast gave, or an
/// error with its message.
pub fn cast_query(result: Result<PrimitiveArray, String>) -> (taken: Result<PrimitiveArray, Error>)
    ensures
        match result {
            Ok(bytes) => taken == Ok::<PrimitiveArray, Error>(bytes),
            Err(message) => taken == Err::<PrimitiveArray, Error>(Error::Index { message }),
        },
{
    match result {
        Ok(bytes) => Ok(bytes),
        Err(message) => Err(Error::Index { message }),
    }
}

/// A query: a vector of numbers, or an array of another type, which is of type
/// `Q` and means nothing to this library.
#[derive(Debug)]
pub enum Query<Q> {
    Numbers(PrimitiveArray),
    Other(Q),
}

impl<Q> Query<Q> {
    /// The parts fit one another.
    pub open spec fn wf(&self) -> bool {
        match self {
            Query::Numbers(numbers) => numbers.wf(),
            Query::Other(_) => true,
        }
    }
}

impl SimpleStoreView {
    /// Whether `taken` is the query as the vectors of the store can be compared
    /// with it, or why there is none: a store of bits takes bytes. What is
    /// neither bytes nor other numbers becomes bytes by `cast`.
    pub open spec fn is_taken<Q, C>(
        self,
        query: Query<Q>,
        cast: C,
        taken: Result<Query<Q>, Error>,
    ) -> bool where C: FnOnce(Q) -> Result<PrimitiveArray, String> {
        match query {
            Query::Numbers(numbers) => match taken {
                Ok(Query::Numbers(bytes)) => bytes.wf() && bytes@ == query_for(self, numbers@),
                _ => false,
            },
            Query::Other(other) => if self is Float {
                taken == Ok::<Query<Q>, Error>(query)
            } else {
                match taken {
                    Ok(Query::Numbers(bytes)) => call_ensures(
                        cast,
                        (other,),
                        Ok::<PrimitiveArray, String>(bytes),
                    ),
                    Err(Error::Index { message }) => call_ensures(
                        cast,
                        (other,),
                        Err::<PrimitiveArray, String>(message),
                    ),
                    _ => false,
                }
            },
        }
    }
}

impl SimpleStore {
    /// The query as the vectors of the store can be compared with it: a store
    /// of bits takes bytes, to which other numbers are cast.
    pub fn take_query(&self, query: PrimitiveArray) -> (taken: Result<PrimitiveArray, Error>)
        requires
            query.wf(),
        ensures
            taken matches Ok(taken) && taken.wf() && taken@ == query_for(self@, query@),
            self@ is Float || query.data_type == PrimitiveType::UInt8 ==> taken == Ok::<
                PrimitiveArray,
                Error,
            >(query),
    {
        match self {
            SimpleStore::Float(_) => Ok(query),
            SimpleStore::Binary(_) => {
                if query.data_type == PrimitiveType::UInt8 {
                    return Ok(query);
                }
                let len: usize = query.len;
                cast_query(
                    match cast_to_uint8(query.data_type.name(), &query) {
                        Ok((data, nulls)) => Ok(
                            PrimitiveArray { data_type: PrimitiveType::UInt8, len, data, nulls },
                        ),
                        Err(message) => Err(message),
                    },
                )
            },
        }
    }

    /// Like [`Self::take_query`], for a query of any type: what is neither
    /// bytes nor other numbers becomes bytes by `cast`, where the store takes
    /// bytes.
    pub fn take_any_query<Q, C>(&self, query: Query<Q>, cast: C) -> (taken: Result<
        Query<Q>,
        Error,
    >) where C: FnOnce(Q) -> Result<PrimitiveArray, String>
        requires
            query.wf(),
            self@ is Binary ==> (query matches Query::Other(other) ==> call_requires(
                cast,
                (other,),
            )),
        ensures
            self@.is_taken(query, cast, taken),
    {
        match query {
            Query::Numbers(numbers) => match self.take_query(numbers) {
                Ok(numbers) => Ok(Query::Numbers(numbers)),
                Err(error) => Err(error),
            },
            Query::Other(other) => match self {
                SimpleStore::Float(_) => Ok(Query::Other(other)),
                SimpleStore::Binary(_) => match cast_query(cast(other)) {
                    Ok(bytes) => Ok(Query::Numbers(bytes)),
                    Err(error) => Err(error),
                },
            },
        }
    }
}

/// An index over centroids: a graph, of type `G`, over the vectors of a store.
#[derive(Debug)]
pub struct SimpleIndex<G> {
    pub store: SimpleStore,
    pub index: G,
}

impl<G> SimpleIndex<G> {
    /// Builds the graph of the index over a store. `index_vectors` builds a
    /// graph over the vectors it is given.
    pub fn try_new<F>(store: SimpleStore, index_vectors: F) -> (index: Result<Self, Error>) where
        F: FnOnce(&SimpleStore, HnswBuildParams) -> Result<G, Error>,

        requires
            call_requires(index_vectors, (&store, build_params())),
        ensures
            Self::is_built_by(store, index_vectors, index),
    {
        let params = HnswBuildParams { ef_construction: 15, num_edges: 12 };
        match index_vectors(&store, params) {
            Ok(graph) => Ok(SimpleIndex { store, index: graph }),
            Err(error) => Err(error),
        }
    }

    /// Whether `index` is what comes of building a graph over the store.
    pub open spec fn is_built_by<F>(
        store: SimpleStore,
        index_vectors: F,
        index: Result<Self, Error>,
    ) -> bool where F: FnOnce(&SimpleStore, HnswBuildParams) -> Result<G, Error> {
        match index {
            Ok(index) => index.store == store && call_ensures(
                index_vectors,
                (&store, build_params()),
                Ok::<G, Error>(index.index),
            ),
            Err(error) => call_ensures(
                index_vectors,
                (&store, build_params()),
                Err::<G, Error>(error),
            ),
        }
    }

    /// Whether `index` is what comes of training an index over the centroids.
    pub open spec fn is_trained_by<F>(
        status: SimpleIndexStatus,
        centroids: ArrayView,
        dimension: nat,
        distance_type: DistanceType,
        index_vectors: F,
        index: Result<Option<Self>, Error>,
    ) -> bool where F: FnOnce(&SimpleStore, HnswBuildParams) -> Result<G, Error> {
        match store_of(status, centroids, dimension, distance_type) {
            Ok(None) => index == Ok::<Option<Self>, Error>(None),
            Err(error) => index matches Err(found) && found@ == error,
            Ok(Some(expected)) => exists|store: SimpleStore| #[trigger]
                store@ == expected && store.wf() && match index {
                    Ok(Some(index)) => Self::is_built_by(
                        store,
                        index_vectors,
                        Ok::<Self, Error>(index),
                    ),
                    Ok(None) => false,
                    Err(error) => Self::is_built_by(
                        store,
                        index_vectors,
                        Err::<Self, Error>(error),
                    ),
                },
        }
    }

    /// Trains an index over the centroids where that pays off: see
    /// [`SimpleStore::for_centroids`] for when it does, and [`Self::try_new`]
    /// for how it is built.
    pub fn may_train_index<F>(
        status: SimpleIndexStatus,
        centroids: Array,
        dimension: usize,
        distance_type: DistanceType,
        index_vectors: F,
    ) -> (index: Result<Option<Self>, Error>) where
        F: FnOnce(&SimpleStore, HnswBuildParams) -> Result<G, Error>,

        requires
            centroids.wf(),
            forall|store: SimpleStore|
                store.wf() && store_of(status, centroids@, dimension as nat, distance_type) == Ok::<
                    Option<SimpleStoreView>,
                    ErrorView,
                >(Some(store@)) ==> #[trigger] call_requires(
                    index_vectors,
                    (&store, build_params()),
                ),
        ensures
            Self::is_trained_by(
                status,
                centroids@,
                dimension as nat,
                distance_type,
                index_vectors,
                index,
            ),
    {
        let store = match SimpleStore::for_centroids(status, centroids, dimension, distance_type) {
            Ok(Some(store)) => store,
            Ok(None) => {
                return Ok(None);
            },
            Err(error) => {
                return Err(error);
            },
        };
        let ghost trained = store;
        match Self::try_new(store, index_vectors) {
            Ok(index) => {
                assert(Self::is_built_by(trained, index_vectors, Ok::<Self, Error>(index)));
                Ok(Some(index))
            },
            Err(error) => {
                assert(Self::is_built_by(trained, index_vectors, Err::<Self, Error>(error)));
                Err(error)
            },
        }
    }
}

impl<G> SimpleIndex<G> {
    /// Whether `found` is what comes of searching the graph for a query.
    pub open spec fn is_found_by<Q, F>(
        self,
        query: Query<Q>,
        search_basic: F,
        found: Result<(u32, u32), Error>,
    ) -> bool where
        F: FnOnce(
            &G,
            Query<Q>,
            usize,
            HnswQueryParams,
            &SimpleStore,
        ) -> Result<Vec<OrderedNode>, Error>,
     {
        match found {
            Ok(found) => exists|nodes: Vec<OrderedNode>| #[trigger]
                call_ensures(
                    search_basic,
                    (&self.index, query, NUM_NEIGHBORS, query_params(), &self.store),
                    Ok::<Vec<OrderedNode>, Error>(nodes),
                ) && nodes@.len() > 0 && found == (nodes@[0].id, nodes@[0].dist),
            Err(error) => call_ensures(
                search_basic,
                (&self.index, query, NUM_NEIGHBORS, query_params(), &self.store),
                Err::<Vec<OrderedNode>, Error>(error),
            ),
        }
    }

    /// Whether `found` is what the index answers to a query: what a search for
    /// the query as the store takes it gives, or else, without any search, why
    /// the store cannot take it.
    pub open spec fn is_answered_by<Q, C, F>(
        self,
        query: Query<Q>,
        cast: C,
        search_basic: F,
        found: Result<(u32, u32), Error>,
    ) -> bool where
        C: FnOnce(Q) -> Result<PrimitiveArray, String>,
        F: FnOnce(
            &G,
            Query<Q>,
            usize,
            HnswQueryParams,
            &SimpleStore,
        ) -> Result<Vec<OrderedNode>, Error>,
     {
        ||| found matches Err(error) && self.store@.is_taken(
            query,
            cast,
            Err::<Query<Q>, Error>(error),
        )
        ||| exists|taken: Query<Q>| #[trigger]
            self.store@.is_taken(query, cast, Ok::<Query<Q>, Error>(taken)) && self.is_found_by(
                taken,
                search_basic,
                found,
            )
    }

    /// Finds the vector that is nearest to the query, and its distance.
    /// `search_basic` searches a graph over the vectors of a store for the
    /// nearest ones; where it is asked, it finds at least one. `cast` casts a query of anything
    /// else than numbers to bytes, which a store of bits takes; where it fails,
    /// nothing is searched for.
    pub fn search<Q, C, F>(&self, query: Query<Q>, cast: C, search_basic: F) -> (found: Result<
        (u32, u32),
        Error,
    >) where
        C: FnOnce(Q) -> Result<PrimitiveArray, String>,
        F: FnOnce(
            &G,
            Query<Q>,
            usize,
            HnswQueryParams,
            &SimpleStore,
        ) -> Result<Vec<OrderedNode>, Error>,

        requires
            query.wf(),
            self.store@ is Binary ==> (query matches Query::Other(other) ==> call_requires(
                cast,
                (other,),
            )),
            forall|taken: Query<Q>|
                self.store@.is_taken(query, cast, Ok::<Query<Q>, Error>(taken))
                    ==> #[trigger] call_requires(
                    search_basic,
                    (&self.index, taken, NUM_NEIGHBORS, query_params(), &self.store),
                ),
            forall|taken: Query<Q>, nodes: Vec<OrderedNode>|
                self.store@.is_taken(query, cast, Ok::<Query<Q>, Error>(taken))
                    && #[trigger] call_ensures(
                    search_basic,
                    (&self.index, taken, NUM_NEIGHBORS, query_params(), &self.store),
                    Ok::<Vec<OrderedNode>, Error>(nodes),
                ) ==> nodes@.len() > 0,
        ensures
            self.is_answered_by(query, cast, search_basic, found),
    {
        let params = HnswQueryParams { ef: 15, lower_bound: None, upper_bound: None, dist_q_c: 0 };
        let query = match self.store.take_any_query(query, cast) {
            Ok(query) => query,
            Err(error) => {
                return Err(error);
            },
        };
        let ghost taken = query;
        match search_basic(&self.index, query, NUM_NEIGHBORS, params, &self.store) {
            Ok(nodes) => {
                let found = first_node(&nodes);
                assert(self.is_found_by(taken, search_basic, Ok::<(u32, u32), Error>(found)));
                Ok(found)
            },
            Err(error) => {
                assert(self.is_found_by(taken, search_basic, Err::<(u32, u32), Error>(error)));
                Err(error)
            },
        }
    }
}

/// An index is trained only if all of these hold: it is not disabled; unless
/// it is enabled, the number of centroids times their dimension is at least one
/// million; and the centroids are of half or single precision, or of bytes with
/// the Hamming distance. It is then trained on the centroids as they are.
pub proof fn law_conditions_of_training(
    status: SimpleIndexStatus,
    centroids: ArrayView,
    dimension: nat,
    distance_type: DistanceType,
)
    requires
        centroids.wf(),
    ensures
        store_of(status, centroids, dimension, distance_type) matches Ok(Some(store)) ==> {
            &&& status != SimpleIndexStatus::Disabled
            &&& status == SimpleIndexStatus::Auto ==> store.vectors().len
                * store.vectors().value_length >= MIN_VALUES_FOR_INDEX
            &&& centroids matches ArrayView::Primitive(array)
            &&& array.data_type == PrimitiveType::Float16 || array.data_type
                == PrimitiveType::Float32 || (array.data_type == PrimitiveType::UInt8
                && distance_type == DistanceType::Hamming)
            &&& store is Binary <==> array.data_type == PrimitiveType::UInt8
            &&& store.vectors().values == centroids
            &&& store.vectors().value_length == low_i32(dimension)
            &&& store.vectors().wf()
        },
{
    if store_of(status, centroids, dimension, distance_type) matches Ok(Some(_)) {
        lemma_lists_hold_the_values(centroids.len(), low_i32(dimension));
    }
}

/// Where those conditions hold, and the centroids have the dimension that they
/// are said to have, an index is trained on them, one vector for each.
pub proof fn law_training_where_it_pays_off(
    status: SimpleIndexStatus,
    centroids: ArrayView,
    dimension: nat,
    distance_type: DistanceType,
)
    requires
        centroids.wf(),
        status.wants(centroids.len()),
        store_kind(centroids, distance_type) is Some,
        0 < dimension <= i32::MAX,
        centroids.len() % dimension == 0,
    ensures
        store_of(status, centroids, dimension, distance_type) matches Ok(Some(store))
            && store.vectors().len == centroids.len() / dimension && store.vectors().value_length
            == dimension,
{
    assert(low_i32(dimension) == dimension);
}

/// Double precision centroids are never indexed, and neither are bytes with a
/// distance other than Hamming's.
pub proof fn law_rejected_centroids(
    status: SimpleIndexStatus,
    array: PrimitiveArrayView,
    dimension: nat,
    distance_type: DistanceType,
)
    requires
        array.wf(),
        array.data_type == PrimitiveType::Float64 || (array.data_type == PrimitiveType::UInt8
            && distance_type != DistanceType::Hamming),
    ensures
        store_of(status, ArrayView::Primitive(array), dimension, distance_type) == Ok::<
            Option<SimpleStoreView>,
            ErrorView,
        >(None),
{
}

/// With one million values or more, an index that is to be trained in any case
/// is trained just as one that is trained where it pays off.
pub proof fn law_enabled_agrees_with_auto<G, F>(
    centroids: ArrayView,
    dimension: nat,
    distance_type: DistanceType,
    index_vectors: F,
    index: Result<Option<SimpleIndex<G>>, Error>,
) where F: FnOnce(&SimpleStore, HnswBuildParams) -> Result<G, Error>
    requires
        centroids.wf(),
        centroids.len() >= MIN_VALUES_FOR_INDEX,
    ensures
        store_of(SimpleIndexStatus::Enabled, centroids, dimension, distance_type) == store_of(
            SimpleIndexStatus::Auto,
            centroids,
            dimension,
            distance_type,
        ),
        SimpleIndex::is_trained_by(
            SimpleIndexStatus::Enabled,
            centroids,
            dimension,
            distance_type,
            index_vectors,
            index,
        ) <==> SimpleIndex::is_trained_by(
            SimpleIndexStatus::Auto,
            centroids,
            dimension,
            distance_type,
            index_vectors,
            index,
        ),
{
}

/// Training again comes to the same, and so does training in any case where
/// there are one million values or more and it was trained where it pays off:
/// where it depends on the vectors of a store alone whether a graph can be built
/// over it, either both times an index over the same vectors is trained, or both
/// times none is, or both times there is an error.
pub proof fn law_training_again<G, F>(
    status: SimpleIndexStatus,
    again: SimpleIndexStatus,
    centroids: ArrayView,
    dimension: nat,
    distance_type: DistanceType,
    index_vectors: F,
    first: Result<Option<SimpleIndex<G>>, Error>,
    second: Result<Option<SimpleIndex<G>>, Error>,
) where F: FnOnce(&SimpleStore, HnswBuildParams) -> Result<G, Error>
    requires
        centroids.wf(),
        status == again || (centroids.len() >= MIN_VALUES_FOR_INDEX && status
            != SimpleIndexStatus::Disabled && again != SimpleIndexStatus::Disabled),
        SimpleIndex::is_trained_by(
            status,
            centroids,
            dimension,
            distance_type,
            index_vectors,
            first,
        ),
        SimpleIndex::is_trained_by(
            again,
            centroids,
            dimension,
            distance_type,
            index_vectors,
            second,
        ),
        forall|
            one: SimpleStore,
            other: SimpleStore,
            graph: Result<G, Error>,
            another: Result<G, Error>,
        |
            one@ == other@ && #[trigger] call_ensures(index_vectors, (&one, build_params()), graph)
                && #[trigger] call_ensures(index_vectors, (&other, build_params()), another)
                ==> (graph is Ok <==> another is Ok),
    ensures
        match (first, second) {
            (Ok(Some(first)), Ok(Some(second))) => first.store@ == second.store@,
            (Ok(None), Ok(None)) => true,
            (Err(_), Err(_)) => true,
            _ => false,
        },
{
}

/// A store of bits takes a query of other numbers just as it takes the bytes
/// that they are cast to, and both are answered alike.
pub proof fn law_query_is_answered_as_its_bytes<G, Q, C, F>(
    index: SimpleIndex<G>,
    query: PrimitiveArray,
    bytes: PrimitiveArray,
    cast: C,
    search_basic: F,
    found: Result<(u32, u32), Error>,
) where
    C: FnOnce(Q) -> Result<PrimitiveArray, String>,
    F: FnOnce(
        &G,
        Query<Q>,
        usize,
        HnswQueryParams,
        &SimpleStore,
    ) -> Result<Vec<OrderedNode>, Error>,

    requires
        index.store@ is Binary,
        query.wf(),
        query.data_type != PrimitiveType::UInt8,
        bytes@ == as_bytes(query@),
    ensures
        query_for(index.store@, query@) == query_for(index.store@, bytes@),
        index.is_answered_by(Query::Numbers(query), cast, search_basic, found)
            <==> index.is_answered_by(Query::Numbers(bytes), cast, search_basic, found),
{
    assert forall|taken: Result<Query<Q>, Error>|
        #![trigger index.store@.is_taken(Query::Numbers(query), cast, taken)]
        #![trigger index.store@.is_taken(Query::Numbers(bytes), cast, taken)]
        index.store@.is_taken(Query::Numbers(query), cast, taken) == index.store@.is_taken(
            Query::Numbers(bytes),
            cast,
            taken,
        ) by {}
}

/// A store of bits answers a query of anything else than numbers with what it
/// answers to the bytes that the query is cast to.
pub proof fn law_other_query_is_answered_as_its_bytes<G, Q, C, F>(
    index: SimpleIndex<G>,
    other: Q,
    bytes: PrimitiveArray,
    cast: C,
    search_basic: F,
    found: Result<(u32, u32), Error>,
) where
    C: FnOnce(Q) -> Result<PrimitiveArray, String>,
    F: FnOnce(
        &G,
        Query<Q>,
        usize,
        HnswQueryParams,
        &SimpleStore,
    ) -> Result<Vec<OrderedNode>, Error>,

    requires
        index.store@ is Binary,
        bytes.wf(),
        bytes.data_type == PrimitiveType::UInt8,
        forall|result: Result<PrimitiveArray, String>| #[trigger]
            call_ensures(cast, (other,), result) ==> result == Ok::<PrimitiveArray, String>(bytes),
        index.is_answered_by(Query::Other(other), cast, search_basic, found),
    ensures
        index.is_answered_by(Query::Numbers(bytes), cast, search_basic, found),
{
    assert(index.store@.is_taken(
        Query::Numbers(bytes),
        cast,
        Ok::<Query<Q>, Error>(Query::Numbers(bytes)),
    ));
}

/// A query that cannot be cast to bytes is answered by a store of bits with the
/// message of the cast, as an index error, whatever a search would find.
pub proof fn law_failing_cast_is_the_answer<G, Q, C, F>(
    index: SimpleIndex<G>,
    other: Q,
    cast: C,
    search_basic: F,
    found: Result<(u32, u32), Error>,
) where
    C: FnOnce(Q) -> Result<PrimitiveArray, String>,
    F: FnOnce(
        &G,
        Query<Q>,
        usize,
        HnswQueryParams,
        &SimpleStore,
    ) -> Result<Vec<OrderedNode>, Error>,

    requires
        index.store@ is Binary,
        forall|result: Result<PrimitiveArray, String>| #[trigger]
            call_ensures(cast, (other,), result) ==> result is Err,
        index.is_answered_by(Query::Other(other), cast, search_basic, found),
    ensures
        found matches Err(Error::Index { message }) && call_ensures(
            cast,
            (other,),
            Err::<PrimitiveArray, String>(message),
        ),
{
}

/// Whether two queries are the same: numbers with the same contents, or the
/// same array of another type.
pub open spec fn same_query<Q>(one: Query<Q>, other: Query<Q>) -> bool {
    match (one, other) {
        (Query::Numbers(one), Query::Numbers(other)) => one@ == other@,
        _ => one == other,
    }
}

/// The same query is answered with the same vector and distance each time,
/// where a search, and a cast, depends on nothing but what it is given.
pub proof fn law_searching_again<G, Q, C, F>(
    index: SimpleIndex<G>,
    query: Query<Q>,
    again: Query<Q>,
    cast: C,
    search_basic: F,
    first: Result<(u32, u32), Error>,
    second: Result<(u32, u32), Error>,
) where
    C: FnOnce(Q) -> Result<PrimitiveArray, String>,
    F: FnOnce(
        &G,
        Query<Q>,
        usize,
        HnswQueryParams,
        &SimpleStore,
    ) -> Result<Vec<OrderedNode>, Error>,

    requires
        query.wf(),
        same_query(query, again),
        index.is_answered_by(query, cast, search_basic, first),
        index.is_answered_by(again, cast, search_basic, second),
        forall|
            other: Q,
            one: Result<PrimitiveArray, String>,
            another: Result<PrimitiveArray, String>,
        |
            #[trigger] call_ensures(cast, (other,), one) && #[trigger] call_ensures(
                cast,
                (other,),
                another,
            ) ==> one == another,
        forall|
            taken: Query<Q>,
            retaken: Query<Q>,
            one: Result<Vec<OrderedNode>, Error>,
            another: Result<Vec<OrderedNode>, Error>,
        |
            same_query(taken, retaken) && #[trigger] call_ensures(
                search_basic,
                (&index.index, taken, NUM_NEIGHBORS, query_params(), &index.store),
                one,
            ) && #[trigger] call_ensures(
                search_basic,
                (&index.index, retaken, NUM_NEIGHBORS, query_params(), &index.store),
                another,
            ) ==> one == another,
    ensures
        first == second,
{
}

} // verus!
