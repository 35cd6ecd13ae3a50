//! How an index is asked, and what it answers.

use vstd::arithmetic::power2::pow2;
use vstd::prelude::*;

use crate::array::{is_valid_at, PrimitiveArray, PrimitiveType};
use crate::error::Error;
use crate::laws::finite::{lemma_eight_bytes, lemma_four_bytes, lemma_two_bytes};
use crate::laws::{bytes_in, numbers_fit, same_numbers, valid_at};
use crate::numbers::{
    as_bytes, byte_at, float_whole_part, little_endian, value_bits, whole_part,
};
use crate::simple_index::{
    cast_query, first_node, query_for, HnswQueryParams, OrderedNode, Query, SimpleIndex,
    SimpleStore,
};

verus! {

/// The bits of number `i`, as a number: its bytes, the least significant first.
pub open spec fn bits_of(numbers: PrimitiveArray, i: int) -> int {
    let data = numbers.data@;
    if bytes_in(numbers.data_type) == 1 {
        data[i] as int
    } else if bytes_in(numbers.data_type) == 2 {
        data[2 * i] + 0x100 * data[2 * i + 1]
    } else if bytes_in(numbers.data_type) == 4 {
        data[4 * i] + 0x100 * data[4 * i + 1] + 0x1_0000 * data[4 * i + 2] + 0x100_0000 * data[4 * i
            + 3]
    } else {
        data[8 * i] + 0x100 * data[8 * i + 1] + 0x1_0000 * data[8 * i + 2] + 0x100_0000 * data[8 * i
            + 3] + 0x1_0000_0000 * data[8 * i + 4] + 0x100_0000_0000 * data[8 * i + 5]
            + 0x1_0000_0000_0000 * data[8 * i + 6] + 0x100_0000_0000_0000 * data[8 * i + 7]
    }
}

/// Whether `byte` is the whole part of the IEEE 754 number with these bits, of
/// which `exponent_bits` are its exponent and `fraction_bits` its fraction. The
/// number is its significand over a power of two: it is not less than the byte,
/// and less than the one that follows. A negative number has to be greater than
/// minus one.
pub open spec fn float_is_byte(bits: int, exponent_bits: nat, fraction_bits: nat, byte: int) -> bool {
    let unit = pow2(fraction_bits) as int;
    let exponents = pow2(exponent_bits) as int;
    let exponent = bits / unit % exponents;
    let significand = bits % unit + if exponent == 0 {
        0
    } else {
        unit
    };
    // the number is the significand times two to the power of minus this
    let scale = exponents / 2 - 1 + fraction_bits - if exponent == 0 {
        1
    } else {
        exponent
    };
    &&& exponent != exponents - 1
    &&& scale > 0
    &&& byte * pow2(scale as nat) <= significand < (byte + 1) * pow2(scale as nat)
    &&& bits >= unit * exponents ==> byte == 0
}

/// Whether `byte` is the whole part of number `i`.
pub open spec fn number_is_byte(numbers: PrimitiveArray, i: int, byte: int) -> bool {
    let bits = bits_of(numbers, i);
    match numbers.data_type {
        PrimitiveType::Float16 => float_is_byte(bits, 5, 10, byte),
        PrimitiveType::Float32 => float_is_byte(bits, 8, 23, byte),
        PrimitiveType::Float64 => float_is_byte(bits, 11, 52, byte),
        PrimitiveType::Int8 => byte == bits && bits < 128,
        _ => byte == bits,
    }
}

/// Whether `bytes` are the numbers, cast to bytes: value `i` is the whole part
/// of number `i` where that is a byte, and null elsewhere, as where the number
/// is null.
pub open spec fn are_bytes_of(bytes: PrimitiveArray, numbers: PrimitiveArray) -> bool {
    &&& bytes.data_type == PrimitiveType::UInt8
    &&& bytes.len == numbers.len
    &&& numbers_fit(bytes)
    &&& forall|i: int|
        0 <= i < numbers.len ==> if #[trigger] valid_at(bytes.nulls, i) {
            valid_at(numbers.nulls, i) && number_is_byte(numbers, i, bytes.data@[i] as int)
        } else {
            valid_at(numbers.nulls, i) ==> forall|byte: int|
                0 <= byte < 256 ==> !#[trigger] number_is_byte(numbers, i, byte)
        }
}

proof fn lemma_bits(numbers: PrimitiveArray, i: int)
    requires
        numbers_fit(numbers),
        0 <= i < numbers.len,
    ensures
        value_bits(numbers@, i) == bits_of(numbers, i),
{
    let data = numbers.data@;
    let width = numbers.data_type.width() as int;
    assert(0 <= i * width && i * width + width <= numbers.len * width) by (nonlinear_arith)
        requires
            0 <= i < numbers.len,
            width >= 0,
    ;
    let bytes = data.subrange(i * width, i * width + width);
    if width == 1 {
        reveal_with_fuel(little_endian, 2);
        assert(bytes.drop_first().len() == 0);
    } else if width == 2 {
        lemma_two_bytes(bytes);
    } else if width == 4 {
        lemma_four_bytes(bytes);
    } else {
        lemma_eight_bytes(bytes);
    }
}

/// The whole part of a positive fraction is the one number for which this
/// holds.
proof fn lemma_whole_part(significand: int, divisor: int, byte: int)
    requires
        significand >= 0,
        divisor > 0,
    ensures
        byte * divisor <= significand < (byte + 1) * divisor <==> byte == significand / divisor,
{
    let q = significand / divisor;
    let r = significand % divisor;
    vstd::arithmetic::div_mod::lemma_fundamental_div_mod(significand, divisor);
    assert(q * divisor <= significand < (q + 1) * divisor) by (nonlinear_arith)
        requires
            significand == divisor * q + r,
            0 <= r < divisor,
    ;
    if byte < q {
        assert((byte + 1) * divisor <= q * divisor) by (nonlinear_arith)
            requires
                byte + 1 <= q,
                divisor > 0,
        ;
    } else if byte > q {
        assert((q + 1) * divisor <= byte * divisor) by (nonlinear_arith)
            requires
                q + 1 <= byte,
                divisor > 0,
        ;
    }
}

proof fn lemma_float(bits: nat, exponent_bits: nat, fraction_bits: nat, byte: int)
    requires
        exponent_bits > 0,
        fraction_bits >= 8,
        bits < 2 * (pow2(fraction_bits) * pow2(exponent_bits)),
        0 <= byte < 256,
    ensures
        float_is_byte(bits as int, exponent_bits, fraction_bits, byte) <==> float_whole_part(
            bits,
            exponent_bits,
            fraction_bits,
        ) == Some(byte),
{
    let unit = pow2(fraction_bits) as int;
    let exponents = pow2(exponent_bits) as int;
    vstd::arithmetic::power2::lemma_pow2_pos(fraction_bits);
    vstd::arithmetic::power2::lemma_pow2_pos(exponent_bits);
    vstd::arithmetic::power2::lemma_pow2_adds(fraction_bits, exponent_bits);
    vstd::arithmetic::power2::lemma_pow2_unfold(exponent_bits);
    vstd::arithmetic::power2::lemma2_to64();
    if fraction_bits > 8 {
        vstd::arithmetic::power2::lemma_pow2_strictly_increases(8, fraction_bits);
    }
    assert(unit >= 256);
    let exponent = bits as int / unit % exponents;
    let fraction = bits as int % unit;
    let significand = fraction + if exponent == 0 {
        0
    } else {
        unit
    };
    let scale = exponents / 2 - 1 + fraction_bits - if exponent == 0 {
        1
    } else {
        exponent
    };
    assert(exponents / 2 == pow2((exponent_bits - 1) as nat));
    let all = unit * exponents;
    let sign = bits as int / all;
    assert(0 < all) by (nonlinear_arith)
        requires
            unit > 0,
            exponents > 0,
            all == unit * exponents,
    ;
    vstd::arithmetic::div_mod::lemma_fundamental_div_mod(bits as int, all);
    assert(sign == 0 || sign == 1) by (nonlinear_arith)
        requires
            0 <= bits < 2 * all,
            bits == all * sign + bits as int % all,
            0 <= bits as int % all < all,
            all > 0,
    ;
    assert(sign == 1 <==> bits >= all) by (nonlinear_arith)
        requires
            sign == 0 || sign == 1,
            bits == all * sign + bits as int % all,
            0 <= bits as int % all < all,
    ;
    if exponent != exponents - 1 {
        if scale > 0 {
            vstd::arithmetic::power2::lemma_pow2_pos(scale as nat);
            lemma_whole_part(significand, pow2(scale as nat) as int, byte);
        } else {
            // the significand has its leading one, so that the number is too large
            assert(exponent != 0);
            vstd::arithmetic::power2::lemma_pow2_pos((-scale) as nat);
            let power = pow2((-scale) as nat) as int;
            assert(significand * power >= 256) by (nonlinear_arith)
                requires
                    significand >= 256,
                    power >= 1,
            ;
            assert(pow2(0) == 1);
            assert(significand / 1 == significand);
        }
    }
}

proof fn lemma_number(numbers: PrimitiveArray, i: int, byte: int)
    requires
        numbers_fit(numbers),
        0 <= i < numbers.len,
        0 <= byte < 256,
    ensures
        number_is_byte(numbers, i, byte) <==> whole_part(
            numbers.data_type,
            value_bits(numbers@, i),
        ) == Some(byte),
{
    lemma_bits(numbers, i);
    let bits = bits_of(numbers, i) as nat;
    vstd::arithmetic::power2::lemma2_to64();
    vstd::arithmetic::power2::lemma2_to64_rest();
    match numbers.data_type {
        PrimitiveType::Float16 => lemma_float(bits, 5, 10, byte),
        PrimitiveType::Float32 => lemma_float(bits, 8, 23, byte),
        PrimitiveType::Float64 => lemma_float(bits, 11, 52, byte),
        _ => {},
    }
}

proof fn lemma_bytes(bytes: PrimitiveArray, numbers: PrimitiveArray)
    requires
        numbers_fit(numbers),
        bytes@ == as_bytes(numbers@),
    ensures
        are_bytes_of(bytes, numbers),
{
    assert forall|i: int| 0 <= i < numbers.len implies if #[trigger] valid_at(bytes.nulls, i) {
        valid_at(numbers.nulls, i) && number_is_byte(numbers, i, bytes.data@[i] as int)
    } else {
        valid_at(numbers.nulls, i) ==> forall|byte: int|
            0 <= byte < 256 ==> !#[trigger] number_is_byte(numbers, i, byte)
    } by {
        assert(valid_at(bytes.nulls, i) == byte_at(numbers@, i) is Some);
        assert(valid_at(numbers.nulls, i) == is_valid_at(numbers@.validity, i));
        if valid_at(bytes.nulls, i) {
            assert(bytes@.data[i] == as_bytes(numbers@).data[i]);
            lemma_number(numbers, i, bytes.data@[i] as int);
        } else {
            assert forall|byte: int| 0 <= byte < 256 && valid_at(
                numbers.nulls,
                i,
            ) implies !#[trigger] number_is_byte(numbers, i, byte) by {
                lemma_number(numbers, i, byte);
            }
        }
    }
}

/// What a cast to bytes gives is taken, and its message is that of an index
/// error.
pub proof fn law_cast_is_taken(
    result: Result<PrimitiveArray, String>,
    taken: Result<PrimitiveArray, Error>,
)
    requires
        call_ensures(cast_query, (result,), taken),
    ensures
        call_requires(cast_query, (result,)),
        match (result, taken) {
            (Ok(bytes), Ok(taken)) => taken == bytes,
            (Err(message), Err(Error::Index { message: found })) => found == message,
            _ => false,
        },
{
}

/// Whether `taken` is what the store compares with its vectors for a query of
/// numbers: the numbers themselves, but bytes for a store of bits.
pub open spec fn is_compared(
    store: SimpleStore,
    numbers: PrimitiveArray,
    taken: PrimitiveArray,
) -> bool {
    if store is Float || numbers.data_type == PrimitiveType::UInt8 {
        same_numbers(taken, numbers)
    } else {
        are_bytes_of(taken, numbers)
    }
}

proof fn lemma_compared(store: SimpleStore, numbers: PrimitiveArray, taken: PrimitiveArray)
    requires
        numbers_fit(numbers),
        taken@ == query_for(store@, numbers@),
    ensures
        is_compared(store, numbers, taken),
{
    if !(store is Float || numbers.data_type == PrimitiveType::UInt8) {
        lemma_bytes(taken, numbers);
    }
}

/// Every query of numbers is taken: as it is, but cast to bytes for a store of
/// bits.
pub proof fn law_numbers_are_taken(
    store: SimpleStore,
    numbers: PrimitiveArray,
    taken: Result<PrimitiveArray, Error>,
)
    requires
        numbers_fit(numbers),
        call_ensures(SimpleStore::take_query, (&store, numbers), taken),
    ensures
        call_requires(SimpleStore::take_query, (&store, numbers)),
        taken matches Ok(taken) && is_compared(store, numbers, taken),
{
    lemma_compared(store, numbers, taken->Ok_0);
}

/// Whether `taken` is what the store compares with its vectors for a query.
/// Anything but numbers becomes bytes by `cast` for a store of bits.
pub open spec fn is_handed_on<Q, C>(
    store: SimpleStore,
    query: Query<Q>,
    cast: C,
    taken: Query<Q>,
) -> bool where C: FnOnce(Q) -> Result<PrimitiveArray, String> {
    match query {
        Query::Numbers(numbers) => taken matches Query::Numbers(taken) && is_compared(
            store,
            numbers,
            taken,
        ),
        Query::Other(other) => if store is Float {
            taken == query
        } else {
            taken matches Query::Numbers(bytes) && call_ensures(
                cast,
                (other,),
                Ok::<PrimitiveArray, String>(bytes),
            )
        },
    }
}

/// Whether a store cannot take the query for this reason: it is one of bits,
/// and the query is neither of numbers nor can it be cast to bytes.
pub open spec fn is_refused<Q, C>(
    store: SimpleStore,
    query: Query<Q>,
    cast: C,
    error: Error,
) -> bool where C: FnOnce(Q) -> Result<PrimitiveArray, String> {
    &&& store is Binary
    &&& query matches Query::Other(other)
    &&& error matches Error::Index { message }
    &&& call_ensures(cast, (other,), Err::<PrimitiveArray, String>(message))
}

/// The parts of a query fit one another.
pub open spec fn query_fits<Q>(query: Query<Q>) -> bool {
    query matches Query::Numbers(numbers) ==> numbers_fit(numbers)
}

proof fn lemma_handed_on<Q, C>(
    store: SimpleStore,
    query: Query<Q>,
    cast: C,
    taken: Result<Query<Q>, Error>,
) where C: FnOnce(Q) -> Result<PrimitiveArray, String>
    requires
        query_fits(query),
        store@.is_taken(query, cast, taken),
    ensures
        match taken {
            Ok(taken) => is_handed_on(store, query, cast, taken),
            Err(error) => is_refused(store, query, cast, error),
        },
{
    if let Query::Numbers(numbers) = query {
        lemma_compared(store, numbers, taken->Ok_0->Numbers_0);
    }
}

/// Every query is taken, or else the message of its cast to bytes is that of an
/// index error.
pub proof fn law_queries_are_taken<Q, C>(
    store: SimpleStore,
    query: Query<Q>,
    cast: C,
    taken: Result<Query<Q>, Error>,
) where C: FnOnce(Q) -> Result<PrimitiveArray, String>
    requires
        query_fits(query),
        call_ensures(SimpleStore::take_any_query::<Q, C>, (&store, query, cast), taken),
    ensures
        (query matches Query::Other(other) ==> call_requires(cast, (other,))) ==> call_requires(
            SimpleStore::take_any_query::<Q, C>,
            (&store, query, cast),
        ),
        match taken {
            Ok(taken) => is_handed_on(store, query, cast, taken),
            Err(error) => is_refused(store, query, cast, error),
        },
{
    lemma_handed_on(store, query, cast, taken);
}

/// The first of the nodes counts, its number and its distance as they are.
pub proof fn law_first_node(nodes: Vec<OrderedNode>, first: (u32, u32))
    requires
        nodes@.len() > 0,
        call_ensures(first_node, (&nodes,), first),
    ensures
        call_requires(first_node, (&nodes,)),
        first.0 == nodes@[0].id,
        first.1 == nodes@[0].dist,
{
}

/// A search looks for one vector in the graph and the store of the index, among
/// 15 candidates, within no bounds and with no distance to start from, for the
/// query as the store compares it. It answers with the number and the distance
/// of the first node that is found, with the error of the search, or, without
/// any search, with the error of the cast.
pub proof fn law_search<G, Q, C, F>(
    index: SimpleIndex<G>,
    query: Query<Q>,
    cast: C,
    search_basic: F,
    found: Result<(u32, u32), Error>,
) where
    C: FnOnce(Q) -> Result<PrimitiveArray, String>,
    F: FnOnce(
        &G,
        Query<Q>,
        usize,
        HnswQueryParams,
        &SimpleStore,
    ) -> Result<Vec<OrderedNode>, Error>,

    requires
        query_fits(query),
        call_ensures(
            SimpleIndex::<G>::search::<Q, C, F>,
            (&index, query, cast, search_basic),
            found,
        ),
    ensures
        ({
            let params = HnswQueryParams {
                ef: 15,
                lower_bound: None,
                upper_bound: None,
                dist_q_c: 0,
            };
            match found {
                Ok(found) => exists|taken: Query<Q>, nodes: Vec<OrderedNode>|
                    is_handed_on(index.store, query, cast, taken) && #[trigger] call_ensures(
                        search_basic,
                        (&index.index, taken, 1usize, params, &index.store),
                        Ok::<Vec<OrderedNode>, Error>(nodes),
                    ) && nodes@.len() > 0 && found.0 == nodes@[0].id && found.1 == nodes@[0].dist,
                Err(error) => is_refused(index.store, query, cast, error) || exists|
                    taken: Query<Q>,
                |
                    is_handed_on(index.store, query, cast, taken) && #[trigger] call_ensures(
                        search_basic,
                        (&index.index, taken, 1usize, params, &index.store),
                        Err::<Vec<OrderedNode>, Error>(error),
                    ),
            }
        }),
{
    if found is Err && index.store@.is_taken(
        query,
        cast,
        Err::<Query<Q>, Error>(found->Err_0),
    ) {
        lemma_handed_on(index.store, query, cast, Err::<Query<Q>, Error>(found->Err_0));
    } else {
        let taken = choose|taken: Query<Q>| #[trigger]
            index.store@.is_taken(query, cast, Ok::<Query<Q>, Error>(taken)) && index.is_found_by(
                taken,
                search_basic,
                found,
            );
        lemma_handed_on(index.store, query, cast, Ok::<Query<Q>, Error>(taken));
    }
}

/// Where the graph can be searched for the query as the store compares it, and
/// finds at least one node, the index can be asked.
pub proof fn law_what_can_be_asked<G, Q, C, F>(
    index: SimpleIndex<G>,
    query: Query<Q>,
    cast: C,
    search_basic: F,
) where
    C: FnOnce(Q) -> Result<PrimitiveArray, String>,
    F: FnOnce(
        &G,
        Query<Q>,
        usize,
        HnswQueryParams,
        &SimpleStore,
    ) -> Result<Vec<OrderedNode>, Error>,

    requires
        query_fits(query),
        query matches Query::Other(other) ==> call_requires(cast, (other,)),
        forall|taken: Query<Q>|
            is_handed_on(index.store, query, cast, taken) ==> #[trigger] call_requires(
                search_basic,
                (
                    &index.index,
                    taken,
                    1usize,
                    HnswQueryParams { ef: 15, lower_bound: None, upper_bound: None, dist_q_c: 0 },
                    &index.store,
                ),
            ),
        forall|taken: Query<Q>, nodes: Vec<OrderedNode>|
            is_handed_on(index.store, query, cast, taken) && #[trigger] call_ensures(
                search_basic,
                (
                    &index.index,
                    taken,
                    1usize,
                    HnswQueryParams { ef: 15, lower_bound: None, upper_bound: None, dist_q_c: 0 },
                    &index.store,
                ),
                Ok::<Vec<OrderedNode>, Error>(nodes),
            ) ==> nodes@.len() > 0,
    ensures
        call_requires(SimpleIndex::<G>::search::<Q, C, F>, (&index, query, cast, search_basic)),
{
    assert forall|taken: Query<Q>| #[trigger]
        index.store@.is_taken(query, cast, Ok::<Query<Q>, Error>(taken)) implies is_handed_on(
        index.store,
        query,
        cast,
        taken,
    ) by {
        lemma_handed_on(index.store, query, cast, Ok::<Query<Q>, Error>(taken));
    }
}

/// Where a search can give nothing but these nodes, the answer is the number and
/// the distance of the first of them, unless the query cannot be cast to bytes.
pub proof fn law_the_first_node_is_the_answer<G, Q, C, F>(
    index: SimpleIndex<G>,
    query: Query<Q>,
    cast: C,
    search_basic: F,
    nodes: Vec<OrderedNode>,
    found: Result<(u32, u32), Error>,
) where
    C: FnOnce(Q) -> Result<PrimitiveArray, String>,
    F: FnOnce(
        &G,
        Query<Q>,
        usize,
        HnswQueryParams,
        &SimpleStore,
    ) -> Result<Vec<OrderedNode>, Error>,

    requires
        query_fits(query),
        query is Numbers || index.store is Float,
        forall|
            taken: Query<Q>,
            k: usize,
            params: HnswQueryParams,
            result: Result<Vec<OrderedNode>, Error>,
        | #[trigger]
            call_ensures(
                search_basic,
                (&index.index, taken, k, params, &index.store),
                result,
            ) ==> result == Ok::<Vec<OrderedNode>, Error>(nodes),
        call_ensures(
            SimpleIndex::<G>::search::<Q, C, F>,
            (&index, query, cast, search_basic),
            found,
        ),
    ensures
        found == Ok::<(u32, u32), Error>((nodes@[0].id, nodes@[0].dist)),
{
    law_search(index, query, cast, search_basic, found);
}

} // verus!
