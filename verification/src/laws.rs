//! What each operation of this library gives, in terms of what it is given:
//! which inputs it takes, and what holds of its result for every one of them.
//!
//! The laws speak of the fields, the bytes and the bits of arrays themselves,
//! and of an operation `f` by `call_requires(f, ..)` and `call_ensures(f, ..)`.
//! This file says what it is for arrays to fit together and to be alike.

use vstd::prelude::*;

use arrow::buffer::NullBuffer;

use crate::array::{Array, FixedSizeListArray, PrimitiveArray, PrimitiveType};
use crate::outside::null_bits;

pub mod arrays;
pub mod finite;
pub mod index;
pub mod memory;
pub mod messages;
pub mod queries;
pub mod rows;
pub mod tensors;

verus! {

/// Whether slot `i` holds a value, by a bitmap that may be missing.
pub open spec fn valid_at(nulls: Option<NullBuffer>, i: int) -> bool {
    match nulls {
        Some(nulls) => null_bits(nulls)[i],
        None => true,
    }
}

/// Whether a bitmap, should there be one, has one bit for each of `len` slots.
pub open spec fn bitmap_fits(nulls: Option<NullBuffer>, len: int) -> bool {
    match nulls {
        Some(nulls) => null_bits(nulls).len() == len,
        None => true,
    }
}

/// Whether two bitmaps are both missing or have the same bits.
pub open spec fn same_bitmap(one: Option<NullBuffer>, other: Option<NullBuffer>) -> bool {
    match (one, other) {
        (Some(one), Some(other)) => null_bits(one) == null_bits(other),
        (None, None) => true,
        _ => false,
    }
}

/// The number of bytes in a number of the type.
pub open spec fn bytes_in(data_type: PrimitiveType) -> int {
    if data_type == PrimitiveType::Int8 || data_type == PrimitiveType::UInt8 {
        1
    } else if data_type == PrimitiveType::Int16 || data_type == PrimitiveType::UInt16 || data_type
        == PrimitiveType::Float16 {
        2
    } else if data_type == PrimitiveType::Int32 || data_type == PrimitiveType::UInt32 || data_type
        == PrimitiveType::Float32 {
        4
    } else {
        8
    }
}

/// The number of values in an array.
pub open spec fn count_of(values: Array) -> int {
    match values {
        Array::Primitive(numbers) => numbers.len as int,
        Array::Other { len, .. } => len as int,
    }
}

/// The bitmap of an array.
pub open spec fn bitmap_of(values: Array) -> Option<NullBuffer> {
    match values {
        Array::Primitive(numbers) => numbers.nulls,
        Array::Other { nulls, .. } => nulls,
    }
}

/// Whether there are as many bytes and bits as the numbers take.
pub open spec fn numbers_fit(numbers: PrimitiveArray) -> bool {
    &&& numbers.data@.len() == numbers.len * bytes_in(numbers.data_type)
    &&& bitmap_fits(numbers.nulls, numbers.len as int)
}

/// Whether there are as many bytes and bits as the values take.
pub open spec fn values_fit(values: Array) -> bool {
    match values {
        Array::Primitive(numbers) => numbers_fit(numbers),
        Array::Other { len, nulls, .. } => bitmap_fits(nulls, len as int),
    }
}

/// Whether there are as many values and bits as the lists take.
pub open spec fn lists_fit(lists: FixedSizeListArray) -> bool {
    &&& values_fit(lists.values)
    &&& lists.value_length >= 0
    &&& count_of(lists.values) == lists.len * lists.value_length
    &&& bitmap_fits(lists.nulls, lists.len as int)
}

/// Whether two arrays hold the same numbers, and the same nulls.
pub open spec fn same_numbers(one: PrimitiveArray, other: PrimitiveArray) -> bool {
    &&& one.data_type == other.data_type
    &&& one.len == other.len
    &&& one.data@ == other.data@
    &&& same_bitmap(one.nulls, other.nulls)
}

/// Whether two arrays hold the same values, as far as they are known, and the
/// same nulls.
pub open spec fn same_values(one: Array, other: Array) -> bool {
    match (one, other) {
        (Array::Primitive(one), Array::Primitive(other)) => same_numbers(one, other),
        (
            Array::Other { name, len, nulls },
            Array::Other { name: other_name, len: other_len, nulls: other_nulls },
        ) => name@ == other_name@ && len == other_len && same_bitmap(nulls, other_nulls),
        _ => false,
    }
}

} // verus!
