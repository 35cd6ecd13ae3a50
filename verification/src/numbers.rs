//! The numbers that the bytes of an array stand for.

use vstd::arithmetic::power2::pow2;
use vstd::prelude::*;

use crate::array::{is_valid_at, PrimitiveArrayView, PrimitiveType};

verus! {

/// The number whose digits to base 256 are the bytes, the least significant
/// first.
pub open spec fn little_endian(bytes: Seq<u8>) -> nat
    decreases bytes.len(),
{
    if bytes.len() == 0 {
        0
    } else {
        bytes[0] as nat + 256 * little_endian(bytes.drop_first())
    }
}

/// The bits of value `i`, as a number.
pub open spec fn value_bits(array: PrimitiveArrayView, i: int) -> nat {
    let width = array.data_type.width();
    little_endian(array.data.subrange(i * width, i * width + width))
}

/// The two's complement number of `width` bytes with these bits.
pub open spec fn signed(bits: nat, width: nat) -> int {
    if bits < pow2((8 * width - 1) as nat) {
        bits as int
    } else {
        bits - pow2(8 * width)
    }
}

/// The whole part, its fraction cut off, of the IEEE 754 number with these
/// bits: from the most significant one on, a sign, an exponent and a fraction.
/// The infinities and what is no number have none.
pub open spec fn float_whole_part(bits: nat, exponent_bits: nat, fraction_bits: nat) -> Option<int> {
    let fraction = bits % pow2(fraction_bits);
    let exponent = (bits / pow2(fraction_bits)) % pow2(exponent_bits);
    let negative = (bits / pow2(fraction_bits + exponent_bits)) % 2 == 1;
    let bias = pow2((exponent_bits - 1) as nat) - 1;
    if exponent == pow2(exponent_bits) - 1 {
        None
    } else {
        // an exponent field of 0 stands for the same power as one of 1, without
        // the leading one of the significand
        let significand = if exponent == 0 {
            fraction
        } else {
            pow2(fraction_bits) + fraction
        };
        let power = (if exponent == 0 {
            1
        } else {
            exponent as int
        }) - bias - fraction_bits;
        let magnitude = if power >= 0 {
            significand * pow2(power as nat)
        } else {
            significand / pow2((-power) as nat)
        };
        Some(
            if negative {
                -(magnitude as int)
            } else {
                magnitude as int
            },
        )
    }
}

/// The whole part of the number of the type with these bits.
pub open spec fn whole_part(data_type: PrimitiveType, bits: nat) -> Option<int> {
    match data_type {
        PrimitiveType::Int8 | PrimitiveType::Int16 | PrimitiveType::Int32
        | PrimitiveType::Int64 => Some(signed(bits, data_type.width())),
        PrimitiveType::UInt8 | PrimitiveType::UInt16 | PrimitiveType::UInt32
        | PrimitiveType::UInt64 => Some(bits as int),
        PrimitiveType::Float16 => float_whole_part(bits, 5, 10),
        PrimitiveType::Float32 => float_whole_part(bits, 8, 23),
        PrimitiveType::Float64 => float_whole_part(bits, 11, 52),
    }
}

/// Value `i` as a byte: its whole part, unless the value is null or no byte can
/// hold its whole part.
pub open spec fn byte_at(array: PrimitiveArrayView, i: int) -> Option<u8> {
    if !is_valid_at(array.validity, i) {
        None
    } else {
        match whole_part(array.data_type, value_bits(array, i)) {
            Some(number) => if 0 <= number <= u8::MAX {
                Some(number as u8)
            } else {
                None
            },
            None => None,
        }
    }
}

/// The values as bytes, with nulls, over zeros, for those that no byte can
/// hold.
pub open spec fn as_bytes(array: PrimitiveArrayView) -> PrimitiveArrayView {
    PrimitiveArrayView {
        data_type: PrimitiveType::UInt8,
        len: array.len,
        data: Seq::new(
            array.len,
            |i: int|
                match byte_at(array, i) {
                    Some(byte) => byte,
                    None => 0u8,
                },
        ),
        validity: Some(Seq::new(array.len, |i: int| byte_at(array, i) is Some)),
    }
}

/// Whether a value of the type, with these bits, is finite. In the IEEE 754
/// formats the infinities and what is no number have an exponent field of ones
/// only; a value of another type is always finite.
pub open spec fn bits_are_finite(data_type: PrimitiveType, bits: nat) -> bool {
    match data_type {
        // 10 bits of fraction, 5 of exponent
        PrimitiveType::Float16 => (bits / 0x400) % 0x20 != 0x1f,
        // 23 bits of fraction, 8 of exponent
        PrimitiveType::Float32 => (bits / 0x80_0000) % 0x100 != 0xff,
        // 52 bits of fraction, 11 of exponent
        PrimitiveType::Float64 => (bits / 0x10_0000_0000_0000) % 0x800 != 0x7ff,
        _ => true,
    }
}

/// The finite values are those that have a whole part.
pub proof fn law_finite_values_have_a_whole_part(data_type: PrimitiveType, bits: nat)
    ensures
        bits_are_finite(data_type, bits) <==> whole_part(data_type, bits) is Some,
{
    vstd::arithmetic::power2::lemma2_to64();
    vstd::arithmetic::power2::lemma2_to64_rest();
}

/// Bytes are their own whole parts.
pub proof fn law_bytes_stay_bytes(array: PrimitiveArrayView, i: int)
    requires
        array.wf(),
        array.data_type == PrimitiveType::UInt8,
        0 <= i < array.len,
        is_valid_at(array.validity, i),
    ensures
        byte_at(array, i) == Some(array.data[i]),
{
    reveal_with_fuel(little_endian, 2);
    assert(array.data.subrange(i * 1, i * 1 + 1) =~= seq![array.data[i]]);
    assert(seq![array.data[i]].drop_first() =~= seq![]);
}

} // verus!
