//! The types of a tensor's values.

use vstd::prelude::*;
use vstd::string::*;

use crate::array::{DataType as ArrayDataType, DataTypeView, PrimitiveType};
use crate::error::{Error, ErrorView};

verus! {

/// The type of a tensor's values.
#[derive(Clone, Copy, Debug, PartialEq, Eq, Structural)]
pub enum DataType {
    Bfloat16,
    Float16,
    Float32,
    Float64,
    Uint8,
    Uint16,
    Uint32,
    Uint64,
}

impl DataType {
    /// The number by which the type is stored.
    pub open spec fn spec_number(self) -> i32 {
        match self {
            DataType::Bfloat16 => 0,
            DataType::Float16 => 1,
            DataType::Float32 => 2,
            DataType::Float64 => 3,
            DataType::Uint8 => 4,
            DataType::Uint16 => 5,
            DataType::Uint32 => 6,
            DataType::Uint64 => 7,
        }
    }

    /// The type that is stored by a number.
    pub open spec fn of_number(number: i32) -> Option<DataType> {
        if number == 0 {
            Some(DataType::Bfloat16)
        } else if number == 1 {
            Some(DataType::Float16)
        } else if number == 2 {
            Some(DataType::Float32)
        } else if number == 3 {
            Some(DataType::Float64)
        } else if number == 4 {
            Some(DataType::Uint8)
        } else if number == 5 {
            Some(DataType::Uint16)
        } else if number == 6 {
            Some(DataType::Uint32)
        } else if number == 7 {
            Some(DataType::Uint64)
        } else {
            None
        }
    }

    /// The type of array values that a tensor type stands for. There is none
    /// for `Bfloat16`.
    pub open spec fn array_type(self) -> Option<PrimitiveType> {
        match self {
            DataType::Bfloat16 => None,
            DataType::Float16 => Some(PrimitiveType::Float16),
            DataType::Float32 => Some(PrimitiveType::Float32),
            DataType::Float64 => Some(PrimitiveType::Float64),
            DataType::Uint8 => Some(PrimitiveType::UInt8),
            DataType::Uint16 => Some(PrimitiveType::UInt16),
            DataType::Uint32 => Some(PrimitiveType::UInt32),
            DataType::Uint64 => Some(PrimitiveType::UInt64),
        }
    }

    /// The tensor type that stores a type of array values.
    pub open spec fn of_array_type(data_type: DataTypeView) -> Result<DataType, ErrorView> {
        match data_type {
            DataTypeView::Primitive(PrimitiveType::UInt8) => Ok(DataType::Uint8),
            DataTypeView::Primitive(PrimitiveType::UInt16) => Ok(DataType::Uint16),
            DataTypeView::Primitive(PrimitiveType::UInt32) => Ok(DataType::Uint32),
            DataTypeView::Primitive(PrimitiveType::UInt64) => Ok(DataType::Uint64),
            DataTypeView::Primitive(PrimitiveType::Float16) => Ok(DataType::Float16),
            DataTypeView::Primitive(PrimitiveType::Float32) => Ok(DataType::Float32),
            DataTypeView::Primitive(PrimitiveType::Float64) => Ok(DataType::Float64),
            _ => Err(
                ErrorView::Index { message: "pb tensor type not supported: "@ + data_type.name() },
            ),
        }
    }

    /// The number by which the type is stored.
    pub fn number(self) -> (number: i32)
        ensures
            number == self.spec_number(),
    {
        match self {
            DataType::Bfloat16 => 0,
            DataType::Float16 => 1,
            DataType::Float32 => 2,
            DataType::Float64 => 3,
            DataType::Uint8 => 4,
            DataType::Uint16 => 5,
            DataType::Uint32 => 6,
            DataType::Uint64 => 7,
        }
    }

    /// The type that is stored by a number.
    pub fn from_number(number: i32) -> (data_type: Option<DataType>)
        ensures
            data_type == Self::of_number(number),
    {
        match number {
            0 => Some(DataType::Bfloat16),
            1 => Some(DataType::Float16),
            2 => Some(DataType::Float32),
            3 => Some(DataType::Float64),
            4 => Some(DataType::Uint8),
            5 => Some(DataType::Uint16),
            6 => Some(DataType::Uint32),
            7 => Some(DataType::Uint64),
            _ => None,
        }
    }

    /// The tensor type that stores a type of array values.
    pub fn try_from(dt: &ArrayDataType) -> (data_type: Result<DataType, Error>)
        ensures
            match data_type {
                Ok(data_type) => Self::of_array_type(dt@) == Ok::<DataType, ErrorView>(data_type),
                Err(error) => Self::of_array_type(dt@) == Err::<DataType, ErrorView>(error@),
            },
    {
        let mut message: String = "pb tensor type not supported: ".to_owned();
        match dt {
            ArrayDataType::Primitive(primitive) => match primitive {
                PrimitiveType::UInt8 => {
                    return Ok(DataType::Uint8);
                },
                PrimitiveType::UInt16 => {
                    return Ok(DataType::Uint16);
                },
                PrimitiveType::UInt32 => {
                    return Ok(DataType::Uint32);
                },
                PrimitiveType::UInt64 => {
                    return Ok(DataType::Uint64);
                },
                PrimitiveType::Float16 => {
                    return Ok(DataType::Float16);
                },
                PrimitiveType::Float32 => {
                    return Ok(DataType::Float32);
                },
                PrimitiveType::Float64 => {
                    return Ok(DataType::Float64);
                },
                _ => {
                    message.append(primitive.name());
                },
            },
            ArrayDataType::Other(name) => {
                message.append(name.as_str());
            },
        }
        Err(Error::Index { message })
    }

    /// Like [`Self::try_from`], for a type that is handed over.
    pub fn try_from_value(dt: ArrayDataType) -> (data_type: Result<DataType, Error>)
        ensures
            match data_type {
                Ok(data_type) => Self::of_array_type(dt@) == Ok::<DataType, ErrorView>(data_type),
                Err(error) => Self::of_array_type(dt@) == Err::<DataType, ErrorView>(error@),
            },
    {
        Self::try_from(&dt)
    }
}

impl ArrayDataType {
    /// The type of array values that a tensor type stands for.
    pub fn from(dt: DataType) -> (data_type: ArrayDataType)
        requires
            dt != DataType::Bfloat16,
        ensures
            data_type@ == DataTypeView::Primitive(dt.array_type()->0),
    {
        ArrayDataType::Primitive(primitive_type(dt))
    }
}

/// The numeric type that a tensor type stands for.
pub(crate) fn primitive_type(dt: DataType) -> (data_type: PrimitiveType)
    requires
        dt != DataType::Bfloat16,
    ensures
        Some(data_type) == dt.array_type(),
{
    match dt {
        DataType::Uint8 => PrimitiveType::UInt8,
        DataType::Uint16 => PrimitiveType::UInt16,
        DataType::Uint32 => PrimitiveType::UInt32,
        DataType::Uint64 => PrimitiveType::UInt64,
        DataType::Float16 => PrimitiveType::Float16,
        DataType::Float32 => PrimitiveType::Float32,
        _ => PrimitiveType::Float64,
    }
}

/// A type survives being stored by its number, and no number stands for two
/// types.
pub proof fn law_numbers_identify_types(data_type: DataType, number: i32)
    ensures
        DataType::of_number(data_type.spec_number()) == Some(data_type),
        DataType::of_number(number) matches Some(found) ==> found.spec_number() == number,
{
}

/// Every tensor type but `Bfloat16` survives the way to array types and back.
pub proof fn law_tensor_type_survives(data_type: DataType)
    requires
        data_type != DataType::Bfloat16,
    ensures
        data_type.array_type() is Some,
        DataType::of_array_type(DataTypeView::Primitive(data_type.array_type()->0)) == Ok::<
            DataType,
            ErrorView,
        >(data_type),
{
}

/// Every array type that a tensor can store survives the way there and back.
pub proof fn law_array_type_survives(data_type: DataTypeView)
    requires
        DataType::of_array_type(data_type) is Ok,
    ensures
        DataType::of_array_type(data_type)->Ok_0.array_type() matches Some(primitive)
            && DataTypeView::Primitive(primitive) == data_type,
{
}

} // verus!
