//! The stored form of a tensor.

pub mod tensor;

use vstd::prelude::*;

verus! {

/// Values of one type, laid out along one or more dimensions.
#[derive(Debug)]
pub struct Tensor {
    /// The number of the type of the values, see [`tensor::DataType::number`].
    pub data_type: i32,
    /// The length along each dimension.
    pub shape: Vec<u32>,
    /// The values, one after another.
    pub data: Vec<u8>,
}

/// A [`Tensor`] as mathematical values.
#[verifier::ext_equal]
pub struct TensorView {
    pub data_type: i32,
    pub shape: Seq<u32>,
    pub data: Seq<u8>,
}

impl View for Tensor {
    type V = TensorView;

    open spec fn view(&self) -> TensorView {
        TensorView { data_type: self.data_type, shape: self.shape@, data: self.data@ }
    }
}

} // verus!
