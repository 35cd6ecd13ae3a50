//! Helpers around vector indexes: finding the finite rows of a list of
//! vectors, turning lists of vectors into tensors and back, and deciding when
//! an index over centroids is worth training.

pub mod array;
pub mod convert;
pub mod error;
pub mod finite;
pub mod laws;
pub mod numbers;
pub mod outside;
pub mod pb;
pub mod prefetch;
pub mod rows;
pub mod simple_index;
pub mod text;
