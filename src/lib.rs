//! Dense multi-dimensional numeric arrays: a contiguous buffer of elements
//! addressed by an explicit shape, with factories that allocate it pre-filled.
pub mod dimension;
pub mod factory;
pub mod shape;
pub mod tensor;

pub use dimension::Dimension;
pub use factory::Factory;
pub use shape::numel_of;
pub use tensor::Tensor;
