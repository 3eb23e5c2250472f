//! Helpers to build and work with boxed slices (`Box<[T]>`).

mod boxed_slice;
pub mod laws;

pub use crate::boxed_slice::{
    new_boxed_slice, new_boxed_slice_from_array, new_boxed_slice_with_indexed_initializer,
    new_boxed_slice_with_initializer, new_boxed_slice_with_value, new_empty_boxed_slice, BoxedSlice,
};
