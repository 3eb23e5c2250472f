//! Constructors of boxed slices and the `BoxedSlice` wrapper.

use box_slice::{
    new_boxed_slice, new_boxed_slice_from_array, new_boxed_slice_with_indexed_initializer,
    new_boxed_slice_with_initializer, new_boxed_slice_with_value, new_empty_boxed_slice,
    BoxedSlice,
};
use std::rc::Rc;

#[derive(Debug, Clone, Copy, PartialEq, Eq, PartialOrd, Ord)]
struct TestType {
    value: usize,
}

impl Default for TestType {
    fn default() -> Self {
        Self { value: 42 }
    }
}

/// A value that remembers whether it was produced by `clone`.
#[derive(Debug, PartialEq, Eq)]
struct Tagged {
    value: u32,
    is_clone: bool,
}

impl Clone for Tagged {
    fn clone(&self) -> Self {
        Tagged { value: self.value, is_clone: true }
    }
}

#[test]
fn empty_default() {
    let slice = BoxedSlice::<TestType>::new(0);

    assert!(slice.is_empty());
}

#[test]
fn empty_value() {
    let slice = BoxedSlice::with_value(TestType { value: 69 }, 0);

    assert!(slice.is_empty());
}

#[test]
fn empty_init() {
    let slice = BoxedSlice::with_indexed_initializer(|i| TestType { value: i }, 0);

    assert!(slice.is_empty());
}

#[test]
fn default() {
    let slice = BoxedSlice::<TestType>::new(5);
    let expected = vec![TestType::default(); 5].into_boxed_slice();

    assert_eq!(slice.into_inner(), expected);
}

#[test]
fn boxed_slice_value() {
    let slice = BoxedSlice::with_value(TestType { value: 69 }, 5);
    let expected = vec![TestType { value: 69 }; 5].into_boxed_slice();

    assert_eq!(slice.into_inner(), expected);
}

#[test]
fn init() {
    let slice = BoxedSlice::with_indexed_initializer(|i| TestType { value: i }, 5);
    let expected = vec![
        TestType { value: 0 },
        TestType { value: 1 },
        TestType { value: 2 },
        TestType { value: 3 },
        TestType { value: 4 },
    ]
    .into_boxed_slice();

    assert_eq!(slice.into_inner(), expected);
}

#[test]
fn indexed_initializer_doubles() {
    let slice = new_boxed_slice_with_indexed_initializer(|i| i * 2, 5);
    let expected = vec![0, 2, 4, 6, 8].into_boxed_slice();

    assert_eq!(slice, expected);
}

#[test]
fn indexed_initializer_identity() {
    let slice = new_boxed_slice_with_indexed_initializer(|i| i, 5);
    let expected = vec![0, 1, 2, 3, 4].into_boxed_slice();

    assert_eq!(slice, expected);
}

#[test]
fn indexed_initializer_calls_indices_in_order() {
    let mut seen = Vec::new();
    let slice = new_boxed_slice_with_indexed_initializer(
        |i| {
            seen.push(i);
            i + 10
        },
        4,
    );

    assert_eq!(seen, vec![0, 1, 2, 3]);
    assert_eq!(slice, vec![10, 11, 12, 13].into_boxed_slice());
}

#[test]
fn initializer_constant() {
    let slice = new_boxed_slice_with_initializer(|| 15.0f64, 5);
    let expected = vec![15.0f64; 5].into_boxed_slice();

    assert_eq!(slice, expected);
}

#[test]
fn initializer_with_state() {
    let mut count = 0u32;
    let slice = new_boxed_slice_with_initializer(
        || {
            count += 1;
            count
        },
        3,
    );

    assert_eq!(slice, vec![1, 2, 3].into_boxed_slice());
    assert_eq!(count, 3);
}

#[test]
fn initializer_zero_length_never_calls() {
    let mut calls = 0u32;
    let slice: Box<[u32]> = new_boxed_slice_with_initializer(
        || {
            calls += 1;
            calls
        },
        0,
    );

    assert!(slice.is_empty());
    assert_eq!(calls, 0);
}

#[test]
fn default_values() {
    let slice = new_boxed_slice::<f64>(5);
    let expected = vec![f64::default(); 5].into_boxed_slice();

    assert_eq!(slice, expected);
    let integers: Box<[u64]> = new_boxed_slice(3);
    assert_eq!(integers, vec![0u64, 0, 0].into_boxed_slice());
}

#[test]
fn empty_of_floats() {
    let slice = new_empty_boxed_slice::<f64>();

    assert!(slice.is_empty());
    assert_eq!(slice.len(), 0);
}

#[test]
fn from_float_array() {
    let slice = new_boxed_slice_from_array([1.0f64, 3.0]);
    let expected = vec![1.0f64, 3.0].into_boxed_slice();

    assert_eq!(slice, expected);
}

#[test]
fn value_of_floats() {
    let slice = new_boxed_slice_with_value(1.5f64, 5);
    let expected = vec![1.5f64; 5].into_boxed_slice();

    assert_eq!(slice, expected);
}

#[test]
fn value_is_placed_last_and_others_are_clones() {
    let slice = new_boxed_slice_with_value(Tagged { value: 7, is_clone: false }, 3);

    assert_eq!(slice.len(), 3);
    assert_eq!(slice[0], Tagged { value: 7, is_clone: true });
    assert_eq!(slice[1], Tagged { value: 7, is_clone: true });
    assert_eq!(slice[2], Tagged { value: 7, is_clone: false });
}

#[test]
fn value_shares_reference_counted_item() {
    let shared = Rc::new(1);
    let slice = new_boxed_slice_with_value(Rc::clone(&shared), 5);

    assert_eq!(Rc::strong_count(&shared), 6);
    assert!(slice.iter().all(|item| Rc::ptr_eq(item, &shared)));
    drop(slice);
    assert_eq!(Rc::strong_count(&shared), 1);
}

#[test]
fn zero_length_drops_value() {
    let shared = Rc::new(1);
    let slice = new_boxed_slice_with_value(Rc::clone(&shared), 0);

    assert!(slice.is_empty());
    assert_eq!(Rc::strong_count(&shared), 1);
}

#[test]
fn wrapper_constructors() {
    assert!(BoxedSlice::<u8>::new_empty().is_empty());
    assert_eq!(BoxedSlice::from_array([3u8, 4]).as_slice(), &[3u8, 4][..]);
    assert_eq!(BoxedSlice::<u16>::new(2).as_slice(), &[0u16, 0][..]);
    assert_eq!(BoxedSlice::with_value(9i32, 3).as_slice(), &[9, 9, 9][..]);
    let mut next = 5u8;
    let counted = BoxedSlice::with_initializer(
        || {
            next += 1;
            next
        },
        2,
    );
    assert_eq!(counted.as_slice(), &[6u8, 7][..]);
    assert_eq!(BoxedSlice::with_indexed_initializer(|i| i * i, 4).as_slice(), &[0, 1, 4, 9][..]);
}

#[test]
fn wrap_and_unwrap_round_trip() {
    let boxed = vec![1, 2, 3].into_boxed_slice();
    let wrapped = BoxedSlice::from(boxed.clone());
    assert_eq!(wrapped.into_inner(), boxed);

    let wrapped = BoxedSlice::from(boxed.clone());
    let unwrapped: Box<[i32]> = Box::from(wrapped);
    assert_eq!(unwrapped, boxed);

    let original = BoxedSlice::from_array([5u8, 6]);
    let again = BoxedSlice::from(original.clone().into_inner());
    assert_eq!(again, original);
}

#[test]
fn writes_through_mutable_views() {
    let mut slice = BoxedSlice::from_array([1, 2, 3]);
    slice.as_mut_slice()[0] = 10;
    slice.as_mut()[1] = 20;
    {
        let borrowed: &mut [i32] = std::borrow::BorrowMut::borrow_mut(&mut slice);
        borrowed[2] = 30;
    }
    assert_eq!(slice.as_slice(), &[10, 20, 30][..]);
    slice[0] = 11;
    assert_eq!(slice.as_ref(), &[11, 20, 30][..]);
    let borrowed: &[i32] = std::borrow::Borrow::borrow(&slice);
    assert_eq!(borrowed, &[11, 20, 30][..]);
}

#[test]
fn clone_copies_each_element() {
    let slice = BoxedSlice::from_array([
        Tagged { value: 1, is_clone: false },
        Tagged { value: 2, is_clone: false },
    ]);
    let copy = slice.clone();

    assert_eq!(
        copy.as_slice(),
        &[Tagged { value: 1, is_clone: true }, Tagged { value: 2, is_clone: true }][..]
    );
    assert_eq!(slice.as_slice()[0], Tagged { value: 1, is_clone: false });
}

#[test]
fn default_wrapper_is_empty() {
    let slice: BoxedSlice<u8> = BoxedSlice::default();

    assert!(slice.is_empty());
    assert!(BoxedSlice::from_array([1u8]) > slice);
}
