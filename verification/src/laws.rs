//! Properties that relate several operations of the library.
use vstd::prelude::*;
use vstd::pervasive::strictly_cloned;

use crate::boxed_slice::{
    new_boxed_slice_from_array, new_boxed_slice_with_indexed_initializer,
    new_boxed_slice_with_initializer, new_boxed_slice_with_value, new_empty_boxed_slice,
    BoxedSlice,
};

verus! {

/// Wrapping a boxed slice in a `BoxedSlice` and unwrapping it again gives back
/// the same elements, whether it is unwrapped by `into_inner` or by
/// `From<BoxedSlice<T>> for Box<[T]>`.
pub proof fn lemma_wrap_then_unwrap<T>(b: Box<[T]>, s: BoxedSlice<T>, r1: Box<[T]>, r2: Box<[T]>)
    requires
        call_ensures(<BoxedSlice<T> as From<Box<[T]>>>::from, (b,), s),
        call_ensures(BoxedSlice::<T>::into_inner, (s,), r1),
        call_ensures(<Box<[T]> as From<BoxedSlice<T>>>::from, (s,), r2),
    ensures
        r1@ == b@,
        r2@ == b@,
{
}

/// Unwrapping a `BoxedSlice` and wrapping the result again keeps its elements.
pub proof fn lemma_unwrap_then_wrap<T>(s: BoxedSlice<T>, b: Box<[T]>, t: BoxedSlice<T>)
    requires
        call_ensures(BoxedSlice::<T>::into_inner, (s,), b),
        call_ensures(<BoxedSlice<T> as From<Box<[T]>>>::from, (b,), t),
    ensures
        t@ == s@,
{
}

/// The `BoxedSlice` constructors that take no closure hold exactly what the
/// matching free functions return: an empty slice, and the array's elements.
pub proof fn lemma_wrapper_constructors_agree<T, const N: usize>(
    array: [T; N],
    e1: BoxedSlice<T>,
    e2: Box<[T]>,
    a1: BoxedSlice<T>,
    a2: Box<[T]>,
)
    requires
        call_ensures(BoxedSlice::<T>::new_empty, (), e1),
        call_ensures(new_empty_boxed_slice::<T>, (), e2),
        call_ensures(BoxedSlice::<T>::from_array::<N>, (array,), a1),
        call_ensures(new_boxed_slice_from_array::<T, N>, (array,), a2),
    ensures
        e1@ == e2@,
        a1@ == a2@,
{
}

/// The default `BoxedSlice` holds the same elements as `BoxedSlice::new_empty`:
/// none.
pub proof fn lemma_default_is_new_empty<T: Default>(d: BoxedSlice<T>, e: BoxedSlice<T>)
    requires
        call_ensures(<BoxedSlice<T> as Default>::default, (), d),
        call_ensures(BoxedSlice::<T>::new_empty, (), e),
    ensures
        d@ == e@,
        d@.len() == 0,
{
}

/// For a type whose `clone` always gives back an equal value (such as the
/// integer types), a slice made from a value and a length holds that value
/// `len` times.
pub proof fn lemma_with_value_repeats<T: Clone>(value: T, len: usize, res: Box<[T]>)
    requires
        forall|x: T, y: T| #[trigger] strictly_cloned::<T>(x, y) ==> x == y,
        call_ensures(new_boxed_slice_with_value::<T>, (value, len), res),
    ensures
        res@ == Seq::new(len as nat, |i: int| value),
{
    assert forall|i: int| 0 <= i < len implies #[trigger] res@[i] == value by {
        if i < len - 1 {
            assert(strictly_cloned::<T>(value, res@[i]));
        }
    }
    assert(res@ =~= Seq::new(len as nat, |i: int| value));
}

/// When `func` computes a function `g` of the index, the slice made by the
/// indexed initializer is `g(0), g(1), ..., g(len - 1)`.
pub proof fn lemma_indexed_initializer_tabulates<T, F: FnMut(usize) -> T>(
    func: F,
    g: spec_fn(usize) -> T,
    len: usize,
    res: Box<[T]>,
)
    requires
        forall|i: usize, r: T| #[trigger] call_ensures(func, (i,), r) ==> r == g(i),
        call_ensures(new_boxed_slice_with_indexed_initializer::<T, F>, (func, len), res),
    ensures
        res@ == Seq::new(len as nat, |i: int| g(i as usize)),
{
    assert forall|i: int| 0 <= i < len implies #[trigger] res@[i] == g(i as usize) by {
        assert(call_ensures(func, (i as usize,), res@[i]));
    }
    assert(res@ =~= Seq::new(len as nat, |i: int| g(i as usize)));
}

/// When every call of `func` gives the value `c`, the slice made by the
/// initializer is `c` repeated `len` times.
pub proof fn lemma_initializer_repeats<T, F: FnMut() -> T>(func: F, c: T, len: usize, res: Box<[T]>)
    requires
        forall|r: T| #[trigger] call_ensures(func, (), r) ==> r == c,
        call_ensures(new_boxed_slice_with_initializer::<T, F>, (func, len), res),
    ensures
        res@ == Seq::new(len as nat, |i: int| c),
{
    assert forall|i: int| 0 <= i < len implies #[trigger] res@[i] == c by {
        assert(call_ensures(func, (), res@[i]));
    }
    assert(res@ =~= Seq::new(len as nat, |i: int| c));
}

} // verus!
