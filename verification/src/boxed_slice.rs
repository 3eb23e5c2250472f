use vstd::prelude::*;
use vstd::pervasive::strictly_cloned;

verus! {

/// Turns a vector into a boxed slice holding the same elements in the same
/// order (`Vec::into_boxed_slice`; the std documentation says the vector's
/// contents move into the boxed slice unchanged).
#[verifier::external_body]
fn vec_into_boxed_slice<T>(v: Vec<T>) -> (b: Box<[T]>)
    ensures
        b@ == v@,
{
    v.into_boxed_slice()
}

/// Moves an array onto the heap as a boxed slice (`Box::new` on the array,
/// unsized to `Box<[T]>`): the slice holds the array's elements in order.
#[verifier::external_body]
fn array_into_boxed_slice<T, const N: usize>(array: [T; N]) -> (b: Box<[T]>)
    ensures
        b@ == array@,
{
    Box::new(array)
}

/// Creates a new empty boxed slice of the specified type.
pub fn new_empty_boxed_slice<T>() -> (res: Box<[T]>)
    ensures
        res@ == Seq::<T>::empty(),
{
    vec_into_boxed_slice(Vec::new())
}

/// Creates a boxed slice from the given array, keeping its elements in order.
pub fn new_boxed_slice_from_array<T, const N: usize>(array: [T; N]) -> (res: Box<[T]>)
    ensures
        res@ == array@,
        res@.len() == N,
{
    array_into_boxed_slice(array)
}

/// Creates a boxed slice of length `len`, each element being a value returned
/// by the type's `Default::default`.
pub fn new_boxed_slice<T: Default>(len: usize) -> (res: Box<[T]>)
    ensures
        res@.len() == len,
        forall|i: int| 0 <= i < len ==> T::default.ensures((), #[trigger] res@[i]),
{
    new_boxed_slice_with_initializer(T::default, len)
}

/// Creates a boxed slice of length `len` filled with `value`.
///
/// The passed value itself becomes the last element; the elements before it
/// are clones of it. With `len == 0` the value is dropped and the slice is
/// empty.
pub fn new_boxed_slice_with_value<T: Clone>(value: T, len: usize) -> (res: Box<[T]>)
    ensures
        res@.len() == len,
        len > 0 ==> res@[len - 1] == value,
        forall|i: int| 0 <= i < len - 1 ==> strictly_cloned::<T>(value, #[trigger] res@[i]),
{
    let mut v: Vec<T> = Vec::new();
    if len > 0 {
        let mut i: usize = 0;
        while i < len - 1
            invariant
                0 < len,
                i <= len - 1,
                v@.len() == i,
                forall|j: int| 0 <= j < i ==> strictly_cloned::<T>(value, #[trigger] v@[j]),
            decreases len - 1 - i,
        {
            let c = value.clone();
            v.push(c);
            i = i + 1;
        }
        v.push(value);
    }
    vec_into_boxed_slice(v)
}

/// Creates a boxed slice of length `len`, each element being a value
/// returned by a call of `func`; the `i`-th call gives element `i`.
///
/// Verus gives a call of a `FnMut` no effect on the closure's state, so the
/// contract speaks of each result against the closure's contract alone; the
/// order in which the calls are made (index order, each on the state the
/// previous call left) is carried out by the loop below but is not part of
/// the `ensures`.
pub fn new_boxed_slice_with_initializer<T, F: FnMut() -> T>(func: F, len: usize) -> (res: Box<
    [T],
>)
    requires
        len > 0 ==> call_requires(func, ()),
    ensures
        res@.len() == len,
        forall|i: int| 0 <= i < len ==> call_ensures(func, (), #[trigger] res@[i]),
{
    let ghost init = func;
    let mut func = func;
    let mut v: Vec<T> = Vec::new();
    let mut i: usize = 0;
    while i < len
        invariant
            i <= len,
            func == init,
            len > 0 ==> call_requires(func, ()),
            v@.len() == i,
            forall|j: int| 0 <= j < i ==> call_ensures(func, (), #[trigger] v@[j]),
        decreases len - i,
    {
        let x = func();
        v.push(x);
        i = i + 1;
    }
    vec_into_boxed_slice(v)
}

/// Creates a boxed slice of length `len` whose element `i` is the value that
/// `func` returns for the index `i`; `func` is called with the indices from
/// `0` to `len - 1`.
///
/// Verus gives a call of a `FnMut` no effect on the closure's state, so the
/// contract speaks of each result against the closure's contract alone; the
/// order in which the calls are made (index order, each on the state the
/// previous call left) is carried out by the loop below but is not part of
/// the `ensures`.
pub fn new_boxed_slice_with_indexed_initializer<T, F: FnMut(usize) -> T>(
    func: F,
    len: usize,
) -> (res: Box<[T]>)
    requires
        forall|i: usize| i < len ==> call_requires(func, (i,)),
    ensures
        res@.len() == len,
        forall|i: int| 0 <= i < len ==> call_ensures(func, (i as usize,), #[trigger] res@[i]),
{
    let ghost init = func;
    let mut func = func;
    let mut v: Vec<T> = Vec::new();
    let mut i: usize = 0;
    while i < len
        invariant
            i <= len,
            func == init,
            v@.len() == i,
            forall|j: int| 0 <= j < i ==> call_ensures(func, (j as usize,), #[trigger] v@[j]),
            forall|j: usize| i <= j < len ==> call_requires(func, (j,)),
        decreases len - i,
    {
        let x = func(i);
        v.push(x);
        i = i + 1;
    }
    vec_into_boxed_slice(v)
}

/// A thin wrapper around `Box<[T]>` with fluent constructors.
///
/// Its view is the sequence of the elements of the boxed slice it holds.
#[derive(Debug, PartialEq, Eq, PartialOrd, Ord, Hash)]
pub struct BoxedSlice<T>(Box<[T]>);

impl<T> View for BoxedSlice<T> {
    type V = Seq<T>;

    closed spec fn view(&self) -> Seq<T> {
        self.0@
    }
}

impl<T> BoxedSlice<T> {
    /// Creates an empty boxed slice.
    pub fn new_empty() -> (res: Self)
        ensures
            res@ == Seq::<T>::empty(),
    {
        BoxedSlice(new_empty_boxed_slice())
    }

    /// Creates a boxed slice holding the elements of `array`, in order.
    pub fn from_array<const N: usize>(array: [T; N]) -> (res: Self)
        ensures
            res@ == array@,
            res@.len() == N,
    {
        BoxedSlice(new_boxed_slice_from_array(array))
    }

    /// Creates a boxed slice of length `len` of values given by `T::default`.
    pub fn new(len: usize) -> (res: Self) where T: Default
        ensures
            res@.len() == len,
            forall|i: int| 0 <= i < len ==> T::default.ensures((), #[trigger] res@[i]),
    {
        BoxedSlice(new_boxed_slice(len))
    }

    /// Creates a boxed slice of length `len` filled with `value`: the value
    /// itself is the last element, the others are clones of it.
    pub fn with_value(value: T, len: usize) -> (res: Self) where T: Clone
        ensures
            res@.len() == len,
            len > 0 ==> res@[len - 1] == value,
            forall|i: int| 0 <= i < len - 1 ==> strictly_cloned::<T>(value, #[trigger] res@[i]),
    {
        BoxedSlice(new_boxed_slice_with_value(value, len))
    }

    /// Creates a boxed slice of length `len` of values returned by `func`.
    pub fn with_initializer<F: FnMut() -> T>(func: F, len: usize) -> (res: Self)
        requires
            len > 0 ==> call_requires(func, ()),
        ensures
            res@.len() == len,
            forall|i: int| 0 <= i < len ==> call_ensures(func, (), #[trigger] res@[i]),
    {
        BoxedSlice(new_boxed_slice_with_initializer(func, len))
    }

    /// Creates a boxed slice of length `len` whose element `i` is `func(i)`.
    pub fn with_indexed_initializer<F: FnMut(usize) -> T>(func: F, len: usize) -> (res: Self)
        requires
            forall|i: usize| i < len ==> call_requires(func, (i,)),
        ensures
            res@.len() == len,
            forall|i: int| 0 <= i < len ==> call_ensures(func, (i as usize,), #[trigger] res@[i]),
    {
        BoxedSlice(new_boxed_slice_with_indexed_initializer(func, len))
    }

    /// Unwraps the boxed slice.
    pub fn into_inner(self) -> (res: Box<[T]>)
        ensures
            res@ == self@,
    {
        self.0
    }

    /// Borrows the elements as a slice.
    pub fn as_slice(&self) -> (res: &[T])
        ensures
            res@ == self@,
    {
        &*self.0
    }

    /// Borrows the elements as a mutable slice; what is written through it
    /// is what `self` holds afterwards.
    pub fn as_mut_slice(&mut self) -> (res: &mut [T])
        ensures
            (*res)@ == old(self)@,
            final(self)@ == (*final(res))@,
    {
        &mut *self.0
    }
}

impl<T: Clone> Clone for BoxedSlice<T> {
    /// Clones each element, in order, into a new boxed slice.
    fn clone(&self) -> (res: Self)
        ensures
            res@.len() == self@.len(),
            forall|i: int| 0 <= i < self@.len() ==> strictly_cloned::<T>(self@[i], #[trigger] res@[i]),
    {
        let src: &[T] = &*self.0;
        let mut v: Vec<T> = Vec::new();
        let mut i: usize = 0;
        while i < src.len()
            invariant
                src@ == self@,
                i <= src@.len(),
                v@.len() == i,
                forall|j: int| 0 <= j < i ==> strictly_cloned::<T>(src@[j], #[trigger] v@[j]),
            decreases src@.len() - i,
        {
            let c = src[i].clone();
            v.push(c);
            i = i + 1;
        }
        BoxedSlice(vec_into_boxed_slice(v))
    }
}

impl<T: Default> Default for BoxedSlice<T> {
    /// The default boxed slice is the empty one.
    fn default() -> (res: Self)
        ensures
            res@ == Seq::<T>::empty(),
    {
        BoxedSlice::new_empty()
    }
}

impl<T> From<BoxedSlice<T>> for Box<[T]> {
    /// Unwraps the boxed slice, as `into_inner` does.
    fn from(value: BoxedSlice<T>) -> (res: Self)
        ensures
            res@ == value@,
    {
        value.into_inner()
    }
}

impl<T> vstd::std_specs::convert::FromSpecImpl<BoxedSlice<T>> for Box<[T]> {
    open spec fn obeys_from_spec() -> bool {
        true
    }

    closed spec fn from_spec(v: BoxedSlice<T>) -> Self {
        v.0
    }
}

impl<T> From<Box<[T]>> for BoxedSlice<T> {
    /// Wraps a boxed slice.
    fn from(value: Box<[T]>) -> (res: Self)
        ensures
            res@ == value@,
    {
        BoxedSlice(value)
    }
}

impl<T> vstd::std_specs::convert::FromSpecImpl<Box<[T]>> for BoxedSlice<T> {
    open spec fn obeys_from_spec() -> bool {
        true
    }

    closed spec fn from_spec(v: Box<[T]>) -> Self {
        BoxedSlice(v)
    }
}

impl<T> AsRef<[T]> for BoxedSlice<T> {
    fn as_ref(&self) -> (res: &[T])
        ensures
            res@ == self@,
    {
        self.as_slice()
    }
}

impl<T> AsMut<[T]> for BoxedSlice<T> {
    fn as_mut(&mut self) -> (res: &mut [T])
        ensures
            (*res)@ == old(self)@,
            final(self)@ == (*final(res))@,
    {
        self.as_mut_slice()
    }
}

impl<T> core::borrow::Borrow<[T]> for BoxedSlice<T> {
    fn borrow(&self) -> (res: &[T])
        ensures
            <[T] as View>::view(res) == self@,
    {
        self.as_slice()
    }
}

impl<T> core::borrow::BorrowMut<[T]> for BoxedSlice<T> {
    fn borrow_mut(&mut self) -> (res: &mut [T])
        ensures
            <[T] as View>::view(&*res) == old(self)@,
            final(self)@ == <[T] as View>::view(&*final(res)),
    {
        self.as_mut_slice()
    }
}

impl<T> core::ops::Deref for BoxedSlice<T> {
    type Target = Box<[T]>;

    fn deref(&self) -> (res: &Box<[T]>)
        ensures
            res@ == self@,
    {
        &self.0
    }
}

impl<T> core::ops::DerefMut for BoxedSlice<T> {
    fn deref_mut(&mut self) -> (res: &mut Box<[T]>)
        ensures
            (*res)@ == old(self)@,
            final(self)@ == (*final(res))@,
    {
        &mut self.0
    }
}

} // verus!
