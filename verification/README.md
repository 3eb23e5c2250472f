# box_slice

Helpers that build boxed slices (`Box<[T]>`): empty, from an array, from a
type's `Default`, from a value repeated by `Clone`, and from a closure called
for each index. `BoxedSlice<T>` wraps a `Box<[T]>` and offers the same
constructors, plus conversions and borrowing.

- `src/boxed_slice.rs`: the constructors, `BoxedSlice` and the trait impls
  written by hand (`Clone`, `Default`, `From`, `AsRef`, `AsMut`, `Borrow`,
  `BorrowMut`, `Deref`, `DerefMut`), each with a contract over the sequence
  of elements (`@`). `Debug`, `PartialEq`, `Eq`, `PartialOrd`, `Ord` and
  `Hash` are derived and carry no contract.
- `src/laws.rs`: proof functions relating several operations (wrapping and
  unwrapping round trips, the wrapper agreeing with the free functions,
  repetition for exact clones, tabulation by the indexed initializer).
- `tests/`: tests run against the compiled library.
