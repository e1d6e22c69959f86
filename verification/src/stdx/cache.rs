//! The state of a cached value.
use vstd::prelude::*;

verus! {

/// The state of a cache, either populated or empty.
#[derive(Debug)]
pub enum Store<T> {
    /// No value has been inserted yet.
    Empty,
    /// A value is present.
    Value(T),
}

impl<T: Default> Store<T> {
    /// Returns the contained value, or `T::default()` if empty.
    pub fn or_default(self) -> (r: T)
        ensures
            self matches Store::Value(v) ==> r == v,
            self is Empty ==> call_ensures(T::default, (), r),
    {
        match self {
            Store::Empty => T::default(),
            Store::Value(item) => item,
        }
    }
}

} // verus!
