//! A fixed-size array whose length is part of its type.

use vstd::prelude::*;
use vstd::std_specs::iter::IteratorSpec;

use crate::std_support::slice_iter_mut;

verus! {

/// A fixed-size array of `N` elements.
#[derive(Debug)]
pub struct Array<T, const N: usize> {
    data: [T; N],
}

impl<T, const N: usize> View for Array<T, N> {
    type V = Seq<T>;

    /// The elements in index order.
    closed spec fn view(&self) -> Seq<T> {
        self.data@
    }
}

impl<T, const N: usize> Array<T, N> {
    /// The view of an array always has exactly `N` elements.
    pub proof fn lemma_view_len(self)
        ensures
            self@.len() == N,
    {
    }

    /// Creates an array that holds the elements of `data`.
    pub fn new(data: [T; N]) -> (array: Self)
        ensures
            array@ == data@,
    {
        Self { data }
    }

    /// Returns the number of elements, which is `N`.
    pub fn len(&self) -> (n: usize)
        ensures
            n == N,
            n == self@.len(),
    {
        N
    }

    /// Returns `true` exactly when the array holds no element.
    pub fn is_empty(&self) -> (empty: bool)
        ensures
            empty <==> self@.len() == 0,
    {
        N == 0
    }

    /// Returns a reference to the element at `index`, or `None` when `index`
    /// is not below `N`.
    pub fn get(&self, index: usize) -> (element: Option<&T>)
        ensures
            index < N ==> element == Some(&self@[index as int]),
            index >= N ==> element is None,
    {
        if index < N {
            Some(&self.data[index])
        } else {
            None
        }
    }

    /// Returns a mutable reference to the element at `index`, or `None` when
    /// `index` is not below `N`.
    pub fn get_mut(&mut self, index: usize) -> (element: Option<&mut T>)
        ensures
            index < N ==> element is Some && *element.unwrap() == old(self)@[index as int]
                && final(self)@ == old(self)@.update(index as int, *final(element.unwrap())),
            index >= N ==> element is None && final(self)@ == old(self)@,
    {
        if index < N {
            Some(&mut self.data[index])
        } else {
            None
        }
    }

    /// Replaces the element at `index` by `value`.
    pub fn set(&mut self, index: usize, value: T) -> (res: Result<(), &'static str>)
        ensures
            index < N ==> res is Ok && final(self)@ == old(self)@.update(index as int, value),
            index >= N ==> res == Err::<(), &str>("Index out of bounds")
                && final(self)@ == old(self)@,
    {
        if index < N {
            self.data[index] = value;
            Ok(())
        } else {
            Err("Index out of bounds")
        }
    }

    /// Returns an iterator over the elements in index order.
    pub fn iter(&self) -> (it: std::slice::Iter<'_, T>)
        ensures
            IteratorSpec::remaining(&it) == self@.as_ref(),
            IteratorSpec::decrease(&it) is Some,
            IteratorSpec::initial_value_relation(&it, &it),
    {
        self.data.iter()
    }

    /// Returns an iterator that hands out a mutable reference to each element
    /// in index order.
    ///
    /// The iterator is opaque to proofs. What the array holds when the borrow
    /// ends is what the caller wrote through it; the contract says only that
    /// the number of elements is the same.
    pub fn iter_mut(&mut self) -> (it: std::slice::IterMut<'_, T>)
        ensures
            final(self)@.len() == old(self)@.len(),
    {
        slice_iter_mut(&mut self.data)
    }
}

impl<T: Default + Copy, const N: usize> Array<T, N> {
    /// Creates an array in which every element is the default value of `T`.
    pub fn default() -> (array: Self)
        ensures
            array@.len() == N,
            forall|i: int| 0 <= i < N ==> call_ensures(T::default, (), #[trigger] array@[i]),
    {
        Self { data: [T::default(); N] }
    }
}

impl<T: Clone, const N: usize> Clone for Array<T, N> {
    /// Clones the array element by element.
    fn clone(&self) -> (copy: Self)
        ensures
            copy@.len() == self@.len(),
            forall|i: int| 0 <= i < N ==> cloned::<T>(#[trigger] self@[i], copy@[i]),
    {
        Self { data: self.data.clone() }
    }
}

} // verus!
