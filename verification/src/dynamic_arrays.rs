//! A growable array backed by a `Vec`.

use vstd::prelude::*;
use vstd::std_specs::iter::IteratorSpec;

use crate::std_support::{slice_iter_mut, vec_capacity, vec_shrink_to_fit};

verus! {

/// A growable array.
#[derive(Debug)]
pub struct DynamicArray<T> {
    data: Vec<T>,
}

impl<T> View for DynamicArray<T> {
    type V = Seq<T>;

    /// The elements in index order.
    closed spec fn view(&self) -> Seq<T> {
        self.data@
    }
}

impl<T> DynamicArray<T> {
    /// Creates an empty array.
    pub fn new() -> (array: Self)
        ensures
            array@ == Seq::<T>::empty(),
    {
        Self { data: Vec::new() }
    }

    /// Creates an empty array with room for at least `capacity` elements.
    ///
    /// How much room there is depends on the allocator and is no part of the
    /// model: whatever `capacity` is, the array holds no element.
    pub fn with_capacity(capacity: usize) -> (array: Self)
        ensures
            array@ == Seq::<T>::empty(),
    {
        Self { data: Vec::with_capacity(capacity) }
    }

    /// Returns the number of elements.
    pub fn len(&self) -> (n: usize)
        ensures
            n == self@.len(),
    {
        self.data.len()
    }

    /// Returns `true` exactly when the array holds no element.
    pub fn is_empty(&self) -> (empty: bool)
        ensures
            empty <==> self@.len() == 0,
    {
        self.data.is_empty()
    }

    /// Returns the number of elements the array can hold without allocating
    /// again.
    pub fn capacity(&self) -> (capacity: usize)
        ensures
            capacity >= self@.len(),
    {
        vec_capacity(&self.data)
    }

    /// Appends `value` behind the last element.
    pub fn push(&mut self, value: T)
        ensures
            final(self)@ == old(self)@.push(value),
    {
        self.data.push(value);
    }

    /// Removes the last element and returns it, or returns `None` when the
    /// array is empty.
    pub fn pop(&mut self) -> (removed: Option<T>)
        ensures
            old(self)@.len() == 0 ==> removed is None && final(self)@ == old(self)@,
            old(self)@.len() > 0 ==> removed == Some(old(self)@.last())
                && final(self)@ == old(self)@.drop_last(),
    {
        self.data.pop()
    }

    /// Returns a reference to the element at `index`, or `None` when `index`
    /// is not the position of an element.
    pub fn get(&self, index: usize) -> (element: Option<&T>)
        ensures
            index < self@.len() ==> element == Some(&self@[index as int]),
            index >= self@.len() ==> element is None,
    {
        if index < self.data.len() {
            Some(&self.data[index])
        } else {
            None
        }
    }

    /// Returns a mutable reference to the element at `index`, or `None` when
    /// `index` is not the position of an element.
    pub fn get_mut(&mut self, index: usize) -> (element: Option<&mut T>)
        ensures
            index < old(self)@.len() ==> element is Some
                && *element.unwrap() == old(self)@[index as int]
                && final(self)@ == old(self)@.update(index as int, *final(element.unwrap())),
            index >= old(self)@.len() ==> element is None && final(self)@ == old(self)@,
    {
        if index < self.data.len() {
            Some(&mut self.data[index])
        } else {
            None
        }
    }

    /// Replaces the element at `index` by `value`.
    pub fn set(&mut self, index: usize, value: T) -> (res: Result<(), &'static str>)
        ensures
            index < old(self)@.len() ==> res is Ok
                && final(self)@ == old(self)@.update(index as int, value),
            index >= old(self)@.len() ==> res == Err::<(), &str>("Index out of bounds")
                && final(self)@ == old(self)@,
    {
        if index < self.len() {
            self.data[index] = value;
            Ok(())
        } else {
            Err("Index out of bounds")
        }
    }

    /// Inserts `value` so that it becomes the element at position `index`,
    /// moving the elements from there on one position up.
    pub fn insert(&mut self, index: usize, value: T) -> (res: Result<(), &'static str>)
        ensures
            index <= old(self)@.len() ==> res is Ok
                && final(self)@ == old(self)@.insert(index as int, value),
            index > old(self)@.len() ==> res == Err::<(), &str>("Index out of bounds")
                && final(self)@ == old(self)@,
    {
        if index <= self.len() {
            self.data.insert(index, value);
            Ok(())
        } else {
            Err("Index out of bounds")
        }
    }

    /// Removes the element at position `index` and returns it, moving the
    /// elements behind it one position down.
    pub fn remove(&mut self, index: usize) -> (res: Result<T, &'static str>)
        ensures
            index < old(self)@.len() ==> res == Ok::<T, &str>(old(self)@[index as int])
                && final(self)@ == old(self)@.remove(index as int),
            index >= old(self)@.len() ==> res == Err::<T, &str>("Index out of bounds")
                && final(self)@ == old(self)@,
    {
        if index < self.len() {
            Ok(self.data.remove(index))
        } else {
            Err("Index out of bounds")
        }
    }

    /// Removes every element.
    pub fn clear(&mut self)
        ensures
            final(self)@ == Seq::<T>::empty(),
    {
        self.data.clear();
    }

    /// Returns an iterator over the elements in index order.
    pub fn iter(&self) -> (it: std::slice::Iter<'_, T>)
        ensures
            IteratorSpec::remaining(&it) == self@.as_ref(),
            IteratorSpec::decrease(&it) is Some,
            IteratorSpec::initial_value_relation(&it, &it),
    {
        self.data.iter()
    }

    /// Returns an iterator that hands out a mutable reference to each element
    /// in index order.
    ///
    /// The iterator is opaque to proofs. What the array holds when the borrow
    /// ends is what the caller wrote through it; the contract says only that
    /// the number of elements is the same.
    pub fn iter_mut(&mut self) -> (it: std::slice::IterMut<'_, T>)
        ensures
            final(self)@.len() == old(self)@.len(),
    {
        slice_iter_mut(self.data.as_mut_slice())
    }

    /// Gives back capacity that is not in use. The elements stay as they are.
    ///
    /// How much capacity is left depends on the allocator and is no part of
    /// the model.
    pub fn shrink_to_fit(&mut self)
        ensures
            final(self)@ == old(self)@,
    {
        vec_shrink_to_fit(&mut self.data);
    }

    /// Makes room for at least `additional` more elements. The elements stay
    /// as they are.
    ///
    /// How much room there is afterwards depends on the allocator and is no
    /// part of the model.
    pub fn reserve(&mut self, additional: usize)
        ensures
            final(self)@ == old(self)@,
    {
        self.data.reserve(additional);
    }
}

impl<T: Clone> Clone for DynamicArray<T> {
    /// Clones the array element by element.
    fn clone(&self) -> (copy: Self)
        ensures
            copy@.len() == self@.len(),
            forall|i: int| 0 <= i < self@.len() ==> cloned::<T>(#[trigger] self@[i], copy@[i]),
    {
        Self { data: self.data.clone() }
    }
}

impl<T> Default for DynamicArray<T> {
    /// Creates an empty array.
    fn default() -> (array: Self)
        ensures
            array@ == Seq::<T>::empty(),
    {
        Self::new()
    }
}

} // verus!
