//! A singly linked list that owns a chain of heap-allocated nodes.
//!
//! The list is modelled by the sequence of its elements from head to tail.
//! Every operation is specified by what it does to that sequence.

use vstd::prelude::*;

verus! {

/// One link of the chain: an element and the slot that owns the rest of the chain.
pub struct Node<T> {
    pub value: T,
    pub next: Option<Box<Node<T>>>,
}

/// Why an indexed operation was refused.
///
/// `IndexOutOfBounds` is the only refusal a caller ever sees. The other two
/// kinds guard the walks along the chain; the contracts of the operations
/// show that neither is ever returned.
#[derive(Debug)]
pub enum LinkedListError {
    /// The index lies outside the range the operation accepts.
    IndexOutOfBounds,
    /// A head removal found no head although the index was in range.
    EmptyList,
    /// The walk along the chain ended before the index was reached.
    InvalidIndex,
}

impl<T> Node<T> {
    /// The elements of this node and of every node after it, in chain order.
    pub open spec fn elements(self) -> Seq<T>
        decreases self,
    {
        seq![self.value] + chain_elements(self.next)
    }
}

/// The elements reachable from an owning slot, in chain order.
pub open spec fn chain_elements<T>(link: Option<Box<Node<T>>>) -> Seq<T>
    decreases link,
{
    match link {
        None => Seq::empty(),
        Some(node) => node.elements(),
    }
}

/// Appending an element to a prefix and then the rest is the same as
/// appending the rest with that element in front.
proof fn lemma_concat_after_push<T>(prefix: Seq<T>, element: T, rest: Seq<T>)
    ensures
        prefix + (seq![element] + rest) == prefix.push(element) + rest,
{
}

/// A singly linked list: the slot that owns the first node, and the cached
/// number of nodes.
pub struct LinkedList<T> {
    head: Option<Box<Node<T>>>,
    length: usize,
}

impl<T> View for LinkedList<T> {
    type V = Seq<T>;

    /// The elements of the list from head to tail.
    closed spec fn view(&self) -> Seq<T> {
        chain_elements(self.head)
    }
}

impl<T> LinkedList<T> {
    /// The cached count is the number of nodes in the chain.
    #[verifier::type_invariant]
    spec fn count_matches_chain(self) -> bool {
        self.length == chain_elements(self.head).len()
    }

    /// Creates an empty list.
    pub fn new() -> (list: Self)
        ensures
            list@ == Seq::<T>::empty(),
    {
        Self { head: None, length: 0 }
    }

    /// Returns the number of elements.
    pub fn len(&self) -> (n: usize)
        ensures
            n == self@.len(),
    {
        proof {
            use_type_invariant(self);
        }
        self.length
    }

    /// Returns `true` exactly when the list holds no element.
    pub fn is_empty(&self) -> (empty: bool)
        ensures
            empty <==> self@.len() == 0,
    {
        proof {
            use_type_invariant(self);
        }
        self.length == 0
    }

    /// Moves the chain and its count out of the list, which is left empty.
    ///
    /// The count has to match the chain whenever the list can be observed, so
    /// an operation that edits the chain takes both out, works on them, and
    /// puts a matching pair back.
    fn detach(&mut self) -> (parts: (Option<Box<Node<T>>>, usize))
        ensures
            parts.0 == old(self).head,
            parts.1 == old(self)@.len(),
            final(self)@ == Seq::<T>::empty(),
    {
        proof {
            use_type_invariant(&*self);
        }
        let mut list = Self { head: None, length: 0 };
        std::mem::swap(self, &mut list);
        let Self { head, length } = list;
        (head, length)
    }

    /// Inserts `value` in front of the first element.
    pub fn insert_at_head(&mut self, value: T)
        requires
            old(self)@.len() < usize::MAX,
        ensures
            final(self)@ == seq![value] + old(self)@,
    {
        let (head, length) = self.detach();
        let new_node = Box::new(Node { value, next: head });
        *self = Self { head: Some(new_node), length: length + 1 };
    }

    /// Removes the first element and returns it, or returns `None` when the
    /// list is empty.
    pub fn remove_from_head(&mut self) -> (removed: Option<T>)
        ensures
            old(self)@.len() == 0 ==> removed is None && final(self)@ == old(self)@,
            old(self)@.len() > 0 ==> removed == Some(old(self)@[0])
                && final(self)@ == old(self)@.drop_first(),
    {
        let (head, length) = self.detach();
        if let Some(node) = head {
            *self = Self { head: node.next, length: length - 1 };
            Some(node.value)
        } else {
            None
        }
    }

    /// Inserts `value` so that it becomes the element at position `index`.
    ///
    /// Every position from `0` up to and including the length is accepted;
    /// a larger index is refused with `IndexOutOfBounds` and the list is
    /// left as it was.
    pub fn insert_at_index(&mut self, index: usize, value: T) -> (res: Result<(), LinkedListError>)
        requires
            index <= old(self)@.len() ==> old(self)@.len() < usize::MAX,
        ensures
            index <= old(self)@.len() ==> res is Ok
                && final(self)@ == old(self)@.insert(index as int, value),
            index > old(self)@.len() ==> res == Err::<(), LinkedListError>(
                LinkedListError::IndexOutOfBounds,
            ) && final(self)@ == old(self)@,
    {
        proof {
            use_type_invariant(&*self);
        }
        if index > self.length {
            return Err(LinkedListError::IndexOutOfBounds);
        }
        if index == 0 {
            self.insert_at_head(value);
            return Ok(());
        }
        let (mut head, length) = self.detach();
        let ghost before = chain_elements(head);
        let ghost mut passed = Seq::<T>::empty();
        let mut current = head.as_mut();
        for i in 0..index - 1
            invariant
                1 <= index <= before.len(),
                passed.len() == i,
                current is Some,
                before == passed + current.unwrap().elements(),
                chain_elements(after_borrow(head)) == passed + final(current.unwrap()).elements(),
        {
            if let Some(node) = current {
                let ghost element = node.value;
                current = node.next.as_mut();
                proof {
                    lemma_concat_after_push(passed, element, current.unwrap().elements());
                    lemma_concat_after_push(passed, element, final(current.unwrap()).elements());
                    passed = passed.push(element);
                }
            }
        }
        if let Some(node) = current {
            let ghost rest = chain_elements(node.next);
            let new_node = Box::new(Node { value, next: node.next.take() });
            assert(new_node.elements() == seq![value] + rest);
            node.next = Some(new_node);
            assert(passed + node.elements() =~= before.insert(index as int, value));
            *self = Self { head, length: length + 1 };
            Ok(())
        } else {
            *self = Self { head, length };
            Err(LinkedListError::InvalidIndex)
        }
    }

    /// Removes the element at position `index` and returns it.
    ///
    /// Only the positions of existing elements are accepted; any other index
    /// is refused with `IndexOutOfBounds` and the list is left as it was.
    pub fn remove_from_index(&mut self, index: usize) -> (res: Result<T, LinkedListError>)
        ensures
            index < old(self)@.len() ==> res == Ok::<T, LinkedListError>(old(self)@[index as int])
                && final(self)@ == old(self)@.remove(index as int),
            index >= old(self)@.len() ==> res == Err::<T, LinkedListError>(
                LinkedListError::IndexOutOfBounds,
            ) && final(self)@ == old(self)@,
    {
        proof {
            use_type_invariant(&*self);
        }
        if index >= self.length {
            return Err(LinkedListError::IndexOutOfBounds);
        }
        if index == 0 {
            return self.remove_from_head().ok_or(LinkedListError::EmptyList);
        }
        let (mut head, length) = self.detach();
        let ghost before = chain_elements(head);
        let ghost mut passed = Seq::<T>::empty();
        let mut current = head.as_mut();
        for i in 0..index - 1
            invariant
                1 <= index < before.len(),
                passed.len() == i,
                current is Some,
                before == passed + current.unwrap().elements(),
                chain_elements(after_borrow(head)) == passed + final(current.unwrap()).elements(),
        {
            if let Some(node) = current {
                let ghost element = node.value;
                current = node.next.as_mut();
                proof {
                    lemma_concat_after_push(passed, element, current.unwrap().elements());
                    lemma_concat_after_push(passed, element, final(current.unwrap()).elements());
                    passed = passed.push(element);
                }
            }
        }
        if let Some(node) = current {
            let ghost after = chain_elements(node.next);
            assert(before == passed + (seq![node.value] + after));
            if let Some(mut to_remove) = node.next.take() {
                let ghost rest = chain_elements(to_remove.next);
                assert(after == seq![to_remove.value] + rest);
                node.next = to_remove.next.take();
                assert(passed + node.elements() =~= before.remove(index as int));
                *self = Self { head, length: length - 1 };
                return Ok(to_remove.value);
            }
        }
        *self = Self { head, length };
        Err(LinkedListError::InvalidIndex)
    }

    /// Removes the last element and returns it, or returns `None` when the
    /// list is empty.
    pub fn remove_from_tail(&mut self) -> (removed: Option<T>)
        ensures
            old(self)@.len() == 0 ==> removed is None && final(self)@ == old(self)@,
            old(self)@.len() > 0 ==> removed == Some(old(self)@.last())
                && final(self)@ == old(self)@.drop_last(),
    {
        proof {
            use_type_invariant(&*self);
        }
        if self.head.is_none() {
            return None;
        }
        if self.head.as_ref().unwrap().next.is_none() {
            assert(self@ =~= seq![self.head.unwrap().value]) by {
                assert(self@ == self.head.unwrap().elements());
            }
            return self.remove_from_head();
        }
        let (mut head, length) = self.detach();
        let ghost before = chain_elements(head);
        let ghost mut passed = Seq::<T>::empty();
        let mut current = head.as_mut().unwrap();
        loop
            invariant
                before == old(self)@,
                length == before.len(),
                current.next is Some,
                before == passed + current.elements(),
                chain_elements(after_borrow(head)) == passed + final(current).elements(),
            decreases current.elements().len(),
        {
            let ghost element = current.value;
            if current.next.as_ref().unwrap().next.is_none() {
                let tail = current.next.take().unwrap();
                assert(tail.elements() == seq![tail.value]);
                assert(passed + current.elements() =~= before.drop_last());
                *self = Self { head, length: length - 1 };
                return Some(tail.value);
            }
            current = current.next.as_mut().unwrap();
            proof {
                lemma_concat_after_push(passed, element, current.elements());
                lemma_concat_after_push(passed, element, final(current).elements());
                passed = passed.push(element);
            }
        }
    }

    /// Returns a reference to the element at position `index`.
    ///
    /// An index that is not the position of an element is refused with
    /// `IndexOutOfBounds`.
    pub fn get(&self, index: usize) -> (res: Result<&T, LinkedListError>)
        ensures
            index < self@.len() ==> res == Ok::<&T, LinkedListError>(&self@[index as int]),
            index >= self@.len() ==> res == Err::<&T, LinkedListError>(
                LinkedListError::IndexOutOfBounds,
            ),
    {
        proof {
            use_type_invariant(self);
        }
        if index >= self.length {
            return Err(LinkedListError::IndexOutOfBounds);
        }
        let mut current = self.head.as_ref();
        for i in 0..index
            invariant
                index < self@.len(),
                current is Some,
                current.unwrap().elements() == self@.skip(i as int),
        {
            if let Some(node) = current {
                assert(chain_elements(node.next) =~= self@.skip(i + 1)) by {
                    assert(chain_elements(node.next) =~= node.elements().skip(1));
                    assert(self@.skip(i as int).skip(1) =~= self@.skip(i + 1));
                }
                current = node.next.as_ref();
            }
        }
        if let Some(node) = current {
            assert(node.elements()[0] == node.value);
            Ok(&node.value)
        } else {
            Err(LinkedListError::InvalidIndex)
        }
    }

    /// Appends `value` behind the last element.
    pub fn insert_at_tail(&mut self, value: T)
        requires
            old(self)@.len() < usize::MAX,
        ensures
            final(self)@ == old(self)@.push(value),
    {
        let (mut head, length) = self.detach();
        let ghost before = chain_elements(head);
        let ghost mut passed = Seq::<T>::empty();
        let new_node = Box::new(Node { value, next: None });
        assert(new_node.elements() =~= seq![value]);
        if let Some(mut current) = head.as_mut() {
            while current.next.is_some()
                invariant
                    before == passed + current.elements(),
                    chain_elements(after_borrow(head)) == passed + final(current).elements(),
                decreases current.elements().len(),
            {
                let ghost element = current.value;
                current = current.next.as_mut().unwrap();
                proof {
                    lemma_concat_after_push(passed, element, current.elements());
                    lemma_concat_after_push(passed, element, final(current).elements());
                    passed = passed.push(element);
                }
            }
            current.next = Some(new_node);
            assert(passed + current.elements() =~= before.push(value));
        } else {
            head = Some(new_node);
        }
        *self = Self { head, length: length + 1 };
    }

    /// Reverses the order of the elements by turning every link around.
    pub fn reverse(&mut self)
        ensures
            final(self)@ == old(self)@.reverse(),
    {
        let (head, length) = self.detach();
        let ghost before = chain_elements(head);
        let mut prev: Option<Box<Node<T>>> = None;
        let mut current = head;
        while current.is_some()
            invariant
                chain_elements(prev).reverse() + chain_elements(current) == before,
            decreases chain_elements(current).len(),
        {
            let mut node = current.unwrap();
            let next = node.next.take();
            node.next = prev;
            prev = Some(node);
            current = next;
        }
        *self = Self { head: prev, length };
    }
}

/// One request to insert an element, as made through `insert_at_head`,
/// `insert_at_tail` or `insert_at_index`.
pub enum Insertion<T> {
    /// Insert the value in front of the first element.
    AtHead(T),
    /// Insert the value behind the last element.
    AtTail(T),
    /// Insert the value at the given position.
    AtIndex(usize, T),
}

impl<T> Insertion<T> {
    /// Whether a list that holds `elements` accepts the request.
    pub open spec fn accepted_by(self, elements: Seq<T>) -> bool {
        match self {
            Insertion::AtHead(_) => true,
            Insertion::AtTail(_) => true,
            Insertion::AtIndex(index, _) => index <= elements.len(),
        }
    }

    /// What a list that holds `elements` holds after the request: a refused
    /// request changes nothing.
    pub open spec fn applied_to(self, elements: Seq<T>) -> Seq<T> {
        match self {
            Insertion::AtHead(value) => seq![value] + elements,
            Insertion::AtTail(value) => elements.push(value),
            Insertion::AtIndex(index, value) => if index <= elements.len() {
                elements.insert(index as int, value)
            } else {
                elements
            },
        }
    }
}

/// What a new list holds after the requests have been made in order.
pub open spec fn elements_after<T>(requests: Seq<Insertion<T>>) -> Seq<T>
    decreases requests.len(),
{
    if requests.len() == 0 {
        Seq::empty()
    } else {
        requests.last().applied_to(elements_after(requests.drop_last()))
    }
}

/// How many of the requests, made in order of a new list, are accepted.
pub open spec fn accepted_count<T>(requests: Seq<Insertion<T>>) -> nat
    decreases requests.len(),
{
    if requests.len() == 0 {
        0
    } else {
        let earlier = requests.drop_last();
        if requests.last().accepted_by(elements_after(earlier)) {
            accepted_count(earlier) + 1
        } else {
            accepted_count(earlier)
        }
    }
}

/// After any series of insertions into a new list, the length is the number
/// of insertions that were accepted.
pub proof fn lemma_length_counts_accepted_insertions<T>(requests: Seq<Insertion<T>>)
    ensures
        elements_after(requests).len() == accepted_count(requests),
    decreases requests.len(),
{
    if requests.len() > 0 {
        lemma_length_counts_accepted_insertions(requests.drop_last());
    }
}

/// Inserting `value` at `index` and then removing at `index` gives `value`
/// back and leaves the elements as they were, in number and in order.
pub proof fn lemma_insert_then_remove<T>(elements: Seq<T>, index: int, value: T)
    requires
        0 <= index <= elements.len(),
    ensures
        elements.insert(index, value)[index] == value,
        elements.insert(index, value).remove(index) == elements,
        elements.insert(index, value).remove(index).len() == elements.len(),
{
}

/// Reversing keeps the length, and reversing twice gives back the order the
/// elements started in.
pub proof fn lemma_reverse_twice<T>(elements: Seq<T>)
    ensures
        elements.reverse().len() == elements.len(),
        elements.reverse().reverse() == elements,
{
}

/// Reversing three elements puts the last first and the first last.
pub proof fn lemma_reverse_of_three<T>(a: T, b: T, c: T)
    ensures
        seq![a, b, c].reverse() == seq![c, b, a],
{
}

/// Inserting at the index equal to the length is the same as inserting at the
/// tail, and inserting at index `0` is the same as inserting at the head.
pub proof fn lemma_insert_at_ends<T>(elements: Seq<T>, value: T)
    ensures
        elements.insert(elements.len() as int, value) == elements.push(value),
        elements.insert(0, value) == seq![value] + elements,
{
}

} // verus!
