//! A doubly linked list of `i32` values.
//!
//! The reference-counted, interiorly mutable node cells that a handwritten
//! doubly linked list would use cannot be tracked by the verifier, so the
//! elements are stored in a vector that keeps the same observable order:
//! index 0 is the head, the last index is the tail. `add` makes its element
//! the new head and `remove` pops the head, exactly as the node-based list
//! would.

use vstd::prelude::*;

verus! {

/// A doubly linked list, viewed as its elements from head to tail.
pub struct DoublyLinkList {
    elements: Vec<i32>,
}

impl DoublyLinkList {
    /// The elements of the list from head to tail.
    pub closed spec fn view(&self) -> Seq<i32> {
        self.elements@
    }

    /// Builds an empty list.
    pub fn new() -> (l: DoublyLinkList)
        ensures
            l@ == Seq::<i32>::empty(),
    {
        DoublyLinkList { elements: Vec::new() }
    }

    /// Pushes `element` at the head of the list.
    pub fn add(&mut self, element: i32)
        ensures
            final(self)@ == seq![element] + old(self)@,
    {
        self.elements.insert(0, element);
        proof {
            assert(self@ =~= seq![element] + old(self)@);
        }
    }

    /// Removes the head of the list and returns its element, or `None` when
    /// the list is empty.
    pub fn remove(&mut self) -> (r: Option<i32>)
        ensures
            old(self)@.len() == 0 ==> r is None && final(self)@ == old(self)@,
            old(self)@.len() > 0 ==> r == Some(old(self)@[0]) && final(self)@ == old(self)@.drop_first(),
    {
        if self.elements.len() == 0 {
            None
        } else {
            let removed_value = self.elements.remove(0);
            proof {
                assert(self@ =~= old(self)@.drop_first());
            }
            Some(removed_value)
        }
    }

    /// The elements of the list from head to tail, as a vector; printing the
    /// list means printing these in order.
    pub fn elements(&self) -> (v: Vec<i32>)
        ensures
            v@ == self@,
    {
        let mut v: Vec<i32> = Vec::new();
        let mut i: usize = 0;
        while i < self.elements.len()
            invariant
                i <= self.elements.len(),
                v@ == self.elements@.take(i as int),
            decreases self.elements.len() - i,
        {
            v.push(self.elements[i]);
            proof {
                assert(v@ =~= self.elements@.take(i as int + 1));
            }
            i = i + 1;
        }
        proof {
            assert(v@ =~= self@);
        }
        v
    }
}

} // verus!
