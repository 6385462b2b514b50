//! A singly linked list of `i32` values built from owned boxes.
//!
//! New elements are pushed at the head, and `remove` pops the head, so the
//! list behaves as a stack whose view lists the elements from head to tail.

use vstd::prelude::*;

verus! {

/// One list cell: an element and the rest of the list.
pub struct Node {
    element: i32,
    next: Option<Box<Node>>,
}

/// The sequence of elements reachable from `p`, head first.
pub closed spec fn chain_seq(p: &Option<Box<Node>>) -> Seq<i32>
    decreases p,
{
    match p {
        Some(node) => seq![node.element] + chain_seq(&node.next),
        None => Seq::empty(),
    }
}

/// A singly linked list, known only by its head pointer.
pub struct LinkList {
    head: Option<Box<Node>>,
}

impl LinkList {
    /// The elements of the list from head to tail.
    pub closed spec fn view(&self) -> Seq<i32> {
        chain_seq(&self.head)
    }

    /// Builds an empty list.
    pub fn new() -> (l: LinkList)
        ensures
            l@ == Seq::<i32>::empty(),
    {
        LinkList { head: None }
    }

    /// Pushes `element` at the head of the list.
    pub fn add(&mut self, element: i32)
        ensures
            final(self)@ == seq![element] + old(self)@,
    {
        let previous_head = self.head.take();
        let new_head = Some(Box::new(Node { element, next: previous_head }));
        self.head = new_head;
    }

    /// Removes the head of the list and returns its element, or `None` when
    /// the list is empty.
    pub fn remove(&mut self) -> (r: Option<i32>)
        ensures
            old(self)@.len() == 0 ==> r is None && final(self)@ == old(self)@,
            old(self)@.len() > 0 ==> r == Some(old(self)@[0]) && final(self)@ == old(self)@.drop_first(),
    {
        match self.head.take() {
            Some(previous_head) => {
                self.head = previous_head.next;
                Some(previous_head.element)
            },
            None => None,
        }
    }

    /// The elements of the list from head to tail, as a vector; printing the
    /// list means printing these in order.
    pub fn elements(&self) -> (v: Vec<i32>)
        ensures
            v@ == self@,
    {
        let mut v: Vec<i32> = Vec::new();
        let mut list_traversal = &self.head;
        loop
            invariant
                v@ + chain_seq(list_traversal) == self@,
            ensures
                v@ == self@,
            decreases chain_seq(list_traversal).len(),
        {
            match list_traversal {
                Some(node) => {
                    v.push(node.element);
                    list_traversal = &node.next;
                },
                None => {
                    proof {
                        assert(v@ =~= self@);
                    }
                    break;
                },
            }
        }
        v
    }
}

} // verus!
