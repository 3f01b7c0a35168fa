//! A singly linked stack: items are pushed and popped at the head.

use vstd::prelude::*;

verus! {

/// One item of a list and the link to the items behind it.
struct Node<T> {
    element: T,
    next: Option<Box<Node<T>>>,
}

/// A list that owns its items and hands them out again, the last one first.
pub struct LinkedList<T> {
    head: Option<Box<Node<T>>>,
}

/// The items from `link` to the end of the chain, nearest first.
spec fn items<T>(link: Option<Box<Node<T>>>) -> Seq<T>
    decreases link,
{
    match link {
        None => Seq::empty(),
        Some(node) => seq![node.element] + items(node.next),
    }
}

impl<T> View for LinkedList<T> {
    type V = Seq<T>;

    /// The items of the list, the most recently pushed first.
    closed spec fn view(&self) -> Seq<T> {
        items(self.head)
    }
}

impl<T> LinkedList<T> {
    /// Create a list without items.
    pub fn new() -> (list: Self)
        ensures
            list@ == Seq::<T>::empty(),
    {
        Self { head: None }
    }

    /// Put `element` in front of the items of the list.
    pub fn push(&mut self, element: T)
        ensures
            final(self)@ == seq![element] + old(self)@,
    {
        let head = self.head.take();
        let new_node = Node { element, next: head };
        self.head = Some(Box::new(new_node));
    }

    /// Take the first item off the list and return it; `None` where the list is empty.
    pub fn pop(&mut self) -> (first: Option<T>)
        ensures
            old(self)@.len() == 0 ==> first.is_none() && final(self)@ == old(self)@,
            old(self)@.len() > 0 ==> first == Some(old(self)@[0]) && final(self)@ == old(self)@.drop_first(),
    {
        match self.head.take() {
            None => None,
            Some(node) => {
                let node = *node;
                self.head = node.next;
                Some(node.element)
            },
        }
    }

    /// A reference to the first item; `None` where the list is empty.
    pub fn peek(&self) -> (first: Option<&T>)
        ensures
            self@.len() == 0 ==> first.is_none(),
            self@.len() > 0 ==> first == Some(&self@[0]),
    {
        match &self.head {
            None => None,
            Some(node) => Some(&node.element),
        }
    }
}

} // verus!
