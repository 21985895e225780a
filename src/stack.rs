//! A stack of integers kept as a singly linked list of boxed nodes.
use vstd::prelude::*;

verus! {

struct Node {
    elem: i32,
    next: Link,
}

enum Link {
    More(Box<Node>),
    Empty,
}

spec fn link_view(l: Link) -> Seq<i32>
    decreases l,
{
    match l {
        Link::Empty => Seq::empty(),
        Link::More(node) => seq![node.elem] + link_view(node.next),
    }
}

/// A last-in, first-out stack; its view lists the top first.
pub struct List {
    head: Link,
}

impl View for List {
    type V = Seq<i32>;

    closed spec fn view(&self) -> Seq<i32> {
        link_view(self.head)
    }
}

impl List {
    /// An empty stack.
    pub fn new() -> (r: List)
        ensures
            r@ == Seq::<i32>::empty(),
    {
        List { head: Link::Empty }
    }

    /// Puts `elem` on top.
    pub fn push(&mut self, elem: i32)
        ensures
            final(self)@ == seq![elem] + old(self)@,
    {
        let mut next = Link::Empty;
        std::mem::swap(&mut self.head, &mut next);
        self.head = Link::More(Box::new(Node { elem, next }));
    }

    /// Removes and returns the top element, or `None` on an empty stack.
    pub fn pop(&mut self) -> (r: Option<i32>)
        ensures
            old(self)@.len() == 0 ==> r is None && final(self)@ == old(self)@,
            old(self)@.len() > 0 ==> r == Some(old(self)@[0]) && final(self)@ == old(self)@.drop_first(),
    {
        let mut head = Link::Empty;
        std::mem::swap(&mut self.head, &mut head);
        match head {
            Link::Empty => None,
            Link::More(node) => {
                let node = *node;
                self.head = node.next;
                assert(old(self)@ =~= seq![node.elem] + link_view(self.head));
                Some(node.elem)
            },
        }
    }
}

/// Unlinks the nodes one at a time, so that a long stack is not dropped by a
/// chain of nested calls.
impl Drop for List {
    fn drop(&mut self)
        opens_invariants none
        no_unwind
    {
        let mut cur = Link::Empty;
        std::mem::swap(&mut self.head, &mut cur);
        loop
            decreases link_view(cur).len(),
        {
            match cur {
                Link::Empty => break,
                Link::More(node) => {
                    let node = *node;
                    cur = node.next;
                },
            }
        }
    }
}

} // verus!
