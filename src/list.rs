use vstd::prelude::*;

verus! {

/// A last-in, first-out stack of integers held as a singly linked list.
pub struct List {
    head: Link,
}

struct Node {
    elem: i32,
    next: Link,
}

enum Link {
    Empty,
    More(Box<Node>),
}

impl Link {
    /// The elements from this link on, nearest first.
    spec fn elems(&self) -> Seq<i32>
        decreases self,
    {
        match self {
            Link::Empty => Seq::empty(),
            Link::More(node) => seq![node.elem] + node.next.elems(),
        }
    }
}

impl View for List {
    type V = Seq<i32>;

    /// The elements, top of the stack first.
    closed spec fn view(&self) -> Seq<i32> {
        self.head.elems()
    }
}

impl Drop for List {
    /// Unlinks the nodes one at a time, so that dropping a long list does not
    /// recurse once per node.
    fn drop(&mut self)
        opens_invariants none
        no_unwind
    {
        let mut cur_link = Link::Empty;
        core::mem::swap(&mut self.head, &mut cur_link);
        loop
            decreases cur_link.elems().len(),
        {
            match cur_link {
                Link::Empty => break,
                Link::More(node) => {
                    let node = *node;
                    assert(cur_link.elems().len() == node.next.elems().len() + 1);
                    cur_link = node.next;
                },
            }
        }
    }
}

impl List {
    /// An empty stack.
    pub fn new() -> (r: Self)
        ensures
            r@ == Seq::<i32>::empty(),
    {
        List { head: Link::Empty }
    }

    /// Puts `elem` on top of the stack.
    pub fn push(&mut self, elem: i32)
        ensures
            final(self)@ == seq![elem] + old(self)@,
    {
        let mut next = Link::Empty;
        core::mem::swap(&mut self.head, &mut next);
        let new_node = Box::new(Node { elem, next });
        self.head = Link::More(new_node);
    }

    /// Takes the top element off the stack; `None` when it is empty.
    pub fn pop(&mut self) -> (r: Option<i32>)
        ensures
            old(self)@.len() == 0 ==> r == None::<i32> && final(self)@ == old(self)@,
            old(self)@.len() > 0 ==> r == Some(old(self)@[0]) && final(self)@ == old(self)@.drop_first(),
    {
        let mut head = Link::Empty;
        core::mem::swap(&mut self.head, &mut head);
        match head {
            Link::Empty => None,
            Link::More(node) => {
                let node = *node;
                assert(seq![node.elem] + node.next.elems() == old(self)@);
                assert(node.next.elems() =~= old(self)@.drop_first());
                self.head = node.next;
                Some(node.elem)
            },
        }
    }
}

} // verus!
