use vstd::prelude::*;

verus! {

/// The stack's contents, front (most recently pushed) first.
pub struct List {
    head: Link,
}

/// Zero or one owned node.
enum Link {
    Empty,
    More(Box<Node>),
}

struct Node {
    elem: i32,
    next: Link,
}

impl Link {
    /// The elements of the chain that starts here, in chain order.
    spec fn view(&self) -> Seq<i32>
        decreases self,
    {
        match self {
            Link::Empty => Seq::empty(),
            Link::More(node) => seq![node.elem] + node.next.view(),
        }
    }

    /// Moves the link out, leaving `Empty` in its place.
    fn take(&mut self) -> (r: Link)
        ensures
            r == *old(self),
            *final(self) == Link::Empty,
    {
        let mut r = Link::Empty;
        core::mem::swap(self, &mut r);
        r
    }
}

impl View for List {
    type V = Seq<i32>;

    closed spec fn view(&self) -> Seq<i32> {
        self.head.view()
    }
}

impl List {
    /// An empty stack.
    pub fn new() -> (r: Self)
        ensures
            r@ == Seq::<i32>::empty(),
    {
        List { head: Link::Empty }
    }

    /// Puts `elem` on top of the stack.
    pub fn push(&mut self, elem: i32)
        ensures
            final(self)@ == pushed(old(self)@, elem),
    {
        let new_node = Node { elem: elem, next: self.head.take() };
        self.head = Link::More(Box::new(new_node));
    }

    /// Removes and returns the top of the stack; `None`, with the stack
    /// left as it is, when it is empty.
    pub fn pop(&mut self) -> (r: Option<i32>)
        ensures
            (r, final(self)@) == popped(old(self)@),
            old(self)@.len() == 0 ==> r is None && final(self)@ == old(self)@,
            old(self)@.len() > 0 ==> r == Some(old(self)@[0])
                && final(self)@ == old(self)@.drop_first(),
    {
        match self.head.take() {
            Link::Empty => None,
            Link::More(node) => {
                proof {
                    assert(old(self)@.drop_first() =~= node.next.view());
                }
                self.head = node.next;
                Some(node.elem)
            },
        }
    }
}

impl Drop for List {
    /// Releases the chain one node at a time, detaching each node's successor
    /// before the node goes, so that no node's release cascades down the chain.
    fn drop(&mut self)
        ensures
            final(self)@ == Seq::<i32>::empty(),
        opens_invariants none
        no_unwind
    {
        // Verus does not take a call of `Link::take` inside `drop`, so each
        // take-and-replace is written out as a swap here.
        let mut cur = Link::Empty;
        core::mem::swap(&mut self.head, &mut cur);
        loop
            invariant
                self.head == Link::Empty,
            decreases cur.view().len(),
        {
            match cur {
                Link::Empty => break,
                Link::More(mut node) => {
                    let mut next = Link::Empty;
                    core::mem::swap(&mut node.next, &mut next);
                    cur = next;
                },
            }
        }
    }
}

/// The contents after pushing `e` onto contents `s`.
pub open spec fn pushed(s: Seq<i32>, e: i32) -> Seq<i32> {
    seq![e] + s
}

/// The value returned by a pop on contents `s`, and the contents after it.
pub open spec fn popped(s: Seq<i32>) -> (Option<i32>, Seq<i32>) {
    if s.len() == 0 {
        (None, s)
    } else {
        (Some(s[0]), s.drop_first())
    }
}

} // verus!
