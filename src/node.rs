use vstd::prelude::*;

verus! {

/// A node of a singly linked list, and at the same time the handle of the
/// list that starts at it: the node on which an operation is invoked holds
/// position 0.
pub struct LinkedNode<T> {
    pub(crate) data: T,
    pub(crate) next: Option<Box<LinkedNode<T>>>,
}

impl<T> LinkedNode<T> {
    /// The values from this node to the end of the chain, in order.
    pub closed spec fn values(self) -> Seq<T>
        decreases self,
    {
        match self.next {
            None => seq![self.data],
            Some(n) => seq![self.data] + n.values(),
        }
    }

    /// A chain holds at least its own node, whose value comes first.
    pub(crate) proof fn lemma_values_head(self)
        ensures
            self.values().len() >= 1,
            self.values()[0] == self.data,
            self.next is None ==> self.values() == seq![self.data],
            self.next is Some ==> self.values() == seq![self.data] + self.next->0.values(),
    {
    }
}

/// The values left after a pop: all but the last, unless only the head is
/// left, which stays.
pub open spec fn popped<T>(s: Seq<T>) -> Seq<T> {
    if s.len() > 1 {
        s.drop_last()
    } else {
        s
    }
}

/// What a pop returns: the last value, unless only the head is left.
pub open spec fn pop_value<T>(s: Seq<T>) -> Option<T> {
    if s.len() > 1 {
        Some(s.last())
    } else {
        None
    }
}

impl<T> View for LinkedNode<T> {
    type V = Seq<T>;

    open spec fn view(&self) -> Seq<T> {
        self.values()
    }
}

impl<T> LinkedNode<T> {
    /// A list is never empty: it always holds at least the head's value.
    pub proof fn lemma_never_empty(&self)
        ensures
            self@.len() >= 1,
    {
        self.lemma_values_head();
    }

    /// A one-node list holding `v`.
    pub fn new(v: T) -> (r: Self)
        ensures
            r@ == seq![v],
    {
        LinkedNode { data: v, next: None }
    }

    /// Appends a new tail node holding `v`.
    pub fn push(&mut self, v: T)
        ensures
            final(self)@ == old(self)@.push(v),
        decreases old(self)@.len(),
    {
        match &mut self.next {
            None => {
                self.next = Some(Box::new(LinkedNode::new(v)));
            },
            Some(ntx) => {
                ntx.push(v);
            },
        }
        proof {
            assert(self@ =~= old(self)@.push(v));
        }
    }

    /// Removes the tail node and returns its value, unless this node is the
    /// only one: the head is never removed, and then nothing is returned.
    pub fn pop(&mut self) -> (r: Option<T>)
        ensures
            r == pop_value(old(self)@),
            final(self)@ == popped(old(self)@),
        decreases old(self)@.len(),
    {
        match &mut self.next {
            None => None,
            Some(ntx) => {
                proof {
                    ntx.lemma_values_head();
                    if ntx.next is Some {
                        ntx.next->0.lemma_values_head();
                    }
                }
                if ntx.next.is_none() {
                    match self.next.take() {
                        Some(tail) => Some(tail.data),
                        None => None,
                    }
                } else {
                    let r = ntx.pop();
                    proof {
                        assert(self@ =~= old(self)@.drop_last());
                    }
                    r
                }
            },
        }
    }

    /// A mutable borrow of the value at position `index`, reached by walking
    /// `index` links from this node; the chain ends up with that position
    /// replaced by what the borrow leaves behind.
    pub fn index_mut(&mut self, index: usize) -> (r: &mut T)
        requires
            index < old(self)@.len(),
        ensures
            *r == old(self)@[index as int],
            final(self)@ == old(self)@.update(index as int, *final(r)),
    {
        let ghost settled = (*final(self))@;
        let mut p: &mut LinkedNode<T> = self;
        let mut i: usize = 0;
        while i < index
            invariant
                i <= index < old(self)@.len(),
                (*p)@ == old(self)@.subrange(i as int, old(self)@.len() as int),
                settled == old(self)@.subrange(0, i as int) + (*final(p))@,
            decreases index - i,
        {
            let ghost now = (*p)@;
            let ghost settled_here = (*final(p))@;
            proof {
                p.lemma_values_head();
                (*final(p)).lemma_values_head();
            }
            let n = p.next.as_mut().expect("index out of range");
            p = &mut **n;
            proof {
                assert((*p)@ =~= now.drop_first());
                assert(settled_here =~= seq![now[0]] + (*final(p))@);
                assert(old(self)@.subrange(0, i + 1) =~= old(self)@.subrange(0, i as int) + seq![now[0]]);
            }
            i += 1;
        }
        let ghost node_now = *p;
        let ghost node_settled = *final(p);
        proof {
            node_now.lemma_values_head();
            node_settled.lemma_values_head();
        }
        let r = &mut p.data;
        proof {
            assert(node_settled.data == *final(r));
            assert(node_settled.next == node_now.next);
            assert(node_settled@ =~= node_now@.update(0, *final(r)));
            assert(settled =~= old(self)@.update(index as int, *final(r)));
        }
        r
    }
}

// An index past the tail is refused by `index_req`; a caller that skips
// the check stops at the missing link with a panic.
impl<T> std::ops::Index<usize> for LinkedNode<T> {
    type Output = T;

    /// The value at position `index`, reached by walking `index` links from
    /// this node.
    fn index(&self, index: usize) -> (r: &T)
        ensures
            *r == self@[index as int],
    {
        let mut p: &LinkedNode<T> = self;
        let mut i: usize = 0;
        while i < index
            invariant
                i <= index < self@.len(),
                p@ == self@.subrange(i as int, self@.len() as int),
            decreases index - i,
        {
            let ghost now = p@;
            proof {
                p.lemma_values_head();
            }
            p = p.next.as_ref().expect("index out of range");
            proof {
                assert(p@ =~= now.drop_first());
            }
            i += 1;
        }
        proof {
            p.lemma_values_head();
        }
        &p.data
    }
}

impl<T> vstd::std_specs::core::IndexSpecImpl<usize> for LinkedNode<T> {
    open spec fn index_req(&self, index: &usize) -> bool {
        *index < self@.len()
    }
}

} // verus!
