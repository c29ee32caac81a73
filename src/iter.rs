use vstd::prelude::*;
use crate::node::LinkedNode;

verus! {

impl<T> LinkedNode<T> {
    /// A cursor over the values of the chain, from this node on.
    pub fn iter(&self) -> (it: LinkedIter<'_, T>)
        ensures
            it@ == self@,
    {
        LinkedIter { p: Some(self) }
    }

    /// A cursor that hands out the values of the chain, from this node on,
    /// for mutation in place. The chain ends up as the cursor's node ends up.
    pub fn iter_mut(&mut self) -> (it: LinkedIterMut<'_, T>)
        ensures
            it@ == old(self)@,
            it.cursor() is Some,
            *it.cursor()->0 == *old(self),
            *final(self) == *final(it.cursor()->0),
    {
        LinkedIterMut { p: Some(self) }
    }
}

/// A forward cursor over the values of a chain, borrowing it.
pub struct LinkedIter<'a, T> {
    p: Option<&'a LinkedNode<T>>,
}

impl<'a, T> View for LinkedIter<'a, T> {
    type V = Seq<T>;

    /// The values that are still to come, in order.
    closed spec fn view(&self) -> Seq<T> {
        match self.p {
            None => Seq::empty(),
            Some(n) => n@,
        }
    }
}

impl<'a, T> LinkedIter<'a, T> {
    /// Yields the next value and moves past it; once the chain is exhausted,
    /// yields nothing ever after.
    pub fn next(&mut self) -> (r: Option<&'a T>)
        ensures
            old(self)@.len() == 0 ==> r is None && final(self)@ == old(self)@,
            old(self)@.len() > 0 ==> r is Some && *r->0 == old(self)@[0] && final(self)@
                == old(self)@.drop_first(),
    {
        match self.p {
            None => None,
            Some(cur) => {
                proof {
                    cur.lemma_values_head();
                }
                self.p = match &cur.next {
                    Some(n) => Some(&**n),
                    None => None,
                };
                proof {
                    assert(self@ =~= old(self)@.drop_first());
                }
                Some(&cur.data)
            },
        }
    }
}

/// A forward cursor over the values of a chain that hands out each value
/// for mutation in place.
pub struct LinkedIterMut<'a, T> {
    p: Option<&'a mut LinkedNode<T>>,
}

impl<'a, T> View for LinkedIterMut<'a, T> {
    type V = Seq<T>;

    /// The values that are still to come, in order, as they stand now.
    closed spec fn view(&self) -> Seq<T> {
        match self.p {
            None => Seq::empty(),
            Some(n) => (*n)@,
        }
    }
}

impl<'a, T> LinkedIterMut<'a, T> {
    /// The borrow of the node that is to be yielded next, if any.
    pub closed spec fn cursor(self) -> Option<&'a mut LinkedNode<T>> {
        self.p
    }

    /// Yields the next value for mutation in place and moves past it; once
    /// the chain is exhausted, yields nothing ever after. What the chain
    /// holds in the end is the value left behind the yielded reference,
    /// followed by what the rest of the chain holds in the end.
    pub fn next(&mut self) -> (r: Option<&'a mut T>)
        ensures
            old(self)@.len() == 0 ==> r is None && final(self)@.len() == 0,
            old(self)@.len() > 0 ==> {
                &&& r is Some
                &&& *r->0 == old(self)@[0]
                &&& final(self)@ == old(self)@.drop_first()
                &&& final(self)@.len() == 0 ==> (*final(old(self).cursor()->0))@ == seq![
                    *final(r->0),
                ]
                &&& final(self)@.len() > 0 ==> (*final(old(self).cursor()->0))@ == seq![
                    *final(r->0),
                ] + (*final(final(self).cursor()->0))@
            },
    {
        match self.p.take() {
            None => None,
            Some(node) => {
                proof {
                    node.lemma_values_head();
                    (*final(node)).lemma_values_head();
                }
                self.p = match &mut node.next {
                    Some(n) => {
                        proof {
                            n.lemma_values_head();
                        }
                        Some(&mut **n)
                    },
                    None => None,
                };
                Some(&mut node.data)
            },
        }
    }
}

} // verus!
