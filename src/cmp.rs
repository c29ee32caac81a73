use vstd::prelude::*;
use crate::node::LinkedNode;
use vstd::std_specs::cmp::{PartialEqSpec, PartialOrdSpec};
use std::cmp::Ordering;

verus! {

/// How two lists order, given how their head values order: as the heads
/// do, and `Equal` when the heads do not compare.
pub open spec fn head_order(o: Option<Ordering>) -> Option<Ordering> {
    match o {
        Some(Ordering::Less) => Some(Ordering::Less),
        Some(Ordering::Greater) => Some(Ordering::Greater),
        _ => Some(Ordering::Equal),
    }
}

// Comparison looks at the head values alone: two chains whose heads compare
// equal are equal, whatever follows them.
impl<T: PartialEq> PartialEq for LinkedNode<T> {
    fn eq(&self, other: &Self) -> (r: bool) {
        proof {
            self.lemma_values_head();
            other.lemma_values_head();
        }
        self.data == other.data
    }

    fn ne(&self, other: &Self) -> (r: bool) {
        !self.eq(other)
    }
}

impl<T: PartialEq> vstd::std_specs::cmp::PartialEqSpecImpl for LinkedNode<T> {
    open spec fn obeys_eq_spec() -> bool {
        <T as PartialEqSpec>::obeys_eq_spec()
    }

    open spec fn eq_spec(&self, other: &Self) -> bool {
        self@[0].eq_spec(&other@[0])
    }
}

impl<T: PartialOrd> PartialOrd for LinkedNode<T> {
    /// `Less` or `Greater` as the head values order, and `Equal` when
    /// neither is below the other, which includes heads that do not compare.
    fn partial_cmp(&self, other: &Self) -> (r: Option<Ordering>)
        ensures
            <T as PartialOrdSpec>::obeys_partial_cmp_spec() ==> r == head_order(
                self@[0].partial_cmp_spec(&other@[0]),
            ),
    {
        proof {
            self.lemma_values_head();
            other.lemma_values_head();
        }
        if self.data < other.data {
            Some(Ordering::Less)
        } else if self.data > other.data {
            Some(Ordering::Greater)
        } else {
            Some(Ordering::Equal)
        }
    }

    fn lt(&self, other: &Self) -> (r: bool)
        ensures
            <T as PartialOrdSpec>::obeys_partial_cmp_spec() ==> (r <==> self@[0].partial_cmp_spec(
                &other@[0],
            ) == Some(Ordering::Less)),
    {
        proof {
            self.lemma_values_head();
            other.lemma_values_head();
        }
        self.data < other.data
    }

    fn le(&self, other: &Self) -> (r: bool)
        ensures
            <T as PartialOrdSpec>::obeys_partial_cmp_spec() ==> (r <==> self@[0].partial_cmp_spec(
                &other@[0],
            ) matches Some(Ordering::Less | Ordering::Equal)),
    {
        proof {
            self.lemma_values_head();
            other.lemma_values_head();
        }
        self.data <= other.data
    }

    fn gt(&self, other: &Self) -> (r: bool)
        ensures
            <T as PartialOrdSpec>::obeys_partial_cmp_spec() ==> (r <==> self@[0].partial_cmp_spec(
                &other@[0],
            ) == Some(Ordering::Greater)),
    {
        proof {
            self.lemma_values_head();
            other.lemma_values_head();
        }
        self.data > other.data
    }

    fn ge(&self, other: &Self) -> (r: bool)
        ensures
            <T as PartialOrdSpec>::obeys_partial_cmp_spec() ==> (r <==> self@[0].partial_cmp_spec(
                &other@[0],
            ) matches Some(Ordering::Greater | Ordering::Equal)),
    {
        proof {
            self.lemma_values_head();
            other.lemma_values_head();
        }
        self.data >= other.data
    }
}

impl<T: PartialOrd> vstd::std_specs::cmp::PartialOrdSpecImpl for LinkedNode<T> {
    /// The order on lists follows the trait's laws where the order on the
    /// values does and is total.
    open spec fn obeys_partial_cmp_spec() -> bool {
        &&& <T as PartialOrdSpec>::obeys_partial_cmp_spec()
        &&& forall|x: T, y: T| #[trigger] x.partial_cmp_spec(&y) is Some
    }

    open spec fn partial_cmp_spec(&self, other: &Self) -> Option<Ordering> {
        head_order(self@[0].partial_cmp_spec(&other@[0]))
    }
}

} // verus!
