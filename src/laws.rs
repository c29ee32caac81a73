use vstd::prelude::*;
use crate::cmp::head_order;
use crate::node::{LinkedNode, pop_value, popped};
use vstd::std_specs::cmp::{PartialEqSpec, PartialOrdSpec};

verus! {

/// The values of a list after pushing each of `vs` in turn.
pub open spec fn pushes<T>(s: Seq<T>, vs: Seq<T>) -> Seq<T>
    decreases vs.len(),
{
    if vs.len() == 0 {
        s
    } else {
        pushes(s.push(vs[0]), vs.drop_first())
    }
}

/// The values of a list after `k` pops.
pub open spec fn pops<T>(s: Seq<T>, k: nat) -> Seq<T>
    decreases k,
{
    if k == 0 {
        s
    } else {
        popped(pops(s, (k - 1) as nat))
    }
}

/// A list made from `v` holds `v` at position 0 and nothing else, and
/// nothing can be popped from it.
pub proof fn law_new<T>(v: T)
    ensures
        seq![v].len() == 1,
        seq![v][0] == v,
        pop_value(seq![v]) is None,
        popped(seq![v]) == seq![v],
{
}

/// Pushing `vs` one by one onto a list appends them in order, so after `N`
/// pushes onto a new list positions `0..=N` can be indexed and `N + 1`
/// cannot.
pub proof fn law_pushes<T>(v: T, vs: Seq<T>)
    ensures
        pushes(seq![v], vs) == seq![v] + vs,
        pushes(seq![v], vs).len() == vs.len() + 1,
{
    lemma_pushes_append(seq![v], vs);
}

proof fn lemma_pushes_append<T>(s: Seq<T>, vs: Seq<T>)
    ensures
        pushes(s, vs) == s + vs,
    decreases vs.len(),
{
    if vs.len() > 0 {
        lemma_pushes_append(s.push(vs[0]), vs.drop_first());
        assert(s.push(vs[0]) + vs.drop_first() =~= s + vs);
    }
}

/// A pop right after a push returns the pushed value and leaves the list
/// as it was before the push.
pub proof fn law_push_then_pop<T>(s: Seq<T>, v: T)
    requires
        s.len() >= 1,
    ensures
        pop_value(s.push(v)) == Some(v),
        popped(s.push(v)) == s,
{
    assert(s.push(v).drop_last() =~= s);
}

/// Popping takes the values off the tail in reverse order of their
/// pushes: the `j`-th pop of a list of `n` values returns the value at
/// position `n - 1 - j`, and `k` pops leave the first `n - k` values.
pub proof fn law_pops_from_tail<T>(s: Seq<T>, k: nat)
    requires
        k < s.len(),
    ensures
        pops(s, k) == s.subrange(0, s.len() - k),
        k + 1 < s.len() ==> pop_value(pops(s, k)) == Some(s[s.len() - 1 - k]),
    decreases k,
{
    if k > 0 {
        law_pops_from_tail(s, (k - 1) as nat);
        assert(s.subrange(0, s.len() - (k - 1)).drop_last() =~= s.subrange(0, s.len() - k));
    }
}

/// Once only the head is left, every further pop returns nothing and
/// leaves the list as it is; pops never fail.
pub proof fn law_pop_at_head<T>(s: Seq<T>, k: nat)
    requires
        s.len() >= 1,
        k + 1 >= s.len(),
    ensures
        pops(s, k) == s.subrange(0, 1),
        pops(s, k) == seq![s[0]],
        pop_value(pops(s, k)) is None,
        popped(pops(s, k)) == pops(s, k),
    decreases k,
{
    if k + 1 == s.len() {
        law_pops_from_tail(s, k);
        assert(s.subrange(0, 1) =~= seq![s[0]]);
    } else {
        law_pop_at_head(s, (k - 1) as nat);
    }
}

/// Writing `x` at position `i` and reading position `i` back gives `x`,
/// with the length and every other position unchanged. Adding `d` in place
/// writes `s[i] + d` through the borrow, so it is this law with `x` the old
/// value plus `d`, as reading then writing is.
pub proof fn law_write_then_read<T>(s: Seq<T>, i: int, x: T)
    requires
        0 <= i < s.len(),
    ensures
        s.update(i, x)[i] == x,
        s.update(i, x).len() == s.len(),
        forall|j: int| 0 <= j < s.len() && j != i ==> s.update(i, x)[j] == s[j],
{
}

/// Equality and order look at the head values alone: two lists whose heads
/// equal those of two others compare as those do, whatever follows the
/// heads. Lists order as their heads do, and as `Equal` when the heads do
/// not compare; where the values are totally ordered, exactly as the heads.
pub proof fn law_compare_heads<T: PartialOrd>(
    a: LinkedNode<T>,
    b: LinkedNode<T>,
    c: LinkedNode<T>,
    d: LinkedNode<T>,
)
    requires
        a@[0] == c@[0],
        b@[0] == d@[0],
    ensures
        a.eq_spec(&b) == c.eq_spec(&d),
        a.partial_cmp_spec(&b) == c.partial_cmp_spec(&d),
        a.eq_spec(&b) == a@[0].eq_spec(&b@[0]),
        a.partial_cmp_spec(&b) == head_order(a@[0].partial_cmp_spec(&b@[0])),
        a.partial_cmp_spec(&b) is Some,
        <LinkedNode<T> as PartialOrdSpec>::obeys_partial_cmp_spec() ==> a.partial_cmp_spec(&b)
            == a@[0].partial_cmp_spec(&b@[0]),
{
    if <LinkedNode<T> as PartialOrdSpec>::obeys_partial_cmp_spec() {
        assert(a@[0].partial_cmp_spec(&b@[0]) is Some);
    }
}

} // verus!
