//! What holds between the operations of the container, proved from the
//! sequences that their contracts speak of.

use crate::array::Array;
use crate::model::{count_kept, kept_places, retained, verdicts};
use vstd::laws_eq::obeys_concrete_eq;
use vstd::prelude::*;
use vstd::std_specs::cmp::PartialEqSpec;

verus! {

/// A push followed by a pop gives back the value pushed and leaves the live
/// elements as they were before the push.
pub proof fn push_then_pop<T, const L: usize>(c: Array<T, L>, v: T)
    requires
        c@.len() < L,
    ensures
        c@.push(v).len() == c@.len() + 1,
        c@.push(v).last() == v,
        c@.push(v).drop_last() == c@,
{
}

/// An insert at a place followed by a remove at the same place gives back the
/// value inserted and leaves the live elements as they were before the insert.
pub proof fn insert_then_remove<T, const L: usize>(c: Array<T, L>, i: int, v: T)
    requires
        0 <= i <= c@.len(),
        c@.len() < L,
    ensures
        c@.insert(i, v).len() == c@.len() + 1,
        c@.insert(i, v)[i] == v,
        c@.insert(i, v).remove(i) == c@,
{
}

/// After an append the first live elements are those that were there, and
/// the ones behind them are those of the other container.
pub proof fn append_keeps_both<T, const L: usize, const M: usize>(a: Array<T, L>, b: Array<T, M>)
    requires
        a@.len() + b@.len() <= L,
    ensures
        (a@ + b@).len() == a@.len() + b@.len(),
        (a@ + b@).take(a@.len() as int) == a@,
        (a@ + b@).skip(a@.len() as int) == b@,
{
}

/// A truncation to fewer elements than are live leaves that many, each the
/// element that was at its place.
pub proof fn truncate_keeps_front<T, const L: usize>(c: Array<T, L>, n: int)
    requires
        0 <= n < c@.len(),
    ensures
        c@.take(n).len() == n,
        forall|i: int| 0 <= i < n ==> c@.take(n)[i] == c@[i],
{
}

/// The places that a filter keeps rise strictly, lie inside the sequence, and
/// are exactly the places whose answer was true.
pub proof fn kept_places_rise(keep: Seq<bool>)
    ensures
        kept_places(keep).len() == count_kept(keep),
        forall|j: int|
            0 <= j < kept_places(keep).len() ==> 0 <= #[trigger] kept_places(keep)[j] < keep.len()
                && keep[kept_places(keep)[j]],
        forall|j: int, k: int|
            0 <= j < k < kept_places(keep).len() ==> kept_places(keep)[j] < kept_places(keep)[k],
        forall|i: int|
            0 <= i < keep.len() && keep[i] ==> exists|j: int|
                0 <= j < kept_places(keep).len() && kept_places(keep)[j] == i,
    decreases keep.len(),
{
    if keep.len() > 0 {
        let front = keep.drop_last();
        kept_places_rise(front);
        let places = kept_places(keep);
        assert forall|i: int| 0 <= i < keep.len() && keep[i] implies exists|j: int|
            0 <= j < places.len() && places[j] == i by {
            if i < keep.len() - 1 {
                assert(front[i]);
                let j = choose|j: int| 0 <= j < kept_places(front).len() && kept_places(front)[j] == i;
                assert(places[j] == i);
            } else {
                assert(places[places.len() - 1] == i);
            }
        }
    }
}

/// A filter keeps as many elements as there were true answers, and its
/// element at each place is the element that stood at the kept place of that
/// number: no element is added, moved past another, or changed.
pub proof fn filter_keeps_order<T>(s: Seq<T>, keep: Seq<bool>)
    requires
        keep.len() == s.len(),
    ensures
        retained(s, keep).len() == count_kept(keep),
        retained(s, keep).len() == kept_places(keep).len(),
        forall|j: int|
            0 <= j < retained(s, keep).len() ==> #[trigger] retained(s, keep)[j]
                == s[kept_places(keep)[j]],
    decreases s.len(),
{
    if s.len() > 0 {
        filter_keeps_order(s.drop_last(), keep.drop_last());
        kept_places_rise(keep.drop_last());
    }
}

/// Where the predicate of a filter answers as the function `p` does, the
/// filter keeps exactly the elements that satisfy `p`, in their order.
pub proof fn filter_agrees_with<T, F: FnMut(&T) -> bool>(
    predicate: F,
    p: spec_fn(T) -> bool,
    s: Seq<T>,
    keep: Seq<bool>,
)
    requires
        verdicts(predicate, s, keep),
        forall|x: T, yes: bool| call_ensures(predicate, (&x,), yes) ==> yes == p(x),
    ensures
        retained(s, keep) == s.filter(p),
        retained(s, keep).len() == count_kept(keep),
    decreases s.len(),
{
    reveal(Seq::filter);
    filter_keeps_order(s, keep);
    if s.len() > 0 {
        filter_agrees_with(predicate, p, s.drop_last(), keep.drop_last());
    }
}

/// A container whose live elements are each equal to themselves is equal to
/// itself.
pub proof fn eq_reflexive<T: Copy + Default + PartialEq, const L: usize>(a: Array<T, L>)
    requires
        forall|i: int| 0 <= i < a@.len() ==> (#[trigger] a@[i]).eq_spec(&a@[i]),
    ensures
        a.eq_spec(&a),
{
}

/// Where the equality of the elements at each place does not depend on the
/// side an element stands on, neither does the equality of the two containers.
pub proof fn eq_symmetric<T: Copy + Default + PartialEq, const L: usize, const X: usize>(
    a: Array<T, L>,
    b: Array<T, X>,
)
    requires
        forall|i: int|
            0 <= i < a@.len() && i < b@.len() ==> ((#[trigger] a@[i]).eq_spec(&b@[i]) <==> (
            #[trigger] b@[i]).eq_spec(&a@[i])),
    ensures
        a.eq_spec(&b) <==> b.eq_spec(&a),
{
}

/// Two containers are equal if and only if their live elements are the same
/// sequence, whatever their capacities, where the equality of the elements is
/// that of the values.
pub proof fn eq_by_content<T: Copy + Default + PartialEq, const L: usize, const X: usize>(
    a: Array<T, L>,
    b: Array<T, X>,
)
    requires
        obeys_concrete_eq::<T>(),
    ensures
        a.eq_spec(&b) <==> a@ == b@,
{
    reveal(obeys_concrete_eq);
    if a.eq_spec(&b) {
        assert(a@ =~= b@);
    }
}

} // verus!
