//! Mathematical vocabulary shared by the contracts of the container.

use vstd::prelude::*;

verus! {

/// `v` is a value that `T::default()` may return.
pub open spec fn is_default<T: Default>(v: T) -> bool {
    call_ensures(T::default, (), v)
}

/// Every slot of `s` from `from` on holds a default value.
pub open spec fn default_from<T: Default>(s: Seq<T>, from: int) -> bool {
    forall|i: int| from <= i < s.len() ==> is_default(#[trigger] s[i])
}

/// The elements of `s` whose entry in `keep` is true, in their order in `s`.
pub open spec fn retained<T>(s: Seq<T>, keep: Seq<bool>) -> Seq<T>
    recommends
        keep.len() == s.len(),
    decreases s.len(),
{
    if s.len() == 0 {
        Seq::empty()
    } else {
        let before = retained(s.drop_last(), keep.drop_last());
        if keep.last() {
            before.push(s.last())
        } else {
            before
        }
    }
}

/// `keep` holds, for each element of `s` in turn, an answer that `predicate`
/// may give for it.
pub open spec fn verdicts<T, F: FnMut(&T) -> bool>(predicate: F, s: Seq<T>, keep: Seq<bool>) -> bool {
    &&& keep.len() == s.len()
    &&& forall|i: int| 0 <= i < s.len() ==> call_ensures(predicate, (&s[i],), #[trigger] keep[i])
}

/// `f` may be called on every element of `s`.
pub open spec fn accepts<T, R, F: FnMut(&T) -> R>(f: F, s: Seq<T>) -> bool {
    forall|i: int| 0 <= i < s.len() ==> call_requires(f, (&#[trigger] s[i],))
}

/// The number of true entries of `keep`.
pub open spec fn count_kept(keep: Seq<bool>) -> nat
    decreases keep.len(),
{
    if keep.len() == 0 {
        0
    } else if keep.last() {
        count_kept(keep.drop_last()) + 1
    } else {
        count_kept(keep.drop_last())
    }
}

/// The places of the true entries of `keep`, in rising order.
pub open spec fn kept_places(keep: Seq<bool>) -> Seq<int>
    decreases keep.len(),
{
    if keep.len() == 0 {
        Seq::empty()
    } else if keep.last() {
        kept_places(keep.drop_last()).push(keep.len() - 1)
    } else {
        kept_places(keep.drop_last())
    }
}

} // verus!
