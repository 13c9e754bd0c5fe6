//! Equality of two containers, whatever their capacities: the same number of
//! live elements, and equal elements at each place.

use crate::array::Array;
use vstd::prelude::*;
use vstd::std_specs::cmp::{PartialEqSpec, PartialEqSpecImpl};

verus! {

/// `a` and `b` have the same length and, place by place, elements that the
/// equality of `T` takes for equal.
pub open spec fn same_content<T: PartialEq>(a: Seq<T>, b: Seq<T>) -> bool {
    &&& a.len() == b.len()
    &&& forall|i: int| 0 <= i < a.len() ==> (#[trigger] a[i]).eq_spec(&b[i])
}

impl<T: Copy + Default + PartialEq, const L: usize, const X: usize> PartialEqSpecImpl<
    Array<T, X>,
> for Array<T, L> {
    open spec fn obeys_eq_spec() -> bool {
        <T as PartialEqSpec>::obeys_eq_spec()
    }

    open spec fn eq_spec(&self, other: &Array<T, X>) -> bool {
        same_content(self@, other@)
    }
}

impl<T: Copy + Default + PartialEq, const L: usize, const X: usize> PartialEq<
    Array<T, X>,
> for Array<T, L> {
    /// Whether the two containers have the same content. Where the equality
    /// of `T` is what its model says, so is this one.
    fn eq(&self, other: &Array<T, X>) -> (r: bool) {
        let a = self.as_slice();
        let b = other.as_slice();
        let n = a.len();
        if n != b.len() {
            return false;
        }
        let mut i: usize = 0;
        while i < n
            invariant
                a@ == self@,
                b@ == other@,
                n == a@.len(),
                n == b@.len(),
                i <= n,
                <T as PartialEqSpec>::obeys_eq_spec() ==> same_content(
                    a@.take(i as int),
                    b@.take(i as int),
                ),
            decreases n - i,
        {
            if a[i] != b[i] {
                return false;
            }
            i += 1;
        }
        assert(a@.take(n as int) =~= a@ && b@.take(n as int) =~= b@);
        true
    }
}

impl<T: Copy + Default + PartialEq, const L: usize> Eq for Array<T, L> {

}

} // verus!
