//! A counter that cannot leave the range `0..=L`.

use vstd::prelude::*;

verus! {

/// A length that never exceeds `L`.
pub(crate) struct Bounded<const L: usize> {
    n: usize,
}

impl<const L: usize> Bounded<L> {
    #[verifier::type_invariant]
    spec fn within(self) -> bool {
        self.n <= L
    }

    /// The number held.
    pub closed spec fn view(&self) -> nat {
        self.n as nat
    }

    /// The length `n`, which the caller knows to be in range.
    pub fn new(n: usize) -> (r: Self)
        requires
            n <= L,
        ensures
            r@ == n,
    {
        Bounded { n }
    }

    /// The number held, which is in range.
    pub fn get(&self) -> (n: usize)
        ensures
            n == self@,
            n <= L,
    {
        proof {
            use_type_invariant(self);
        }
        self.n
    }
}

impl<const L: usize> Clone for Bounded<L> {
    /// The same length again.
    fn clone(&self) -> (r: Self)
        ensures
            r == *self,
    {
        *self
    }
}

impl<const L: usize> Copy for Bounded<L> {

}

} // verus!
