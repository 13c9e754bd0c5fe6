//! The container: an array of `L` slots of which the first `len` are live.

use crate::block::{copy_into, move_within, moved, overwritten};
use crate::bounded::Bounded;
use crate::laws::filter_agrees_with;
use crate::model::{accepts, default_from, is_default, retained, verdicts};
use vstd::prelude::*;
use vstd::slice::{slice_subrange, slice_to_vec};

verus! {

/// A sequence of at most `L` elements, held inline.
///
/// All `L` slots hold a value of `T` at all times. The first `len` of them are
/// the live elements; what the others hold has no meaning, but every operation
/// says what becomes of them.
pub struct Array<T, const L: usize> {
    data: [T; L],
    len: Bounded<L>,
}

impl<T, const L: usize> View for Array<T, L> {
    type V = Seq<T>;

    /// The live elements, in order.
    closed spec fn view(&self) -> Seq<T> {
        self.data@.take(self.len@ as int)
    }
}

impl<T, const L: usize> Array<T, L> {
    /// All `L` slots of the storage, live or not.
    pub closed spec fn slots(&self) -> Seq<T> {
        self.data@
    }

    /// The live elements are the first slots of the storage, and there are
    /// `L` slots.
    pub open spec fn wf(&self) -> bool {
        &&& self.slots().len() == L
        &&& self@.len() <= L
        &&& self@ == self.slots().take(self@.len() as int)
    }
}

impl<T: Copy, const L: usize> Clone for Array<T, L> {
    /// A copy of the container, slot for slot.
    fn clone(&self) -> (r: Self)
        ensures
            r == *self,
    {
        *self
    }
}

impl<T: Copy, const L: usize> Copy for Array<T, L> {

}

impl<T: Default + Copy, const L: usize> Default for Array<T, L> {
    /// The empty container: no live element, every slot a default value.
    fn default() -> (r: Self)
        ensures
            r@ == Seq::<T>::empty(),
            r.slots().len() == L,
            default_from(r.slots(), 0),
    {
        Self { data: [T::default(); L], len: Bounded::new(0) }
    }
}

impl<T: Copy + Default, const L: usize> Array<T, L> {
    /// The container that holds exactly the elements of `arr`: its capacity
    /// is their number.
    pub fn new(arr: [T; L]) -> (r: Self)
        ensures
            r@ == arr@,
            r.slots() == arr@,
    {
        Self { data: arr, len: Bounded::new(L) }
    }

    /// The container of capacity `L` whose live elements are those of `arr`;
    /// the slots behind them hold default values.
    pub fn from(arr: &[T]) -> (r: Self)
        requires
            arr@.len() <= L,
        ensures
            r@ == arr@,
            r.slots().len() == L,
            r.slots().take(arr@.len() as int) == arr@,
            default_from(r.slots(), arr@.len() as int),
    {
        let mut s = Self { data: [T::default(); L], len: Bounded::new(arr.len()) };
        copy_into(&mut s.data, 0, arr);
        s
    }

    /// The number of live elements, with what the representation says of it.
    fn live(&self) -> (n: usize)
        ensures
            n == self.len@,
            n == self@.len(),
            n <= L,
            self.data@.len() == L,
    {
        self.len.get()
    }

    /// The number of live elements.
    pub fn len(&self) -> (n: usize)
        ensures
            n == self@.len(),
            self.wf(),
    {
        self.live()
    }

    /// Makes the first `len` slots the live elements, whatever they hold.
    pub fn set_len(&mut self, len: usize)
        requires
            len <= L,
        ensures
            final(self).slots() == old(self).slots(),
            final(self)@ == old(self).slots().take(len as int),
    {
        self.len = Bounded::new(len);
    }

    /// The whole storage.
    pub fn buf(&self) -> (r: &[T; L])
        ensures
            r@ == self.slots(),
            self.wf(),
    {
        let _ = self.len();
        &self.data
    }

    /// The whole storage, open to writing. The number of live elements stays
    /// as it is.
    pub fn buf_mut(&mut self) -> (r: &mut [T; L])
        ensures
            r@ == old(self).slots(),
            final(self).slots() == final(r)@,
            final(self)@ == final(r)@.take(old(self)@.len() as int),
    {
        let _ = self.live();
        &mut self.data
    }

    /// The number of slots.
    pub fn capacity(&self) -> (r: usize)
        ensures
            r == L,
    {
        L
    }

    /// Whether no element is live.
    pub fn is_empty(&self) -> (r: bool)
        ensures
            r == (self@.len() == 0),
    {
        self.live() == 0
    }

    /// The live element at `index`, if there is one.
    pub fn get(&self, index: usize) -> (r: Option<&T>)
        ensures
            index < self@.len() ==> r == Some(&self@[index as int]),
            index >= self@.len() ==> r.is_none(),
    {
        if index >= self.live() {
            None
        } else {
            Some(&self.data[index])
        }
    }

    /// The live element at `index`, open to writing, if there is one. What is
    /// written lands in that slot and nowhere else.
    pub fn get_mut(&mut self, index: usize) -> (r: Option<&mut T>)
        ensures
            index >= old(self)@.len() ==> r.is_none() && *final(self) == *old(self),
            index < old(self)@.len() ==> ({
                &&& r.is_some()
                &&& *r.unwrap() == old(self)@[index as int]
                &&& final(self)@ == old(self)@.update(index as int, *final(r.unwrap()))
                &&& final(self).slots() == old(self).slots().update(index as int, *final(r.unwrap()))
            }),
    {
        if index >= self.live() {
            None
        } else {
            Some(self.get_unchecked_mut(index))
        }
    }

    /// The live element at `index`, which the caller knows to exist.
    pub fn get_unchecked(&self, index: usize) -> (r: &T)
        requires
            index < self@.len(),
        ensures
            *r == self@[index as int],
    {
        let _ = self.live();
        &self.data[index]
    }

    /// The live element at `index`, which the caller knows to exist, open to
    /// writing.
    pub fn get_unchecked_mut(&mut self, index: usize) -> (r: &mut T)
        requires
            index < old(self)@.len(),
        ensures
            *r == old(self)@[index as int],
            final(self)@ == old(self)@.update(index as int, *final(r)),
            final(self).slots() == old(self).slots().update(index as int, *final(r)),
    {
        let _ = self.live();
        &mut self.data[index]
    }

    /// The last live element, if there is one.
    pub fn last(&self) -> (r: Option<&T>)
        ensures
            self@.len() > 0 ==> r == Some(&self@.last()),
            self@.len() == 0 ==> r.is_none(),
    {
        let n = self.live();
        if n > 0 {
            Some(self.get_unchecked(n - 1))
        } else {
            None
        }
    }

    /// The last live element, open to writing, if there is one.
    pub fn last_mut(&mut self) -> (r: Option<&mut T>)
        ensures
            old(self)@.len() == 0 ==> r.is_none() && *final(self) == *old(self),
            old(self)@.len() > 0 ==> ({
                let at = old(self)@.len() - 1;
                &&& r.is_some()
                &&& *r.unwrap() == old(self)@.last()
                &&& final(self)@ == old(self)@.update(at, *final(r.unwrap()))
                &&& final(self).slots() == old(self).slots().update(at, *final(r.unwrap()))
            }),
    {
        let n = self.live();
        if n > 0 {
            Some(self.get_unchecked_mut(n - 1))
        } else {
            None
        }
    }

    /// The first live element, if there is one.
    pub fn first(&self) -> (r: Option<&T>)
        ensures
            self@.len() > 0 ==> r == Some(&self@.first()),
            self@.len() == 0 ==> r.is_none(),
    {
        self.get(0)
    }

    /// The first live element, open to writing, if there is one.
    pub fn first_mut(&mut self) -> (r: Option<&mut T>)
        ensures
            old(self)@.len() == 0 ==> r.is_none() && *final(self) == *old(self),
            old(self)@.len() > 0 ==> ({
                &&& r.is_some()
                &&& *r.unwrap() == old(self)@.first()
                &&& final(self)@ == old(self)@.update(0, *final(r.unwrap()))
                &&& final(self).slots() == old(self).slots().update(0, *final(r.unwrap()))
            }),
    {
        self.get_mut(0)
    }

    /// The live elements as a slice.
    pub fn as_slice(&self) -> (r: &[T])
        ensures
            r@ == self@,
    {
        slice_subrange(self.data.as_slice(), 0, self.live())
    }

    /// The live elements as a slice, open to writing. The slots behind them
    /// are out of its reach.
    pub fn as_mut_slice(&mut self) -> (r: &mut [T])
        ensures
            r@ == old(self)@,
            final(r)@.len() == old(self)@.len(),
            final(self)@ == final(r)@,
            final(self).slots() == final(r)@ + old(self).slots().skip(old(self)@.len() as int),
    {
        let n = self.live();
        let ghost after = final(self).data@;
        assert(after.len() == L);
        let whole: &mut [T] = &mut self.data;
        let (head, _tail) = whole.split_at_mut(n);
        head
    }

    /// The live elements, copied into a vector.
    pub fn as_vec(&self) -> (r: Vec<T>)
        ensures
            r@ == self@,
    {
        slice_to_vec(self.as_slice())
    }
}

impl<T: Copy + Default, const L: usize> Array<T, L> {
    /// Appends `val` behind the live elements.
    pub fn push(&mut self, val: T)
        requires
            old(self)@.len() < L,
        ensures
            final(self)@ == old(self)@.push(val),
            final(self).slots() == old(self).slots().update(old(self)@.len() as int, val),
    {
        let n = self.live();
        self.data[n] = val;
        self.len = Bounded::new(n + 1);
    }

    /// Takes the last live element out, if there is one, and leaves a default
    /// value in its slot.
    pub fn pop(&mut self) -> (r: Option<T>)
        ensures
            old(self)@.len() == 0 ==> r.is_none() && *final(self) == *old(self),
            old(self)@.len() > 0 ==> ({
                let at = old(self)@.len() - 1;
                let left = final(self).slots()[at];
                &&& r == Some(old(self)@.last())
                &&& final(self)@ == old(self)@.drop_last()
                &&& is_default(left)
                &&& final(self).slots() == old(self).slots().update(at, left)
            }),
    {
        let n = self.live();
        if n == 0 {
            return None;
        }
        let last = self.data[n - 1];
        self.data[n - 1] = T::default();
        self.len = Bounded::new(n - 1);
        Some(last)
    }

    /// Appends the live elements of `other` behind those of `self`.
    pub fn append<const M: usize>(&mut self, other: &Array<T, M>)
        requires
            old(self)@.len() + other@.len() <= L,
        ensures
            final(self)@ == old(self)@ + other@,
            final(self).slots() == overwritten(old(self).slots(), old(self)@.len() as int, other@),
    {
        self.append_slice(other.as_slice())
    }

    /// Appends the elements of `other` behind the live elements.
    pub fn append_slice(&mut self, other: &[T])
        requires
            old(self)@.len() + other@.len() <= L,
        ensures
            final(self)@ == old(self)@ + other@,
            final(self).slots() == overwritten(old(self).slots(), old(self)@.len() as int, other@),
    {
        let n = self.live();
        copy_into(&mut self.data, n, other);
        self.len = Bounded::new(n + other.len());
    }

    /// Keeps the first `len` live elements and lets the others go; with no
    /// more than `len` of them, nothing changes. The storage is not touched.
    pub fn truncate(&mut self, len: usize)
        ensures
            final(self).slots() == old(self).slots(),
            len >= old(self)@.len() ==> *final(self) == *old(self),
            len < old(self)@.len() ==> final(self)@ == old(self)@.take(len as int),
    {
        let n = self.live();
        if len >= n {
            return;
        }
        self.len = Bounded::new(len);
    }

    /// Lets every live element go. The storage is not touched.
    pub fn clear(&mut self)
        ensures
            final(self)@ == Seq::<T>::empty(),
            final(self).slots() == old(self).slots(),
    {
        self.len = Bounded::new(0);
    }

    /// Puts `element` at `index` and moves the live elements from there on
    /// one slot to the right.
    pub fn insert(&mut self, index: usize, element: T)
        requires
            index <= old(self)@.len(),
            old(self)@.len() < L,
        ensures
            final(self)@ == old(self)@.insert(index as int, element),
            final(self).slots() == moved(
                old(self).slots(),
                index as int,
                index + 1,
                old(self)@.len() - index,
            ).update(index as int, element),
    {
        let n = self.live();
        if index < n {
            move_within(&mut self.data, index, index + 1, n - index);
        }
        self.data[index] = element;
        self.len = Bounded::new(n + 1);
    }

    /// Takes the live element at `index` out and moves the live elements
    /// behind it one slot to the left. The slot that was the last live one
    /// keeps its value.
    pub fn remove(&mut self, index: usize) -> (r: T)
        requires
            index < old(self)@.len(),
        ensures
            r == old(self)@[index as int],
            final(self)@ == old(self)@.remove(index as int),
            final(self).slots() == moved(
                old(self).slots(),
                index + 1,
                index as int,
                old(self)@.len() - index - 1,
            ),
    {
        let n = self.live();
        let taken = self.data[index];
        move_within(&mut self.data, index + 1, index, n - index - 1);
        self.len = Bounded::new(n - 1);
        taken
    }
}

impl<T: Copy + Default, const L: usize> Array<T, L> {
    /// The container that keeps, in their order, the live elements for which
    /// `predicate` answers true. They are moved to the front of the storage;
    /// the slots behind them are as they were.
    pub fn filter(self, mut predicate: impl FnMut(&T) -> bool) -> (r: Self)
        requires
            accepts(predicate, self@),
        ensures
            exists|keep: Seq<bool>| #[trigger]
                verdicts(predicate, self@, keep) && r@ == retained(self@, keep),
            r.slots() == overwritten(self.slots(), 0, r@),
            forall|p: spec_fn(T) -> bool|
                (forall|x: T, yes: bool| call_ensures(predicate, (&x,), yes) ==> yes == p(x))
                    ==> r@ == #[trigger] self@.filter(p),
    {
        let ghost asked = predicate;
        let mut this = self;
        let n = this.live();
        let ghost mut keep = Seq::<bool>::empty();
        let mut j: usize = 0;
        let mut i: usize = 0;
        while i < n
            invariant
                n == self.len@,
                n <= L,
                self.data@.len() == L,
                j <= i <= n,
                predicate == asked,
                accepts(predicate, self@),
                verdicts(predicate, self@.take(i as int), keep),
                this.data@.take(j as int) == retained(self@.take(i as int), keep),
                forall|k: int| j <= k < L ==> this.data@[k] == self.data@[k],
            decreases n - i,
        {
            let elt = this.data[i];
            assert(elt == self@[i as int]);
            let yes = predicate(&elt);
            if yes {
                this.data[j] = elt;
                j += 1;
            }
            i += 1;
            proof {
                let before = keep;
                keep = keep.push(yes);
                assert(keep.drop_last() =~= before);
                assert(self@.take(i as int).drop_last() =~= self@.take(i - 1));
            }
        }
        this.len = Bounded::new(j);
        proof {
            assert(self@.take(n as int) =~= self@);
            assert forall|p: spec_fn(T) -> bool|
                (forall|x: T, yes: bool| call_ensures(predicate, (&x,), yes) ==> yes == p(x))
                    implies retained(self@, keep) == #[trigger] self@.filter(p) by {
                filter_agrees_with(predicate, p, self@, keep);
            }
        }
        this
    }

    /// The container whose live elements are what `f` makes of the live
    /// elements of `self`, one for one and in their order; the slots behind
    /// them hold default values.
    pub fn map<X: Copy + Default>(self, mut f: impl FnMut(&T) -> X) -> (r: Array<X, L>)
        requires
            accepts(f, self@),
        ensures
            r@.len() == self@.len(),
            forall|i: int| 0 <= i < self@.len() ==> call_ensures(f, (&self@[i],), #[trigger] r@[i]),
            forall|g: spec_fn(T) -> X|
                (forall|x: T, y: X| call_ensures(f, (&x,), y) ==> y == g(x)) ==> r@
                    == #[trigger] self@.map_values(g),
            r.slots().len() == L,
            default_from(r.slots(), self@.len() as int),
    {
        let ghost asked = f;
        let mut copy = Array::<X, L>::default();
        let n = self.live();
        let mut i: usize = 0;
        while i < n
            invariant
                n == self.len@,
                n <= L,
                i <= n,
                self.data@.len() == L,
                copy.data@.len() == L,
                f == asked,
                accepts(f, self@),
                forall|k: int| 0 <= k < i ==> call_ensures(f, (&self@[k],), #[trigger] copy.data@[k]),
                default_from(copy.data@, i as int),
            decreases n - i,
        {
            let elt = self.data[i];
            assert(elt == self@[i as int]);
            copy.data[i] = f(&elt);
            i += 1;
        }
        copy.len = Bounded::new(n);
        copy
    }
}

} // verus!
