//! A growable, contiguous sequence container with an explicit capacity
//! policy.
//!
//! [`MyVec`] owns a contiguous backing store and appends elements at the end,
//! growing the store on demand: the first insertion allocates room for four
//! elements, and every later growth event doubles the capacity.  The
//! well-formedness predicate [`MyVec::wf`] pins the capacity to exactly the
//! value the policy prescribes for the current length, so the growth sequence
//! `0, 4, 8, 16, ...` is an invariant of the type, not a convention.

use vstd::prelude::*;

pub mod growth;

verus! {

use crate::growth::{in_growth_sequence, required_capacity};
use crate::growth::{
    lemma_required_capacity_bounds, lemma_required_capacity_minimal,
    lemma_required_capacity_step_full, lemma_required_capacity_step_within,
};

/// A growable, contiguous sequence container.
///
/// The view of a `MyVec` is the sequence of its live elements in insertion
/// order; `spec_capacity` is the number of element slots currently backing
/// them.
pub struct MyVec<T> {
    buf: Vec<T>,
    capacity: usize,
}

impl<T> View for MyVec<T> {
    type V = Seq<T>;

    closed spec fn view(&self) -> Seq<T> {
        self.buf@
    }
}

impl<T> MyVec<T> {
    /// The number of element slots currently backing the container.
    pub closed spec fn spec_capacity(&self) -> nat {
        self.capacity as nat
    }

    /// Well-formed: the capacity is exactly what the growth policy
    /// prescribes for the current length.  Every constructor establishes
    /// this and every operation preserves it.
    pub open spec fn wf(&self) -> bool {
        self.spec_capacity() == required_capacity(self@.len())
    }

    /// Produces an empty container.  Nothing is allocated yet: capacity is
    /// deferred to the first insertion.
    pub fn new() -> (v: Self)
        ensures
            v@ == Seq::<T>::empty(),
            v.spec_capacity() == 0,
            v.wf(),
    {
        MyVec { buf: Vec::new(), capacity: 0 }
    }

    /// Appends `value` as the new last element, growing the backing store if
    /// necessary: the first insertion allocates four slots, an insertion into
    /// a full container doubles the capacity, and any other insertion leaves
    /// the capacity unchanged.
    ///
    /// Zero-sized element types are a contract violation, as is a container
    /// whose live bytes would no longer fit in the maximum signed addressable
    /// range; both are excluded here rather than handled at run time.
    pub fn push(&mut self, value: T)
        requires
            old(self).wf(),
            vstd::layout::size_of::<T>() != 0,
            (old(self)@.len() + 1) * vstd::layout::size_of::<T>() <= isize::MAX,
        ensures
            final(self).wf(),
            final(self)@ == old(self)@.push(value),
            final(self)@.len() == old(self)@.len() + 1,
    {
        proof {
            lemma_required_capacity_bounds(old(self)@.len());
        }
        if self.capacity == 0 {
            self.buf.push(value);
            self.capacity = 4;
        } else if self.buf.len() < self.capacity {
            self.buf.push(value);
            proof {
                lemma_required_capacity_step_within(old(self)@.len());
            }
        } else {
            proof {
                broadcast use vstd::layout::layout_of_primitives;

                vstd::layout::unsigned_int_max_values();
                vstd::layout::signed_int_min_max_values();
                let n = old(self)@.len() as int;
                let sz = vstd::layout::size_of::<T>() as int;
                assert((n + 1) * 1 <= (n + 1) * sz) by (nonlinear_arith)
                    requires
                        sz >= 1,
                        n >= 0,
                ;
                assert(2 * (isize::MAX as int) == usize::MAX as int - 1);
            }
            let new_capacity: usize = self.capacity * 2;
            self.buf.push(value);
            self.capacity = new_capacity;
            proof {
                lemma_required_capacity_step_full(old(self)@.len());
            }
        }
    }

    /// Returns a read-only reference to the element at `index` if it is in
    /// bounds, and nothing otherwise: reading past the current length is an
    /// expected, recoverable outcome, not a fault.
    pub fn get(&self, index: usize) -> (r: Option<&T>)
        ensures
            match r {
                Some(v) => index < self@.len() && *v == self@[index as int],
                None => index >= self@.len(),
            },
    {
        if index >= self.buf.len() {
            return None;
        }
        Some(&self.buf[index])
    }

    /// Returns the current backing capacity.
    pub fn capacity(&self) -> (c: usize)
        ensures
            c == self.spec_capacity(),
    {
        self.capacity
    }

    /// Returns the number of live elements.
    pub fn len(&self) -> (n: usize)
        ensures
            n == self@.len(),
    {
        self.buf.len()
    }
}

/// Growth sequence, as a law of the type: a well-formed container's capacity
/// is the smallest member of `0, 4, 8, 16, 32, ...` that is at least its
/// length, and it is zero exactly when the container is empty.
pub proof fn lemma_capacity_is_minimal<T>(v: &MyVec<T>)
    requires
        v.wf(),
    ensures
        in_growth_sequence(v.spec_capacity()),
        v.spec_capacity() >= v@.len(),
        forall|c: nat| in_growth_sequence(c) && c >= v@.len() ==> c >= v.spec_capacity(),
        v.spec_capacity() == 0 <==> v@.len() == 0,
{
    lemma_required_capacity_minimal(v@.len());
    lemma_required_capacity_bounds(v@.len());
}

/// Relocation preserves contents: an insertion into a full container — a
/// growth event, which moves the backing store — leaves every previously
/// inserted element readable at its original index with unchanged value, and
/// places the new element after them.
pub proof fn lemma_growth_preserves_contents<T>(pre: &MyVec<T>, post: &MyVec<T>, value: T)
    requires
        pre.wf(),
        pre@.len() == pre.spec_capacity(),
        post@ == pre@.push(value),
    ensures
        forall|i: int| 0 <= i < pre@.len() ==> post@[i] == pre@[i],
        post@[pre@.len() as int] == value,
        post@.len() == pre@.len() + 1,
{
}

} // verus!
