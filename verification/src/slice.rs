//! Extensions to the slice type.

use core::hash::Hash;
use vstd::prelude::*;

verus! {

/// Whether a sequence holds the same element at two distinct positions.
pub open spec fn has_dup_in<T>(s: Seq<T>) -> bool {
    exists|i: int, j: int| 0 <= i < j < s.len() && s[i] == s[j]
}

/// Extension trait for slices.
pub trait SliceExt<T> {
    /// The elements held, as a sequence.
    spec fn elements(&self) -> Seq<T>;

    /// Checks whether the slice contains duplicate elements: `true` when
    /// some element occurs at two distinct positions, `false` when all
    /// elements are unique. The empty slice and a single element have no
    /// duplicates.
    ///
    /// The answer is exact whenever the element type's equality agrees with
    /// logical equality, as it does for the primitive types.
    fn has_dup(&self) -> (r: bool) where T: Hash + Eq
        ensures
            vstd::laws_eq::obeys_concrete_eq::<T>() ==> (r <==> has_dup_in(self.elements())),
    ;
}

impl<T> SliceExt<T> for [T] {
    open spec fn elements(&self) -> Seq<T> {
        self@
    }

    fn has_dup(&self) -> (r: bool) where T: Hash + Eq {
        let n = self.len();
        let mut i: usize = 0;
        while i < n
            invariant
                0 <= i <= n,
                n == self@.len(),
                vstd::laws_eq::obeys_concrete_eq::<T>() ==> !has_dup_in(self@.take(i as int)),
            decreases n - i,
        {
            let mut j: usize = 0;
            while j < i
                invariant
                    0 <= j <= i < n,
                    n == self@.len(),
                    vstd::laws_eq::obeys_concrete_eq::<T>() ==> forall|k: int|
                        0 <= k < j ==> !(self@[k] == self@[i as int]),
                decreases i - j,
            {
                if self[j].eq(&self[i]) {
                    proof {
                        reveal(vstd::laws_eq::obeys_concrete_eq);
                        if vstd::laws_eq::obeys_concrete_eq::<T>() {
                            assert(self@[j as int] == self@[i as int]);
                            assert(has_dup_in(self@));
                        }
                    }
                    return true;
                }
                proof {
                    reveal(vstd::laws_eq::obeys_concrete_eq);
                }
                j += 1;
            }
            proof {
                if vstd::laws_eq::obeys_concrete_eq::<T>() {
                    assert forall|p: int, q: int|
                        0 <= p < q < i + 1 implies !(#[trigger] self@.take(i + 1)[p]
                            == #[trigger] self@.take(i + 1)[q]) by {
                        if q < i {
                            assert(!has_dup_in(self@.take(i as int)));
                            assert(self@.take(i as int)[p] == self@.take(i + 1)[p]);
                            assert(self@.take(i as int)[q] == self@.take(i + 1)[q]);
                            assert(!(self@.take(i as int)[p] == self@.take(i as int)[q]));
                        } else {
                            assert(!(self@[p] == self@[i as int]));
                        }
                    }
                    assert(!has_dup_in(self@.take(i + 1)));
                }
            }
            i += 1;
        }
        proof {
            if vstd::laws_eq::obeys_concrete_eq::<T>() {
                assert(self@.take(i as int) =~= self@);
            }
        }
        false
    }
}

} // verus!
