//! Equality of containers: by their contents, element for element.

use vstd::prelude::*;
use vstd::std_specs::cmp::PartialEqSpec;
use crate::array::Array;
use crate::tag::ArrayType;

verus! {

impl<T: ArrayType> PartialEq for Array<T> {
    /// Whether two containers hold equal elements in the same order,
    /// whatever room each has reserved.
    fn eq(&self, other: &Self) -> (b: bool) {
        let left = self.as_slice();
        let right = other.as_slice();
        if left.len() != right.len() {
            return false;
        }
        let mut i: usize = 0;
        while i < left.len()
            invariant
                i <= left@.len(),
                left@ == self@,
                right@ == other@,
                left@.len() == right@.len(),
                forall|j: int| 0 <= j < i ==> left@[j] == right@[j],
            decreases left@.len() - i,
        {
            if !left[i].same(&right[i]) {
                return false;
            }
            i += 1;
        }
        assert(left@ =~= right@);
        true
    }
}

impl<T: ArrayType> vstd::std_specs::cmp::PartialEqSpecImpl for Array<T> {
    open spec fn obeys_eq_spec() -> bool {
        true
    }

    open spec fn eq_spec(&self, other: &Self) -> bool {
        self@ == other@
    }
}

/// A container equals the copy that `clone` has just made of it, and any
/// other container with the same contents.
pub proof fn law_same_contents_are_equal<T: ArrayType>(a: &Array<T>, c: &Array<T>)
    requires
        c@ == a@,
    ensures
        a.eq_spec(c),
        c.eq_spec(a),
{
}

} // verus!
