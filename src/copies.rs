//! Deep copies of the declarative records, and what it means for one value
//! to be a copy of another.

use vstd::prelude::*;

verus! {

/// A record that can be copied field by field, callables and values behind
/// shared handles being shared rather than duplicated.
pub trait DeepCopy: Sized {
    /// `self` holds, field by field, what `source` holds.
    spec fn is_copy_of(&self, source: Self) -> bool;

    /// A copy of `self`.
    fn deep_copy(&self) -> (r: Self)
        ensures
            r.is_copy_of(*self),
    ;
}

/// `copies` holds, slot by slot, copies of the records of `sources`.
pub open spec fn all_copies<T: DeepCopy>(copies: Seq<T>, sources: Seq<T>) -> bool {
    &&& copies.len() == sources.len()
    &&& forall|i: int| 0 <= i < copies.len() ==> #[trigger] copies[i].is_copy_of(sources[i])
}

/// Copies every record of `v`, in order.
pub fn copy_all<T: DeepCopy>(v: &Vec<T>) -> (r: Vec<T>)
    ensures
        all_copies(r@, v@),
{
    let mut r: Vec<T> = Vec::new();
    let mut i: usize = 0;
    while i < v.len()
        invariant
            i <= v.len(),
            r.len() == i,
            forall|j: int| 0 <= j < i ==> #[trigger] r@[j].is_copy_of(v@[j]),
        decreases v.len() - i,
    {
        r.push(v[i].deep_copy());
        i += 1;
    }
    r
}

} // verus!
