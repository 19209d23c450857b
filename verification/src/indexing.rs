//! Safe indexing of fixed-length sequences by a bounded index whose upper
//! bound is statically below the sequence length.

use vstd::prelude::*;
use crate::bounded_num::BoundedNum;
use crate::representable::Representable;

verus! {

/// Indexing that trades the usual runtime bounds branch for a static proof
/// obligation at each indexing site.
pub trait SafeGet<T, I> {
    /// When `index` is proven to fall inside the sequence.
    spec fn valid_index(&self, index: I) -> bool;

    /// The position that `index` denotes.
    spec fn index_math(&self, index: I) -> int;

    /// The elements held, as a mathematical sequence.
    spec fn contents(&self) -> Seq<T>;

    /// A reference to the element at `index`; no runtime range check is owed.
    fn get_safe(&self, index: I) -> (r: &T)
        requires
            self.valid_index(index),
        ensures
            0 <= self.index_math(index) < self.contents().len(),
            *r == self.contents()[self.index_math(index)],
    ;

    /// A mutable reference to the element at `index`; a write through it is
    /// seen by every later read at the same position.
    fn get_safe_mut(&mut self, index: I) -> (r: &mut T)
        requires
            old(self).valid_index(index),
        ensures
            0 <= old(self).index_math(index) < old(self).contents().len(),
            *r == old(self).contents()[old(self).index_math(index)],
            final(self).contents() == old(self).contents().update(
                old(self).index_math(index),
                *final(r),
            ),
    ;
}

impl<
    T,
    Min: Representable<usize>,
    Max: Representable<usize>,
    const N: usize,
> SafeGet<T, BoundedNum<usize, Min, Max>> for [T; N] {
    /// The index is within its own declared bounds, and the upper bound is
    /// below the array length; the lower bound carries no obligation.
    open spec fn valid_index(&self, index: BoundedNum<usize, Min, Max>) -> bool {
        index.wf() && Max::value_math() < N
    }

    open spec fn index_math(&self, index: BoundedNum<usize, Min, Max>) -> int {
        index.to_math()
    }

    open spec fn contents(&self) -> Seq<T> {
        self@
    }

    fn get_safe(&self, index: BoundedNum<usize, Min, Max>) -> (r: &T) {
        let i: usize = index.inner();
        &self[i]
    }

    fn get_safe_mut(&mut self, index: BoundedNum<usize, Min, Max>) -> (r: &mut T) {
        let i: usize = index.inner();
        &mut self[i]
    }
}

} // verus!
