//! Extension points for range-minimum/maximum queries.  These types only
//! reserve the API surface: a sparse table and a segment tree would need
//! their own preprocessing and query design, separate from the prefix-sum
//! contract, whose combine operation (subtraction) is not idempotent and
//! does not generalise to min/max.  No query logic is provided here.

use core::marker::PhantomData;
use vstd::prelude::*;

verus! {

use crate::element::Element;

/// Policy marker selecting range-maximum behaviour.
pub struct Max;

/// Policy marker selecting range-minimum behaviour.
pub struct Min;

/// Reserved storage for a sparse-table range query over a fixed-size
/// array: `M` levels of precomputed answers over `N` elements.
#[derive(Clone, Copy, PartialEq, Eq, PartialOrd, Ord)]
pub struct SparseTableFixed<T, const N: usize, const M: usize> {
    data: [T; N],
    answers: [[T; N]; M],
}

impl<T: Element, const N: usize, const M: usize> SparseTableFixed<T, N, M> {
    /// Stores the source; the answer levels are left zero-initialised,
    /// since no query surface is exposed over them.
    pub fn new(data: [T; N]) -> Self {
        let answers: [[T; N]; M] = [[T::zero(); N]; M];
        SparseTableFixed { data, answers }
    }
}

/// Reserved marker for a segment-tree backing.
pub struct SegmentTree<T> {
    _phantom: PhantomData<T>,
}

impl<T: Element> SegmentTree<T> {
    /// Produces the marker; no tree is built.
    pub fn new(_data: T) -> Self {
        SegmentTree { _phantom: PhantomData }
    }
}

/// Reserved front type for range-minimum/maximum queries, parametrised
/// over a backing `T`, an element type `T2` and a policy `M`.
#[derive(PartialEq, Eq, PartialOrd, Ord)]
pub struct Rmq<T, T2, M> {
    _phantom: PhantomData<T>,
    _phantom_2: PhantomData<T2>,
    _phantom_3: PhantomData<M>,
}

impl<T, T2, M> Rmq<T, T2, M> {
    /// Produces the front type; no index is built.
    pub fn new(_data: T) -> Self {
        Rmq { _phantom: PhantomData, _phantom_2: PhantomData, _phantom_3: PhantomData }
    }
}

impl<T2: Element, const N: usize> Rmq<[T2; N], T2, Max> {
    /// Reserved query entry point; a backing index would be needed for it
    /// to answer anything.
    pub fn query() {
    }
}

} // verus!
