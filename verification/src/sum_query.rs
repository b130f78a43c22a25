//! A storage-light take on range-sum queries: the structure keeps only the
//! prefix-sum table.  The source sequence is not stored; logically it is
//! recovered from the table as the first entry followed by successive
//! differences, and every query contract speaks of that derived source.

use vstd::prelude::*;

verus! {

use crate::build_table;
use crate::element::{Element, int_seq};
use crate::sums::{
    derived_source,
    lemma_derived_of_table,
    lemma_prefix_sum_first,
    lemma_prefix_sum_step,
    lemma_range_sum_decomposition,
    lemma_table_of_derived,
    prefix_sum,
    range_sum,
};
use crate::table_fits;

/// A range-sum index that stores nothing but its prefix-sum table, kept in
/// the container `T`.
#[derive(Debug, Clone, PartialEq, Eq, PartialOrd, Ord)]
pub struct SumQuery<T> {
    prefix_sum_array: T,
}

/// This trait provides methods required for `SumQuery` types
pub trait IndexableSumQuery<T: Element>: Sized {
    type PrefixSumContainer;

    /// The prefix-sum table the structure holds.
    spec fn pfx(&self) -> Seq<int>;

    /// The logical source sequence the structure answers queries about.
    spec fn source(&self) -> Seq<int>;

    /// The logical contents of a table container.
    spec fn container_pfx(c: &Self::PrefixSumContainer) -> Seq<int>;

    /// Which source lengths this storage can hold.
    spec fn accepts_len(n: nat) -> bool;

    /// The source is determined by the table: first entry, then successive
    /// differences.
    proof fn source_is_derived(&self)
        ensures
            self.source() == derived_source(self.pfx()),
    ;

    /// Construct `Self`
    ///
    /// Algorithmic complexity: O(n)
    fn new(data: &[T]) -> (r: Self)
        requires
            Self::accepts_len(data@.len()),
            table_fits::<T>(int_seq(data@)),
        ensures
            r.pfx().len() == data@.len(),
            forall|i: int|
                0 <= i < data@.len() ==> r.pfx()[i] == prefix_sum(int_seq(data@), i),
            r.source() == int_seq(data@),
    ;

    /// Borrow the underlying prefix-sum table.
    fn prefix_sum_array(&self) -> (r: &Self::PrefixSumContainer)
        ensures
            Self::container_pfx(r) == self.pfx(),
    ;

    /// Query between start range and end range
    ///
    /// Negative querying is not implemented, hence end has to be greater
    /// or equal to start
    fn query(&self, start: usize, end: usize) -> (r: T)
        requires
            start <= end,
            end < self.pfx().len(),
            T::min_v() <= range_sum(self.source(), start as int, end as int) <= T::max_v(),
        ensures
            r.v() == range_sum(self.source(), start as int, end as int),
    ;

    /// Query between start range and end range
    ///
    /// This function elides the branch for when `start` == 0, for callers
    /// who can guarantee a strictly positive start index.
    fn non_zero_query(&self, start: usize, end: usize) -> (r: T)
        requires
            1 <= start <= end,
            end < self.pfx().len(),
            T::min_v() <= range_sum(self.source(), start as int, end as int) <= T::max_v(),
        ensures
            r.v() == range_sum(self.source(), start as int, end as int),
    ;
}

impl<T: Element> IndexableSumQuery<T> for SumQuery<Vec<T>> {
    type PrefixSumContainer = Vec<T>;

    closed spec fn pfx(&self) -> Seq<int> {
        int_seq(self.prefix_sum_array@)
    }

    closed spec fn source(&self) -> Seq<int> {
        derived_source(int_seq(self.prefix_sum_array@))
    }

    open spec fn container_pfx(c: &Vec<T>) -> Seq<int> {
        int_seq(c@)
    }

    open spec fn accepts_len(n: nat) -> bool {
        true
    }

    proof fn source_is_derived(&self) {
    }

    fn new(data: &[T]) -> (r: Self) {
        let prefix_sum_array = build_table(data);
        let r = SumQuery { prefix_sum_array };
        proof {
            lemma_derived_of_table(int_seq(data@), r.pfx());
        }
        r
    }

    fn prefix_sum_array(&self) -> (r: &Vec<T>) {
        &self.prefix_sum_array
    }

    fn query(&self, start: usize, end: usize) -> (r: T) {
        if start == 0 {
            let r = self.prefix_sum_array[end];
            proof {
                assert(r.v() == self.pfx()[end as int]);
                lemma_table_of_derived(self.pfx(), end as int);
            }
            r
        } else {
            self.non_zero_query(start, end)
        }
    }

    fn non_zero_query(&self, start: usize, end: usize) -> (r: T) {
        let hi = self.prefix_sum_array[end];
        let lo = self.prefix_sum_array[start - 1];
        proof {
            assert(hi.v() == self.pfx()[end as int]);
            assert(lo.v() == self.pfx()[start - 1]);
            lemma_table_of_derived(self.pfx(), end as int);
            lemma_table_of_derived(self.pfx(), start - 1);
            lemma_range_sum_decomposition(self.source(), start as int, end as int);
        }
        hi.minus(lo)
    }
}

impl<T: Element, const N: usize> IndexableSumQuery<T> for SumQuery<[T; N]> {
    type PrefixSumContainer = [T; N];

    closed spec fn pfx(&self) -> Seq<int> {
        int_seq(self.prefix_sum_array@)
    }

    closed spec fn source(&self) -> Seq<int> {
        derived_source(int_seq(self.prefix_sum_array@))
    }

    open spec fn container_pfx(c: &[T; N]) -> Seq<int> {
        int_seq(c@)
    }

    open spec fn accepts_len(n: nat) -> bool {
        n == N
    }

    proof fn source_is_derived(&self) {
    }

    fn new(data: &[T]) -> (r: Self) {
        let ghost s = int_seq(data@);
        let mut prefix_sum_array: [T; N] = [T::zero(); N];
        let mut idx: usize = 0;
        while idx < N
            invariant
                idx <= N,
                data@.len() == N,
                table_fits::<T>(s),
                s == int_seq(data@),
                forall|j: int| 0 <= j < idx ==> int_seq(prefix_sum_array@)[j] == prefix_sum(s, j),
            decreases N - idx,
        {
            if idx == 0 {
                proof {
                    lemma_prefix_sum_first(s);
                }
                prefix_sum_array[idx] = data[idx];
            } else {
                let p = prefix_sum_array[idx - 1];
                proof {
                    assert(int_seq(prefix_sum_array@)[idx - 1] == prefix_sum(s, idx - 1));
                    assert(p.v() == prefix_sum(s, idx - 1));
                    lemma_prefix_sum_step(s, idx as int);
                    assert(T::min_v() <= prefix_sum(s, idx as int) <= T::max_v());
                }
                prefix_sum_array[idx] = data[idx].plus(p);
            }
            idx += 1;
        }
        let r = SumQuery { prefix_sum_array };
        proof {
            lemma_derived_of_table(s, r.pfx());
        }
        r
    }

    fn prefix_sum_array(&self) -> (r: &[T; N]) {
        &self.prefix_sum_array
    }

    fn query(&self, start: usize, end: usize) -> (r: T) {
        if start == 0 {
            let r = self.prefix_sum_array[end];
            proof {
                assert(r.v() == self.pfx()[end as int]);
                lemma_table_of_derived(self.pfx(), end as int);
            }
            r
        } else {
            self.non_zero_query(start, end)
        }
    }

    fn non_zero_query(&self, start: usize, end: usize) -> (r: T) {
        let hi = self.prefix_sum_array[end];
        let lo = self.prefix_sum_array[start - 1];
        proof {
            assert(hi.v() == self.pfx()[end as int]);
            assert(lo.v() == self.pfx()[start - 1]);
            lemma_table_of_derived(self.pfx(), end as int);
            lemma_table_of_derived(self.pfx(), start - 1);
            lemma_range_sum_decomposition(self.source(), start as int, end as int);
        }
        hi.minus(lo)
    }
}

impl<T: Element> SumQuery<Vec<T>> {
    /// Construct from any borrowed slice of elements; same contract as
    /// `new`.  Kept as an inherent function because construction carries a
    /// precondition, which `core::convert::From` cannot express.
    pub fn from(data: &[T]) -> (r: Self)
        requires
            table_fits::<T>(int_seq(data@)),
        ensures
            r.pfx().len() == data@.len(),
            r.source() == int_seq(data@),
    {
        Self::new(data)
    }
}

impl<T: Element, const N: usize> SumQuery<[T; N]> {
    /// Construct from a borrowed fixed-size array; same contract as `new`.
    /// Kept as an inherent function because construction carries a
    /// precondition, which `core::convert::From` cannot express.
    pub fn from(data: &[T; N]) -> (r: Self)
        requires
            table_fits::<T>(int_seq(data@)),
        ensures
            r.pfx().len() == N,
            r.source() == int_seq(data@),
    {
        Self::new(data.as_slice())
    }
}

} // verus!
