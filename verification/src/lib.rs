//! Range-sum queries in constant time after linear preprocessing.
//!
//! A `SumQuery` structure is built once over a finite sequence of numeric
//! elements, computing a prefix-sum table in a single forward pass.  A
//! range-sum query then reduces to two table lookups and one subtraction.
//! Three storage variants share the same contract: [`SumQueryFixed`] keeps
//! source and table in fixed-size arrays, [`SumQueryVec`] keeps both in
//! growable vectors, and [`SumQuerySlice`] borrows the caller's data and owns
//! only the table.

use vstd::prelude::*;

pub mod element;
pub mod rmq;
pub mod sum_query;
pub mod sums;

verus! {

use crate::element::{Element, int_seq};
use crate::sums::{prefix_sum, range_sum};

/// The prefix sums of `s` all lie within the value range of the element
/// type `T`, so a table of `T` values can hold them.
pub open spec fn table_fits<T: Element>(s: Seq<int>) -> bool {
    forall|i: int| 0 <= i < s.len() ==> T::min_v() <= #[trigger] prefix_sum(s, i) <= T::max_v()
}

/// SumQuery type that uses `Vec<T>` as its underlying data structure
///
/// Heap allocation: Yes
#[derive(Debug, PartialEq, Eq, PartialOrd, Ord)]
pub struct SumQueryVec<T> {
    pub data: Vec<T>,
    pub prefix_sum_array: Vec<T>,
}

/// SumQuery type that uses `[T; N]` as its underlying data structure
///
/// Heap allocation: No
///
/// To allocate on the heap, use `Box<T>`
#[derive(Debug, PartialEq, Eq, PartialOrd, Ord)]
pub struct SumQueryFixed<T, const N: usize> {
    pub data: [T; N],
    pub prefix_sum_array: [T; N],
}

/// SumQuery type that uses `&[T]` as its underlying data structure.
/// Internal prefix_sum_array uses `Vec<T>`
///
/// Heap allocation: Yes
#[derive(Debug, PartialEq, Eq, PartialOrd, Ord)]
pub struct SumQuerySlice<'a, T> {
    pub data: &'a [T],
    pub prefix_sum_array: Vec<T>,
}

/// This trait provides methods required for `SumQuery` types.
///
/// The shared contract: construction turns a source container into a
/// structure whose table holds the prefix sums of the source, and a query
/// over the inclusive range `[start, end]` returns exactly the sum of the
/// source elements in that range.
pub trait SumQuery: Sized {
    type InternalContainer;

    type InternalType: Element;

    /// The logical source sequence the structure answers queries about.
    spec fn source(&self) -> Seq<int>;

    /// The prefix-sum table the structure derived from the source.
    spec fn table(&self) -> Seq<int>;

    /// The structure is well formed: its table holds exactly the prefix
    /// sums of its source.
    spec fn wf(&self) -> bool;

    /// The logical sequence a source container stands for.
    spec fn container_source(data: &Self::InternalContainer) -> Seq<int>;

    /// Well-formedness pins the table down: it has the source's length and
    /// entry `i` equals `prefix_sum(source, i)`.
    proof fn wf_table(&self)
        requires
            self.wf(),
        ensures
            self.table().len() == self.source().len(),
            forall|i: int|
                0 <= i < self.source().len() ==> self.table()[i] == prefix_sum(self.source(), i),
    ;

    /// Construct `Self`
    ///
    /// Algorithmic complexity: O(n)
    ///
    /// The precondition only asks that every prefix sum of the source be
    /// representable in the element type; an empty source is legal and
    /// yields an empty table.
    fn new(data: Self::InternalContainer) -> (r: Self)
        requires
            table_fits::<Self::InternalType>(Self::container_source(&data)),
        ensures
            r.wf(),
            r.source() == Self::container_source(&data),
    ;

    /// Query between start range and end range
    ///
    /// Negative querying is not implemented, hence end has to be greater
    /// or equal to start; both indices must lie within the source, and the
    /// requested range sum must be representable in the element type.
    fn query(&self, start: usize, end: usize) -> (r: Self::InternalType)
        requires
            self.wf(),
            start <= end,
            end < self.source().len(),
            <Self::InternalType as Element>::min_v() <= range_sum(
                self.source(),
                start as int,
                end as int,
            ) <= <Self::InternalType as Element>::max_v(),
        ensures
            r.v() == range_sum(self.source(), start as int, end as int),
    ;
}

/// Builds the prefix-sum table of `data` in one forward pass.
pub(crate) fn build_table<T: Element>(data: &[T]) -> (table: Vec<T>)
    requires
        table_fits::<T>(int_seq(data@)),
    ensures
        table@.len() == data@.len(),
        forall|i: int|
            0 <= i < data@.len() ==> int_seq(table@)[i] == prefix_sum(int_seq(data@), i),
{
    let ghost s = int_seq(data@);
    let mut table: Vec<T> = Vec::with_capacity(data.len());
    let mut idx: usize = 0;
    while idx < data.len()
        invariant
            idx == table@.len(),
            idx <= data@.len(),
            table_fits::<T>(s),
            s == int_seq(data@),
            forall|j: int| 0 <= j < idx ==> int_seq(table@)[j] == prefix_sum(s, j),
        decreases data@.len() - idx,
    {
        let d = data[idx];
        if idx == 0 {
            proof {
                crate::sums::lemma_prefix_sum_first(s);
            }
            table.push(d);
        } else {
            let p = table[idx - 1];
            proof {
                assert(int_seq(table@)[idx - 1] == prefix_sum(s, idx - 1));
                assert(p.v() == prefix_sum(s, idx - 1));
                crate::sums::lemma_prefix_sum_step(s, idx as int);
                assert(T::min_v() <= prefix_sum(s, idx as int) <= T::max_v());
            }
            let q = d.plus(p);
            table.push(q);
        }
        idx += 1;
    }
    table
}

impl<T: Element> SumQuery for SumQueryVec<T> {
    type InternalContainer = Vec<T>;

    type InternalType = T;

    open spec fn source(&self) -> Seq<int> {
        int_seq(self.data@)
    }

    open spec fn table(&self) -> Seq<int> {
        int_seq(self.prefix_sum_array@)
    }

    open spec fn wf(&self) -> bool {
        &&& self.table().len() == self.source().len()
        &&& forall|i: int|
            0 <= i < self.source().len() ==> self.table()[i] == prefix_sum(self.source(), i)
    }

    open spec fn container_source(data: &Vec<T>) -> Seq<int> {
        int_seq(data@)
    }

    proof fn wf_table(&self) {
    }

    fn new(data: Vec<T>) -> (r: Self) {
        let prefix_sum_array = build_table(data.as_slice());
        SumQueryVec { data, prefix_sum_array }
    }

    fn query(&self, start: usize, end: usize) -> (r: T) {
        if start == 0 {
            let r = self.prefix_sum_array[end];
            proof {
                assert(r.v() == self.table()[end as int]);
            }
            r
        } else {
            let hi = self.prefix_sum_array[end];
            let lo = self.prefix_sum_array[start - 1];
            proof {
                assert(hi.v() == self.table()[end as int]);
                assert(lo.v() == self.table()[start - 1]);
                crate::sums::lemma_range_sum_decomposition(
                    self.source(),
                    start as int,
                    end as int,
                );
            }
            hi.minus(lo)
        }
    }
}

impl<T: Element, const N: usize> SumQuery for SumQueryFixed<T, N> {
    type InternalContainer = [T; N];

    type InternalType = T;

    open spec fn source(&self) -> Seq<int> {
        int_seq(self.data@)
    }

    open spec fn table(&self) -> Seq<int> {
        int_seq(self.prefix_sum_array@)
    }

    open spec fn wf(&self) -> bool {
        &&& self.table().len() == self.source().len()
        &&& forall|i: int|
            0 <= i < self.source().len() ==> self.table()[i] == prefix_sum(self.source(), i)
    }

    open spec fn container_source(data: &[T; N]) -> Seq<int> {
        int_seq(data@)
    }

    proof fn wf_table(&self) {
    }

    fn new(data: [T; N]) -> (r: Self) {
        let ghost s = int_seq(data@);
        let mut prefix_sum_array: [T; N] = [T::zero(); N];
        let mut idx: usize = 0;
        while idx < N
            invariant
                idx <= N,
                table_fits::<T>(s),
                s == int_seq(data@),
                forall|j: int| 0 <= j < idx ==> int_seq(prefix_sum_array@)[j] == prefix_sum(s, j),
            decreases N - idx,
        {
            if idx == 0 {
                proof {
                    crate::sums::lemma_prefix_sum_first(s);
                }
                prefix_sum_array[idx] = data[idx];
            } else {
                let p = prefix_sum_array[idx - 1];
                proof {
                    assert(int_seq(prefix_sum_array@)[idx - 1] == prefix_sum(s, idx - 1));
                    assert(p.v() == prefix_sum(s, idx - 1));
                    crate::sums::lemma_prefix_sum_step(s, idx as int);
                    assert(T::min_v() <= prefix_sum(s, idx as int) <= T::max_v());
                }
                prefix_sum_array[idx] = data[idx].plus(p);
            }
            idx += 1;
        }
        SumQueryFixed { data, prefix_sum_array }
    }

    fn query(&self, start: usize, end: usize) -> (r: T) {
        if start == 0 {
            let r = self.prefix_sum_array[end];
            proof {
                assert(r.v() == self.table()[end as int]);
            }
            r
        } else {
            let hi = self.prefix_sum_array[end];
            let lo = self.prefix_sum_array[start - 1];
            proof {
                assert(hi.v() == self.table()[end as int]);
                assert(lo.v() == self.table()[start - 1]);
                crate::sums::lemma_range_sum_decomposition(
                    self.source(),
                    start as int,
                    end as int,
                );
            }
            hi.minus(lo)
        }
    }
}

impl<'a, T: Element> SumQuery for SumQuerySlice<'a, T> {
    type InternalContainer = &'a [T];

    type InternalType = T;

    open spec fn source(&self) -> Seq<int> {
        int_seq(self.data@)
    }

    open spec fn table(&self) -> Seq<int> {
        int_seq(self.prefix_sum_array@)
    }

    open spec fn wf(&self) -> bool {
        &&& self.table().len() == self.source().len()
        &&& forall|i: int|
            0 <= i < self.source().len() ==> self.table()[i] == prefix_sum(self.source(), i)
    }

    open spec fn container_source(data: &&'a [T]) -> Seq<int> {
        int_seq(data@)
    }

    proof fn wf_table(&self) {
    }

    fn new(data: &'a [T]) -> (r: Self) {
        let prefix_sum_array = build_table(data);
        SumQuerySlice { data, prefix_sum_array }
    }

    fn query(&self, start: usize, end: usize) -> (r: T) {
        if start == 0 {
            let r = self.prefix_sum_array[end];
            proof {
                assert(r.v() == self.table()[end as int]);
            }
            r
        } else {
            let hi = self.prefix_sum_array[end];
            let lo = self.prefix_sum_array[start - 1];
            proof {
                assert(hi.v() == self.table()[end as int]);
                assert(lo.v() == self.table()[start - 1]);
                crate::sums::lemma_range_sum_decomposition(
                    self.source(),
                    start as int,
                    end as int,
                );
            }
            hi.minus(lo)
        }
    }
}

impl<T: Element, const N: usize> SumQueryFixed<T, N> {
    /// Construct from a fixed-size array; same contract as `new`.  Kept as
    /// an inherent function because construction carries a precondition,
    /// which `core::convert::From` cannot express.
    pub fn from(data: [T; N]) -> (r: Self)
        requires
            table_fits::<T>(int_seq(data@)),
        ensures
            r.wf(),
            r.source() == int_seq(data@),
    {
        Self::new(data)
    }
}

impl<T: Element> SumQueryVec<T> {
    /// Construct from a fixed-size array, copying it into a vector; same
    /// contract as `new`.  Kept as an inherent function because
    /// construction carries a precondition, which `core::convert::From`
    /// cannot express.
    pub fn from<const N: usize>(data: [T; N]) -> (r: Self)
        requires
            table_fits::<T>(int_seq(data@)),
        ensures
            r.wf(),
            r.source() == int_seq(data@),
    {
        let v = vstd::slice::slice_to_vec(data.as_slice());
        Self::new(v)
    }
}

impl<'a, T: Element> SumQuerySlice<'a, T> {
    /// Construct from a borrowed slice; same contract as `new`.  Kept as
    /// an inherent function because construction carries a precondition,
    /// which `core::convert::From` cannot express.
    pub fn from(data: &'a [T]) -> (r: Self)
        requires
            table_fits::<T>(int_seq(data@)),
        ensures
            r.wf(),
            r.source() == int_seq(data@),
    {
        Self::new(data)
    }
}

/// Construction correctness: in any well-formed structure the table has the
/// source's length, starts at the source's first element, and each later
/// entry adds one source element to its predecessor.
pub proof fn lemma_construction_correctness<Q: SumQuery>(q: &Q)
    requires
        q.wf(),
    ensures
        q.table().len() == q.source().len(),
        q.source().len() > 0 ==> q.table()[0] == q.source()[0],
        forall|i: int|
            0 < i < q.source().len() ==> q.table()[i] == q.table()[i - 1] + q.source()[i],
{
    q.wf_table();
    if q.source().len() > 0 {
        crate::sums::lemma_prefix_sum_first(q.source());
    }
    assert forall|i: int|
        0 < i < q.source().len() implies q.table()[i] == q.table()[i - 1] + q.source()[i] by {
        crate::sums::lemma_prefix_sum_step(q.source(), i);
    }
}

/// Storage-variant equivalence: two well-formed structures built over the
/// same logical sequence answer the same query identically.  Each `query`
/// result equals the range sum of the shared source, so the returned values
/// agree, whatever the storage backing of either side.
pub proof fn lemma_variant_agreement<A: SumQuery, B: SumQuery>(
    a: &A,
    b: &B,
    start: usize,
    end: usize,
    ra: A::InternalType,
    rb: B::InternalType,
)
    requires
        a.wf(),
        b.wf(),
        a.source() == b.source(),
        start <= end,
        end < a.source().len(),
        ra.v() == range_sum(a.source(), start as int, end as int),
        rb.v() == range_sum(b.source(), start as int, end as int),
    ensures
        ra.v() == rb.v(),
{
}

} // verus!
