//! The mathematical model of range sums: sums of integer sequences, sums of
//! inclusive ranges, prefix sums, and the laws relating them.

use vstd::prelude::*;

verus! {

/// Sum of all elements of `s`.
pub open spec fn seq_sum(s: Seq<int>) -> int
    decreases s.len(),
{
    if s.len() == 0 {
        0
    } else {
        seq_sum(s.drop_last()) + s.last()
    }
}

/// Sum of the inclusive range `s[start..=end]`, written as the naive
/// element-by-element summation.  This is the ground truth every query
/// contract refers to.
pub open spec fn range_sum(s: Seq<int>, start: int, end: int) -> int
    recommends
        0 <= start <= end < s.len(),
{
    seq_sum(s.subrange(start, end + 1))
}

/// Sum of the first `i + 1` elements of `s`: the value the prefix-sum table
/// holds at position `i`.
pub open spec fn prefix_sum(s: Seq<int>, i: int) -> int
    recommends
        0 <= i < s.len(),
{
    range_sum(s, 0, i)
}

/// Summing a range splits at any interior point: the sum over `[a, c)`
/// is the sum over `[a, b)` plus the sum over `[b, c)`.
pub proof fn lemma_seq_sum_split(s: Seq<int>, a: int, b: int, c: int)
    requires
        0 <= a <= b <= c <= s.len(),
    ensures
        seq_sum(s.subrange(a, c)) == seq_sum(s.subrange(a, b)) + seq_sum(s.subrange(b, c)),
    decreases c - b,
{
    if b == c {
        assert(s.subrange(b, c) =~= Seq::<int>::empty());
        assert(s.subrange(a, c) =~= s.subrange(a, b));
    } else {
        lemma_seq_sum_split(s, a, b, c - 1);
        assert(s.subrange(a, c).drop_last() =~= s.subrange(a, c - 1));
        assert(s.subrange(b, c).drop_last() =~= s.subrange(b, c - 1));
        assert(s.subrange(a, c).last() == s[c - 1]);
        assert(s.subrange(b, c).last() == s[c - 1]);
    }
}

/// A zero-length range sums to the single element it covers:
/// `range_sum(s, i, i) == s[i]`.
pub proof fn lemma_range_sum_point(s: Seq<int>, i: int)
    requires
        0 <= i < s.len(),
    ensures
        range_sum(s, i, i) == s[i],
{
    let sub = s.subrange(i, i + 1);
    assert(sub.drop_last() =~= Seq::<int>::empty());
    assert(sub.last() == s[i]);
    assert(seq_sum(Seq::<int>::empty()) == 0);
    assert(seq_sum(sub) == seq_sum(sub.drop_last()) + sub.last());
}

/// The first table entry is the first element: `prefix_sum(s, 0) == s[0]`.
pub proof fn lemma_prefix_sum_first(s: Seq<int>)
    requires
        s.len() > 0,
    ensures
        prefix_sum(s, 0) == s[0],
{
    lemma_range_sum_point(s, 0);
}

/// Each later table entry adds one element to its predecessor:
/// `prefix_sum(s, i) == prefix_sum(s, i - 1) + s[i]` for `i > 0`.
pub proof fn lemma_prefix_sum_step(s: Seq<int>, i: int)
    requires
        0 < i < s.len(),
    ensures
        prefix_sum(s, i) == prefix_sum(s, i - 1) + s[i],
{
    lemma_seq_sum_split(s, 0, i, i + 1);
    lemma_range_sum_point(s, i);
}

/// The algorithmic insight of the library: a range sum is the difference of
/// two prefix sums, `range_sum(s, start, end) == prefix_sum(s, end) -
/// prefix_sum(s, start - 1)` whenever `start > 0`.
pub proof fn lemma_range_sum_decomposition(s: Seq<int>, start: int, end: int)
    requires
        1 <= start <= end < s.len(),
    ensures
        range_sum(s, start, end) == prefix_sum(s, end) - prefix_sum(s, start - 1),
{
    lemma_seq_sum_split(s, 0, start, end + 1);
}

/// The source sequence a prefix-sum table stands for: the first entry,
/// then successive differences of neighbouring entries.
pub open spec fn derived_source(p: Seq<int>) -> Seq<int> {
    Seq::new(
        p.len(),
        |i: int|
            if i == 0 {
                p[0]
            } else {
                p[i] - p[i - 1]
            },
    )
}

/// Every sequence is the prefix-sum table of its own derived source:
/// `p[i] == prefix_sum(derived_source(p), i)`.
pub proof fn lemma_table_of_derived(p: Seq<int>, i: int)
    requires
        0 <= i < p.len(),
    ensures
        p[i] == prefix_sum(derived_source(p), i),
    decreases i,
{
    let s = derived_source(p);
    if i == 0 {
        lemma_prefix_sum_first(s);
    } else {
        lemma_table_of_derived(p, i - 1);
        lemma_prefix_sum_step(s, i);
    }
}

/// The derived source of a correct prefix-sum table is the summed sequence
/// itself: building a table loses no information.
pub proof fn lemma_derived_of_table(s: Seq<int>, p: Seq<int>)
    requires
        p.len() == s.len(),
        forall|i: int| 0 <= i < s.len() ==> p[i] == prefix_sum(s, i),
    ensures
        derived_source(p) == s,
{
    let d = derived_source(p);
    assert forall|i: int| 0 <= i < s.len() implies d[i] == s[i] by {
        if i == 0 {
            lemma_prefix_sum_first(s);
        } else {
            lemma_prefix_sum_step(s, i);
        }
    }
    assert(d =~= s);
}

/// A query over the full index range yields the sum of the whole sequence:
/// `range_sum(s, 0, s.len() - 1) == seq_sum(s)`.
pub proof fn lemma_range_sum_full(s: Seq<int>)
    requires
        s.len() > 0,
    ensures
        range_sum(s, 0, s.len() - 1) == seq_sum(s),
{
    assert(s.subrange(0, s.len() as int) =~= s);
}

} // verus!
