//! The numeric element abstraction: a copyable value with addition,
//! subtraction and an additive identity, interpreted into the mathematical
//! integers.  Every primitive integer type implements it.

use vstd::prelude::*;

verus! {

/// A numeric element: copyable, with an additive identity, addition and
/// subtraction.  `v` interprets a value as a mathematical integer;
/// `min_v`/`max_v` bound the representable range, and the arithmetic
/// methods are exact wherever the mathematical result stays in range.
pub trait Element: Sized + Copy {
    /// The mathematical integer a value stands for.
    spec fn v(self) -> int;

    /// Smallest representable value.
    spec fn min_v() -> int;

    /// Largest representable value.
    spec fn max_v() -> int;

    /// The additive identity.
    fn zero() -> (r: Self)
        ensures
            r.v() == 0,
    ;

    /// Exact addition; the mathematical sum must be representable.
    fn plus(self, rhs: Self) -> (r: Self)
        requires
            Self::min_v() <= self.v() + rhs.v() <= Self::max_v(),
        ensures
            r.v() == self.v() + rhs.v(),
    ;

    /// Exact subtraction; the mathematical difference must be representable.
    fn minus(self, rhs: Self) -> (r: Self)
        requires
            Self::min_v() <= self.v() - rhs.v() <= Self::max_v(),
        ensures
            r.v() == self.v() - rhs.v(),
    ;
}

/// A sequence of elements, read as the sequence of integers they stand for.
pub open spec fn int_seq<T: Element>(s: Seq<T>) -> Seq<int> {
    s.map(|i: int, t: T| t.v())
}

impl Element for u8 {
    open spec fn v(self) -> int {
        self as int
    }

    open spec fn min_v() -> int {
        0
    }

    open spec fn max_v() -> int {
        u8::MAX as int
    }

    fn zero() -> (r: Self) {
        0
    }

    fn plus(self, rhs: Self) -> (r: Self) {
        self + rhs
    }

    fn minus(self, rhs: Self) -> (r: Self) {
        self - rhs
    }
}

impl Element for u16 {
    open spec fn v(self) -> int {
        self as int
    }

    open spec fn min_v() -> int {
        0
    }

    open spec fn max_v() -> int {
        u16::MAX as int
    }

    fn zero() -> (r: Self) {
        0
    }

    fn plus(self, rhs: Self) -> (r: Self) {
        self + rhs
    }

    fn minus(self, rhs: Self) -> (r: Self) {
        self - rhs
    }
}

impl Element for u32 {
    open spec fn v(self) -> int {
        self as int
    }

    open spec fn min_v() -> int {
        0
    }

    open spec fn max_v() -> int {
        u32::MAX as int
    }

    fn zero() -> (r: Self) {
        0
    }

    fn plus(self, rhs: Self) -> (r: Self) {
        self + rhs
    }

    fn minus(self, rhs: Self) -> (r: Self) {
        self - rhs
    }
}

impl Element for u64 {
    open spec fn v(self) -> int {
        self as int
    }

    open spec fn min_v() -> int {
        0
    }

    open spec fn max_v() -> int {
        u64::MAX as int
    }

    fn zero() -> (r: Self) {
        0
    }

    fn plus(self, rhs: Self) -> (r: Self) {
        self + rhs
    }

    fn minus(self, rhs: Self) -> (r: Self) {
        self - rhs
    }
}

impl Element for usize {
    open spec fn v(self) -> int {
        self as int
    }

    open spec fn min_v() -> int {
        0
    }

    open spec fn max_v() -> int {
        usize::MAX as int
    }

    fn zero() -> (r: Self) {
        0
    }

    fn plus(self, rhs: Self) -> (r: Self) {
        self + rhs
    }

    fn minus(self, rhs: Self) -> (r: Self) {
        self - rhs
    }
}

impl Element for i8 {
    open spec fn v(self) -> int {
        self as int
    }

    open spec fn min_v() -> int {
        i8::MIN as int
    }

    open spec fn max_v() -> int {
        i8::MAX as int
    }

    fn zero() -> (r: Self) {
        0
    }

    fn plus(self, rhs: Self) -> (r: Self) {
        self + rhs
    }

    fn minus(self, rhs: Self) -> (r: Self) {
        self - rhs
    }
}

impl Element for i16 {
    open spec fn v(self) -> int {
        self as int
    }

    open spec fn min_v() -> int {
        i16::MIN as int
    }

    open spec fn max_v() -> int {
        i16::MAX as int
    }

    fn zero() -> (r: Self) {
        0
    }

    fn plus(self, rhs: Self) -> (r: Self) {
        self + rhs
    }

    fn minus(self, rhs: Self) -> (r: Self) {
        self - rhs
    }
}

impl Element for i32 {
    open spec fn v(self) -> int {
        self as int
    }

    open spec fn min_v() -> int {
        i32::MIN as int
    }

    open spec fn max_v() -> int {
        i32::MAX as int
    }

    fn zero() -> (r: Self) {
        0
    }

    fn plus(self, rhs: Self) -> (r: Self) {
        self + rhs
    }

    fn minus(self, rhs: Self) -> (r: Self) {
        self - rhs
    }
}

impl Element for i64 {
    open spec fn v(self) -> int {
        self as int
    }

    open spec fn min_v() -> int {
        i64::MIN as int
    }

    open spec fn max_v() -> int {
        i64::MAX as int
    }

    fn zero() -> (r: Self) {
        0
    }

    fn plus(self, rhs: Self) -> (r: Self) {
        self + rhs
    }

    fn minus(self, rhs: Self) -> (r: Self) {
        self - rhs
    }
}

impl Element for isize {
    open spec fn v(self) -> int {
        self as int
    }

    open spec fn min_v() -> int {
        isize::MIN as int
    }

    open spec fn max_v() -> int {
        isize::MAX as int
    }

    fn zero() -> (r: Self) {
        0
    }

    fn plus(self, rhs: Self) -> (r: Self) {
        self + rhs
    }

    fn minus(self, rhs: Self) -> (r: Self) {
        self - rhs
    }
}

} // verus!
