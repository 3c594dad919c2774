//! The integer types that can back a register, with their bit operations.

use vstd::prelude::*;

verus! {

/// An integer type that can back a hardware register.
///
/// The bitwise operations are given both as executable methods and as
/// specification functions, so that code generic over the register width can be
/// verified once. The two lemmas are the only facts about bits that the
/// register cell relies on; every implementation proves them for its own width.
pub trait RegOp: Sized + Copy {
    /// The value with no bit set.
    spec fn zero_value() -> Self;

    /// The value with only the lowest bit set.
    spec fn one_value() -> Self;

    /// Bitwise conjunction.
    spec fn and_bits(self, rhs: Self) -> Self;

    /// Bitwise disjunction.
    spec fn or_bits(self, rhs: Self) -> Self;

    /// Bitwise complement.
    spec fn not_bits(self) -> Self;

    /// Left shift by `at` positions; bits shifted beyond the width are lost.
    spec fn shl_bits(self, at: Self) -> Self;

    /// Whether `at` is a shift distance the type supports: `0 <= at < width`.
    spec fn valid_shift(at: Self) -> bool;

    /// The value with no bit set.
    fn zero() -> (r: Self)
        ensures
            r == Self::zero_value(),
    ;

    /// The value with only the lowest bit set.
    fn one() -> (r: Self)
        ensures
            r == Self::one_value(),
    ;

    /// Bitwise conjunction.
    fn bit_and(self, rhs: Self) -> (r: Self)
        ensures
            r == self.and_bits(rhs),
    ;

    /// Bitwise disjunction.
    fn bit_or(self, rhs: Self) -> (r: Self)
        ensures
            r == self.or_bits(rhs),
    ;

    /// Bitwise complement.
    fn bit_not(self) -> (r: Self)
        ensures
            r == self.not_bits(),
    ;

    /// Left shift by `at` positions.
    fn shift_left(self, at: Self) -> (r: Self)
        requires
            Self::valid_shift(at),
        ensures
            r == self.shl_bits(at),
    ;

    /// Whether the two values are the same.
    fn equals(self, rhs: Self) -> (r: bool)
        ensures
            r == (self == rhs),
    ;

    /// Merging `v` into `old` under the mask `m` keeps `old` outside the mask
    /// and takes `v` inside it; in particular any pattern `b` that does not
    /// meet the mask reads the same before and after.
    proof fn lemma_merge(old: Self, v: Self, m: Self, b: Self)
        ensures
            old.and_bits(m.not_bits()).or_bits(v.and_bits(m)).and_bits(m.not_bits())
                == old.and_bits(m.not_bits()),
            old.and_bits(m.not_bits()).or_bits(v.and_bits(m)).and_bits(m) == v.and_bits(m),
            m.and_bits(b) == Self::zero_value() ==> old.and_bits(m.not_bits()).or_bits(
                v.and_bits(m),
            ).and_bits(b) == old.and_bits(b),
    ;

    /// `1 << n` has exactly one bit set, and that bit differs from the one of
    /// `1 << k` for every other position `k`.
    proof fn lemma_single_bit(n: Self, k: Self)
        requires
            Self::valid_shift(n),
        ensures
            Self::one_value().shl_bits(n).and_bits(Self::one_value().shl_bits(n))
                == Self::one_value().shl_bits(n),
            Self::one_value().shl_bits(n) != Self::zero_value(),
            Self::zero_value().shl_bits(n) == Self::zero_value(),
            Self::zero_value().and_bits(Self::one_value().shl_bits(n)) == Self::zero_value(),
            Self::valid_shift(k) && k != n ==> Self::one_value().shl_bits(n).and_bits(
                Self::one_value().shl_bits(k),
            ) == Self::zero_value(),
    ;
}

impl RegOp for u64 {
    open spec fn zero_value() -> Self {
        0
    }

    open spec fn one_value() -> Self {
        1
    }

    open spec fn and_bits(self, rhs: Self) -> Self {
        self & rhs
    }

    open spec fn or_bits(self, rhs: Self) -> Self {
        self | rhs
    }

    open spec fn not_bits(self) -> Self {
        !self
    }

    open spec fn shl_bits(self, at: Self) -> Self {
        self << at
    }

    open spec fn valid_shift(at: Self) -> bool {
        at < 64
    }

    fn zero() -> (r: Self) {
        0
    }

    fn one() -> (r: Self) {
        1
    }

    fn bit_and(self, rhs: Self) -> (r: Self) {
        self & rhs
    }

    fn bit_or(self, rhs: Self) -> (r: Self) {
        self | rhs
    }

    fn bit_not(self) -> (r: Self) {
        !self
    }

    fn shift_left(self, at: Self) -> (r: Self) {
        self << at
    }

    fn equals(self, rhs: Self) -> (r: bool) {
        self == rhs
    }

    proof fn lemma_merge(old: Self, v: Self, m: Self, b: Self) {
        assert(((old & !m) | (v & m)) & !m == old & !m && ((old & !m) | (v & m)) & m == v & m && (m
            & b == 0 ==> ((old & !m) | (v & m)) & b == old & b)) by (bit_vector);
    }

    proof fn lemma_single_bit(n: Self, k: Self) {
        assert((n < 64 ==> (1u64 << n) & (1u64 << n) == (1u64 << n) && (1u64 << n) != 0 && (0u64
            << n) == 0 && 0u64 & (1u64 << n) == 0) && (n < 64 && k < 64 && n != k ==> (1u64
            << n) & (1u64 << k) == 0)) by (bit_vector);
    }
}

impl RegOp for u32 {
    open spec fn zero_value() -> Self {
        0
    }

    open spec fn one_value() -> Self {
        1
    }

    open spec fn and_bits(self, rhs: Self) -> Self {
        self & rhs
    }

    open spec fn or_bits(self, rhs: Self) -> Self {
        self | rhs
    }

    open spec fn not_bits(self) -> Self {
        !self
    }

    open spec fn shl_bits(self, at: Self) -> Self {
        self << at
    }

    open spec fn valid_shift(at: Self) -> bool {
        at < 32
    }

    fn zero() -> (r: Self) {
        0
    }

    fn one() -> (r: Self) {
        1
    }

    fn bit_and(self, rhs: Self) -> (r: Self) {
        self & rhs
    }

    fn bit_or(self, rhs: Self) -> (r: Self) {
        self | rhs
    }

    fn bit_not(self) -> (r: Self) {
        !self
    }

    fn shift_left(self, at: Self) -> (r: Self) {
        self << at
    }

    fn equals(self, rhs: Self) -> (r: bool) {
        self == rhs
    }

    proof fn lemma_merge(old: Self, v: Self, m: Self, b: Self) {
        assert(((old & !m) | (v & m)) & !m == old & !m && ((old & !m) | (v & m)) & m == v & m && (m
            & b == 0 ==> ((old & !m) | (v & m)) & b == old & b)) by (bit_vector);
    }

    proof fn lemma_single_bit(n: Self, k: Self) {
        assert((n < 32 ==> (1u32 << n) & (1u32 << n) == (1u32 << n) && (1u32 << n) != 0 && (0u32
            << n) == 0 && 0u32 & (1u32 << n) == 0) && (n < 32 && k < 32 && n != k ==> (1u32
            << n) & (1u32 << k) == 0)) by (bit_vector);
    }
}

impl RegOp for u16 {
    open spec fn zero_value() -> Self {
        0
    }

    open spec fn one_value() -> Self {
        1
    }

    open spec fn and_bits(self, rhs: Self) -> Self {
        self & rhs
    }

    open spec fn or_bits(self, rhs: Self) -> Self {
        self | rhs
    }

    open spec fn not_bits(self) -> Self {
        !self
    }

    open spec fn shl_bits(self, at: Self) -> Self {
        self << at
    }

    open spec fn valid_shift(at: Self) -> bool {
        at < 16
    }

    fn zero() -> (r: Self) {
        0
    }

    fn one() -> (r: Self) {
        1
    }

    fn bit_and(self, rhs: Self) -> (r: Self) {
        self & rhs
    }

    fn bit_or(self, rhs: Self) -> (r: Self) {
        self | rhs
    }

    fn bit_not(self) -> (r: Self) {
        !self
    }

    fn shift_left(self, at: Self) -> (r: Self) {
        self << at
    }

    fn equals(self, rhs: Self) -> (r: bool) {
        self == rhs
    }

    proof fn lemma_merge(old: Self, v: Self, m: Self, b: Self) {
        assert(((old & !m) | (v & m)) & !m == old & !m && ((old & !m) | (v & m)) & m == v & m && (m
            & b == 0 ==> ((old & !m) | (v & m)) & b == old & b)) by (bit_vector);
    }

    proof fn lemma_single_bit(n: Self, k: Self) {
        assert((n < 16 ==> (1u16 << n) & (1u16 << n) == (1u16 << n) && (1u16 << n) != 0 && (0u16
            << n) == 0 && 0u16 & (1u16 << n) == 0) && (n < 16 && k < 16 && n != k ==> (1u16
            << n) & (1u16 << k) == 0)) by (bit_vector);
    }
}

impl RegOp for u8 {
    open spec fn zero_value() -> Self {
        0
    }

    open spec fn one_value() -> Self {
        1
    }

    open spec fn and_bits(self, rhs: Self) -> Self {
        self & rhs
    }

    open spec fn or_bits(self, rhs: Self) -> Self {
        self | rhs
    }

    open spec fn not_bits(self) -> Self {
        !self
    }

    open spec fn shl_bits(self, at: Self) -> Self {
        self << at
    }

    open spec fn valid_shift(at: Self) -> bool {
        at < 8
    }

    fn zero() -> (r: Self) {
        0
    }

    fn one() -> (r: Self) {
        1
    }

    fn bit_and(self, rhs: Self) -> (r: Self) {
        self & rhs
    }

    fn bit_or(self, rhs: Self) -> (r: Self) {
        self | rhs
    }

    fn bit_not(self) -> (r: Self) {
        !self
    }

    fn shift_left(self, at: Self) -> (r: Self) {
        self << at
    }

    fn equals(self, rhs: Self) -> (r: bool) {
        self == rhs
    }

    proof fn lemma_merge(old: Self, v: Self, m: Self, b: Self) {
        assert(((old & !m) | (v & m)) & !m == old & !m && ((old & !m) | (v & m)) & m == v & m && (m
            & b == 0 ==> ((old & !m) | (v & m)) & b == old & b)) by (bit_vector);
    }

    proof fn lemma_single_bit(n: Self, k: Self) {
        assert((n < 8 ==> (1u8 << n) & (1u8 << n) == (1u8 << n) && (1u8 << n) != 0 && (0u8
            << n) == 0 && 0u8 & (1u8 << n) == 0) && (n < 8 && k < 8 && n != k ==> (1u8
            << n) & (1u8 << k) == 0)) by (bit_vector);
    }
}

impl RegOp for i64 {
    open spec fn zero_value() -> Self {
        0
    }

    open spec fn one_value() -> Self {
        1
    }

    open spec fn and_bits(self, rhs: Self) -> Self {
        self & rhs
    }

    open spec fn or_bits(self, rhs: Self) -> Self {
        self | rhs
    }

    open spec fn not_bits(self) -> Self {
        !self
    }

    open spec fn shl_bits(self, at: Self) -> Self {
        self << at
    }

    open spec fn valid_shift(at: Self) -> bool {
        0 <= at && at < 64
    }

    fn zero() -> (r: Self) {
        0
    }

    fn one() -> (r: Self) {
        1
    }

    fn bit_and(self, rhs: Self) -> (r: Self) {
        self & rhs
    }

    fn bit_or(self, rhs: Self) -> (r: Self) {
        self | rhs
    }

    fn bit_not(self) -> (r: Self) {
        !self
    }

    fn shift_left(self, at: Self) -> (r: Self) {
        self << at
    }

    fn equals(self, rhs: Self) -> (r: bool) {
        self == rhs
    }

    proof fn lemma_merge(old: Self, v: Self, m: Self, b: Self) {
        assert(((old & !m) | (v & m)) & !m == old & !m && ((old & !m) | (v & m)) & m == v & m && (m
            & b == 0 ==> ((old & !m) | (v & m)) & b == old & b)) by (bit_vector);
    }

    proof fn lemma_single_bit(n: Self, k: Self) {
        // the solver takes a shift by an unsigned distance only
        let i = n as u64;
        let j = k as u64;
        assert((i < 64 ==> (1i64 << i) & (1i64 << i) == (1i64 << i) && (1i64 << i) != 0 && (0i64
            << i) == 0 && 0i64 & (1i64 << i) == 0) && (i < 64 && j < 64 && i != j ==> (1i64
            << i) & (1i64 << j) == 0)) by (bit_vector);
    }
}

impl RegOp for i32 {
    open spec fn zero_value() -> Self {
        0
    }

    open spec fn one_value() -> Self {
        1
    }

    open spec fn and_bits(self, rhs: Self) -> Self {
        self & rhs
    }

    open spec fn or_bits(self, rhs: Self) -> Self {
        self | rhs
    }

    open spec fn not_bits(self) -> Self {
        !self
    }

    open spec fn shl_bits(self, at: Self) -> Self {
        self << at
    }

    open spec fn valid_shift(at: Self) -> bool {
        0 <= at && at < 32
    }

    fn zero() -> (r: Self) {
        0
    }

    fn one() -> (r: Self) {
        1
    }

    fn bit_and(self, rhs: Self) -> (r: Self) {
        self & rhs
    }

    fn bit_or(self, rhs: Self) -> (r: Self) {
        self | rhs
    }

    fn bit_not(self) -> (r: Self) {
        !self
    }

    fn shift_left(self, at: Self) -> (r: Self) {
        self << at
    }

    fn equals(self, rhs: Self) -> (r: bool) {
        self == rhs
    }

    proof fn lemma_merge(old: Self, v: Self, m: Self, b: Self) {
        assert(((old & !m) | (v & m)) & !m == old & !m && ((old & !m) | (v & m)) & m == v & m && (m
            & b == 0 ==> ((old & !m) | (v & m)) & b == old & b)) by (bit_vector);
    }

    proof fn lemma_single_bit(n: Self, k: Self) {
        // the solver takes a shift by an unsigned distance only
        let i = n as u32;
        let j = k as u32;
        assert((i < 32 ==> (1i32 << i) & (1i32 << i) == (1i32 << i) && (1i32 << i) != 0 && (0i32
            << i) == 0 && 0i32 & (1i32 << i) == 0) && (i < 32 && j < 32 && i != j ==> (1i32
            << i) & (1i32 << j) == 0)) by (bit_vector);
    }
}

impl RegOp for i16 {
    open spec fn zero_value() -> Self {
        0
    }

    open spec fn one_value() -> Self {
        1
    }

    open spec fn and_bits(self, rhs: Self) -> Self {
        self & rhs
    }

    open spec fn or_bits(self, rhs: Self) -> Self {
        self | rhs
    }

    open spec fn not_bits(self) -> Self {
        !self
    }

    open spec fn shl_bits(self, at: Self) -> Self {
        self << at
    }

    open spec fn valid_shift(at: Self) -> bool {
        0 <= at && at < 16
    }

    fn zero() -> (r: Self) {
        0
    }

    fn one() -> (r: Self) {
        1
    }

    fn bit_and(self, rhs: Self) -> (r: Self) {
        self & rhs
    }

    fn bit_or(self, rhs: Self) -> (r: Self) {
        self | rhs
    }

    fn bit_not(self) -> (r: Self) {
        !self
    }

    fn shift_left(self, at: Self) -> (r: Self) {
        self << at
    }

    fn equals(self, rhs: Self) -> (r: bool) {
        self == rhs
    }

    proof fn lemma_merge(old: Self, v: Self, m: Self, b: Self) {
        assert(((old & !m) | (v & m)) & !m == old & !m && ((old & !m) | (v & m)) & m == v & m && (m
            & b == 0 ==> ((old & !m) | (v & m)) & b == old & b)) by (bit_vector);
    }

    proof fn lemma_single_bit(n: Self, k: Self) {
        // the solver takes a shift by an unsigned distance only
        let i = n as u16;
        let j = k as u16;
        assert((i < 16 ==> (1i16 << i) & (1i16 << i) == (1i16 << i) && (1i16 << i) != 0 && (0i16
            << i) == 0 && 0i16 & (1i16 << i) == 0) && (i < 16 && j < 16 && i != j ==> (1i16
            << i) & (1i16 << j) == 0)) by (bit_vector);
    }
}

impl RegOp for i8 {
    open spec fn zero_value() -> Self {
        0
    }

    open spec fn one_value() -> Self {
        1
    }

    open spec fn and_bits(self, rhs: Self) -> Self {
        self & rhs
    }

    open spec fn or_bits(self, rhs: Self) -> Self {
        self | rhs
    }

    open spec fn not_bits(self) -> Self {
        !self
    }

    open spec fn shl_bits(self, at: Self) -> Self {
        self << at
    }

    open spec fn valid_shift(at: Self) -> bool {
        0 <= at && at < 8
    }

    fn zero() -> (r: Self) {
        0
    }

    fn one() -> (r: Self) {
        1
    }

    fn bit_and(self, rhs: Self) -> (r: Self) {
        self & rhs
    }

    fn bit_or(self, rhs: Self) -> (r: Self) {
        self | rhs
    }

    fn bit_not(self) -> (r: Self) {
        !self
    }

    fn shift_left(self, at: Self) -> (r: Self) {
        self << at
    }

    fn equals(self, rhs: Self) -> (r: bool) {
        self == rhs
    }

    proof fn lemma_merge(old: Self, v: Self, m: Self, b: Self) {
        assert(((old & !m) | (v & m)) & !m == old & !m && ((old & !m) | (v & m)) & m == v & m && (m
            & b == 0 ==> ((old & !m) | (v & m)) & b == old & b)) by (bit_vector);
    }

    proof fn lemma_single_bit(n: Self, k: Self) {
        // the solver takes a shift by an unsigned distance only
        let i = n as u8;
        let j = k as u8;
        assert((i < 8 ==> (1i8 << i) & (1i8 << i) == (1i8 << i) && (1i8 << i) != 0 && (0i8
            << i) == 0 && 0i8 & (1i8 << i) == 0) && (i < 8 && j < 8 && i != j ==> (1i8
            << i) & (1i8 << j) == 0)) by (bit_vector);
    }
}

impl RegOp for usize {
    open spec fn zero_value() -> Self {
        0
    }

    open spec fn one_value() -> Self {
        1
    }

    open spec fn and_bits(self, rhs: Self) -> Self {
        self & rhs
    }

    open spec fn or_bits(self, rhs: Self) -> Self {
        self | rhs
    }

    open spec fn not_bits(self) -> Self {
        !self
    }

    open spec fn shl_bits(self, at: Self) -> Self {
        self << at
    }

    open spec fn valid_shift(at: Self) -> bool {
        at < usize::BITS
    }

    fn zero() -> (r: Self) {
        0
    }

    fn one() -> (r: Self) {
        1
    }

    fn bit_and(self, rhs: Self) -> (r: Self) {
        self & rhs
    }

    fn bit_or(self, rhs: Self) -> (r: Self) {
        self | rhs
    }

    fn bit_not(self) -> (r: Self) {
        !self
    }

    fn shift_left(self, at: Self) -> (r: Self) {
        self << at
    }

    fn equals(self, rhs: Self) -> (r: bool) {
        self == rhs
    }

    proof fn lemma_merge(old: Self, v: Self, m: Self, b: Self) {
        assert(((old & !m) | (v & m)) & !m == old & !m && ((old & !m) | (v & m)) & m == v & m && (m
            & b == 0 ==> ((old & !m) | (v & m)) & b == old & b)) by (bit_vector);
    }

    proof fn lemma_single_bit(n: Self, k: Self) {
        assert((n < usize::BITS ==> (1usize << n) & (1usize << n) == (1usize << n) && (1usize << n) != 0 && (0usize
            << n) == 0 && 0usize & (1usize << n) == 0) && (n < usize::BITS && k < usize::BITS && n != k ==> (1usize
            << n) & (1usize << k) == 0)) by (bit_vector);
    }
}

impl RegOp for isize {
    open spec fn zero_value() -> Self {
        0
    }

    open spec fn one_value() -> Self {
        1
    }

    open spec fn and_bits(self, rhs: Self) -> Self {
        self & rhs
    }

    open spec fn or_bits(self, rhs: Self) -> Self {
        self | rhs
    }

    open spec fn not_bits(self) -> Self {
        !self
    }

    open spec fn shl_bits(self, at: Self) -> Self {
        self << at
    }

    open spec fn valid_shift(at: Self) -> bool {
        0 <= at && at < usize::BITS
    }

    fn zero() -> (r: Self) {
        0
    }

    fn one() -> (r: Self) {
        1
    }

    fn bit_and(self, rhs: Self) -> (r: Self) {
        self & rhs
    }

    fn bit_or(self, rhs: Self) -> (r: Self) {
        self | rhs
    }

    fn bit_not(self) -> (r: Self) {
        !self
    }

    fn shift_left(self, at: Self) -> (r: Self) {
        self << at
    }

    fn equals(self, rhs: Self) -> (r: bool) {
        self == rhs
    }

    proof fn lemma_merge(old: Self, v: Self, m: Self, b: Self) {
        assert(((old & !m) | (v & m)) & !m == old & !m && ((old & !m) | (v & m)) & m == v & m && (m
            & b == 0 ==> ((old & !m) | (v & m)) & b == old & b)) by (bit_vector);
    }

    proof fn lemma_single_bit(n: Self, k: Self) {
        // the solver takes a shift by an unsigned distance only
        let i = n as usize;
        let j = k as usize;
        assert((i < usize::BITS ==> (1isize << i) & (1isize << i) == (1isize << i) && (1isize << i) != 0 && (0isize
            << i) == 0 && 0isize & (1isize << i) == 0) && (i < usize::BITS && j < usize::BITS && i != j ==> (1isize
            << i) & (1isize << j) == 0)) by (bit_vector);
    }
}

} // verus!
