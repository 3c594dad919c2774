//! One register: the word it holds, masked reads and writes, single bits.

use crate::regop::RegOp;
use vstd::prelude::*;

verus! {

/// The bits of `value` selected by `mask`.
pub open spec fn masked<T: RegOp>(value: T, mask: T) -> T {
    value.and_bits(mask)
}

/// `old` with the bits selected by `mask` replaced by those of `v`.
pub open spec fn merged<T: RegOp>(old: T, v: T, mask: T) -> T {
    old.and_bits(mask.not_bits()).or_bits(v.and_bits(mask))
}

/// The pattern with only bit `n` set.
pub open spec fn bit_mask<T: RegOp>(n: T) -> T {
    T::one_value().shl_bits(n)
}

/// Whether bit `n` of `value` is set.
pub open spec fn bit_at<T: RegOp>(value: T, n: T) -> bool {
    masked(value, bit_mask(n)) != T::zero_value()
}

/// `old` with bit `n` set to `v`.
pub open spec fn with_bit<T: RegOp>(old: T, n: T, v: bool) -> T {
    merged(
        old,
        (if v {
            T::one_value()
        } else {
            T::zero_value()
        }).shl_bits(n),
        bit_mask(n),
    )
}

/// One register of width `T`: the word it currently holds.
///
/// Every operation is a single load, a single store, or one load followed by
/// one store of the held word; nothing is cached between operations.
pub struct Register<T>(T);

impl<T> View for Register<T> {
    type V = T;

    closed spec fn view(&self) -> T {
        self.0
    }
}

impl<T: RegOp> Register<T> {
    /// A register that holds `v`.
    pub fn new(v: T) -> (r: Self)
        ensures
            r@ == v,
    {
        Register(v)
    }

    /// Loads the word.
    #[inline]
    pub fn read(&self) -> (r: T)
        ensures
            r == self@,
    {
        self.0
    }

    /// Stores `v`.
    #[inline]
    pub fn write(&mut self, v: T)
        ensures
            final(self)@ == v,
    {
        self.0 = v;
    }

    /// Loads the word and keeps the bits selected by `m`.
    #[inline]
    pub fn read_with_mask(&self, m: T) -> (r: T)
        ensures
            r == masked(self@, m),
    {
        self.read().bit_and(m)
    }

    /// Loads the word and keeps the bits selected by `m << at`.
    #[inline]
    pub fn read_with_mask_at(&self, m: T, at: T) -> (r: T)
        requires
            T::valid_shift(at),
        ensures
            r == masked(self@, m.shl_bits(at)),
    {
        self.read_with_mask(m.shift_left(at))
    }

    /// Replaces the bits selected by `m` with those of `v`; every bit outside
    /// `m` keeps its value.
    #[inline]
    pub fn write_with_mask(&mut self, v: T, m: T)
        ensures
            final(self)@ == merged(old(self)@, v, m),
            masked(final(self)@, m.not_bits()) == masked(old(self)@, m.not_bits()),
            masked(final(self)@, m) == masked(v, m),
    {
        proof {
            T::lemma_merge(self@, v, m, T::zero_value());
        }
        let kept = self.read_with_mask(m.bit_not());
        self.write(kept.bit_or(v.bit_and(m)));
    }

    /// Replaces the bits selected by `m << at` with those of `v << at`; every
    /// bit outside `m << at` keeps its value.
    #[inline]
    pub fn write_with_mask_at(&mut self, v: T, m: T, at: T)
        requires
            T::valid_shift(at),
        ensures
            final(self)@ == merged(old(self)@, v.shl_bits(at), m.shl_bits(at)),
            masked(final(self)@, m.shl_bits(at).not_bits()) == masked(
                old(self)@,
                m.shl_bits(at).not_bits(),
            ),
            masked(final(self)@, m.shl_bits(at)) == masked(v.shl_bits(at), m.shl_bits(at)),
            forall|k: T|
                T::valid_shift(k) && !bit_at(m.shl_bits(at), k) ==> #[trigger] bit_at(
                    final(self)@,
                    k,
                ) == bit_at(old(self)@, k),
    {
        proof {
            lemma_merge_keeps_bits(self@, v.shl_bits(at), m.shl_bits(at));
        }
        self.write_with_mask(v.shift_left(at), m.shift_left(at));
    }

    /// Whether bit `b` is set.
    #[inline]
    pub fn get(&self, b: T) -> (r: bool)
        requires
            T::valid_shift(b),
        ensures
            r == bit_at(self@, b),
    {
        !self.read_with_mask_at(T::one(), b).equals(T::zero())
    }

    /// Sets bit `b` to `v`; every other bit keeps its value.
    #[inline]
    pub fn set(&mut self, b: T, v: bool)
        requires
            T::valid_shift(b),
        ensures
            final(self)@ == with_bit(old(self)@, b, v),
            bit_at(final(self)@, b) == v,
            forall|k: T|
                T::valid_shift(k) && k != b ==> #[trigger] bit_at(final(self)@, k) == bit_at(
                    old(self)@,
                    k,
                ),
    {
        proof {
            lemma_with_bit(self@, b, v);
        }
        let bit = if v {
            T::one()
        } else {
            T::zero()
        };
        self.write_with_mask_at(bit, T::one(), b);
    }
}

/// A masked write leaves every bit outside the mask as it was: any bit `k`
/// that is clear in `mask` reads the same in `merged(old, v, mask)` and in
/// `old`, whatever `old`, `v` and `mask` are.
pub proof fn lemma_merge_keeps_bits<T: RegOp>(old: T, v: T, mask: T)
    ensures
        masked(merged(old, v, mask), mask.not_bits()) == masked(old, mask.not_bits()),
        masked(merged(old, v, mask), mask) == masked(v, mask),
        forall|k: T|
            T::valid_shift(k) && !bit_at(mask, k) ==> #[trigger] bit_at(merged(old, v, mask), k)
                == bit_at(old, k),
{
    T::lemma_merge(old, v, mask, T::zero_value());
    assert forall|k: T| T::valid_shift(k) && !bit_at(mask, k) implies #[trigger] bit_at(
        merged(old, v, mask),
        k,
    ) == bit_at(old, k) by {
        T::lemma_merge(old, v, mask, bit_mask(k));
    }
}

/// Setting bit `n` to `v` and then reading bit `n` gives `v`, and every other
/// bit reads as it did before, whatever the register held.
pub proof fn lemma_with_bit<T: RegOp>(old: T, n: T, v: bool)
    requires
        T::valid_shift(n),
    ensures
        bit_at(with_bit(old, n, v), n) == v,
        forall|k: T|
            T::valid_shift(k) && k != n ==> #[trigger] bit_at(with_bit(old, n, v), k) == bit_at(
                old,
                k,
            ),
{
    let bit = if v {
        T::one_value()
    } else {
        T::zero_value()
    };
    T::lemma_merge(old, bit.shl_bits(n), bit_mask(n), T::zero_value());
    T::lemma_single_bit(n, n);
    assert forall|k: T| T::valid_shift(k) && k != n implies #[trigger] bit_at(
        with_bit(old, n, v),
        k,
    ) == bit_at(old, k) by {
        T::lemma_single_bit(n, k);
        T::lemma_merge(old, bit.shl_bits(n), bit_mask(n), bit_mask(k));
    }
}

} // verus!
