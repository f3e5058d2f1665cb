//! IEEE 754 binary64 numbers, held by their encoding.
//!
//! The arithmetic is done in software, on the encodings, by `const_soft_float`.
//! Verus does not see into it: each operation's result has a name here, and
//! what the callers prove is stated over those names.

use const_soft_float::soft_f64::SoftF64;
use vstd::prelude::*;

verus! {

/// The encoding of the binary64 product of the numbers encoded by `a` and `b`,
/// rounded to nearest with ties to even.
pub uninterp spec fn binary64_product(a: u64, b: u64) -> u64;

/// The encoding of the binary64 sum of the numbers encoded by `a` and `b`,
/// rounded to nearest with ties to even.
pub uninterp spec fn binary64_sum(a: u64, b: u64) -> u64;

/// The encoding of positive zero.
pub const POSITIVE_ZERO: u64 = 0;

/// The encoding of positive infinity. The encodings below it are those of
/// positive zero and of the positive finite numbers.
pub const POSITIVE_INFINITY: u64 = 0x7FF0_0000_0000_0000;

/// A 64-bit floating-point number. Its view is its IEEE 754 encoding: one sign
/// bit, eleven exponent bits, fifty-two fraction bits.
#[derive(Clone, Copy, Debug)]
pub struct Binary64 {
    bits: u64,
}

impl View for Binary64 {
    type V = u64;

    closed spec fn view(&self) -> u64 {
        self.bits
    }
}

impl Binary64 {
    /// The number that `bits` encodes.
    pub fn from_bits(bits: u64) -> (number: Binary64)
        ensures
            number@ == bits,
    {
        Binary64 { bits }
    }

    /// The encoding of this number.
    pub fn to_bits(self) -> (bits: u64)
        ensures
            bits == self@,
    {
        self.bits
    }

    /// Trusted: calls `SoftF64::mul` of `const_soft_float`, which works on the
    /// two encodings alone and returns the encoding of the rounded product.
    /// The contract gives that result its name, and claims one thing more of
    /// it, which that function settles before it multiplies anything: positive
    /// zero times a finite number that is not negative is positive zero.
    #[verifier::external_body]
    pub(crate) fn times(self, factor: Binary64) -> (product: Binary64)
        ensures
            product@ == binary64_product(self@, factor@),
            self@ == POSITIVE_ZERO && factor@ < POSITIVE_INFINITY ==> product@ == POSITIVE_ZERO,
    {
        let product = SoftF64::from_bits(self.bits).mul(SoftF64::from_bits(factor.bits));
        Binary64 { bits: product.to_bits() }
    }

    /// Trusted: calls `SoftF64::add` of `const_soft_float`, which works on the
    /// two encodings alone and returns the encoding of the rounded sum. The
    /// contract gives that result its name, and claims one thing more of it,
    /// which that function settles before it adds anything: positive zero
    /// plus positive zero is positive zero.
    #[verifier::external_body]
    pub(crate) fn plus(self, term: Binary64) -> (sum: Binary64)
        ensures
            sum@ == binary64_sum(self@, term@),
            self@ == POSITIVE_ZERO && term@ == POSITIVE_ZERO ==> sum@ == POSITIVE_ZERO,
    {
        let sum = SoftF64::from_bits(self.bits).add(SoftF64::from_bits(term.bits));
        Binary64 { bits: sum.to_bits() }
    }
}

} // verus!
