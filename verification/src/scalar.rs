use vstd::prelude::*;

verus! {

/// A double-precision quantity (a frequency in hertz, a rate in samples per
/// second, a gain in decibels), carried by its IEEE-754 binary64 bit pattern.
///
/// The library never computes with such a value: it orders the driver calls
/// that carry it and tells admissible values from inadmissible ones, both of
/// which the bit pattern alone decides.
#[derive(Clone, Copy, Debug, PartialEq, Eq, Structural)]
pub struct Scalar {
    pub bits: u64,
}

impl Scalar {
    /// The sign bit: 0 for a non-negative value, 1 for a negative one.
    pub open spec fn sign(self) -> u64 {
        self.bits >> 63
    }

    /// The eleven bits of the biased exponent.
    pub open spec fn exponent(self) -> u64 {
        (self.bits >> 52) & 0x7ff
    }

    /// The fifty-two bits of the fraction.
    pub open spec fn fraction(self) -> u64 {
        self.bits & 0xf_ffff_ffff_ffff
    }

    /// Neither an infinity nor a NaN.
    pub open spec fn finite(self) -> bool {
        self.exponent() != 0x7ff
    }

    /// Positive or negative zero.
    pub open spec fn zero(self) -> bool {
        self.exponent() == 0 && self.fraction() == 0
    }

    /// A finite value strictly greater than zero: what a sample rate or a
    /// center frequency has to be.
    pub open spec fn positive(self) -> bool {
        self.sign() == 0 && self.finite() && !self.zero()
    }

    /// The quantity with the given bit pattern.
    pub fn from_bits(bits: u64) -> (s: Scalar)
        ensures
            s.bits == bits,
    {
        Scalar { bits }
    }

    /// The bit pattern of the quantity.
    pub fn to_bits(&self) -> (bits: u64)
        ensures
            bits == self.bits,
    {
        self.bits
    }

    /// Whether the quantity is finite and strictly greater than zero.
    pub fn is_positive(&self) -> (b: bool)
        ensures
            b == self.positive(),
            b == (0 < self.bits < 0x7ff0_0000_0000_0000),
    {
        let bits: u64 = self.bits;
        proof {
            lemma_positive_range(bits);
        }
        0 < bits && bits < 0x7ff0_0000_0000_0000
    }
}

/// The positive finite values are exactly the bit patterns strictly between
/// that of zero and that of positive infinity.
pub proof fn lemma_positive_range(bits: u64)
    ensures
        (Scalar { bits }).positive() <==> 0 < bits < 0x7ff0_0000_0000_0000,
{
    assert((bits >> 63 == 0 && (bits >> 52) & 0x7ff != 0x7ff && !((bits >> 52) & 0x7ff == 0 && bits
        & 0xf_ffff_ffff_ffff == 0)) <==> (0 < bits && bits < 0x7ff0_0000_0000_0000)) by (bit_vector);
}

} // verus!
