//! IEEE-754 bit-pattern model of the two supported widths.
//!
//! A floating-point value of width 64 is, as a bit pattern, one sign bit,
//! eleven exponent bits and fifty-two fraction bits; width 32 has one, eight
//! and twenty-three. The classification predicates of the delegated method
//! surface — is-NaN, is-infinite, is-finite, is-normal, the sign tests and
//! the additive-identity zero test — are functions of that pattern alone, so
//! they are stated and verified here, over the bits. A caller that holds a
//! floating-point value reaches them through its to-bits conversion.

use vstd::prelude::*;

verus! {

/// The bit pattern of a 64-bit IEEE-754 value.
#[derive(Clone, Copy, PartialEq, Eq, Structural)]
pub struct Bits64(pub u64);

impl Bits64 {
    /// The sign bit: one for a negative sign.
    pub open spec fn sign(self) -> u64 {
        self.0 >> 63
    }

    /// The eleven exponent bits.
    pub open spec fn exponent(self) -> u64 {
        (self.0 >> 52) & 0x7ff
    }

    /// The fifty-two fraction bits.
    pub open spec fn fraction(self) -> u64 {
        self.0 & 0xf_ffff_ffff_ffff
    }

    /// NaN: exponent all ones, fraction not zero.
    pub open spec fn spec_is_nan(self) -> bool {
        self.exponent() == 0x7ff && self.fraction() != 0
    }

    /// An infinity: exponent all ones, fraction zero.
    pub open spec fn spec_is_infinite(self) -> bool {
        self.exponent() == 0x7ff && self.fraction() == 0
    }

    /// Finite: exponent not all ones.
    pub open spec fn spec_is_finite(self) -> bool {
        self.exponent() != 0x7ff
    }

    /// Normal: exponent neither zero nor all ones.
    pub open spec fn spec_is_normal(self) -> bool {
        self.exponent() != 0 && self.exponent() != 0x7ff
    }

    /// Subnormal: exponent zero, fraction not zero.
    pub open spec fn spec_is_subnormal(self) -> bool {
        self.exponent() == 0 && self.fraction() != 0
    }

    /// A zero of either sign: exponent and fraction both zero.
    pub open spec fn spec_is_zero(self) -> bool {
        self.exponent() == 0 && self.fraction() == 0
    }

    /// Negative sign, zeros and NaNs included.
    pub open spec fn spec_is_sign_negative(self) -> bool {
        self.sign() == 1
    }

    /// Whether the pattern is a NaN.
    #[verifier::when_used_as_spec(spec_is_nan)]
    pub fn is_nan(self) -> (r: bool)
        ensures
            r == self.spec_is_nan(),
    {
        (self.0 >> 52) & 0x7ff == 0x7ff && self.0 & 0xf_ffff_ffff_ffff != 0
    }

    /// Whether the pattern is an infinity of either sign.
    #[verifier::when_used_as_spec(spec_is_infinite)]
    pub fn is_infinite(self) -> (r: bool)
        ensures
            r == self.spec_is_infinite(),
    {
        (self.0 >> 52) & 0x7ff == 0x7ff && self.0 & 0xf_ffff_ffff_ffff == 0
    }

    /// Whether the pattern is finite: neither NaN nor an infinity.
    #[verifier::when_used_as_spec(spec_is_finite)]
    pub fn is_finite(self) -> (r: bool)
        ensures
            r == self.spec_is_finite(),
    {
        (self.0 >> 52) & 0x7ff != 0x7ff
    }

    /// Whether the pattern is normal: finite, not zero, not subnormal.
    #[verifier::when_used_as_spec(spec_is_normal)]
    pub fn is_normal(self) -> (r: bool)
        ensures
            r == self.spec_is_normal(),
    {
        (self.0 >> 52) & 0x7ff != 0 && (self.0 >> 52) & 0x7ff != 0x7ff
    }

    /// Whether the pattern is subnormal.
    #[verifier::when_used_as_spec(spec_is_subnormal)]
    pub fn is_subnormal(self) -> (r: bool)
        ensures
            r == self.spec_is_subnormal(),
    {
        (self.0 >> 52) & 0x7ff == 0 && self.0 & 0xf_ffff_ffff_ffff != 0
    }

    /// The additive-identity test: true exactly for the two zeros.
    #[verifier::when_used_as_spec(spec_is_zero)]
    pub fn is_zero(self) -> (r: bool)
        ensures
            r == self.spec_is_zero(),
    {
        (self.0 >> 52) & 0x7ff == 0 && self.0 & 0xf_ffff_ffff_ffff == 0
    }

    /// Whether the sign bit is set, zeros and NaNs included.
    #[verifier::when_used_as_spec(spec_is_sign_negative)]
    pub fn is_sign_negative(self) -> (r: bool)
        ensures
            r == self.spec_is_sign_negative(),
    {
        self.0 >> 63 == 1
    }

    /// Whether the sign bit is clear, zeros and NaNs included.
    pub fn is_sign_positive(self) -> (r: bool)
        ensures
            r == !self.spec_is_sign_negative(),
    {
        proof {
            lemma_sign_dichotomy_64(self);
        }
        self.0 >> 63 == 0
    }

    /// The additive identity: the positive zero pattern.
    pub fn zero() -> (r: Self)
        ensures
            r.0 == 0,
            r.spec_is_zero(),
            !r.spec_is_sign_negative(),
    {
        proof {
            assert((0u64 >> 52) & 0x7ff == 0 && 0u64 & 0xf_ffff_ffff_ffff == 0 && 0u64 >> 63
                == 0) by (bit_vector);
        }
        Bits64(0)
    }
}

/// The sign bit of a 64-bit pattern is zero or one, never anything else.
proof fn lemma_sign_dichotomy_64(b: Bits64)
    ensures
        b.sign() == 0 <==> b.sign() != 1,
{
    let x: u64 = b.0;
    assert(x >> 63 == 0 <==> x >> 63 != 1) by (bit_vector);
}

/// Identity-facet law, width 64: the zero test holds exactly of the two
/// zero patterns — positive zero (all bits clear) and negative zero (only
/// the sign bit set) — and of no NaN, infinity or other finite pattern.
pub proof fn lemma_zero_iff_64(b: Bits64)
    ensures
        b.spec_is_zero() <==> (b.0 == 0 || b.0 == 0x8000_0000_0000_0000),
{
    let x: u64 = b.0;
    assert(((x >> 52) & 0x7ff == 0 && x & 0xf_ffff_ffff_ffff == 0) <==> (x == 0 || x
        == 0x8000_0000_0000_0000)) by (bit_vector);
}

/// Classification law, width 64: every pattern is exactly one of NaN,
/// infinite or finite, and the finite ones are exactly the normal, the
/// subnormal and the zero patterns.
pub proof fn lemma_classes_64(b: Bits64)
    ensures
        b.spec_is_finite() <==> !b.spec_is_nan() && !b.spec_is_infinite(),
        !(b.spec_is_nan() && b.spec_is_infinite()),
        b.spec_is_finite() <==> (b.spec_is_normal() || b.spec_is_subnormal() || b.spec_is_zero()),
        !(b.spec_is_normal() && b.spec_is_subnormal()),
        !(b.spec_is_normal() && b.spec_is_zero()),
        !(b.spec_is_subnormal() && b.spec_is_zero()),
{
}

/// The bit pattern of a 32-bit IEEE-754 value.
#[derive(Clone, Copy, PartialEq, Eq, Structural)]
pub struct Bits32(pub u32);

impl Bits32 {
    /// The sign bit: one for a negative sign.
    pub open spec fn sign(self) -> u32 {
        self.0 >> 31
    }

    /// The eight exponent bits.
    pub open spec fn exponent(self) -> u32 {
        (self.0 >> 23) & 0xff
    }

    /// The twenty-three fraction bits.
    pub open spec fn fraction(self) -> u32 {
        self.0 & 0x7f_ffff
    }

    /// NaN: exponent all ones, fraction not zero.
    pub open spec fn spec_is_nan(self) -> bool {
        self.exponent() == 0xff && self.fraction() != 0
    }

    /// An infinity: exponent all ones, fraction zero.
    pub open spec fn spec_is_infinite(self) -> bool {
        self.exponent() == 0xff && self.fraction() == 0
    }

    /// Finite: exponent not all ones.
    pub open spec fn spec_is_finite(self) -> bool {
        self.exponent() != 0xff
    }

    /// Normal: exponent neither zero nor all ones.
    pub open spec fn spec_is_normal(self) -> bool {
        self.exponent() != 0 && self.exponent() != 0xff
    }

    /// Subnormal: exponent zero, fraction not zero.
    pub open spec fn spec_is_subnormal(self) -> bool {
        self.exponent() == 0 && self.fraction() != 0
    }

    /// A zero of either sign: exponent and fraction both zero.
    pub open spec fn spec_is_zero(self) -> bool {
        self.exponent() == 0 && self.fraction() == 0
    }

    /// Negative sign, zeros and NaNs included.
    pub open spec fn spec_is_sign_negative(self) -> bool {
        self.sign() == 1
    }

    /// Whether the pattern is a NaN.
    #[verifier::when_used_as_spec(spec_is_nan)]
    pub fn is_nan(self) -> (r: bool)
        ensures
            r == self.spec_is_nan(),
    {
        (self.0 >> 23) & 0xff == 0xff && self.0 & 0x7f_ffff != 0
    }

    /// Whether the pattern is an infinity of either sign.
    #[verifier::when_used_as_spec(spec_is_infinite)]
    pub fn is_infinite(self) -> (r: bool)
        ensures
            r == self.spec_is_infinite(),
    {
        (self.0 >> 23) & 0xff == 0xff && self.0 & 0x7f_ffff == 0
    }

    /// Whether the pattern is finite: neither NaN nor an infinity.
    #[verifier::when_used_as_spec(spec_is_finite)]
    pub fn is_finite(self) -> (r: bool)
        ensures
            r == self.spec_is_finite(),
    {
        (self.0 >> 23) & 0xff != 0xff
    }

    /// Whether the pattern is normal: finite, not zero, not subnormal.
    #[verifier::when_used_as_spec(spec_is_normal)]
    pub fn is_normal(self) -> (r: bool)
        ensures
            r == self.spec_is_normal(),
    {
        (self.0 >> 23) & 0xff != 0 && (self.0 >> 23) & 0xff != 0xff
    }

    /// Whether the pattern is subnormal.
    #[verifier::when_used_as_spec(spec_is_subnormal)]
    pub fn is_subnormal(self) -> (r: bool)
        ensures
            r == self.spec_is_subnormal(),
    {
        (self.0 >> 23) & 0xff == 0 && self.0 & 0x7f_ffff != 0
    }

    /// The additive-identity test: true exactly for the two zeros.
    #[verifier::when_used_as_spec(spec_is_zero)]
    pub fn is_zero(self) -> (r: bool)
        ensures
            r == self.spec_is_zero(),
    {
        (self.0 >> 23) & 0xff == 0 && self.0 & 0x7f_ffff == 0
    }

    /// Whether the sign bit is set, zeros and NaNs included.
    #[verifier::when_used_as_spec(spec_is_sign_negative)]
    pub fn is_sign_negative(self) -> (r: bool)
        ensures
            r == self.spec_is_sign_negative(),
    {
        self.0 >> 31 == 1
    }

    /// Whether the sign bit is clear, zeros and NaNs included.
    pub fn is_sign_positive(self) -> (r: bool)
        ensures
            r == !self.spec_is_sign_negative(),
    {
        proof {
            lemma_sign_dichotomy_32(self);
        }
        self.0 >> 31 == 0
    }

    /// The additive identity: the positive zero pattern.
    pub fn zero() -> (r: Self)
        ensures
            r.0 == 0,
            r.spec_is_zero(),
            !r.spec_is_sign_negative(),
    {
        proof {
            assert((0u32 >> 23) & 0xff == 0 && 0u32 & 0x7f_ffff == 0 && 0u32 >> 31 == 0)
                by (bit_vector);
        }
        Bits32(0)
    }
}

/// The sign bit of a 32-bit pattern is zero or one, never anything else.
proof fn lemma_sign_dichotomy_32(b: Bits32)
    ensures
        b.sign() == 0 <==> b.sign() != 1,
{
    let x: u32 = b.0;
    assert(x >> 31 == 0 <==> x >> 31 != 1) by (bit_vector);
}

/// Identity-facet law, width 32: the zero test holds exactly of the two
/// zero patterns — positive zero (all bits clear) and negative zero (only
/// the sign bit set) — and of no NaN, infinity or other finite pattern.
pub proof fn lemma_zero_iff_32(b: Bits32)
    ensures
        b.spec_is_zero() <==> (b.0 == 0 || b.0 == 0x8000_0000),
{
    let x: u32 = b.0;
    assert(((x >> 23) & 0xff == 0 && x & 0x7f_ffff == 0) <==> (x == 0 || x
        == 0x8000_0000)) by (bit_vector);
}

/// Classification law, width 32: every pattern is exactly one of NaN,
/// infinite or finite, and the finite ones are exactly the normal, the
/// subnormal and the zero patterns.
pub proof fn lemma_classes_32(b: Bits32)
    ensures
        b.spec_is_finite() <==> !b.spec_is_nan() && !b.spec_is_infinite(),
        !(b.spec_is_nan() && b.spec_is_infinite()),
        b.spec_is_finite() <==> (b.spec_is_normal() || b.spec_is_subnormal() || b.spec_is_zero()),
        !(b.spec_is_normal() && b.spec_is_subnormal()),
        !(b.spec_is_normal() && b.spec_is_zero()),
        !(b.spec_is_subnormal() && b.spec_is_zero()),
{
}

} // verus!
