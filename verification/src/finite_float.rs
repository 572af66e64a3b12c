use crate::error::ArbitraryError;
use vstd::prelude::*;
use vstd::std_specs::cmp::PartialEqSpec;

verus! {

/// The bits of a double-precision float that hold its exponent.
pub const EXPONENT_MASK: u64 = 0x7ff0_0000_0000_0000;

/// All bits but the sign.
pub const MAGNITUDE_MASK: u64 = 0x7fff_ffff_ffff_ffff;

/// Whether the finite doubles with bit patterns `a` and `b` are equal as
/// numbers: the same pattern, or both zero (`0.0 == -0.0`).
pub open spec fn finite_bits_equal(a: u64, b: u64) -> bool {
    a == b || (a & MAGNITUDE_MASK == 0 && b & MAGNITUDE_MASK == 0)
}

/// Whether the IEEE 754 double with bit pattern `bits` is finite: its
/// exponent field is not all ones (all ones encodes the infinities and NaN).
pub open spec fn finite_bits(bits: u64) -> bool {
    bits & EXPONENT_MASK != EXPONENT_MASK
}

/// A double-precision float that is neither infinite nor NaN, held by its
/// IEEE 754 bit pattern.
#[derive(Debug, Clone, Copy)]
pub struct FiniteFloat {
    bits: u64,
}

impl View for FiniteFloat {
    type V = u64;

    closed spec fn view(&self) -> u64 {
        self.bits
    }
}

impl FiniteFloat {
    #[verifier::type_invariant]
    closed spec fn wf(self) -> bool {
        finite_bits(self.bits)
    }

    /// The float with bit pattern `bits`, drawn from the fuzzer's input;
    /// an infinity or NaN is refused as ill-formed.
    pub fn from_bits(bits: u64) -> (res: Result<FiniteFloat, ArbitraryError>)
        ensures
            res is Ok <==> finite_bits(bits),
            res matches Ok(f) ==> f@ == bits,
            res matches Err(e) ==> e == ArbitraryError::IncorrectFormat,
    {
        if bits & EXPONENT_MASK != EXPONENT_MASK {
            Ok(FiniteFloat { bits })
        } else {
            Err(ArbitraryError::IncorrectFormat)
        }
    }

    /// The float's bit pattern, which is always that of a finite double.
    pub fn to_bits(&self) -> (bits: u64)
        ensures
            bits == self@,
            finite_bits(bits),
    {
        proof {
            use_type_invariant(self);
        }
        self.bits
    }
}

impl PartialEq for FiniteFloat {
    /// Equality of the numbers, as for doubles: positive and negative zero
    /// are equal.
    fn eq(&self, other: &FiniteFloat) -> (equal: bool) {
        self.bits == other.bits || (self.bits & MAGNITUDE_MASK == 0 && other.bits & MAGNITUDE_MASK
            == 0)
    }
}

impl vstd::std_specs::cmp::PartialEqSpecImpl for FiniteFloat {
    open spec fn obeys_eq_spec() -> bool {
        true
    }

    open spec fn eq_spec(&self, other: &FiniteFloat) -> bool {
        finite_bits_equal(self@, other@)
    }
}

/// Law: equality of finite floats is an equivalence, every float equals
/// itself, two different bit patterns are equal only when both are zeros
/// (so the sign of a non-zero float matters), and the two zeros are equal.
pub proof fn law_finite_bits_equal(a: u64, b: u64, c: u64)
    ensures
        finite_bits_equal(a, a),
        finite_bits_equal(a, b) ==> finite_bits_equal(b, a),
        finite_bits_equal(a, b) && finite_bits_equal(b, c) ==> finite_bits_equal(a, c),
        finite_bits_equal(a, b) && a != b ==> a & MAGNITUDE_MASK == 0 && b & MAGNITUDE_MASK == 0,
        a != b && a & MAGNITUDE_MASK != 0 ==> !finite_bits_equal(a, b),
        finite_bits_equal(0, 0x8000_0000_0000_0000),
{
    assert(0u64 & MAGNITUDE_MASK == 0) by (bit_vector);
    assert(0x8000_0000_0000_0000u64 & MAGNITUDE_MASK == 0) by (bit_vector);
}

/// Law: `==` on finite floats is equality of the numbers: the same bit
/// pattern, or two zeros of either sign.
pub proof fn law_finite_float_eq(f: FiniteFloat, g: FiniteFloat)
    ensures
        f.eq_spec(&g) ==> f@ == g@ || (f@ & MAGNITUDE_MASK == 0 && g@ & MAGNITUDE_MASK == 0),
        f@ == g@ ==> f.eq_spec(&g),
        f@ & MAGNITUDE_MASK == 0 && g@ & MAGNITUDE_MASK == 0 ==> f.eq_spec(&g),
{
}

/// Law: a bit pattern is a finite double exactly when its eleven exponent
/// bits (bits 52 to 62) are not all ones; so the infinities and NaN are
/// refused, and zero, one and the largest double are accepted.
pub proof fn law_finite_bits(bits: u64)
    ensures
        finite_bits(bits) <==> (bits >> 52u64) & 0x7ffu64 != 0x7ffu64,
        !finite_bits(0x7ff0_0000_0000_0000),
        !finite_bits(0xfff0_0000_0000_0000),
        !finite_bits(0x7ff8_0000_0000_0000),
        finite_bits(0),
        finite_bits(0x3ff0_0000_0000_0000),
        finite_bits(0x7fef_ffff_ffff_ffff),
{
    assert((bits & 0x7ff0_0000_0000_0000u64 != 0x7ff0_0000_0000_0000u64) <==> ((bits >> 52u64)
        & 0x7ffu64 != 0x7ffu64)) by (bit_vector);
    assert(0x7ff0_0000_0000_0000u64 & 0x7ff0_0000_0000_0000u64 == 0x7ff0_0000_0000_0000u64)
        by (bit_vector);
    assert(0xfff0_0000_0000_0000u64 & 0x7ff0_0000_0000_0000u64 == 0x7ff0_0000_0000_0000u64)
        by (bit_vector);
    assert(0x7ff8_0000_0000_0000u64 & 0x7ff0_0000_0000_0000u64 == 0x7ff0_0000_0000_0000u64)
        by (bit_vector);
    assert(0u64 & 0x7ff0_0000_0000_0000u64 != 0x7ff0_0000_0000_0000u64) by (bit_vector);
    assert(0x3ff0_0000_0000_0000u64 & 0x7ff0_0000_0000_0000u64 != 0x7ff0_0000_0000_0000u64)
        by (bit_vector);
    assert(0x7fef_ffff_ffff_ffffu64 & 0x7ff0_0000_0000_0000u64 != 0x7ff0_0000_0000_0000u64)
        by (bit_vector);
}

} // verus!