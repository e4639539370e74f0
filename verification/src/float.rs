//! Wire-level float codec.
//!
//! The engine represents a double as a `{mantissa, exponent}` pair obtained
//! by splitting the IEEE-754 bit pattern of the value at bit 52.  The codec
//! here works on the raw 64-bit pattern, so it is pure integer logic; hosts
//! obtain the pattern with `f64::to_bits` and rebuild the value with
//! `f64::from_bits`.

use vstd::prelude::*;

verus! {

/// Low 52 bits of a double's bit pattern.
pub open spec fn split_mantissa(bits: u64) -> u64 {
    bits & 0xF_FFFF_FFFF_FFFF
}

/// The 11 exponent bits of a double's bit pattern.
pub open spec fn split_exponent(bits: u64) -> u64 {
    (bits >> 52) & 0x7FF
}

/// The bit pattern a wire pair reassembles to: mantissa in the low 52 bits,
/// exponent shifted above them.  The sign bit is never set.
pub open spec fn joined_bits(f: ExiFloat) -> u64 {
    (f.mantissa as u64) | ((f.exponent as u64) << 52)
}

/// Wire-level representation of an IEEE-754 double: the bit pattern split at
/// bit 52 into a mantissa and an exponent field.  Sign information is not
/// separately modeled — the split drops the top bit — so negative extremes
/// reassemble to their positive counterparts.  This is a defined property of
/// the wire format, preserved here on purpose.
#[derive(Clone, Copy, Debug, PartialEq, Eq, Structural)]
pub struct ExiFloat {
    pub mantissa: i64,
    pub exponent: i16,
}

impl ExiFloat {
    /// Field ranges that `from_bits` produces: 52 mantissa bits and 11
    /// exponent bits.
    pub open spec fn wf(self) -> bool {
        &&& 0 <= self.mantissa < 0x10_0000_0000_0000i64
        &&& 0 <= self.exponent < 0x800i16
    }

    /// Split an IEEE-754 bit pattern at bit 52.
    pub fn from_bits(bits: u64) -> (r: ExiFloat)
        ensures
            r.mantissa == split_mantissa(bits),
            r.exponent == split_exponent(bits),
            r.wf(),
    {
        let mantissa_bits: u64 = bits & 0xF_FFFF_FFFF_FFFF;
        let exponent_bits: u64 = (bits >> 52) & 0x7FF;
        proof {
            assert(bits & 0xF_FFFF_FFFF_FFFF < 0x10_0000_0000_0000) by (bit_vector);
            assert((bits >> 52) & 0x7FF < 0x800) by (bit_vector);
        }
        ExiFloat { mantissa: mantissa_bits as i64, exponent: exponent_bits as i16 }
    }

    /// Reassemble the bit pattern the pair stands for.
    pub fn to_bits(&self) -> (r: u64)
        requires
            self.wf(),
        ensures
            r == joined_bits(*self),
    {
        (self.mantissa as u64) | ((self.exponent as u64) << 52)
    }
}

/// Splitting a bit pattern and reassembling it clears exactly the sign bit.
/// Every non-negative pattern — all non-negative finite doubles, `+inf`, and
/// NaN patterns with a clear sign bit — round-trips bit-exactly; a pattern
/// with the sign bit set comes back as its positive counterpart.
pub proof fn lemma_float_roundtrip(bits: u64)
    ensures
        joined_bits(ExiFloat {
            mantissa: split_mantissa(bits) as i64,
            exponent: split_exponent(bits) as i16,
        }) == bits & 0x7FFF_FFFF_FFFF_FFFF,
        bits < 0x8000_0000_0000_0000 ==> joined_bits(ExiFloat {
            mantissa: split_mantissa(bits) as i64,
            exponent: split_exponent(bits) as i16,
        }) == bits,
{
    assert(((bits & 0xF_FFFF_FFFF_FFFF) as i64 as u64) | ((((bits >> 52) & 0x7FF) as i16 as u64)
        << 52) == bits & 0x7FFF_FFFF_FFFF_FFFF) by (bit_vector);
    assert(bits < 0x8000_0000_0000_0000 ==> bits & 0x7FFF_FFFF_FFFF_FFFF == bits) by (bit_vector);
}

} // verus!
