//! Campbell Scientific's two-byte decimal floating point format (FP2).
//!
//! Bit 15 is the sign, bits 14 and 13 select how many decimal places the value has, and
//! the low 13 bits are the magnitude. Three bit patterns are reserved for the infinities
//! and for "not a number".

use vstd::prelude::*;

verus! {

/// Bit pattern that stands for positive infinity.
pub const FP2_POS_INFINITY: u16 = 0x1FFF;

/// Bit pattern that stands for negative infinity.
pub const FP2_NEG_INFINITY: u16 = 0x9FFF;

/// Bit pattern that stands for "not a number".
pub const FP2_NAN: u16 = 0x9FFE;

/// A decoded FP2 number.
///
/// A finite value is `magnitude / 10^scale`, negated when `negative` is set. The decimal
/// form is kept as it came off the wire, so that a caller can turn it into a binary
/// float, a decimal string or a fixed-point number without loss.
#[derive(Clone, Copy, Debug, PartialEq, Eq, Structural)]
pub enum Fp2 {
    PosInfinity,
    NegInfinity,
    NotANumber,
    Finite { negative: bool, magnitude: u16, scale: u8 },
}

/// The number that the 16 bits `raw` encode.
pub open spec fn fp2_value(raw: u16) -> Fp2 {
    if raw == 0x1FFF {
        Fp2::PosInfinity
    } else if raw == 0x9FFF {
        Fp2::NegInfinity
    } else if raw == 0x9FFE {
        Fp2::NotANumber
    } else {
        Fp2::Finite {
            negative: raw >= 0x8000,
            magnitude: (raw % 0x2000) as u16,
            scale: ((raw / 0x2000) % 4) as u8,
        }
    }
}

/// `10^scale` for the four scales that the format has.
pub open spec fn fp2_divisor(scale: u8) -> int {
    if scale == 1 {
        10
    } else if scale == 2 {
        100
    } else if scale == 3 {
        1000
    } else {
        1
    }
}

impl Fp2 {
    /// A finite value carries a 13-bit magnitude and one of the four scales.
    pub open spec fn wf(self) -> bool {
        match self {
            Fp2::Finite { negative, magnitude, scale } => magnitude < 0x2000 && scale <= 3,
            _ => true,
        }
    }

    /// The value in thousandths, which is a whole number for every finite value.
    pub open spec fn spec_thousandths(self) -> Option<int> {
        match self {
            Fp2::Finite { negative, magnitude, scale } => {
                let m = magnitude * (1000int / fp2_divisor(scale));
                Some(if negative { -m } else { m })
            },
            _ => None,
        }
    }

    /// Whether this is a number, that is neither an infinity nor "not a number".
    pub fn is_finite(&self) -> (r: bool)
        ensures
            r == (*self matches Fp2::Finite { .. }),
    {
        match self {
            Fp2::Finite { .. } => true,
            _ => false,
        }
    }

    /// The value in thousandths: `12.76` gives `12760`. `None` for the three values that
    /// are no number.
    pub fn thousandths(&self) -> (r: Option<i32>)
        ensures
            r is Some <==> self.spec_thousandths() is Some,
            r is Some ==> r->0 == self.spec_thousandths()->0,
    {
        match *self {
            Fp2::Finite { negative, magnitude, scale } => {
                let unit: i32 = if scale == 1 {
                    100
                } else if scale == 2 {
                    10
                } else if scale == 3 {
                    1
                } else {
                    1000
                };
                let m: i32 = (magnitude as i32) * unit;
                Some(if negative { -m } else { m })
            },
            _ => None,
        }
    }
}

/// Decodes one FP2 number. Every bit pattern decodes: there is no error case.
pub fn decode_fp2(raw: u16) -> (r: Fp2)
    ensures
        r == fp2_value(raw),
        r.wf(),
{
    if raw == FP2_POS_INFINITY {
        Fp2::PosInfinity
    } else if raw == FP2_NEG_INFINITY {
        Fp2::NegInfinity
    } else if raw == FP2_NAN {
        Fp2::NotANumber
    } else {
        let negative = raw & 0x8000 != 0;
        let magnitude: u16 = raw & 0x1FFF;
        let selector: u16 = (raw & 0x6000) >> 13;
        assert((raw & 0x8000 != 0) == (raw >= 0x8000)) by (bit_vector);
        assert(raw & 0x1FFF == raw % 0x2000) by (bit_vector);
        assert((raw & 0x6000) >> 13 == (raw / 0x2000) % 4) by (bit_vector);
        Fp2::Finite { negative, magnitude, scale: selector as u8 }
    }
}

/// Every bit pattern stands for a value: one of the three reserved patterns for what
/// is no number, else a finite value with a 13-bit magnitude and at most three
/// decimal places, which lies between -8191 and 8191.
pub proof fn lemma_fp2_value_total(raw: u16)
    ensures
        fp2_value(raw).wf(),
        fp2_value(raw) == Fp2::PosInfinity <==> raw == FP2_POS_INFINITY,
        fp2_value(raw) == Fp2::NegInfinity <==> raw == FP2_NEG_INFINITY,
        fp2_value(raw) == Fp2::NotANumber <==> raw == FP2_NAN,
        fp2_value(raw) matches Fp2::Finite { .. } <==> raw != FP2_POS_INFINITY && raw
            != FP2_NEG_INFINITY && raw != FP2_NAN,
        fp2_value(raw).spec_thousandths() matches Some(t) ==> -8_191_000 <= t <= 8_191_000,
{
    if let Fp2::Finite { negative, magnitude, scale } = fp2_value(raw) {
        let unit = 1000int / fp2_divisor(scale);
        assert(unit == 1 || unit == 10 || unit == 100 || unit == 1000);
        assert(0 <= magnitude * unit <= 8_191_000) by (nonlinear_arith)
            requires
                0 <= magnitude <= 8191,
                1 <= unit <= 1000,
        ;
    }
}

/// No two bit patterns stand for the same value: decoding loses nothing.
pub proof fn lemma_fp2_value_injective(a: u16, b: u16)
    requires
        fp2_value(a) == fp2_value(b),
    ensures
        a == b,
{
    if fp2_value(a) matches Fp2::Finite { .. } {
        assert(a == (a / 0x8000) * 0x8000 + ((a / 0x2000) % 4) * 0x2000 + a % 0x2000);
        assert(b == (b / 0x8000) * 0x8000 + ((b / 0x2000) % 4) * 0x2000 + b % 0x2000);
        assert((a >= 0x8000) == (a / 0x8000 == 1));
        assert((b >= 0x8000) == (b / 0x8000 == 1));
    }
}

} // verus!
