//! Decimal numbers as the configuration trees hold them.

use vstd::prelude::*;

verus! {

/// A finite decimal number: `mantissa * 10^exponent`, negated when `positive`
/// is false. This is the form in which the JSON layer stores every number, so
/// a value written here reaches the output digit for digit.
#[derive(Clone, Copy, Debug, PartialEq, Eq, Structural)]
pub struct Decimal {
    pub positive: bool,
    pub mantissa: u64,
    pub exponent: i16,
}

impl Decimal {
    /// The number with trailing zeros of a fractional mantissa removed:
    /// `1000 * 10^-3` becomes `1 * 10^0`. Numbers that have no fractional
    /// part, or whose mantissa does not end in zero, stay as they are.
    pub open spec fn normalized(self) -> Decimal
        decreases
            (if self.exponent < 0 { -(self.exponent as int) } else { 0 }),
    {
        if self.exponent < 0 && self.mantissa % 10 == 0 {
            (Decimal {
                positive: self.positive,
                mantissa: self.mantissa / 10,
                exponent: (self.exponent + 1) as i16,
            }).normalized()
        } else {
            self
        }
    }

    /// The whole number `n`.
    pub open spec fn whole(n: u32) -> Decimal {
        Decimal { positive: true, mantissa: n as u64, exponent: 0 }
    }

    /// The number `mantissa * 10^exponent`, negated when `positive` is false.
    pub fn new(positive: bool, mantissa: u64, exponent: i16) -> (d: Decimal)
        ensures
            d == (Decimal { positive, mantissa, exponent }),
    {
        Decimal { positive, mantissa, exponent }
    }

    /// The whole number `n`, which normalizing leaves as it is.
    pub fn from_u32(n: u32) -> (d: Decimal)
        ensures
            d == Decimal::whole(n),
            d.normalized() == d,
    {
        Decimal { positive: true, mantissa: n as u64, exponent: 0 }
    }
}

} // verus!
