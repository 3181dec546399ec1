use vstd::prelude::*;

verus! {

/// Number of millionths in one unit: the scale of every amount the library takes.
pub const MICROS_PER_UNIT: i64 = 1_000_000;

/// An exact decimal number: `mantissa` counts of `10^-scale`.
#[derive(Clone, Copy, Debug, PartialEq, Eq, Structural)]
pub struct Decimal {
    pub mantissa: i128,
    pub scale: u32,
}

/// `d` is the number `mantissa * 10^-scale`, written with exactly that scale.
pub open spec fn is_dec(d: Decimal, mantissa: int, scale: nat) -> bool {
    d.mantissa == mantissa && d.scale == scale
}

impl Decimal {
    pub fn new(mantissa: i128, scale: u32) -> (r: Decimal)
        ensures
            is_dec(r, mantissa as int, scale as nat),
    {
        Decimal { mantissa, scale }
    }
}

/// An exact non-negative ratio `numerator / denominator`.
#[derive(Clone, Copy, Debug, PartialEq, Eq, Structural)]
pub struct Fraction {
    pub numerator: u128,
    pub denominator: u64,
}

} // verus!
