//! Exact percentage deviation of a measured DPI from a declared DPI.
//!
//! The deviation `((measured / declared) - 1) * 100` is a rational number.
//! Rather than approximate it, the crate keeps it as an integer fraction,
//! so that every question asked of it — above all whether it equals a given
//! whole percentage — has an exact, verified answer.

use vstd::prelude::*;

verus! {

/// An exact signed percentage, stored as the fraction `num / den`.
#[derive(Clone, Copy, PartialEq, Eq, Structural, Debug)]
pub struct Percent {
    pub num: i128,
    pub den: u64,
}

impl Percent {
    /// A percentage is meaningful only with a positive denominator.
    pub open spec fn wf(self) -> bool {
        self.den > 0
    }

    /// The fraction equals the whole number `w` exactly.
    pub open spec fn is_exactly(self, w: int) -> bool {
        self.num == w * self.den
    }

    /// Whether this percentage equals the whole number `w` exactly.
    pub fn equals_whole(&self, w: i64) -> (b: bool)
        ensures
            b == self.is_exactly(w as int),
    {
        proof {
            assert(-0x8000_0000_0000_0000_0000_0000_0000_0000 <= w * self.den
                <= 0x7fff_ffff_ffff_ffff_ffff_ffff_ffff_ffff) by (nonlinear_arith)
                requires
                    -0x8000_0000_0000_0000 <= w <= 0x7fff_ffff_ffff_ffff,
                    0 <= self.den <= 0xffff_ffff_ffff_ffff,
            ;
        }
        self.num == (w as i128) * (self.den as i128)
    }
}

/// Signed percentage deviation of a measured DPI from the declared DPI:
/// `((measured / declared) - 1) * 100`, kept exact as the fraction
/// `100 * (measured - declared)` over `declared`.
pub fn dpi_deviation(measured: u64, declared: u64) -> (r: Percent)
    requires
        declared > 0,
    ensures
        r.wf(),
        r.den == declared,
        r.num == 100 * (measured - declared),
{
    Percent { num: 100 * (measured as i128 - declared as i128), den: declared }
}

} // verus!
