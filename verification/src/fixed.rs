//! Decimal fixed-point numbers.
//!
//! A `Fx` holds an integer count of units of `1 / SCALE` (one trillionth), so
//! decimal literals such as `0.1` or `1e-7` are represented exactly. Values
//! are kept in the symmetric range `[-MAX_UNITS, MAX_UNITS]` units; every
//! operation saturates at that range, and multiplication and division
//! truncate toward zero. The spec functions below pin each operation down
//! exactly, so arithmetic on `Fx` is fully deterministic.

use vstd::prelude::*;

verus! {

/// Number of units in 1.0.
pub const SCALE: i128 = 1_000_000_000_000;

/// Largest magnitude, in units, that a `Fx` may hold. Chosen so that the
/// product of two in-range unit counts still fits in an `i128`.
pub const MAX_UNITS: i128 = 10_000_000_000_000_000_000;

/// Clamp a unit count into the representable range.
pub open spec fn sat_units(v: int) -> int {
    if v > MAX_UNITS as int {
        MAX_UNITS as int
    } else if v < -(MAX_UNITS as int) {
        -(MAX_UNITS as int)
    } else {
        v
    }
}

/// Magnitude of an integer.
pub open spec fn iabs(v: int) -> int {
    if v < 0 {
        -v
    } else {
        v
    }
}

/// Division truncated toward zero, as the hardware divides.
pub open spec fn tdiv(n: int, d: int) -> int
    recommends
        d != 0,
{
    if (n < 0) <==> (d < 0) {
        iabs(n) / iabs(d)
    } else {
        -(iabs(n) / iabs(d))
    }
}

/// Saturating addition on unit counts.
pub open spec fn add_units(a: int, b: int) -> int {
    sat_units(a + b)
}

/// Saturating subtraction on unit counts.
pub open spec fn sub_units(a: int, b: int) -> int {
    sat_units(a - b)
}

/// Fixed-point product: scale-adjusted, truncated toward zero, saturated.
pub open spec fn mul_units(a: int, b: int) -> int {
    sat_units(tdiv(a * b, SCALE as int))
}

/// Fixed-point quotient: scale-adjusted, truncated toward zero, saturated.
pub open spec fn div_units(a: int, b: int) -> int
    recommends
        b != 0,
{
    sat_units(tdiv(a * (SCALE as int), b))
}

/// A fixed-point number: `units / SCALE`.
#[derive(Clone, Copy, Debug, PartialEq, Eq, Structural)]
pub struct Fx {
    units: i128,
}

impl View for Fx {
    type V = int;

    closed spec fn view(&self) -> int {
        self.units as int
    }
}

impl Fx {
    #[verifier::type_invariant]
    spec fn bounded(self) -> bool {
        -(MAX_UNITS as int) <= self.units as int <= MAX_UNITS as int
    }

    /// Build a value from a raw unit count, clamping it into range.
    pub fn from_units(u: i128) -> (r: Fx)
        ensures
            r@ == sat_units(u as int),
    {
        if u > MAX_UNITS {
            Fx { units: MAX_UNITS }
        } else if u < -MAX_UNITS {
            Fx { units: -MAX_UNITS }
        } else {
            Fx { units: u }
        }
    }

    /// The raw unit count.
    pub fn to_units(self) -> (r: i128)
        ensures
            r as int == self@,
    {
        self.units
    }

    /// The largest representable value; used as the "worse than anything"
    /// sentinel by the random-search optimizer.
    pub fn max_value() -> (r: Fx)
        ensures
            r@ == MAX_UNITS as int,
    {
        Fx { units: MAX_UNITS }
    }

    /// Saturating addition.
    pub fn add_fx(self, rhs: Fx) -> (r: Fx)
        ensures
            r@ == add_units(self@, rhs@),
    {
        proof {
            use_type_invariant(self);
            use_type_invariant(rhs);
        }
        Fx::from_units(self.units + rhs.units)
    }

    /// Saturating subtraction.
    pub fn sub_fx(self, rhs: Fx) -> (r: Fx)
        ensures
            r@ == sub_units(self@, rhs@),
    {
        proof {
            use_type_invariant(self);
            use_type_invariant(rhs);
        }
        Fx::from_units(self.units - rhs.units)
    }

    /// Saturating, truncating fixed-point multiplication.
    pub fn mul_fx(self, rhs: Fx) -> (r: Fx)
        ensures
            r@ == mul_units(self@, rhs@),
    {
        proof {
            use_type_invariant(self);
            use_type_invariant(rhs);
            assert(-(MAX_UNITS * MAX_UNITS) <= self.units * rhs.units <= MAX_UNITS * MAX_UNITS)
                by (nonlinear_arith)
                requires
                    -MAX_UNITS <= self.units <= MAX_UNITS,
                    -MAX_UNITS <= rhs.units <= MAX_UNITS,
            ;
        }
        let prod: i128 = self.units * rhs.units;
        let neg: bool = prod < 0;
        let mag: i128 = if neg {
            -prod
        } else {
            prod
        };
        let q: u128 = (mag as u128) / (SCALE as u128);
        let qi: i128 = q as i128;
        if neg {
            Fx::from_units(-qi)
        } else {
            Fx::from_units(qi)
        }
    }

    /// Saturating, truncating fixed-point division.
    pub fn div_fx(self, rhs: Fx) -> (r: Fx)
        requires
            rhs@ != 0,
        ensures
            r@ == div_units(self@, rhs@),
    {
        proof {
            use_type_invariant(self);
            use_type_invariant(rhs);
        }
        let num: i128 = self.units * SCALE;
        let nneg: bool = num < 0;
        let nmag: i128 = if nneg {
            -num
        } else {
            num
        };
        let dneg: bool = rhs.units < 0;
        let dmag: i128 = if dneg {
            -rhs.units
        } else {
            rhs.units
        };
        let q: u128 = (nmag as u128) / (dmag as u128);
        proof {
            assert((nmag as u128) / (dmag as u128) <= nmag as u128) by (nonlinear_arith)
                requires
                    dmag as u128 >= 1,
            ;
        }
        let qi: i128 = q as i128;
        if nneg != dneg {
            Fx::from_units(-qi)
        } else {
            Fx::from_units(qi)
        }
    }

    /// Strict comparison.
    pub fn lt(self, rhs: Fx) -> (r: bool)
        ensures
            r == (self@ < rhs@),
    {
        self.units < rhs.units
    }
}

} // verus!
