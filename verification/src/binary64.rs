//! Binary64 rounding modelled in integers. A value of at least one that a
//! 53-bit significand can hold is written in units of 2^-52, so it is a whole
//! number; quotients are rounded to the nearest such value, an exact half
//! going to the even significand, as IEEE 754 division and integer
//! conversion round.

use vstd::prelude::*;
use crate::attachment::{round_div_even, round_half_even};

verus! {

/// One, in units of 2^-52.
pub const UNIT: u128 = 4503599627370496;

/// Two, in units of 2^-52: the top of the binade of one.
pub const UNIT2: u128 = 9007199254740992;

/// The largest numerator the rounding below takes (2^117).
pub const NUMERATOR_LIMIT: u128 = 166153499473114484112975882535043072;

/// The spacing, in units, of the values a significand can hold near `p / q`
/// units, found by doubling `g` while `p / q` reaches twice the binade of `g`.
pub open spec fn ulp_units(p: nat, q: nat, g: nat) -> nat
    decreases p - q * g,
{
    if q > 0 && g > 0 && p >= q * g * UNIT2 {
        proof {
            assert(q * g * UNIT2 >= q * (2 * g) && q * (2 * g) > q * g) by (nonlinear_arith)
                requires
                    q > 0,
                    g > 0,
            ;
        }
        ulp_units(p, q, 2 * g)
    } else {
        g
    }
}

/// The quotient `p / q` (in units of 2^-52) rounded to a value a 53-bit
/// significand holds: to the nearest multiple of the spacing of its binade,
/// an exact half to the even multiple. For quotients of at least one unit
/// this is the binary64 result of the division.
pub open spec fn double_units(p: nat, q: nat) -> nat {
    let g = ulp_units(p, q, 1);
    round_div_even(p, q * g) * g
}

/// Rounds `p / q` units as binary64 division does; see [`double_units`].
pub fn round_quotient(p: u128, q: u128) -> (r: u128)
    requires
        0 < q <= 1_000_000,
        p < NUMERATOR_LIMIT,
    ensures
        r == double_units(p as nat, q as nat),
        r * q <= 2 * p + q,
{
    let mut g: u128 = 1;
    while p >= q * g * UNIT2
        invariant
            0 < q <= 1_000_000,
            p < NUMERATOR_LIMIT,
            g >= 1,
            g == 1 || q * g * UNIT <= p,
            ulp_units(p as nat, q as nat, g as nat) == ulp_units(p as nat, q as nat, 1),
        decreases p - q * g,
    {
        assert(q * g * UNIT2 == q * (2 * g) * UNIT) by (nonlinear_arith);
        assert(q * g * UNIT2 >= q * (2 * g) && q * (2 * g) > q * g) by (nonlinear_arith)
            requires
                q > 0,
                g > 0,
        ;
        assert(g < 0x1_0000_0000_0000_0000) by (nonlinear_arith)
            requires
                p >= q * g * UNIT2,
                p < NUMERATOR_LIMIT,
                q >= 1,
        ;
        g = 2 * g;
    }
    assert(q * g <= p + q) by (nonlinear_arith)
        requires
            g == 1 || q * g * UNIT <= p,
            g >= 1,
            q > 0,
    ;
    let qg: u128 = q * g;
    let k = round_half_even(p, qg);
    assert(k * qg <= p + qg) by (nonlinear_arith)
        requires
            k <= p / qg + 1,
            qg > 0,
    ;
    assert(k * g * q <= 2 * p + q) by (nonlinear_arith)
        requires
            k * qg <= p + qg,
            qg == q * g,
            q * g <= p + q,
    ;
    assert(k * g <= k * g * q) by (nonlinear_arith)
        requires
            q >= 1,
    ;
    k * g
}

} // verus!
