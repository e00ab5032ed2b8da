//! Fixed-point scalars and rounding division.

use vstd::prelude::*;
use vstd::arithmetic::div_mod::lemma_fundamental_div_mod_converse;
use vstd::arithmetic::div_mod::lemma_fundamental_div_mod;
use vstd::arithmetic::div_mod::lemma_mod_bound;

verus! {

/// Number of fixed-point steps in one whole: one turn, the full chart radius,
/// one device unit, or the factor one.
pub const UNIT: i64 = 1_000_000;

/// Quotient of `a` by a positive `b`, rounded toward negative infinity.
pub fn floor_div(a: i128, b: i128) -> (q: i128)
    requires
        b > 0,
    ensures
        q == a as int / b as int,
        a >= 0 ==> 0 <= q <= a,
        a < 0 ==> a <= q < 0,
{
    if a >= 0 {
        proof {
            let r: int = a as int % b as int;
            lemma_fundamental_div_mod(a as int, b as int);
            lemma_mod_bound(a as int, b as int);
            assert(0 <= a as int / b as int <= a as int) by (nonlinear_arith)
                requires
                    a as int == b as int * (a as int / b as int) + r,
                    0 <= r < b as int,
                    a as int >= 0,
                    b as int > 0,
            ;
        }
        a / b
    } else {
        let n: i128 = -(a + 1);
        let below: i128 = n / b;
        proof {
            let r: int = n as int % b as int;
            lemma_fundamental_div_mod(n as int, b as int);
            lemma_mod_bound(n as int, b as int);
            assert(n as int == b as int * below as int + r);
            assert(a as int == (-(below as int) - 1) * b as int + (b as int - 1 - r)) by (nonlinear_arith)
                requires
                    n as int == b as int * below as int + r,
                    a as int == -(n as int) - 1,
            ;
            lemma_fundamental_div_mod_converse(a as int, b as int, -(below as int) - 1, b as int - 1 - r);
            assert(0 <= below as int <= n as int) by (nonlinear_arith)
                requires
                    n as int == b as int * below as int + r,
                    0 <= r < b as int,
                    n as int >= 0,
                    b as int > 0,
            ;
        }
        -below - 1
    }
}

/// Largest magnitude of an angle that a slice can have.
pub open spec fn angle_limit() -> int {
    18_446_744_073_709_551_616_000_000
}

/// The angle, in millionths of a turn, that `x` stands for under a chart's
/// normalization factor: `x` itself without a factor, else `x` divided by
/// the factor, rounded toward negative infinity.
pub open spec fn spec_turns(x: int, factor: Option<i64>) -> int {
    match factor {
        None => x,
        Some(f) => if f > 0 {
            x * UNIT as int / f as int
        } else {
            (-x) * UNIT as int / (-(f as int))
        },
    }
}

/// Computes [`spec_turns`].
pub fn turns(x: i128, factor: Option<i64>) -> (angle: i128)
    requires
        factor != Some(0i64),
        -0x1_0000_0000_0000_0000 <= x <= 0x1_0000_0000_0000_0000,
    ensures
        angle == spec_turns(x as int, factor),
        -angle_limit() <= angle <= angle_limit(),
{
    match factor {
        None => x,
        Some(f) => {
            let wide: i128 = f as i128;
            if f > 0 {
                floor_div(x * (UNIT as i128), wide)
            } else {
                floor_div((-x) * (UNIT as i128), -wide)
            }
        },
    }
}

/// Number of angular samples that a span of a full turn is cut into.
pub const FULL_CIRCLE_TAPS: u32 = 256;

/// Number of angular samples for a span given in millionths of a turn: the
/// span's share of [`FULL_CIRCLE_TAPS`], rounded to the nearest integer
/// (halves upward), and never fewer than two.
pub open spec fn spec_tap_count(span: int) -> int {
    if span <= 0 {
        2
    } else {
        let n = (span * 256 + 500_000) / 1_000_000;
        if n < 2 { 2 } else { n }
    }
}

/// Computes [`spec_tap_count`].
pub fn tap_count(span: i128) -> (taps: i128)
    ensures
        taps == spec_tap_count(span as int),
        taps >= 2,
{
    if span <= 0 {
        2
    } else {
        let whole: i128 = span / 1_000_000;
        let part: i128 = span % 1_000_000;
        let n: i128 = whole * 256 + (part * 256 + 500_000) / 1_000_000;
        if n < 2 { 2 } else { n }
    }
}

} // verus!
