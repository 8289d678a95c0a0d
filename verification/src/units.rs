//! Fixed-point micro-unit scalars and the 2-D point type.

use vstd::prelude::*;

verus! {

/// Number of micro-units in one whole unit: `SCALE` stands for `1.0`.
pub const SCALE: i64 = 1_000_000;

/// Micro-units for one half, the midpoint of the normalized screen range.
pub const HALF: i64 = 500_000;

/// A 2-D coordinate, either in raw gaze space (range unbounded) or in
/// normalized screen space (`0 ..= SCALE` on both axes after mapping).
#[derive(Clone, Copy, Debug, PartialEq, Eq, Structural)]
pub struct Point {
    pub x: i64,
    pub y: i64,
}

/// Floor division of a possibly negative dividend by a positive divisor.
/// In specifications `n / d` is Euclidean division, which for `d > 0` is
/// exactly floor division.
pub(crate) fn div_floor(n: i128, d: i128) -> (q: i128)
    requires
        d > 0,
        n > i128::MIN,
    ensures
        q == n as int / d as int,
{
    let du: u128 = d as u128;
    if n >= 0 {
        let nu: u128 = n as u128;
        let qu: u128 = nu / du;
        proof {
            vstd::arithmetic::div_mod::lemma_div_nonincreasing(n as int, d as int);
        }
        qu as i128
    } else {
        let m: u128 = (-n) as u128;
        let qu: u128 = (m + du - 1) / du;
        proof {
            let q0 = n as int / d as int;
            let r0 = n as int % d as int;
            vstd::arithmetic::div_mod::lemma_fundamental_div_mod(n as int, d as int);
            assert((m + du - 1) as int == (-q0) * (d as int) + ((d as int) - 1 - r0))
                by (nonlinear_arith)
                requires
                    n as int == (d as int) * q0 + r0,
                    m == -(n as int),
                    du == d,
            ;
            vstd::arithmetic::div_mod::lemma_fundamental_div_mod_converse_div(
                (m + du - 1) as int,
                d as int,
                -q0,
                (d as int) - 1 - r0,
            );
            assert(-q0 <= m) by (nonlinear_arith)
                requires
                    d as int >= 1,
                    n as int == (d as int) * q0 + r0,
                    m == -(n as int),
                    0 <= r0 < d as int,
                    m >= 1,
            ;
        }
        -(qu as i128)
    }
}

} // verus!
