//! Conversions between fixed-point units.
use vstd::prelude::*;

verus! {

/// `x` saturated into the range of `i32`.
pub open spec fn saturate_i32(x: int) -> int {
    if x > i32::MAX {
        i32::MAX as int
    } else if x < i32::MIN {
        i32::MIN as int
    } else {
        x
    }
}

/// `x / d` rounded down (toward minus infinity), saturated into `i32`: a value
/// kept in a unit `d` times finer, expressed in the coarser unit.
pub fn coarsen(x: i64, d: i64) -> (r: i32)
    requires
        d > 0,
    ensures
        r == saturate_i32(x as int / d as int),
{
    let q: i64 = if x >= 0 {
        x / d
    } else {
        let y: i64 = -(x + 1);
        let qy: i64 = y / d;
        proof {
            let ry = y % d;
            vstd::arithmetic::div_mod::lemma_fundamental_div_mod(y as int, d as int);
            assert(0 <= ry < d);
            assert(x == (-(qy + 1)) * d + (d - ry - 1)) by (nonlinear_arith)
                requires
                    y == d * qy + ry,
                    x == -y - 1,
            ;
            vstd::arithmetic::div_mod::lemma_fundamental_div_mod_converse(
                x as int,
                d as int,
                -(qy + 1),
                d - ry - 1,
            );
        }
        -qy - 1
    };
    if q > i32::MAX as i64 {
        i32::MAX
    } else if q < i32::MIN as i64 {
        i32::MIN
    } else {
        q as i32
    }
}

} // verus!
