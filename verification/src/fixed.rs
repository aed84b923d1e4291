//! Q16.16 fixed-point arithmetic helpers shared by the datapath and the
//! actuator: the integer `v` stands for the real value `v / 65536`.

use vstd::prelude::*;

verus! {

/// Quotient of a Q16.16 scaling step, truncated toward zero, as the
/// hardware-independent meaning of "divide by the fixed-point scale".
pub open spec fn div_q16(v: int) -> int {
    if v >= 0 {
        v / 65536
    } else {
        -((-v) / 65536)
    }
}

/// Saturation of a value to a closed interval.
pub open spec fn clamp(v: int, lo: int, hi: int) -> int {
    if v < lo {
        lo
    } else if v > hi {
        hi
    } else {
        v
    }
}

/// Product of two fixed-point words, widened so that no intermediate can
/// overflow.
pub fn mul_i32(a: i32, b: i32) -> (r: i128)
    ensures
        r == a as int * b as int,
        -0x4000_0000_0000_0000 <= r <= 0x4000_0000_0000_0000,
{
    proof {
        assert(-0x4000_0000_0000_0000 <= (a as int) * (b as int) <= 0x4000_0000_0000_0000)
            by (nonlinear_arith)
            requires
                -0x8000_0000 <= a as int <= 0x7fff_ffff,
                -0x8000_0000 <= b as int <= 0x7fff_ffff,
        ;
    }
    (a as i128) * (b as i128)
}

/// One Q16.16 scaling step on a widened accumulator, truncating toward zero.
pub fn scale_down_q16(v: i128) -> (r: i128)
    requires
        -0x1000_0000_0000_0000_0000_0000 <= v <= 0x1000_0000_0000_0000_0000_0000,
    ensures
        r == div_q16(v as int),
        -0x1000_0000_0000_0000_0000_0000 <= r <= 0x1000_0000_0000_0000_0000_0000,
{
    if v >= 0 {
        let q: u128 = (v as u128) / 65536u128;
        q as i128
    } else {
        let m: u128 = (-v) as u128;
        let q: u128 = m / 65536u128;
        -(q as i128)
    }
}

} // verus!
