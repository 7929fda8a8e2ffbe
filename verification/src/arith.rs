//! Rounded-up division, used to size workgroup grids and scan levels.
use vstd::prelude::*;

verus! {

/// `a / b`, rounded up.
pub open spec fn spec_div_ceil(a: int, b: int) -> int {
    (a + b - 1) / b
}

/// `a / b` rounded up covers `a`, and one group fewer would not.
pub proof fn lemma_div_ceil_bounds(a: int, b: int)
    requires
        a >= 0,
        b > 0,
    ensures
        spec_div_ceil(a, b) * b >= a,
        spec_div_ceil(a, b) * b < a + b,
        spec_div_ceil(a, b) >= 0,
        a > 0 ==> spec_div_ceil(a, b) >= 1,
        spec_div_ceil(a, b) <= a || a == 0,
{
    let q = (a + b - 1) / b;
    let r = (a + b - 1) % b;
    assert(q * b + r == a + b - 1 && 0 <= r < b) by (nonlinear_arith)
        requires
            b > 0,
            q == (a + b - 1) / b,
            r == (a + b - 1) % b,
    ;
    assert(q >= 0) by (nonlinear_arith)
        requires
            b > 0,
            a >= 0,
            q == (a + b - 1) / b,
    ;
    assert(a > 0 ==> q >= 1) by (nonlinear_arith)
        requires
            b > 0,
            q * b + r == a + b - 1,
            0 <= r < b,
    ;
    assert(q <= a || a == 0) by (nonlinear_arith)
        requires
            b > 0,
            a >= 0,
            q * b + r == a + b - 1,
            0 <= r < b,
            q >= 0,
    ;
}

/// `a / b`, rounded up, as `u32::div_ceil` computes it.
pub fn div_ceil_u32(a: u32, b: u32) -> (r: u32)
    requires
        b > 0,
    ensures
        r == spec_div_ceil(a as int, b as int),
{
    let q = a / b;
    let rem = a % b;
    proof {
        assert(q * b + rem == a && 0 <= rem < b) by (nonlinear_arith)
            requires
                b > 0,
                q == a / b,
                rem == a % b,
        ;
        assert(spec_div_ceil(a as int, b as int) == q + if rem == 0 { 0int } else { 1int }) by (nonlinear_arith)
            requires
                b > 0,
                q * b + rem == a,
                0 <= rem < b,
                q >= 0,
        ;
        assert(q + 1 <= 0xffff_ffff || rem == 0) by (nonlinear_arith)
            requires
                b > 0,
                q * b + rem == a,
                0 <= rem < b,
                a <= 0xffff_ffff,
        ;
    }
    if rem == 0 { q } else { q + 1 }
}

} // verus!
