//! Floor division on machine integers.
//!
//! Contracts throughout the crate use the mathematical `/`, which for a
//! positive divisor rounds toward negative infinity. Rust's signed `/`
//! rounds toward zero instead, so the executable code divides through
//! this helper, which implements the mathematical quotient directly.

use vstd::prelude::*;

verus! {

use vstd::arithmetic::div_mod::lemma_div_basics_5;
use vstd::arithmetic::div_mod::lemma_fundamental_div_mod;
use vstd::arithmetic::div_mod::lemma_fundamental_div_mod_converse;

/// The mathematical quotient `x / d`, rounded toward negative infinity.
pub fn div_floor_i64(x: i64, d: u64) -> (q: i64)
    requires
        1 <= d <= 0x1_0000_0000,
        -0x4000_0000_0000_0000 <= x <= 0x4000_0000_0000_0000,
    ensures
        q == x as int / d as int,
        x >= 0 ==> 0 <= q <= x,
        x < 0 ==> x <= q <= -1,
{
    if x >= 0 {
        let qa: u64 = (x as u64) / d;
        proof {
            lemma_div_basics_5(x as int, d as int);
        }
        qa as i64
    } else {
        let a: u64 = (-(x + 1)) as u64;
        let qm: u64 = a / d;
        proof {
            lemma_div_basics_5(a as int, d as int);
            let ai = a as int;
            let di = d as int;
            let qi = qm as int;
            lemma_fundamental_div_mod(ai, di);
            let r = ai % di;
            assert(x as int == (-qi - 1) * di + (di - r - 1)) by (nonlinear_arith)
                requires
                    ai == di * qi + r,
                    x as int == -ai - 1,
            ;
            lemma_fundamental_div_mod_converse(x as int, di, -qi - 1, di - r - 1);
        }
        -(qm as i64) - 1
    }
}

} // verus!
