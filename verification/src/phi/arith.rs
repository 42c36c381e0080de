//! Division that rounds down and the remainder that goes with it, for
//! signed numbers.

use vstd::prelude::*;
use vstd::arithmetic::div_mod::{
    lemma_fundamental_div_mod, lemma_fundamental_div_mod_converse, lemma_mod_pos_bound,
};

verus! {

/// The quotient of `a` by `d`, rounded down, for a divisor of either sign.
pub open spec fn spec_floor_div(a: int, d: int) -> int
    recommends
        d != 0,
{
    if d > 0 {
        a / d
    } else {
        (-a) / (-d)
    }
}

/// The quotient of `a` by a positive `d`, rounded down.
pub fn floor_div(a: i128, d: i128) -> (q: i128)
    requires
        d > 0,
        -0x1000_0000_0000_0000_0000_0000 <= a <= 0x1000_0000_0000_0000_0000_0000,
        d <= 0x1000_0000_0000_0000_0000_0000,
    ensures
        q == a / d,
        q == spec_floor_div(a as int, d as int),
        a >= 0 ==> 0 <= q <= a,
        a < 0 ==> a <= q < 0,
{
    if a >= 0 {
        let q: i128 = a / d;
        proof {
            lemma_fundamental_div_mod(a as int, d as int);
            lemma_mod_pos_bound(a as int, d as int);
            assert(0 <= q <= a) by (nonlinear_arith)
                requires
                    a == d * q + (a % d),
                    0 <= a % d < d,
                    a >= 0,
                    d > 0,
            ;
        }
        q
    } else {
        let up: i128 = (-a) + d - 1;
        let q: i128 = up / d;
        proof {
            let r: int = (up as int) % (d as int);
            lemma_fundamental_div_mod(up as int, d as int);
            lemma_mod_pos_bound(up as int, d as int);
            assert(a == (-q) * d + (d - 1 - r)) by (nonlinear_arith)
                requires
                    up == d * q + r,
                    up == -a + d - 1,
            ;
            lemma_fundamental_div_mod_converse(a as int, d as int, -q, d - 1 - r);
            assert(0 < q <= -a) by (nonlinear_arith)
                requires
                    up == d * q + r,
                    up == -a + d - 1,
                    0 <= r < d,
                    a < 0,
                    d > 0,
            ;
        }
        -q
    }
}

/// The remainder of `a` by a positive `n`, never negative.
pub fn modulo(a: i128, n: i128) -> (r: i128)
    requires
        n > 0,
        -0x1000_0000_0000_0000_0000_0000 <= a <= 0x1000_0000_0000_0000_0000_0000,
    ensures
        r == a % n,
        0 <= r < n,
{
    if a >= 0 {
        proof {
            lemma_mod_pos_bound(a as int, n as int);
        }
        a % n
    } else {
        let m: i128 = (-a) % n;
        proof {
            let x: int = -(a as int);
            let k: int = x / (n as int);
            lemma_fundamental_div_mod(x, n as int);
            lemma_mod_pos_bound(x, n as int);
            if m == 0 {
                assert(a == (-k) * n + 0) by (nonlinear_arith)
                    requires
                        x == n * k + m,
                        x == -a,
                        m == 0,
                ;
                lemma_fundamental_div_mod_converse(a as int, n as int, -k, 0);
            } else {
                assert(a == (-k - 1) * n + (n - m)) by (nonlinear_arith)
                    requires
                        x == n * k + m,
                        x == -a,
                ;
                lemma_fundamental_div_mod_converse(a as int, n as int, -k - 1, n - m);
            }
        }
        if m == 0 {
            0
        } else {
            n - m
        }
    }
}

} // verus!
