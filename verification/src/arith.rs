//! Division and remainder facts used by the flush and cadence accounting.

use vstd::arithmetic::div_mod::lemma_fundamental_div_mod;
use vstd::arithmetic::div_mod::lemma_fundamental_div_mod_converse;
use vstd::prelude::*;

verus! {

/// For a positive divisor, how integer division changes when the dividend
/// grows by one: it steps up exactly at the multiples.
pub proof fn lemma_div_step(n: int, s: int)
    requires
        s >= 1,
        n >= 1,
    ensures
        n % s == 0 ==> n / s == (n - 1) / s + 1,
        n % s != 0 ==> n / s == (n - 1) / s,
        n % s == 0 ==> n == (n / s) * s,
{
    lemma_fundamental_div_mod(n - 1, s);
    let q1 = (n - 1) / s;
    let r1 = (n - 1) % s;
    if r1 + 1 == s {
        assert((q1 + 1) * s == q1 * s + s) by (nonlinear_arith);
        assert(s * q1 == q1 * s) by (nonlinear_arith);
        lemma_fundamental_div_mod_converse(n, s, q1 + 1, 0);
    } else {
        assert(s * q1 == q1 * s) by (nonlinear_arith);
        lemma_fundamental_div_mod_converse(n, s, q1, r1 + 1);
    }
    lemma_fundamental_div_mod(n, s);
    assert(s * (n / s) == (n / s) * s) by (nonlinear_arith);
}

/// For a positive divisor, how the remainder changes when the dividend grows
/// by one: it either steps up with it or wraps to zero at the multiples.
pub proof fn lemma_mod_step(n: int, s: int)
    requires
        s >= 1,
        n >= 1,
    ensures
        (n - 1) % s == s - 1 ==> n % s == 0,
        (n - 1) % s < s - 1 ==> n % s == (n - 1) % s + 1,
{
    lemma_fundamental_div_mod(n - 1, s);
    let q1 = (n - 1) / s;
    let r1 = (n - 1) % s;
    if r1 + 1 == s {
        assert((q1 + 1) * s == q1 * s + s) by (nonlinear_arith);
        assert(s * q1 == q1 * s) by (nonlinear_arith);
        lemma_fundamental_div_mod_converse(n, s, q1 + 1, 0);
    } else {
        assert(s * q1 == q1 * s) by (nonlinear_arith);
        lemma_fundamental_div_mod_converse(n, s, q1, r1 + 1);
    }
}

/// Zero divided by any positive number is zero, with remainder zero.
pub proof fn lemma_zero_div_mod(s: int)
    requires
        s >= 1,
    ensures
        0int % s == 0,
        0int / s == 0,
{
    lemma_fundamental_div_mod_converse(0, s, 0, 0);
}

/// The division identity itself: a dividend splits into full multiples plus
/// the remainder.
pub proof fn lemma_div_mod_split(n: int, s: int)
    requires
        s >= 1,
    ensures
        n == (n / s) * s + n % s,
        0 <= n % s < s,
{
    lemma_fundamental_div_mod(n, s);
    assert(s * (n / s) == (n / s) * s) by (nonlinear_arith);
}

} // verus!
