//! Fixed-point basis-point arithmetic: the one split primitive every transfer
//! amount in a settlement comes from, and the facts that make the splits safe.

use vstd::prelude::*;
use crate::state::BPS_DENOMINATOR;

verus! {

/// The share that `bps` basis points take of `x`: `floor(x * bps / 10000)`.
pub open spec fn bps_share_spec(x: int, bps: int) -> int {
    x * bps / (BPS_DENOMINATOR as int)
}

/// A basis-point share never exceeds the whole and is never negative.
pub proof fn lemma_bps_share_bounds(x: int, bps: int)
    requires
        0 <= x,
        0 <= bps <= BPS_DENOMINATOR,
    ensures
        0 <= bps_share_spec(x, bps) <= x,
{
    let d = BPS_DENOMINATOR as int;
    vstd::arithmetic::mul::lemma_mul_nonnegative(x, bps);
    vstd::arithmetic::div_mod::lemma_div_pos_is_pos(x * bps, d);
    assert(x * bps <= d * x) by (nonlinear_arith)
        requires 0 <= x, 0 <= bps <= d;
    vstd::arithmetic::div_mod::lemma_multiply_divide_le(x * bps, d, x);
}

/// A share of a strict part is a strict part: if `bps < 10000` then the share
/// of a positive `x` is strictly below `x`.
pub proof fn lemma_bps_share_strict(x: int, bps: int)
    requires
        1 <= x,
        0 <= bps < BPS_DENOMINATOR,
    ensures
        bps_share_spec(x, bps) < x,
{
    let d = BPS_DENOMINATOR as int;
    assert(x * bps < d * x) by (nonlinear_arith)
        requires 1 <= x, 0 <= bps < d;
    vstd::arithmetic::div_mod::lemma_multiply_divide_lt(x * bps, d, x);
}

/// Two shares of the same whole cover at most the share of their joint
/// fraction: `floor(x*p/10000) + floor(x*q/10000) <= floor(x*(p+q)/10000)`.
pub proof fn lemma_bps_share_superadditive(x: int, p: int, q: int)
    requires
        0 <= x,
        0 <= p,
        0 <= q,
    ensures
        bps_share_spec(x, p) + bps_share_spec(x, q) <= bps_share_spec(x, p + q),
{
    let d = BPS_DENOMINATOR as int;
    let a = x * p;
    let b = x * q;
    vstd::arithmetic::mul::lemma_mul_nonnegative(x, p);
    vstd::arithmetic::mul::lemma_mul_nonnegative(x, q);
    vstd::arithmetic::mul::lemma_mul_is_distributive_add(x, p, q);
    assert(a + b == x * (p + q));
    vstd::arithmetic::div_mod::lemma_fundamental_div_mod(a, d);
    vstd::arithmetic::div_mod::lemma_fundamental_div_mod(b, d);
    vstd::arithmetic::div_mod::lemma_mod_division_less_than_divisor(a, d);
    vstd::arithmetic::div_mod::lemma_mod_division_less_than_divisor(b, d);
    assert(d * (a / d + b / d) <= a + b) by (nonlinear_arith)
        requires a == d * (a / d) + a % d, b == d * (b / d) + b % d, a % d >= 0, b % d >= 0;
    vstd::arithmetic::div_mod::lemma_div_is_ordered(d * (a / d + b / d), a + b, d);
    vstd::arithmetic::div_mod::lemma_div_multiples_vanish(a / d + b / d, d);
}

/// Two shares whose fractions jointly stay within 10000 bps cover at most the
/// whole; strictly less when the fractions leave a gap and the whole is
/// positive.
pub proof fn lemma_bps_shares_within(x: int, p: int, q: int)
    requires
        0 <= x,
        0 <= p,
        0 <= q,
        p + q <= BPS_DENOMINATOR,
    ensures
        bps_share_spec(x, p) + bps_share_spec(x, q) <= x,
        x >= 1 && p + q < BPS_DENOMINATOR ==> bps_share_spec(x, p) + bps_share_spec(x, q) < x,
{
    lemma_bps_share_superadditive(x, p, q);
    lemma_bps_share_bounds(x, p + q);
    if x >= 1 && p + q < BPS_DENOMINATOR {
        lemma_bps_share_strict(x, p + q);
    }
}

/// The basis-point share of `x`, computed with doubled width so that no input
/// can overflow: `floor(x * bps / 10000)` exactly, for every `x` up to
/// `u64::MAX`.
pub fn bps_share(x: u64, bps: u16) -> (r: u64)
    requires
        bps <= BPS_DENOMINATOR,
    ensures
        r == bps_share_spec(x as int, bps as int),
        r <= x,
{
    proof {
        lemma_bps_share_bounds(x as int, bps as int);
    }
    let wide: u128 = (x as u128) * (bps as u128);
    assert(wide == x as int * bps as int) by (nonlinear_arith)
        requires wide == (x as u128) as int * (bps as u128) as int,
                 (x as u128) as int == x as int,
                 (bps as u128) as int == bps as int;
    (wide / (BPS_DENOMINATOR as u128)) as u64
}

} // verus!
