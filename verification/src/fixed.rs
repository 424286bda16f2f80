//! Fixed-point arithmetic shared by the pricing functions.
//!
//! Prices are integers scaled by [`DENOM`]; rates are basis points. Every
//! quotient rounds down.

use vstd::arithmetic::div_mod::lemma_fundamental_div_mod;
use vstd::arithmetic::div_mod::lemma_fundamental_div_mod_converse;
use vstd::prelude::*;

verus! {

/// The scale of prices and token amounts: one whole token is `DENOM` units.
pub const DENOM: u64 = 1_000_000_000;

/// Basis points in one whole.
pub const BPS_DENOM: u64 = 10_000;

/// Seconds in one day.
pub const SECONDS_PER_DAY: u64 = 86_400;

/// What a daily rate in basis points is divided by to give a rate per second:
/// `BPS_DENOM * SECONDS_PER_DAY`.
pub const DRIFT_DENOM: u128 = 864_000_000;

/// `a * num / den`, rounded down, over the natural numbers.
pub open spec fn mul_div(a: nat, num: nat, den: nat) -> nat
    recommends
        den > 0,
{
    (a * num) / den
}

/// `value` raised by `bps` basis points, rounded down.
pub open spec fn marked_up(value: nat, bps: nat) -> nat {
    mul_div(value, BPS_DENOM as nat + bps, BPS_DENOM as nat)
}

/// `value` lowered by `bps` basis points, rounded down.
pub open spec fn marked_down(value: nat, bps: nat) -> nat
    recommends
        bps <= BPS_DENOM,
{
    mul_div(value, (BPS_DENOM - bps) as nat, BPS_DENOM as nat)
}

/// The product of `a` and `b`, held at `u128::MAX` where it would pass it.
pub open spec fn saturating_product(a: nat, b: nat) -> nat {
    if a * b > u128::MAX {
        u128::MAX as nat
    } else {
        a * b
    }
}

/// A quotient of a product splits along the quotient and remainder of one
/// factor: `a * n / d == (a / d) * n + (a % d) * n / d`.
pub proof fn lemma_mul_div_split(a: nat, n: nat, d: nat)
    requires
        d > 0,
    ensures
        mul_div(a, n, d) == (a / d) * n + ((a % d) * n) / d,
{
    let q = (a / d) as int;
    let r = (a % d) as int;
    let t = r * n;
    lemma_fundamental_div_mod(a as int, d as int);
    lemma_fundamental_div_mod(t, d as int);
    assert(0 <= t) by (nonlinear_arith)
        requires
            0 <= r,
            t == r * n,
    ;
    assert(a * n == (q * n + t / (d as int)) * d + t % (d as int)) by (nonlinear_arith)
        requires
            a == d * q + r,
            t == r * n,
            t == d * (t / (d as int)) + t % (d as int),
    ;
    lemma_fundamental_div_mod_converse(
        (a * n) as int,
        d as int,
        q * n + t / (d as int),
        t % (d as int),
    );
}

/// A quotient of a product grows with either factor.
pub proof fn lemma_mul_div_monotonic(a: nat, b: nat, n: nat, m: nat, d: nat)
    requires
        d > 0,
        a <= b,
        n <= m,
    ensures
        mul_div(a, n, d) <= mul_div(b, m, d),
{
    assert(a * n <= b * m) by (nonlinear_arith)
        requires
            a <= b,
            n <= m,
    ;
    vstd::arithmetic::div_mod::lemma_div_is_ordered((a * n) as int, (b * m) as int, d as int);
}

/// A quotient is at most what is divided.
pub proof fn lemma_mul_div_at_most_product(a: nat, n: nat, d: nat)
    requires
        d > 0,
    ensures
        mul_div(a, n, d) <= a * n,
{
    let x = (a * n) as int;
    let divisor = d as int;
    assert(x / divisor <= x) by (nonlinear_arith)
        requires
            0 <= x,
            divisor >= 1,
    ;
}

/// Multiplying by the divisor itself changes nothing.
pub proof fn lemma_mul_div_same(a: nat, d: nat)
    requires
        d > 0,
    ensures
        mul_div(a, d, d) == a,
{
    vstd::arithmetic::div_mod::lemma_div_multiples_vanish(a as int, d as int);
    assert(a * d == d * a) by (nonlinear_arith);
}

/// Computes `a * num / den`, rounded down, without losing the high part of
/// the product. `None` where `den` is zero or the quotient passes `u128::MAX`.
pub fn checked_mul_div(a: u128, num: u64, den: u64) -> (res: Option<u128>)
    ensures
        res == (if den > 0 && mul_div(a as nat, num as nat, den as nat) <= u128::MAX {
            Some(mul_div(a as nat, num as nat, den as nat) as u128)
        } else {
            None
        }),
{
    if den == 0 {
        return None;
    }
    let d: u128 = den as u128;
    let n: u128 = num as u128;
    let q: u128 = a / d;
    let r: u128 = a % d;
    proof {
        lemma_mul_div_split(a as nat, num as nat, den as nat);
        assert(r * n <= 0xffff_ffff_ffff_ffff * 0xffff_ffff_ffff_ffff) by (nonlinear_arith)
            requires
                r <= 0xffff_ffff_ffff_ffff,
                n <= 0xffff_ffff_ffff_ffff,
        ;
        assert(0 <= (r * n) / (d as int)) by (nonlinear_arith)
            requires
                0 <= r * n,
                d > 0,
        ;
    }
    let low: u128 = (r * n) / d;
    match q.checked_mul(n) {
        None => None,
        Some(high) => high.checked_add(low),
    }
}

/// Multiplies, holding the result at `u128::MAX` where the product passes it.
pub fn saturating_mul(a: u128, b: u128) -> (res: u128)
    ensures
        res == saturating_product(a as nat, b as nat),
{
    match a.checked_mul(b) {
        Some(product) => product,
        None => u128::MAX,
    }
}

} // verus!
