//! Rounding helpers shared by the launch planners and the capture arena.

use vstd::arithmetic::div_mod::lemma_fundamental_div_mod;
use vstd::arithmetic::div_mod::lemma_fundamental_div_mod_converse;
use vstd::arithmetic::div_mod::lemma_mod_multiples_basic;
use vstd::prelude::*;

verus! {

/// The quotient of `p` by `q`, rounded up.
pub open spec fn ceil_quot(p: int, q: int) -> int {
    (p + q - 1) / q
}

/// The least multiple of `q` that is not below `p`.
pub open spec fn padded(p: int, q: int) -> int {
    ceil_quot(p, q) * q
}

/// `ceil_quot(p, q)` is the one quotient whose multiple of `q` lies in `p..p + q`.
pub proof fn lemma_ceil_quot(p: int, q: int)
    requires
        q > 0,
    ensures
        p <= ceil_quot(p, q) * q < p + q,
        p >= 0 ==> 0 <= ceil_quot(p, q) <= p,
{
    let c = ceil_quot(p, q);
    lemma_fundamental_div_mod(p + q - 1, q);
    assert(c * q == q * c) by (nonlinear_arith);
    if p >= 0 {
        assert(c >= 0 && c <= p) by (nonlinear_arith)
            requires
                p <= c * q < p + q,
                p >= 0,
                q > 0,
        ;
    }
}

/// A number whose multiple of `q` lies in `p..p + q` is `ceil_quot(p, q)`.
pub proof fn lemma_ceil_quot_unique(p: int, q: int, c: int)
    requires
        q > 0,
        p <= c * q < p + q,
    ensures
        c == ceil_quot(p, q),
{
    assert(p + q - 1 == q * c + (p + q - 1 - c * q)) by (nonlinear_arith);
    lemma_fundamental_div_mod_converse(p + q - 1, q, c, p + q - 1 - c * q);
}

/// Padding rounds up to a multiple of `q`, moves by less than `q`, and leaves a multiple of `q`
/// where it is.
pub proof fn law_padding(p: int, q: int)
    requires
        q > 0,
    ensures
        padded(p, q) % q == 0,
        p <= padded(p, q) < p + q,
        p % q == 0 ==> padded(p, q) == p,
        padded(padded(p, q), q) == padded(p, q),
{
    lemma_ceil_quot(p, q);
    let c = ceil_quot(p, q);
    lemma_mod_multiples_basic(c, q);
    if p % q == 0 {
        lemma_fundamental_div_mod(p, q);
        assert(q * (p / q) == (p / q) * q) by (nonlinear_arith);
        lemma_ceil_quot_unique(p, q, p / q);
    }
    lemma_ceil_quot_unique(padded(p, q), q, c);
}

/// Padding keeps the order of its arguments.
pub proof fn law_padding_monotone(p1: int, p2: int, q: int)
    requires
        q > 0,
        p1 <= p2,
    ensures
        padded(p1, q) <= padded(p2, q),
{
    lemma_ceil_quot(p1, q);
    lemma_ceil_quot(p2, q);
    let c1 = ceil_quot(p1, q);
    let c2 = ceil_quot(p2, q);
    assert(c1 * q <= c2 * q) by (nonlinear_arith)
        requires
            c1 * q < p1 + q,
            p2 <= c2 * q,
            p1 <= p2,
            q > 0,
    ;
}

/// Rounding a quotient up adds one where there is a remainder.
proof fn lemma_ceil_by_remainder(p: int, q: int)
    requires
        p >= 0,
        q > 0,
    ensures
        ceil_quot(p, q) == if p % q > 0 {
            p / q + 1
        } else {
            p / q
        },
        ceil_quot(p, q) <= p,
{
    let d = p / q;
    lemma_fundamental_div_mod(p, q);
    lemma_ceil_quot(p, q);
    assert(d * q == q * d) by (nonlinear_arith);
    if p % q == 0 {
        lemma_ceil_quot_unique(p, q, d);
    } else {
        assert((d + 1) * q == d * q + q) by (nonlinear_arith);
        lemma_ceil_quot_unique(p, q, d + 1);
    }
}

/// Divides `p` by `q`, rounding up.
pub fn ceil_div(p: usize, q: usize) -> (r: usize)
    requires
        q > 0,
    ensures
        r == ceil_quot(p as int, q as int),
{
    let d: usize = p / q;
    let m: usize = p % q;
    proof {
        lemma_ceil_by_remainder(p as int, q as int);
    }
    if m > 0 {
        d + 1
    } else {
        d
    }
}

/// Divides `p` by `q`, rounding up, on launch-grid widths.
pub fn ceil_div_u32(p: u32, q: u32) -> (r: u32)
    requires
        q > 0,
    ensures
        r == ceil_quot(p as int, q as int),
{
    let d: u32 = p / q;
    let m: u32 = p % q;
    proof {
        lemma_ceil_by_remainder(p as int, q as int);
    }
    if m > 0 {
        d + 1
    } else {
        d
    }
}

/// Rounds `p` up to a multiple of `q`; nothing where the multiple does not fit the machine.
pub fn checked_pad(p: usize, q: usize) -> (r: Option<usize>)
    requires
        q > 0,
    ensures
        match r {
            Some(v) => v == padded(p as int, q as int),
            None => padded(p as int, q as int) > usize::MAX,
        },
{
    proof {
        lemma_ceil_quot(p as int, q as int);
    }
    ceil_div(p, q).checked_mul(q)
}

/// Rounds `p` up to a multiple of `q`.
pub fn pad(p: usize, q: usize) -> (r: usize)
    requires
        q > 0,
        padded(p as int, q as int) <= usize::MAX,
    ensures
        r == padded(p as int, q as int),
{
    proof {
        lemma_ceil_quot(p as int, q as int);
    }
    ceil_div(p, q) * q
}

} // verus!
