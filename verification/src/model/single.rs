//! Single precision in whole numbers: the rounding of a quotient to the values
//! a 24-bit significand can hold.

use vstd::prelude::*;

verus! {

/// The first significand that takes more than 24 bits.
pub const SIGNIFICANDS: u128 = 0x100_0000;

/// The gap between neighbouring single precision values around `p / q`: the least
/// power of two `u` for which `p / q` is less than `SIGNIFICANDS * u`. Values are
/// whole numbers here, so the gap is never below one.
pub open spec fn spacing(p: int, q: int) -> int
    decreases
            if p >= SIGNIFICANDS * q {
                p - SIGNIFICANDS * q + 1
            } else {
                0
            },
{
    if q <= 0 || p < SIGNIFICANDS * q {
        1
    } else {
        2 * spacing(p, 2 * q)
    }
}

/// `p / d` rounded to the nearest integer, halves to the even one.
pub open spec fn nearest_even(p: int, d: int) -> int {
    let (whole, rest) = (p / d, p % d);
    if 2 * rest < d || (2 * rest == d && whole % 2 == 0) {
        whole
    } else {
        whole + 1
    }
}

/// `p / q` rounded to single precision, halves to the even significand.
pub open spec fn single(p: int, q: int) -> int {
    nearest_even(p, q * spacing(p, q)) * spacing(p, q)
}

/// `p / q` rounded to single precision.
pub(crate) fn round_to_single(p: u128, q: u128) -> (r: u128)
    requires
        0 < q <= 0xff,
        p < 0x10_0000_0000_0000_0000_0000_0000,
    ensures
        r == single(p as int, q as int),
        r <= 2 * p + q,
{
    let mut u: u128 = 1;
    let mut d: u128 = q;
    while p >= SIGNIFICANDS * d
        invariant
            0 < q <= 0xff,
            p < 0x10_0000_0000_0000_0000_0000_0000,
            1 <= u <= d,
            d == q * u,
            d <= p + q,
            SIGNIFICANDS * d <= 2 * p + SIGNIFICANDS * q,
            spacing(p as int, q as int) == u * spacing(p as int, d as int),
        decreases 2 * p + SIGNIFICANDS * q - SIGNIFICANDS * d,
    {
        proof {
            let next = spacing(p as int, 2 * d as int);
            assert(u * (2 * next) == (2 * u) * next) by (nonlinear_arith);
            assert(q * (2 * u) == 2 * (q * u)) by (nonlinear_arith);
        }
        u = 2 * u;
        d = 2 * d;
    }
    let whole: u128 = p / d;
    let rest: u128 = p % d;
    let rounded: u128 = if 2 * rest < d || (2 * rest == d && whole % 2 == 0) {
        whole
    } else {
        whole + 1
    };
    assert(whole * u <= p) by (nonlinear_arith)
        requires
            whole == p / d,
            1 <= u <= d,
    ;
    assert(rounded * u <= whole * u + u) by (nonlinear_arith)
        requires
            rounded <= whole + 1,
            1 <= u,
    ;
    rounded * u
}

proof fn a_gap_fits(p: int, q: int)
    requires
        0 <= p,
        0 < q,
    ensures
        1 <= spacing(p, q),
        p < SIGNIFICANDS * (q * spacing(p, q)),
        spacing(p, q) > 1 ==> 2 * p >= SIGNIFICANDS * (q * spacing(p, q)),
    decreases
            if p >= SIGNIFICANDS * q {
                p - SIGNIFICANDS * q + 1
            } else {
                0
            },
{
    if p >= SIGNIFICANDS * q {
        a_gap_fits(p, 2 * q);
        let next = spacing(p, 2 * q);
        assert((2 * q) * next == q * (2 * next)) by (nonlinear_arith);
    }
}

proof fn gaps_grow(a: int, b: int, q: int)
    requires
        0 <= a <= b,
        0 < q,
    ensures
        spacing(a, q) == spacing(b, q) || 2 * spacing(a, q) <= spacing(b, q),
    decreases
            if a >= SIGNIFICANDS * q {
                a - SIGNIFICANDS * q + 1
            } else {
                0
            },
{
    if a >= SIGNIFICANDS * q {
        gaps_grow(a, b, 2 * q);
    } else if b >= SIGNIFICANDS * q {
        a_gap_fits(b, 2 * q);
    }
}

proof fn nearest_even_keeps_the_order(a: int, b: int, d: int)
    requires
        0 <= a <= b,
        0 < d,
    ensures
        nearest_even(a, d) <= nearest_even(b, d),
{
    vstd::arithmetic::div_mod::lemma_div_is_ordered(a, b, d);
    vstd::arithmetic::div_mod::lemma_fundamental_div_mod(a, d);
    vstd::arithmetic::div_mod::lemma_fundamental_div_mod(b, d);
}

/// Rounding to single precision never puts a bigger number below a smaller one.
pub proof fn rounding_keeps_the_order(a: int, b: int, q: int)
    requires
        0 <= a <= b,
        0 < q,
    ensures
        0 <= single(a, q) <= single(b, q),
{
    let (u, v) = (spacing(a, q), spacing(b, q));
    let (d, e) = (q * u, q * v);
    a_gap_fits(a, q);
    a_gap_fits(b, q);
    gaps_grow(a, b, q);
    assert(d > 0 && e > 0) by (nonlinear_arith)
        requires
            q > 0,
            u >= 1,
            v >= 1,
            d == q * u,
            e == q * v,
    ;
    let (x, y) = (nearest_even(a, d), nearest_even(b, e));
    assert(0 <= a / d < SIGNIFICANDS) by (nonlinear_arith)
        requires
            0 <= a < SIGNIFICANDS * d,
            d > 0,
    ;
    if u == v {
        nearest_even_keeps_the_order(a, b, d);
        assert(0 <= x * u <= y * u) by (nonlinear_arith)
            requires
                0 <= x <= y,
                u >= 1,
        ;
    } else {
        assert(2 * (b / e) >= SIGNIFICANDS) by (nonlinear_arith)
            requires
                2 * b >= SIGNIFICANDS * e,
                SIGNIFICANDS == 0x100_0000,
                e > 0,
        ;
        assert(0 <= x * u <= y * v) by (nonlinear_arith)
            requires
                0 <= x <= SIGNIFICANDS,
                2 * y >= SIGNIFICANDS,
                2 * u <= v,
                1 <= u,
        ;
    }
}

} // verus!
