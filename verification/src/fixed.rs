use vstd::prelude::*;
use vstd::arithmetic::div_mod::{lemma_div_is_ordered, lemma_div_multiples_vanish};

verus! {

/// Subunits per whole coefficient: attenuation coefficients are permille
/// (a coefficient of 1000 leaves its operand unchanged, 0 zeroes it).
pub const PERMILLE: i64 = 1000;

/// Largest coordinate or velocity magnitude the engine computes with, in
/// subpixel units.  It is far beyond any real screen span; it exists so
/// that every intermediate sum and product provably fits in an `i64`.
pub const COORD_LIMIT: i64 = 1_000_000_000_000;

/// Largest coefficient magnitude accepted, in permille.
pub const COEFF_LIMIT: i64 = 1000;

/// Largest raw screen coordinate, cursor coordinate or window dimension,
/// in subpixels (one million pixels).
pub const SCREEN_COORD_LIMIT: i64 = 1_000_000_000;

/// Largest mouse sensitivity magnitude accepted, in permille (a
/// hundredfold; a negative sensitivity inverts the axes).
pub const SENS_LIMIT: i64 = 100_000;

pub const MICROS_PER_SECOND: i64 = 1_000_000;

/// Longest frame delta the cursor-offset scaling computes with, in
/// microseconds: in that product alone, a longer stall counts as this
/// long, so the scaled offset stays within machine range.
pub const DELTA_LIMIT_US: i64 = 10_000_000;

/// Latest clock reading the engine computes with, in microseconds
/// (over thirty years of uptime).
pub const TIME_LIMIT_US: i64 = 1_000_000_000_000_000;

/// Division truncating toward zero (`/` on `int` in specifications is
/// Euclidean, which differs on negative dividends).
pub open spec fn div_trunc(a: int, b: int) -> int {
    if a >= 0 {
        a / b
    } else {
        -((-a) / b)
    }
}

/// `v` attenuated by the permille coefficient `m`, truncated toward zero.
pub open spec fn scale_spec(v: int, m: int) -> int {
    div_trunc(v * m, PERMILLE as int)
}

/// Half of `v`, truncated toward zero.
pub open spec fn half_spec(v: int) -> int {
    div_trunc(v, 2)
}

/// The product of two values is bounded by the product of their bounds.
pub(crate) proof fn lemma_mul_abs_bound(a: int, b: int, aa: int, bb: int)
    by (nonlinear_arith)
    requires
        -aa <= a <= aa,
        -bb <= b <= bb,
        0 <= aa,
        0 <= bb,
    ensures
        -(aa * bb) <= a * b <= aa * bb,
{
}

/// Truncating division by a positive divisor never grows the magnitude
/// of a bounded multiple: if `-lim*d <= p <= lim*d` then the truncated
/// quotient of `p` by `d` stays within `[-lim, lim]`.
proof fn lemma_div_trunc_bound(p: int, d: int, lim: int)
    requires
        0 < d,
        0 <= lim,
        -(lim * d) <= p <= lim * d,
    ensures
        -lim <= div_trunc(p, d) <= lim,
{
    lemma_div_multiples_vanish(lim, d);
    assert((d * lim) / d == lim);
    assert(d * lim == lim * d) by (nonlinear_arith);
    if p >= 0 {
        lemma_div_is_ordered(p, lim * d, d);
        vstd::arithmetic::div_mod::lemma_div_pos_is_pos(p, d);
        assert(div_trunc(p, d) == p / d);
    } else {
        lemma_div_is_ordered(-p, lim * d, d);
        vstd::arithmetic::div_mod::lemma_div_pos_is_pos(-p, d);
        assert(div_trunc(p, d) == -((-p) / d));
    }
}

/// Division truncating toward zero, computed over magnitudes.
fn div_trunc_exec(a: i64, b: i64) -> (r: i64)
    requires
        0 < b,
        i64::MIN < a,
    ensures
        r == div_trunc(a as int, b as int),
        a >= 0 ==> 0 <= r <= a,
        a < 0 ==> a <= r <= 0,
{
    proof {
        vstd::arithmetic::div_mod::lemma_div_basics_4(a as int, b as int);
        vstd::arithmetic::div_mod::lemma_div_basics_5(a as int, b as int);
        vstd::arithmetic::div_mod::lemma_div_basics_4(-(a as int), b as int);
        vstd::arithmetic::div_mod::lemma_div_basics_5(-(a as int), b as int);
    }
    if a >= 0 {
        ((a as u64) / (b as u64)) as i64
    } else {
        -((((-a) as u64) / (b as u64)) as i64)
    }
}

/// Attenuate `v` by the permille coefficient `m`, truncating toward zero.
pub fn scale(v: i64, m: i64) -> (r: i64)
    requires
        -4 * COORD_LIMIT <= v <= 4 * COORD_LIMIT,
        -COEFF_LIMIT <= m <= COEFF_LIMIT,
    ensures
        r == scale_spec(v as int, m as int),
        v >= 0 ==> -v <= r <= v,
        v < 0 ==> v <= r <= -v,
{
    proof {
        let a: int = if v >= 0 {
            v as int
        } else {
            -(v as int)
        };
        lemma_mul_abs_bound(v as int, m as int, a, COEFF_LIMIT as int);
        lemma_div_trunc_bound(v * m, PERMILLE as int, a);
        lemma_mul_abs_bound(v as int, m as int, 4 * COORD_LIMIT, COEFF_LIMIT as int);
    }
    let p: i64 = v * m;
    div_trunc_exec(p, PERMILLE)
}

/// Half of `v`, truncated toward zero.
pub fn half(v: i64) -> (r: i64)
    requires
        -6 * COORD_LIMIT <= v <= 6 * COORD_LIMIT,
    ensures
        r == half_spec(v as int),
        v >= 0 ==> 0 <= r && 2 * r <= v,
        v < 0 ==> r <= 0 && v <= 2 * r,
{
    proof {
        lemma_div_trunc_bound(v as int, 2, 3 * COORD_LIMIT);
        vstd::arithmetic::div_mod::lemma_fundamental_div_mod(v as int, 2);
        vstd::arithmetic::div_mod::lemma_mod_bound(v as int, 2);
        vstd::arithmetic::div_mod::lemma_fundamental_div_mod(-(v as int), 2);
        vstd::arithmetic::div_mod::lemma_mod_bound(-(v as int), 2);
    }
    div_trunc_exec(v, 2)
}

/// The per-frame cursor offset: a centered cursor delta `d` scaled by a
/// permille sensitivity and by the frame delta in seconds, both stages
/// truncated toward zero.
pub open spec fn offset_scale_spec(d: int, sens: int, delta_us: int) -> int {
    div_trunc(div_trunc(d * sens, PERMILLE as int) * delta_us, MICROS_PER_SECOND as int)
}

/// Scale a centered cursor delta by sensitivity and frame delta.
pub fn offset_scale(d: i64, sens: i64, delta_us: i64) -> (r: i64)
    requires
        -2 * SCREEN_COORD_LIMIT <= d <= 2 * SCREEN_COORD_LIMIT,
        -SENS_LIMIT <= sens <= SENS_LIMIT,
        0 <= delta_us <= DELTA_LIMIT_US,
    ensures
        r == offset_scale_spec(d as int, sens as int, delta_us as int),
        -2 * COORD_LIMIT <= r <= 2 * COORD_LIMIT,
{
    proof {
        lemma_mul_abs_bound(d as int, sens as int, 2 * SCREEN_COORD_LIMIT, SENS_LIMIT as int);
        lemma_div_trunc_bound(d * sens, PERMILLE as int, 200_000_000_000);
    }
    let p: i64 = d * sens;
    let t: i64 = div_trunc_exec(p, PERMILLE);
    proof {
        lemma_mul_abs_bound(t as int, delta_us as int, 200_000_000_000, DELTA_LIMIT_US as int);
        lemma_div_trunc_bound(t * delta_us, MICROS_PER_SECOND as int, 2 * COORD_LIMIT);
    }
    let q: i64 = t * delta_us;
    div_trunc_exec(q, MICROS_PER_SECOND)
}

} // verus!
