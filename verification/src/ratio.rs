//! Exact quotients of wide products.
//!
//! Prices and rates are computed as `x * y / d`, rounded down and capped. The
//! product may need up to 256 bits, so it is held as two 128-bit halves.

use vstd::prelude::*;
use vstd::arithmetic::div_mod::lemma_fundamental_div_mod_converse;

verus! {

/// Two to the power 64.
pub open spec fn limb() -> int {
    0x1_0000_0000_0000_0000
}

/// Two to the power 128.
pub open spec fn half() -> int {
    0x1_0000_0000_0000_0000_0000_0000_0000_0000int
}

/// The number that the pair `(hi, lo)` stands for.
pub open spec fn wide(hi: u128, lo: u128) -> int {
    hi * half() + lo
}

/// `x * y / d`, rounded down and capped at `cap`. Division by zero gives `cap`:
/// a price or rate that cannot be computed is as high as the type allows.
pub open spec fn capped_quotient(x: int, y: int, d: int, cap: int) -> int {
    if d == 0 {
        cap
    } else if x * y / d > cap {
        cap
    } else {
        x * y / d
    }
}

/// The product of two 64-bit numbers fits in 128 bits.
proof fn lemma_limb_product(a: int, b: int)
    requires
        0 <= a < limb(),
        0 <= b < limb(),
    ensures
        0 <= a * b <= 0xffff_ffff_ffff_fffe_0000_0000_0000_0001,
{
    assert(0 <= a * b <= 0xffff_ffff_ffff_ffff * 0xffff_ffff_ffff_ffff) by (nonlinear_arith)
        requires
            0 <= a <= 0xffff_ffff_ffff_ffff,
            0 <= b <= 0xffff_ffff_ffff_ffff,
    ;
}

/// The product of two numbers, each split into a high and a low part.
proof fn lemma_expand_product(x1: int, x0: int, y1: int, y0: int, b: int)
    ensures
        (x1 * b + x0) * (y1 * b + y0) == (x1 * y1) * (b * b) + (x1 * y0) * b + (x0 * y1) * b + x0
            * y0,
{
    let xh = x1 * b;
    let yh = y1 * b;
    assert((xh + x0) * (yh + y0) == xh * yh + xh * y0 + x0 * yh + x0 * y0) by (nonlinear_arith);
    assert(xh * yh == (x1 * y1) * (b * b)) by (nonlinear_arith)
        requires
            xh == x1 * b,
            yh == y1 * b,
    ;
    assert(xh * y0 == (x1 * y0) * b) by (nonlinear_arith)
        requires
            xh == x1 * b,
    ;
    assert(x0 * yh == (x0 * y1) * b) by (nonlinear_arith)
        requires
            yh == y1 * b,
    ;
}

/// The full product of two 128-bit numbers, as a pair of halves.
pub fn mul_wide(x: u128, y: u128) -> (r: (u128, u128))
    ensures
        wide(r.0, r.1) == x * y,
{
    let b: u128 = 0x1_0000_0000_0000_0000;
    let x0: u128 = x % b;
    let x1: u128 = x / b;
    let y0: u128 = y % b;
    let y1: u128 = y / b;
    proof {
        lemma_limb_product(x0 as int, y0 as int);
        lemma_limb_product(x0 as int, y1 as int);
        lemma_limb_product(x1 as int, y0 as int);
        lemma_limb_product(x1 as int, y1 as int);
        lemma_expand_product(x1 as int, x0 as int, y1 as int, y0 as int, limb());
    }
    let p00: u128 = x0 * y0;
    let p01: u128 = x0 * y1;
    let p10: u128 = x1 * y0;
    let p11: u128 = x1 * y1;
    let mid: u128 = p01 % b + p10 % b + p00 / b;
    let lo: u128 = (mid % b) * b + p00 % b;
    let hi: u128 = p11 + p01 / b + p10 / b + mid / b;
    assert(wide(hi, lo) == x * y) by {
        assert(x == x1 * limb() + x0);
        assert(y == y1 * limb() + y0);
        assert(limb() * limb() == half());
        assert(p01 == (p01 / b) * limb() + p01 % b);
        assert(p10 == (p10 / b) * limb() + p10 % b);
        assert(p00 == (p00 / b) * limb() + p00 % b);
        assert(mid == (mid / b) * limb() + mid % b);
    }
    (hi, lo)
}

/// Whether the first pair stands for a number no larger than the second.
pub fn wide_le(a: (u128, u128), b: (u128, u128)) -> (r: bool)
    ensures
        r == (wide(a.0, a.1) <= wide(b.0, b.1)),
{
    a.0 < b.0 || (a.0 == b.0 && a.1 <= b.1)
}

/// The product of two numbers that are not negative is not negative.
proof fn lemma_product_nonnegative(x: int, y: int)
    requires
        0 <= x,
        0 <= y,
    ensures
        0 <= x * y,
{
    assert(0 <= x * y) by (nonlinear_arith)
        requires
            0 <= x,
            0 <= y,
    ;
}

/// A number between `q` and `q + 1` multiples of `d` has the quotient `q`.
pub proof fn lemma_quotient_between(n: int, d: int, q: int)
    requires
        d > 0,
        d * q <= n < d * (q + 1),
    ensures
        n / d == q,
{
    assert(d * (q + 1) == q * d + d) by (nonlinear_arith);
    assert(d * q == q * d) by (nonlinear_arith);
    lemma_fundamental_div_mod_converse(n, d, q, n - q * d);
}

/// A number of at least `q` multiples of `d` has a quotient of at least `q`.
pub proof fn lemma_quotient_at_least(n: int, d: int, q: int)
    requires
        d > 0,
        d * q <= n,
    ensures
        n / d >= q,
{
    assert(n / d >= q) by (nonlinear_arith)
        requires
            d > 0,
            d * q <= n,
    ;
}

/// A capped quotient of numbers that are not negative lies between zero and
/// the cap.
pub proof fn lemma_capped_quotient_in_range(x: int, y: int, d: int, cap: int)
    requires
        x >= 0,
        y >= 0,
        d >= 0,
        cap >= 0,
    ensures
        0 <= capped_quotient(x, y, d, cap) <= cap,
{
    if d > 0 {
        lemma_product_nonnegative(x, y);
        lemma_quotient_at_least(x * y, d, 0);
    }
}

/// `x * y / d`, rounded down and capped at `cap`, for any three 128-bit
/// numbers: the product is formed in full, so no input overflows.
pub fn mul_div_capped(x: u128, y: u128, d: u128, cap: u64) -> (r: u64)
    ensures
        r == capped_quotient(x as int, y as int, d as int, cap as int),
{
    if d == 0 {
        return cap;
    }
    let n = mul_wide(x, y);
    let top = mul_wide(d, cap as u128);
    proof {
        lemma_product_nonnegative(x as int, y as int);
    }
    if wide_le(top, n) {
        proof {
            lemma_quotient_at_least(x * y, d as int, cap as int);
        }
        return cap;
    }
    assert(cap > 0) by {
        if cap == 0 {
            assert(d * 0 == 0);
        }
    }
    let mut low: u64 = 0;
    let mut high: u64 = cap;
    while high - low > 1
        invariant
            d > 0,
            wide(n.0, n.1) == x * y,
            low < high <= cap,
            d * low <= x * y < d * high,
        decreases high - low,
    {
        let middle: u64 = low + (high - low) / 2;
        let m = mul_wide(d, middle as u128);
        if wide_le(m, n) {
            low = middle;
        } else {
            high = middle;
        }
    }
    proof {
        assert(d * (low + 1) == d * high);
        lemma_quotient_between(x * y, d as int, low as int);
    }
    low
}

} // verus!
