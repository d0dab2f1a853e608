//! Fixed point units.
//!
//! Lengths are millimetres, durations and instants are milliseconds,
//! speeds are millimetres per second, ratios and factors are per mille.
//! A progress value is counted in `PROGRESS_ONE` parts of a full bar, a
//! number that every hit count of an extra field divides.
use vstd::prelude::*;

verus! {

/// One whole, for per mille ratios and factors.
pub const PER_MILLE: i64 = 1000;

/// A full progress bar.
pub const PROGRESS_ONE: i64 = 720720;

/// Clamps `v` into `[lo, hi]`.
pub open spec fn spec_clamp(v: int, lo: int, hi: int) -> int {
    if v < lo {
        lo
    } else if v > hi {
        hi
    } else {
        v
    }
}

/// Clamps `v` into `[lo, hi]`; `lo` must not exceed `hi`.
pub fn clamp(v: i64, lo: i64, hi: i64) -> (r: i64)
    requires
        lo <= hi,
    ensures
        r == spec_clamp(v as int, lo as int, hi as int),
        lo <= r <= hi,
{
    if v < lo {
        lo
    } else if v > hi {
        hi
    } else {
        v
    }
}

/// Division rounded toward zero, as integer division of the machine does.
pub open spec fn div_trunc(a: int, b: int) -> int {
    if a >= 0 {
        a / b
    } else {
        -((-a) / b)
    }
}

/// `a / b` rounded toward zero.
pub fn div_toward_zero(a: i64, b: i64) -> (r: i64)
    requires
        b > 0,
        a > i64::MIN,
    ensures
        r == div_trunc(a as int, b as int),
{
    if a >= 0 {
        a / b
    } else {
        let q = (-a) / b;
        -q
    }
}

/// `r` is the square root of `n`, rounded down.
pub open spec fn is_isqrt(n: int, r: int) -> bool {
    0 <= r && r * r <= n && n < (r + 1) * (r + 1)
}

/// The square root of `n`, rounded down.
pub open spec fn isqrt(n: int) -> int {
    choose|r: int| is_isqrt(n, r)
}

/// A number has one rounded-down square root.
pub proof fn lemma_isqrt_unique(n: int, a: int, b: int)
    requires
        is_isqrt(n, a),
        is_isqrt(n, b),
    ensures
        a == b,
{
    if a < b {
        assert((a + 1) * (a + 1) <= b * b) by (nonlinear_arith)
            requires
                0 <= a,
                a + 1 <= b,
        ;
    } else if b < a {
        assert((b + 1) * (b + 1) <= a * a) by (nonlinear_arith)
            requires
                0 <= b,
                b + 1 <= a,
        ;
    }
}

/// The square root of `n` rounded down, for `n` below `2^126`.
pub fn integer_sqrt(n: u128) -> (r: u64)
    requires
        n < 0x4000_0000_0000_0000_0000_0000_0000_0000u128,
    ensures
        is_isqrt(n as int, r as int),
        r as int == isqrt(n as int),
        r < 0x8000_0000_0000_0000u64,
{
    let mut lo: u64 = 0;
    let mut hi: u64 = 0x8000_0000_0000_0000u64;
    assert(n < (hi as int) * (hi as int)) by (nonlinear_arith)
        requires
            hi == 0x8000_0000_0000_0000u64,
            n < 0x4000_0000_0000_0000_0000_0000_0000_0000u128,
    ;
    while hi - lo > 1
        invariant
            lo < hi <= 0x8000_0000_0000_0000u64,
            (lo as int) * (lo as int) <= n,
            n < (hi as int) * (hi as int),
        decreases hi - lo,
    {
        let mid: u64 = lo + (hi - lo) / 2;
        assert((mid as int) * (mid as int) <= 0x4000_0000_0000_0000_0000_0000_0000_0000) by (nonlinear_arith)
            requires
                0 <= mid <= 0x8000_0000_0000_0000u64,
        ;
        let sq: u128 = (mid as u128) * (mid as u128);
        if sq <= n {
            lo = mid;
        } else {
            hi = mid;
        }
    }
    proof {
        assert(is_isqrt(n as int, lo as int));
        let c = choose|r: int| is_isqrt(n as int, r);
        lemma_isqrt_unique(n as int, lo as int, c);
    }
    lo
}

/// `c * num / den`, rounded toward zero, for a factor `num / den` of at
/// most one.
pub fn scale_toward_zero(c: i64, num: u64, den: u128) -> (r: i64)
    requires
        c > i64::MIN,
        0 < den,
        num <= den,
    ensures
        r == div_trunc(c * num, den as int),
        0 <= c ==> 0 <= r <= c,
        c < 0 ==> c <= r <= 0,
{
    let neg = c < 0;
    let a: u128 = if neg {
        (-(c as i128)) as u128
    } else {
        c as u128
    };
    assert(a * num <= 0x8000_0000_0000_0000u128 * 0xffff_ffff_ffff_ffffu128) by (nonlinear_arith)
        requires
            a <= 0x8000_0000_0000_0000u128,
            num <= 0xffff_ffff_ffff_ffffu64,
    ;
    let p: u128 = a * (num as u128);
    let q: u128 = p / den;
    assert(q <= a) by (nonlinear_arith)
        requires
            q == p / den,
            p == a * num,
            num <= den,
            0 < den,
    ;
    if neg {
        assert(c * num == -(a * num)) by (nonlinear_arith)
            requires
                a == -c,
        ;
        assert(q < 0x8000_0000_0000_0000u128);
        let qi: i64 = q as i64;
        -qi
    } else {
        q as i64
    }
}

/// The magnitude of a value rounded toward zero after scaling by `m / d`
/// is at most `m / d` of the magnitude.
pub(crate) proof fn lemma_div_trunc_bound(c: int, m: int, d: int)
    requires
        d > 0,
        m >= 0,
    ensures
        ({
            let r = div_trunc(c * m, d);
            (if r < 0 { -r } else { r }) * d <= (if c < 0 { -c } else { c }) * m
        }),
{
    let ac = if c < 0 { -c } else { c };
    assert(ac * m >= 0) by (nonlinear_arith)
        requires
            ac >= 0,
            m >= 0,
    ;
    assert((ac * m / d) * d <= ac * m) by (nonlinear_arith)
        requires
            ac * m >= 0,
            d > 0,
    ;
    if c < 0 {
        assert(c * m == -(ac * m)) by (nonlinear_arith)
            requires
                ac == -c,
        ;
        if c * m < 0 {
            assert(div_trunc(c * m, d) == -(ac * m / d));
        } else {
            assert(ac * m == 0);
        }
    }
}

} // verus!
