//! Whole-number arithmetic for the geometry: results that leave the range of a
//! coordinate stop at its edge, and distances are square roots rounded up to
//! whole numbers.

use vstd::prelude::*;

verus! {

/// `v`, or the end of the range of a coordinate that is nearest to it.
pub open spec fn sat32(v: int) -> i32 {
    if v < i32::MIN {
        i32::MIN
    } else if v > i32::MAX {
        i32::MAX
    } else {
        v as i32
    }
}

/// `v`, or the end of the range of a radius that is nearest to it.
pub open spec fn sat_u32(v: int) -> u32 {
    if v < 0 {
        0u32
    } else if v > u32::MAX {
        u32::MAX
    } else {
        v as u32
    }
}

/// Brings a number into the range of a coordinate.
pub fn saturate(v: i64) -> (r: i32)
    ensures
        r == sat32(v as int),
{
    if v < -2147483648 {
        -2147483648
    } else if v > 2147483647 {
        2147483647
    } else {
        v as i32
    }
}

/// `a + b`, stopped at the edge of the range.
pub fn add_coordinate(a: i32, b: i32) -> (r: i32)
    ensures
        r == sat32(a + b),
{
    saturate(a as i64 + b as i64)
}

/// `a - b`, stopped at the edge of the range.
pub fn sub_coordinate(a: i32, b: i32) -> (r: i32)
    ensures
        r == sat32(a - b),
{
    saturate(a as i64 - b as i64)
}

/// `r` is the whole part of the square root of `n`.
pub open spec fn is_root(n: int, r: int) -> bool {
    0 <= r && r * r <= n && n < (r + 1) * (r + 1)
}

/// The whole part of the square root of `n`, for `n` that is not negative.
pub open spec fn int_sqrt(n: int) -> int {
    choose|r: int| is_root(n, r)
}

/// `r` is the square root of `n` rounded up: the least whole number whose
/// square is at least `n`.
pub open spec fn is_root_up(n: int, r: int) -> bool {
    0 <= r && n <= r * r && (r > 0 ==> (r - 1) * (r - 1) < n)
}

/// The square root of `n` rounded up, for `n` that is not negative.
pub open spec fn int_sqrt_up(n: int) -> int {
    choose|r: int| is_root_up(n, r)
}

/// The length of the vector `(dx, dy)`, rounded up to a whole number. A proof
/// that needs its value for given numbers gets it from `lemma_distance_is`.
pub open spec fn distance(dx: int, dy: int) -> int {
    int_sqrt_up(dx * dx + dy * dy)
}

/// A number has at most one whole square root.
pub proof fn lemma_root_unique(n: int, a: int, b: int)
    requires
        is_root(n, a),
        is_root(n, b),
    ensures
        a == b,
{
    if a < b {
        assert((a + 1) * (a + 1) <= b * b) by (nonlinear_arith)
            requires
                0 <= a,
                a + 1 <= b,
        ;
    } else if b < a {
        assert((b + 1) * (b + 1) <= a * a) by (nonlinear_arith)
            requires
                0 <= b,
                b + 1 <= a,
        ;
    }
}

/// Whatever root is found is the one that `int_sqrt` names.
pub proof fn lemma_root_is_int_sqrt(n: int, r: int)
    requires
        is_root(n, r),
    ensures
        int_sqrt(n) == r,
{
    lemma_root_unique(n, int_sqrt(n), r);
}

/// The whole part of the square root of `n`, by bisection.
pub fn isqrt(n: u128) -> (r: u64)
    ensures
        r as int == int_sqrt(n as int),
        is_root(n as int, r as int),
{
    let mut lo: u128 = 0;
    let mut hi: u128 = 0x1_0000_0000_0000_0000;
    assert(n < hi * hi) by (nonlinear_arith)
        requires
            n <= u128::MAX,
            hi == 0x1_0000_0000_0000_0000,
    ;
    while hi - lo > 1
        invariant
            lo < hi <= 0x1_0000_0000_0000_0000,
            lo * lo <= n,
            n < hi * hi,
        decreases hi - lo,
    {
        let mid: u128 = lo + (hi - lo) / 2;
        assert(mid * mid <= 0xffff_ffff_ffff_ffff * 0xffff_ffff_ffff_ffff) by (nonlinear_arith)
            requires
                0 <= mid <= 0xffff_ffff_ffff_ffff,
        ;
        if mid * mid <= n {
            lo = mid;
        } else {
            hi = mid;
        }
    }
    proof {
        lemma_root_is_int_sqrt(n as int, lo as int);
    }
    lo as u64
}

/// Every number that is not negative has a whole square root.
pub proof fn lemma_root_exists(n: int)
    requires
        0 <= n,
    ensures
        is_root(n, int_sqrt(n)),
    decreases n,
{
    if n == 0 {
        assert(is_root(0, 0));
    } else {
        lemma_root_exists(n - 1);
        let r = int_sqrt(n - 1);
        if (r + 1) * (r + 1) <= n {
            assert(n < (r + 2) * (r + 2)) by (nonlinear_arith)
                requires
                    0 <= r,
                    n - 1 < (r + 1) * (r + 1),
            ;
            assert(is_root(n, r + 1));
        } else {
            assert(is_root(n, r));
        }
    }
}

/// A number has at most one square root rounded up.
pub proof fn lemma_root_up_unique(n: int, a: int, b: int)
    requires
        is_root_up(n, a),
        is_root_up(n, b),
    ensures
        a == b,
{
    if a < b {
        assert(a * a <= (b - 1) * (b - 1)) by (nonlinear_arith)
            requires
                0 <= a,
                a <= b - 1,
        ;
    } else if b < a {
        assert(b * b <= (a - 1) * (a - 1)) by (nonlinear_arith)
            requires
                0 <= b,
                b <= a - 1,
        ;
    }
}

/// Whatever root rounded up is found is the one that `int_sqrt_up` names.
pub proof fn lemma_root_up_is_int_sqrt_up(n: int, r: int)
    requires
        is_root_up(n, r),
    ensures
        int_sqrt_up(n) == r,
{
    lemma_root_up_unique(n, int_sqrt_up(n), r);
}

/// A length is `r` if `r` is the least whole number whose square is at
/// least the sum of the two squares.
pub proof fn lemma_distance_is(dx: int, dy: int, r: int)
    requires
        is_root_up(dx * dx + dy * dy, r),
    ensures
        distance(dx, dy) == r,
{
    lemma_root_up_is_int_sqrt_up(dx * dx + dy * dy, r);
}

/// The square root rounded up is the whole part of the square root where
/// that is exact, and one more where it is not.
pub proof fn lemma_root_up_from_root(n: int, r: int)
    requires
        is_root(n, r),
    ensures
        int_sqrt_up(n) == if r * r == n {
            r
        } else {
            r + 1
        },
{
    let up = if r * r == n {
        r
    } else {
        r + 1
    };
    assert(is_root_up(n, up)) by (nonlinear_arith)
        requires
            is_root(n, r),
            up == if r * r == n {
                r
            } else {
                r + 1
            },
    ;
    lemma_root_up_is_int_sqrt_up(n, up);
}

/// Every number that is not negative has a square root rounded up.
pub proof fn lemma_root_up_exists(n: int)
    requires
        0 <= n,
    ensures
        is_root_up(n, int_sqrt_up(n)),
{
    lemma_root_exists(n);
    lemma_root_up_from_root(n, int_sqrt(n));
    let r = int_sqrt(n);
    assert(is_root_up(n, int_sqrt_up(n))) by (nonlinear_arith)
        requires
            is_root(n, r),
            int_sqrt_up(n) == if r * r == n {
                r
            } else {
                r + 1
            },
    ;
}

/// The square root of `n` rounded up.
pub fn isqrt_up(n: u128) -> (r: u128)
    ensures
        r as int == int_sqrt_up(n as int),
        is_root_up(n as int, r as int),
{
    let down: u64 = isqrt(n);
    let wide: u128 = down as u128;
    assert(wide * wide <= n) by (nonlinear_arith)
        requires
            is_root(n as int, wide as int),
    ;
    proof {
        lemma_root_up_from_root(n as int, down as int);
        lemma_root_up_exists(n as int);
    }
    if wide * wide == n {
        wide
    } else {
        wide + 1
    }
}

/// The size of `v`, which fits where `v` itself may not.
fn magnitude(v: i64) -> (m: u128)
    ensures
        m == if v < 0 { -(v as int) } else { v as int },
        m <= 0x8000_0000_0000_0000,
{
    if v < 0 {
        (-(v as i128)) as u128
    } else {
        v as u128
    }
}

/// The length of `(dx, dy)` rounded up, kept within the range of a radius.
pub fn radius_of(dx: i64, dy: i64) -> (r: u32)
    ensures
        r == sat_u32(distance(dx as int, dy as int)),
{
    let wide_x: u128 = magnitude(dx);
    let wide_y: u128 = magnitude(dy);
    assert(wide_x * wide_x == dx * dx && wide_x * wide_x <= 0x8000_0000_0000_0000
        * 0x8000_0000_0000_0000) by (nonlinear_arith)
        requires
            wide_x == dx || wide_x == -dx,
            0 <= wide_x <= 0x8000_0000_0000_0000,
    ;
    assert(wide_y * wide_y == dy * dy && wide_y * wide_y <= 0x8000_0000_0000_0000
        * 0x8000_0000_0000_0000) by (nonlinear_arith)
        requires
            wide_y == dy || wide_y == -dy,
            0 <= wide_y <= 0x8000_0000_0000_0000,
    ;
    let square: u128 = wide_x * wide_x + wide_y * wide_y;
    let root: u128 = isqrt_up(square);
    if root > 0xffff_ffff {
        0xffff_ffff
    } else {
        root as u32
    }
}

} // verus!
