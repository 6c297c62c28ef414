//! Playfield geometry over integer milli-unit coordinates.
//!
//! One world unit is a thousand milli-units, so positions, speeds and
//! distances stay exact integers. Range tests compare squared Euclidean
//! distances, which avoids square roots everywhere except direction
//! normalisation.

use vstd::prelude::*;

verus! {

use vstd::arithmetic::div_mod::lemma_div_by_multiple;
use vstd::arithmetic::div_mod::lemma_div_is_ordered;
use vstd::arithmetic::mul::lemma_mul_inequality;

/// Largest coordinate magnitude the playfield model admits, in milli-units.
pub const MAX_COORD: i64 = 2_000_000_000;

/// A point or direction in the plane, in milli-units.
#[derive(Clone, Copy, Debug, PartialEq, Eq, Structural)]
pub struct Vec2 {
    pub x: i64,
    pub y: i64,
}

impl Vec2 {
    /// Both coordinates within the playfield model's bounds.
    pub open spec fn in_bounds(self) -> bool {
        &&& -MAX_COORD <= self.x <= MAX_COORD
        &&& -MAX_COORD <= self.y <= MAX_COORD
    }

    pub fn new(x: i64, y: i64) -> (v: Vec2)
        ensures
            v.x == x,
            v.y == y,
    {
        Vec2 { x, y }
    }
}

/// The square of an integer.
pub open spec fn sq(x: int) -> int {
    x * x
}

/// Squared Euclidean distance between two points.
pub open spec fn dist2(a: Vec2, b: Vec2) -> int {
    sq(a.x - b.x) + sq(a.y - b.y)
}

/// Squares of bounded quantities are themselves bounded.
pub proof fn lemma_sq_bound(x: int, m: int)
    requires
        -m <= x <= m,
        0 <= m,
    ensures
        0 <= sq(x) <= m * m,
{
    assert(0 <= x * x <= m * m) by (nonlinear_arith)
        requires
            -m <= x <= m,
            0 <= m,
    ;
}

/// Whether `b` lies within Euclidean distance `range` of `a` (inclusive).
pub fn within(a: Vec2, b: Vec2, range: i64) -> (r: bool)
    requires
        a.in_bounds(),
        b.in_bounds(),
        0 <= range,
    ensures
        r == (dist2(a, b) <= sq(range as int)),
{
    let dx: i128 = a.x as i128 - b.x as i128;
    let dy: i128 = a.y as i128 - b.y as i128;
    proof {
        lemma_sq_bound(dx as int, 2 * MAX_COORD);
        lemma_sq_bound(dy as int, 2 * MAX_COORD);
        lemma_sq_bound(range as int, MAX_COORD as int + i64::MAX);
    }
    dx * dx + dy * dy <= range as i128 * range as i128
}

/// Whether `b` lies strictly within Euclidean distance `range` of `a`.
pub fn within_strict(a: Vec2, b: Vec2, range: i64) -> (r: bool)
    requires
        a.in_bounds(),
        b.in_bounds(),
        0 <= range,
    ensures
        r == (dist2(a, b) < sq(range as int)),
{
    let dx: i128 = a.x as i128 - b.x as i128;
    let dy: i128 = a.y as i128 - b.y as i128;
    proof {
        lemma_sq_bound(dx as int, 2 * MAX_COORD);
        lemma_sq_bound(dy as int, 2 * MAX_COORD);
        lemma_sq_bound(range as int, MAX_COORD as int + i64::MAX);
    }
    dx * dx + dy * dy < range as i128 * range as i128
}

/// A nonnegative quantity scaled by a permille fraction stays between zero
/// and the quantity itself.
pub proof fn lemma_scale_permille_bounds(d: int, t: int)
    requires
        0 <= d,
        0 <= t <= 1000,
    ensures
        0 <= d * t / 1000 <= d,
{
    lemma_mul_inequality(t, 1000, d);
    lemma_div_is_ordered(d * t, d * 1000, 1000);
    lemma_div_by_multiple(d, 1000);
    lemma_div_is_ordered(0, d * t, 1000);
}

/// Linear interpolation of a scalar by a permille fraction, truncating
/// towards `a`.
pub open spec fn spec_lerp(a: int, b: int, t: int) -> int {
    if b >= a {
        a + (b - a) * t / 1000
    } else {
        a - (a - b) * t / 1000
    }
}

/// Interpolate from `a` to `b` by `t` permille; the result stays between
/// the two endpoints, and hits them exactly at 0 and 1000.
pub fn lerp(a: i64, b: i64, t: i64) -> (r: i64)
    requires
        -MAX_COORD <= a <= MAX_COORD,
        -MAX_COORD <= b <= MAX_COORD,
        0 <= t <= 1000,
    ensures
        r == spec_lerp(a as int, b as int, t as int),
        -MAX_COORD <= r <= MAX_COORD,
        t == 0 ==> r == a,
        t == 1000 ==> r == b,
{
    proof {
        if b >= a {
            lemma_scale_permille_bounds(b - a, t as int);
            if t == 1000 {
                lemma_div_by_multiple(b - a, 1000);
            }
        } else {
            lemma_scale_permille_bounds(a - b, t as int);
            if t == 1000 {
                lemma_div_by_multiple(a - b, 1000);
            }
        }
    }
    if b >= a {
        let d: i64 = b - a;
        a + d * t / 1000
    } else {
        let d: i64 = a - b;
        a - d * t / 1000
    }
}

/// Interpolate both coordinates from `a` to `b` by `t` permille.
pub fn lerp_vec(a: Vec2, b: Vec2, t: i64) -> (r: Vec2)
    requires
        a.in_bounds(),
        b.in_bounds(),
        0 <= t <= 1000,
    ensures
        r.x == spec_lerp(a.x as int, b.x as int, t as int),
        r.y == spec_lerp(a.y as int, b.y as int, t as int),
        r.in_bounds(),
        t == 0 ==> r == a,
        t == 1000 ==> r == b,
{
    Vec2 { x: lerp(a.x, b.x, t), y: lerp(a.y, b.y, t) }
}

/// Clamp a scalar into the playfield model's coordinate bounds.
pub open spec fn spec_clamp_coord(x: int) -> int {
    if x < -MAX_COORD {
        -MAX_COORD as int
    } else if x > MAX_COORD {
        MAX_COORD as int
    } else {
        x
    }
}

/// Clamp a scalar into the playfield model's coordinate bounds.
pub fn clamp_coord(x: i64) -> (r: i64)
    ensures
        r == spec_clamp_coord(x as int),
        -MAX_COORD <= r <= MAX_COORD,
{
    if x < -MAX_COORD {
        -MAX_COORD
    } else if x > MAX_COORD {
        MAX_COORD
    } else {
        x
    }
}

/// Truncating scaled product `a * b / d`, with truncation towards zero
/// and the sign carried by `a`.
pub open spec fn spec_muldiv(a: int, b: int, d: int) -> int {
    if a >= 0 {
        a * b / d
    } else {
        -((-a) * b / d)
    }
}

/// Integer square root of a nonnegative integer: the largest `r` with
/// `r * r <= n`.
pub open spec fn spec_isqrt(n: int) -> int
    recommends
        n >= 0,
    decreases n,
    when n >= 0
{
    if n <= 0 {
        0
    } else if sq(spec_isqrt(n - 1) + 1) <= n {
        spec_isqrt(n - 1) + 1
    } else {
        spec_isqrt(n - 1)
    }
}

/// `spec_isqrt` indeed brackets its argument between consecutive squares.
pub proof fn lemma_spec_isqrt(n: int)
    requires
        n >= 0,
    ensures
        0 <= spec_isqrt(n),
        sq(spec_isqrt(n)) <= n < sq(spec_isqrt(n) + 1),
    decreases n,
{
    if n > 0 {
        lemma_spec_isqrt(n - 1);
        let p = spec_isqrt(n - 1);
        if sq(p + 1) <= n {
            assert(sq(p + 1) < sq(p + 2)) by (nonlinear_arith)
                requires
                    p >= 0,
            ;
        }
    }
}

/// Two nonnegative integers bracketing the same value between consecutive
/// squares are equal.
pub proof fn lemma_isqrt_unique(a: int, b: int, n: int)
    requires
        0 <= a,
        0 <= b,
        sq(a) <= n < sq(a + 1),
        sq(b) <= n < sq(b + 1),
    ensures
        a == b,
{
    assert(a == b) by (nonlinear_arith)
        requires
            0 <= a,
            0 <= b,
            a * a <= n,
            n < (a + 1) * (a + 1),
            b * b <= n,
            n < (b + 1) * (b + 1),
    ;
}

/// Integer square root: the largest `r` with `r * r <= n`. The argument
/// must stay below `2^66` so that the midpoint squares fit in `u128`.
pub fn isqrt(n: u128) -> (r: u64)
    requires
        n < 73_786_976_294_838_206_464,
    ensures
        sq(r as int) <= n < sq(r as int + 1),
        r == spec_isqrt(n as int),
        r <= 8_589_934_592,
{
    let mut lo: u128 = 0;
    // 2^33 squared is 2^66, above any admitted argument, so it bounds the
    // root from above.
    let mut hi: u128 = 8_589_934_592;
    proof {
        lemma_sq_bound(hi as int, 8_589_934_592);
    }
    while lo + 1 < hi
        invariant
            lo < hi <= 8_589_934_592,
            sq(lo as int) <= n,
            n < sq(hi as int),
        decreases hi - lo,
    {
        let mid: u128 = lo + (hi - lo) / 2;
        proof {
            lemma_sq_bound(mid as int, 8_589_934_592);
        }
        if mid * mid <= n {
            lo = mid;
        } else {
            hi = mid;
        }
    }
    proof {
        lemma_spec_isqrt(n as int);
        lemma_isqrt_unique(lo as int, spec_isqrt(n as int), n as int);
    }
    lo as u64
}

/// The integer square root never falls below any nonnegative integer
/// whose square is below the argument.
pub proof fn lemma_isqrt_lower(a: int, n: int)
    requires
        0 <= a,
        sq(a) <= n,
    ensures
        spec_isqrt(n) >= a,
{
    lemma_spec_isqrt(n);
    let r = spec_isqrt(n);
    assert(r >= a) by (nonlinear_arith)
        requires
            0 <= a,
            0 <= r,
            a * a <= n,
            n < (r + 1) * (r + 1),
    ;
}

/// Euclidean distance between two in-bounds points, rounded down to whole
/// milli-units.
pub fn dist_milli(a: Vec2, b: Vec2) -> (d: i64)
    requires
        a.in_bounds(),
        b.in_bounds(),
    ensures
        d == spec_isqrt(dist2(a, b)),
        sq(d as int) <= dist2(a, b) < sq(d as int + 1),
        0 <= d <= 6_000_000_000,
{
    let dx: i128 = a.x as i128 - b.x as i128;
    let dy: i128 = a.y as i128 - b.y as i128;
    proof {
        lemma_sq_bound(dx as int, 2 * MAX_COORD);
        lemma_sq_bound(dy as int, 2 * MAX_COORD);
    }
    let d2: u128 = (dx * dx + dy * dy) as u128;
    let d: u64 = isqrt(d2);
    proof {
        assert(d <= 6_000_000_000) by (nonlinear_arith)
            requires
                0 <= d,
                sq(d as int) == (d as int) * (d as int),
                sq(d as int) <= 32_000_000_000_000_000_000,
        ;
    }
    d as i64
}

/// Direction from `from` to `to` in permille of a unit: each component
/// is the coordinate difference scaled by 1000 over the rounded-down
/// distance, truncated towards zero; the zero vector when the points
/// coincide.
pub open spec fn spec_dir_permille(from: Vec2, to: Vec2) -> Vec2 {
    let len = spec_isqrt(dist2(from, to));
    if len == 0 {
        Vec2 { x: 0, y: 0 }
    } else {
        Vec2 {
            x: spec_muldiv(to.x - from.x, 1000, len) as i64,
            y: spec_muldiv(to.y - from.y, 1000, len) as i64,
        }
    }
}

/// Normalised (permille-scaled) direction between two points; both
/// components stay within `[-1000, 1000]`.
pub fn dir_permille(from: Vec2, to: Vec2) -> (d: Vec2)
    requires
        from.in_bounds(),
        to.in_bounds(),
    ensures
        d == spec_dir_permille(from, to),
        -1000 <= d.x <= 1000,
        -1000 <= d.y <= 1000,
{
    let len: i64 = dist_milli(from, to);
    if len == 0 {
        Vec2 { x: 0, y: 0 }
    } else {
        let dx: i64 = to.x - from.x;
        let dy: i64 = to.y - from.y;
        proof {
            lemma_sq_bound(dx as int, 2 * MAX_COORD);
            lemma_sq_bound(dy as int, 2 * MAX_COORD);
            assert(sq(dx as int) == sq(from.x - to.x) && sq(-(dx as int)) == sq(from.x - to.x)
                && sq(dy as int) == sq(from.y - to.y) && sq(-(dy as int)) == sq(from.y - to.y))
                by (nonlinear_arith)
                requires
                    dx == to.x - from.x,
                    dy == to.y - from.y,
            ;
            lemma_div_by_multiple(1000, len as int);
            if dx >= 0 {
                lemma_isqrt_lower(dx as int, dist2(from, to));
                lemma_div_is_ordered(0, dx * 1000, len as int);
                lemma_div_is_ordered(dx * 1000, len * 1000, len as int);
            } else {
                lemma_isqrt_lower(-dx as int, dist2(from, to));
                lemma_div_is_ordered(0, (-dx) * 1000, len as int);
                lemma_div_is_ordered((-dx) * 1000, len * 1000, len as int);
            }
            if dy >= 0 {
                lemma_isqrt_lower(dy as int, dist2(from, to));
                lemma_div_is_ordered(0, dy * 1000, len as int);
                lemma_div_is_ordered(dy * 1000, len * 1000, len as int);
            } else {
                lemma_isqrt_lower(-dy as int, dist2(from, to));
                lemma_div_is_ordered(0, (-dy) * 1000, len as int);
                lemma_div_is_ordered((-dy) * 1000, len * 1000, len as int);
            }
        }
        let ux: i64 = if dx >= 0 {
            dx * 1000 / len
        } else {
            -((-dx) * 1000 / len)
        };
        let uy: i64 = if dy >= 0 {
            dy * 1000 / len
        } else {
            -((-dy) * 1000 / len)
        };
        Vec2 { x: ux, y: uy }
    }
}

} // verus!
