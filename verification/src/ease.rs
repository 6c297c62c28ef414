//! Fixed-point easing curves over permille fractions.
//!
//! A curve maps a flight fraction in `[0, 1000]` to an eased fraction, also
//! in permille. The arcing trajectories (bomb toss, lobbed shot) compose
//! two curves: an ascent shape over the first part of the flight and a
//! descent shape over the rest, which gives the staggered up-then-down feel
//! rather than a plain parabola.

use vstd::prelude::*;

verus! {

use crate::geom::lemma_isqrt_unique;
use crate::geom::lemma_sq_bound;
use crate::geom::isqrt;
use crate::geom::spec_isqrt;
use crate::geom::sq;
use vstd::arithmetic::div_mod::lemma_div_by_multiple;
use vstd::arithmetic::div_mod::lemma_div_is_ordered;
use vstd::arithmetic::div_mod::lemma_div_multiples_vanish_fancy;

/// Circular ease-out: fast start, gentle landing on 1000.
pub open spec fn spec_ease_circular_out(t: int) -> int {
    spec_isqrt(1_000_000 - sq(1000 - t))
}

/// Circular ease-in: gentle start, fast finish.
pub open spec fn spec_ease_circular_in(t: int) -> int {
    1000 - spec_isqrt(1_000_000 - sq(t))
}

/// Bounce ease-out: four successively smaller rebounds, each a truncated
/// integer parabola over an eleven-fold scaled domain.
pub open spec fn spec_ease_bounce_out(t: int) -> int {
    let s = 11 * t;
    if s < 4000 {
        sq(s) / 16000
    } else if s < 8000 {
        (sq(s - 6000) + 12_000_000) / 16000
    } else if s < 10000 {
        (sq(s - 9000) + 15_000_000) / 16000
    } else {
        (sq(s - 10500) + 15_750_000) / 16000
    }
}

/// Back ease-in: a cubic that dips below zero (the wind-up) before
/// accelerating to 1000.
pub open spec fn spec_ease_back_in(t: int) -> int {
    let grow = 270_158 * t * t * t;
    let pull = 170_158_000 * t * t;
    if grow >= pull {
        (grow - pull) / 100_000_000_000
    } else {
        -((pull - grow) / 100_000_000_000)
    }
}

/// A nonnegative value at most `16_000_000`, divided by 16000, lies in
/// `[0, 1000]`, and reaches 1000 exactly on `16_000_000`.
proof fn lemma_div16000_bounds(num: int)
    requires
        0 <= num <= 16_000_000,
    ensures
        0 <= num / 16000 <= 1000,
        num == 16_000_000 ==> num / 16000 == 1000,
{
    lemma_div_is_ordered(0, num, 16000);
    lemma_div_is_ordered(num, 16_000_000, 16000);
    lemma_div_by_multiple(1000, 16000);
}

/// The handful of concrete squares the endpoint proofs need.
proof fn lemma_small_squares()
    ensures
        sq(0) == 0,
        sq(1) == 1,
        sq(500) == 250_000,
        sq(1000) == 1_000_000,
        sq(1001) == 1_002_001,
{
    assert(0 * 0 == 0 && 1 * 1 == 1 && 500 * 500 == 250_000 && 1000 * 1000 == 1_000_000 && 1001
        * 1001 == 1_002_001) by (nonlinear_arith);
}

/// An integer square root of a value at most a million is at most 1000.
proof fn lemma_root_at_most_1000(r: int, n: int)
    requires
        0 <= r,
        sq(r) <= n <= 1_000_000,
    ensures
        r <= 1000,
{
    assert(r <= 1000) by (nonlinear_arith)
        requires
            0 <= r,
            r * r <= n,
            n <= 1_000_000,
    ;
}

/// Circular ease-out of a permille fraction.
pub fn ease_circular_out(t: i64) -> (r: i64)
    requires
        0 <= t <= 1000,
    ensures
        r == spec_ease_circular_out(t as int),
        0 <= r <= 1000,
        t == 0 ==> r == 0,
        t == 1000 ==> r == 1000,
{
    let u: i64 = 1000 - t;
    proof {
        lemma_sq_bound(u as int, 1000);
        lemma_small_squares();
    }
    let arg: u64 = (1_000_000 - u * u) as u64;
    let root: u64 = isqrt(arg as u128);
    proof {
        lemma_root_at_most_1000(root as int, arg as int);
        if t == 0 {
            lemma_isqrt_unique(root as int, 0, arg as int);
        }
        if t == 1000 {
            lemma_isqrt_unique(root as int, 1000, arg as int);
        }
    }
    root as i64
}

/// Circular ease-in of a permille fraction.
pub fn ease_circular_in(t: i64) -> (r: i64)
    requires
        0 <= t <= 1000,
    ensures
        r == spec_ease_circular_in(t as int),
        0 <= r <= 1000,
        t == 0 ==> r == 0,
        t == 1000 ==> r == 1000,
{
    proof {
        lemma_sq_bound(t as int, 1000);
        lemma_small_squares();
    }
    let arg: u64 = (1_000_000 - t * t) as u64;
    let root: u64 = isqrt(arg as u128);
    proof {
        lemma_root_at_most_1000(root as int, arg as int);
        if t == 0 {
            lemma_isqrt_unique(root as int, 1000, arg as int);
        }
        if t == 1000 {
            lemma_isqrt_unique(root as int, 0, arg as int);
        }
    }
    1000 - root as i64
}

/// Bounce ease-out of a permille fraction.
pub fn ease_bounce_out(t: i64) -> (r: i64)
    requires
        0 <= t <= 1000,
    ensures
        r == spec_ease_bounce_out(t as int),
        0 <= r <= 1000,
        t == 0 ==> r == 0,
        t == 1000 ==> r == 1000,
{
    let s: i64 = 11 * t;
    proof {
        lemma_small_squares();
    }
    if s < 4000 {
        proof {
            lemma_sq_bound(s as int, 4000);
            lemma_div16000_bounds(sq(s as int));
        }
        s * s / 16000
    } else if s < 8000 {
        let v: i64 = s - 6000;
        proof {
            lemma_sq_bound(v as int, 2000);
            lemma_div16000_bounds(sq(v as int) + 12_000_000);
        }
        (v * v + 12_000_000) / 16000
    } else if s < 10000 {
        let v: i64 = s - 9000;
        proof {
            lemma_sq_bound(v as int, 1000);
            lemma_div16000_bounds(sq(v as int) + 15_000_000);
        }
        (v * v + 15_000_000) / 16000
    } else {
        let v: i64 = s - 10500;
        proof {
            lemma_sq_bound(v as int, 500);
            lemma_div16000_bounds(sq(v as int) + 15_750_000);
        }
        (v * v + 15_750_000) / 16000
    }
}

/// Back ease-in of a permille fraction; may dip as low as about -1701
/// mid-run but lands exactly on 0 and 1000 at the endpoints.
pub fn ease_back_in(t: i64) -> (r: i64)
    requires
        0 <= t <= 1000,
    ensures
        r == spec_ease_back_in(t as int),
        -1701 <= r <= 1000,
        t == 0 ==> r == 0,
        t == 1000 ==> r == 1000,
{
    proof {
        lemma_sq_bound(t as int, 1000);
    }
    let t2: i64 = t * t;
    proof {
        assert(0 <= t2 * t <= 1_000_000_000) by (nonlinear_arith)
            requires
                0 <= t <= 1000,
                0 <= t2 <= 1_000_000,
        ;
    }
    let t3: i64 = t2 * t;
    let grow: i64 = 270_158 * t3;
    let pull: i64 = 170_158_000 * t2;
    proof {
        assert(grow == 270_158 * (t as int) * (t as int) * (t as int) && pull == 170_158_000 * (
        t as int) * (t as int)) by (nonlinear_arith)
            requires
                grow == 270_158 * t3,
                pull == 170_158_000 * t2,
                t3 == t2 * t,
                t2 == t * t,
        ;
    }
    if grow >= pull {
        proof {
            assert(grow - pull <= 100_000_000_000_000) by (nonlinear_arith)
                requires
                    grow == 270_158 * t3,
                    pull == 170_158_000 * t2,
                    t3 == t2 * t,
                    t2 == t * t,
                    0 <= t <= 1000,
            ;
            lemma_div_is_ordered(0, grow - pull, 100_000_000_000);
            lemma_div_is_ordered(grow - pull, 100_000_000_000_000, 100_000_000_000);
            lemma_div_by_multiple(1000, 100_000_000_000);
        }
        (grow - pull) / 100_000_000_000
    } else {
        proof {
            lemma_div_is_ordered(0, pull - grow, 100_000_000_000);
            lemma_div_is_ordered(pull - grow, 170_158_000_000_000, 100_000_000_000);
            lemma_div_multiples_vanish_fancy(1701, 58_000_000_000, 100_000_000_000);
        }
        -((pull - grow) / 100_000_000_000)
    }
}

/// Height factor of the bomb toss at flight fraction `t`: circular rise
/// over the first quarter, bouncing descent over the rest.
pub open spec fn spec_arc_bomb(t: int) -> int {
    if t < 250 {
        spec_ease_circular_out(4 * t)
    } else {
        1000 - spec_ease_bounce_out((t - 250) * 4 / 3)
    }
}

/// Height factor of the lobbed shot at flight fraction `t`: circular rise
/// over the first half, circular descent over the second.
pub open spec fn spec_arc_lob(t: int) -> int {
    if t < 500 {
        spec_ease_circular_out(2 * t)
    } else {
        1000 - spec_ease_circular_in((t - 500) * 2)
    }
}

/// Bomb-toss height factor, in permille of the toss height.
pub fn arc_bomb(t: i64) -> (r: i64)
    requires
        0 <= t <= 1000,
    ensures
        r == spec_arc_bomb(t as int),
        0 <= r <= 1000,
{
    if t < 250 {
        ease_circular_out(4 * t)
    } else {
        let down: i64 = (t - 250) * 4;
        proof {
            lemma_div_is_ordered(0, down as int, 3);
            lemma_div_is_ordered(down as int, 3000, 3);
            lemma_div_by_multiple(1000, 3);
        }
        1000 - ease_bounce_out(down / 3)
    }
}

/// Lobbed-shot height factor, in permille of the lob height.
pub fn arc_lob(t: i64) -> (r: i64)
    requires
        0 <= t <= 1000,
    ensures
        r == spec_arc_lob(t as int),
        0 <= r <= 1000,
{
    if t < 500 {
        ease_circular_out(2 * t)
    } else {
        1000 - ease_circular_in((t - 500) * 2)
    }
}

} // verus!
