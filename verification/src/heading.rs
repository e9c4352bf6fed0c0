//! Fixed-point unit headings: integer square root, normalization of a
//! raw direction drawn from `[-HALF_RAW, HALF_RAW]^2`, and the axis
//! reflections applied when an enemy leaves the window.

use vstd::prelude::*;
use vstd::arithmetic::div_mod::{lemma_div_is_ordered, lemma_div_by_multiple};
use crate::{Vec2, norm_sq, UNIT, HALF_RAW};

verus! {

/// Floor of the square root of `s`, defined by counting up.
pub open spec fn sqrt_floor(s: int) -> int
    decreases s,
{
    if s <= 0 {
        0
    } else {
        let r = sqrt_floor(s - 1);
        if (r + 1) * (r + 1) <= s {
            r + 1
        } else {
            r
        }
    }
}

/// `sqrt_floor(s)` is the unique `r >= 0` with `r * r <= s < (r + 1) * (r + 1)`.
pub proof fn lemma_sqrt_floor(s: int)
    requires
        s >= 0,
    ensures
        0 <= sqrt_floor(s),
        sqrt_floor(s) * sqrt_floor(s) <= s,
        s < (sqrt_floor(s) + 1) * (sqrt_floor(s) + 1),
    decreases s,
{
    if s > 0 {
        lemma_sqrt_floor(s - 1);
        let r = sqrt_floor(s - 1);
        if (r + 1) * (r + 1) <= s {
            assert(s < (r + 2) * (r + 2)) by (nonlinear_arith)
                requires
                    s <= (r + 1) * (r + 1),
                    r >= 0,
            ;
        }
    }
}

/// Any `r` in the square-root window of `s` equals `sqrt_floor(s)`.
pub proof fn lemma_sqrt_floor_unique(s: int, r: int)
    requires
        s >= 0,
        r >= 0,
        r * r <= s,
        s < (r + 1) * (r + 1),
    ensures
        r == sqrt_floor(s),
{
    lemma_sqrt_floor(s);
    let q = sqrt_floor(s);
    assert(r < q + 1 && q < r + 1) by (nonlinear_arith)
        requires
            r >= 0,
            q >= 0,
            r * r <= s,
            q * q <= s,
            s < (r + 1) * (r + 1),
            s < (q + 1) * (q + 1),
    ;
}

/// Floor of the square root of `s`, for the radicands that heading
/// normalization produces.
pub fn isqrt(s: u64) -> (r: u64)
    requires
        s <= 1_000_000_000_000,
    ensures
        r == sqrt_floor(s as int),
        r * r <= s,
        s < (r + 1) * (r + 1),
{
    let mut r: u64 = 0;
    let mut next_sq: u64 = 1;
    while next_sq <= s
        invariant
            s <= 1_000_000_000_000,
            r <= 1_000_000,
            r * r <= s,
            next_sq == (r + 1) * (r + 1),
        decreases s - r * r,
    {
        proof {
            assert(r + 1 <= 1_000_000 && r * r < (r + 1) * (r + 1)) by (nonlinear_arith)
                requires
                    (r + 1) * (r + 1) <= s,
                    s <= 1_000_000_000_000,
                    r >= 0,
            ;
            assert((r + 2) * (r + 2) == (r + 1) * (r + 1) + 2 * (r + 1) + 1)
                by (nonlinear_arith);
        }
        r = r + 1;
        next_sq = next_sq + 2 * r + 1;
    }
    proof {
        lemma_sqrt_floor_unique(s as int, r as int);
    }
    r
}

/// Absolute value at spec level.
pub open spec fn abs_val(x: int) -> int {
    if x < 0 {
        -x
    } else {
        x
    }
}

/// The heading has squared norm within the fixed tolerance band below
/// the exact unit value `UNIT * UNIT`.
pub open spec fn near_unit(v: Vec2) -> bool {
    UNIT * UNIT - 2 * UNIT <= norm_sq(v) <= UNIT * UNIT
}

/// Components of the normalized image of a raw direction: the raw
/// vector, pre-scaled by `UNIT` for precision, is projected onto the
/// circle of radius `UNIT`, the second component completed from the
/// first so that the squared norm lands in the `near_unit` band.  A
/// zero raw vector maps to the positive x axis.
pub open spec fn normalize_spec(rx: int, ry: int) -> (int, int) {
    if rx == 0 && ry == 0 {
        (UNIT as int, 0)
    } else {
        let bx = abs_val(rx) * UNIT;
        let by = abs_val(ry) * UNIT;
        let n = sqrt_floor(bx * bx + by * by);
        let ax = bx * UNIT / n;
        let ay = sqrt_floor(UNIT * UNIT - ax * ax);
        (if rx >= 0 { ax } else { -ax }, if ry >= 0 { ay } else { -ay })
    }
}

/// Normalize a raw direction drawn from `[-HALF_RAW, HALF_RAW]^2`
/// into a near-unit fixed-point heading.
pub fn normalize(rx: i64, ry: i64) -> (h: Vec2)
    requires
        -HALF_RAW <= rx <= HALF_RAW,
        -HALF_RAW <= ry <= HALF_RAW,
    ensures
        h.x == normalize_spec(rx as int, ry as int).0,
        h.y == normalize_spec(rx as int, ry as int).1,
        near_unit(h),
        -UNIT <= h.x <= UNIT,
        -UNIT <= h.y <= UNIT,
{
    if rx == 0 && ry == 0 {
        let h = Vec2 { x: UNIT, y: 0 };
        proof {
            assert(h.x * h.x + h.y * h.y == 1_000_000) by (nonlinear_arith)
                requires
                    h.x == 1000,
                    h.y == 0,
            ;
        }
        h
    } else {
        let ax_raw: u64 = if rx < 0 { (-rx) as u64 } else { rx as u64 };
        let ay_raw: u64 = if ry < 0 { (-ry) as u64 } else { ry as u64 };
        let bx: u64 = ax_raw * 1000;
        let by: u64 = ay_raw * 1000;
        proof {
            assert(bx * bx <= 250_000_000_000 && by * by <= 250_000_000_000)
                by (nonlinear_arith)
                requires
                    bx <= 500_000,
                    by <= 500_000,
            ;
        }
        let s: u64 = bx * bx + by * by;
        assert(1 <= s <= 500_000_000_000) by (nonlinear_arith)
            requires
                s == bx * bx + by * by,
                bx >= 1000 || by >= 1000,
                0 <= bx <= 500_000,
                0 <= by <= 500_000,
        ;
        let n: u64 = isqrt(s);
        assert(n >= 1) by (nonlinear_arith)
            requires
                s >= 1,
                n * n <= s < (n + 1) * (n + 1),
        ;
        assert(bx <= n) by (nonlinear_arith)
            requires
                bx * bx <= s,
                s < (n + 1) * (n + 1),
                n >= 0,
        ;
        let ax: u64 = bx * 1000 / n;
        proof {
            assert(bx * 1000 <= n * 1000) by (nonlinear_arith)
                requires
                    bx <= n,
            ;
            lemma_div_is_ordered(bx as int * 1000, n as int * 1000, n as int);
            lemma_div_by_multiple(1000, n as int);
            assert(ax <= 1000);
            assert(ax * ax <= 1_000_000) by (nonlinear_arith)
                requires
                    0 <= ax <= 1000,
            ;
        }
        let rem: u64 = 1_000_000 - ax * ax;
        let ay: u64 = isqrt(rem);
        assert(ay <= 1000) by (nonlinear_arith)
            requires
                ay * ay <= rem,
                rem <= 1_000_000,
        ;
        let hx: i64 = if rx >= 0 { ax as i64 } else { -(ax as i64) };
        let hy: i64 = if ry >= 0 { ay as i64 } else { -(ay as i64) };
        let h = Vec2 { x: hx, y: hy };
        proof {
            assert(h.x * h.x == ax * ax && h.y * h.y == ay * ay) by (nonlinear_arith)
                requires
                    h.x == ax || h.x == -(ax as int),
                    h.y == ay || h.y == -(ay as int),
            ;
            assert(rem < (ay + 1) * (ay + 1));
            assert(998_000 <= h.x * h.x + h.y * h.y <= 1_000_000) by (nonlinear_arith)
                requires
                    h.x * h.x == ax * ax,
                    h.y * h.y == ay * ay,
                    ay * ay <= rem < (ay + 1) * (ay + 1),
                    rem == 1_000_000 - ax * ax,
                    0 <= ay <= 1000,
            ;
        }
        h
    }
}

/// Negate the chosen axes of a heading, as the boundary reflection
/// does.
pub open spec fn flip_spec(v: Vec2, fx: bool, fy: bool) -> Vec2 {
    Vec2 {
        x: if fx { (-v.x) as i64 } else { v.x },
        y: if fy { (-v.y) as i64 } else { v.y },
    }
}

/// One axis reflection changes no squared norm: negating a component
/// leaves its square unchanged.
pub proof fn lemma_flip_preserves_norm(v: Vec2, fx: bool, fy: bool)
    requires
        -UNIT <= v.x <= UNIT,
        -UNIT <= v.y <= UNIT,
    ensures
        norm_sq(flip_spec(v, fx, fy)) == norm_sq(v),
        -UNIT <= flip_spec(v, fx, fy).x <= UNIT,
        -UNIT <= flip_spec(v, fx, fy).y <= UNIT,
{
    let w = flip_spec(v, fx, fy);
    assert(w.x * w.x == v.x * v.x && w.y * w.y == v.y * v.y) by (nonlinear_arith)
        requires
            w.x == v.x || w.x == -v.x,
            w.y == v.y || w.y == -v.y,
    ;
}

/// The heading after a whole sequence of axis reflections.
pub open spec fn apply_flips(v: Vec2, flips: Seq<(bool, bool)>) -> Vec2
    decreases flips.len(),
{
    if flips.len() == 0 {
        v
    } else {
        apply_flips(flip_spec(v, flips[0].0, flips[0].1), flips.drop_first())
    }
}

/// Across arbitrarily many reflections the squared norm of a heading
/// is exactly preserved; in particular a near-unit heading stays
/// near-unit forever.
pub proof fn lemma_reflections_preserve_norm(v: Vec2, flips: Seq<(bool, bool)>)
    requires
        -UNIT <= v.x <= UNIT,
        -UNIT <= v.y <= UNIT,
    ensures
        norm_sq(apply_flips(v, flips)) == norm_sq(v),
        near_unit(v) ==> near_unit(apply_flips(v, flips)),
    decreases flips.len(),
{
    if flips.len() > 0 {
        lemma_flip_preserves_norm(v, flips[0].0, flips[0].1);
        lemma_reflections_preserve_norm(
            flip_spec(v, flips[0].0, flips[0].1),
            flips.drop_first(),
        );
    }
}

} // verus!
