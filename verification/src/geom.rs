//! Planar fixed-point geometry: vectors, integer square root, normalization,
//! and exact headings for the eight axis and diagonal rays.

use vstd::prelude::*;

verus! {

use vstd::arithmetic::div_mod::{lemma_div_by_self, lemma_div_is_ordered, lemma_div_multiples_vanish, lemma_div_of0, lemma_div_pos_is_pos};
use vstd::arithmetic::mul::lemma_mul_inequality;
use vstd::math::abs;

/// Fixed-point steps per world unit: all positions, velocities and
/// displacements carry a thousandth of a world unit per step.
pub const UNIT: i64 = 1000;

/// Bound on any single world coordinate the library accepts, in fixed-point
/// steps (a million world units): wide enough for any scene the host builds,
/// and small enough that every product the library forms fits an `i64`.
pub const COORD_LIMIT: i64 = 1_000_000_000;

/// A planar vector in fixed-point steps.
#[derive(Clone, Copy, Debug, PartialEq, Eq, Structural)]
pub struct Vec2I {
    pub x: i64,
    pub y: i64,
}

/// Both components lie in `[-bound, bound]`.
pub open spec fn in_range(v: Vec2I, bound: int) -> bool {
    &&& -bound <= v.x <= bound
    &&& -bound <= v.y <= bound
}

/// Both components lie within the coordinate bound.
pub open spec fn in_bounds(v: Vec2I) -> bool {
    in_range(v, COORD_LIMIT as int)
}

/// Squared length, in squared fixed-point steps.
pub open spec fn len_sq(v: Vec2I) -> int {
    v.x * v.x + v.y * v.y
}

/// Sign of an integer: -1, 0 or 1.
pub open spec fn sgn(x: int) -> int {
    if x > 0 {
        1
    } else if x < 0 {
        -1
    } else {
        0
    }
}

/// Largest `r` with `r * r <= n`.
pub closed spec fn sqrt_floor(n: nat) -> nat
    decreases n,
{
    if n == 0 {
        0
    } else {
        let r = sqrt_floor((n - 1) as nat);
        if (r + 1) * (r + 1) <= n {
            r + 1
        } else {
            r
        }
    }
}

/// `sqrt_floor(n)` is the floor of the square root: its square is at most
/// `n`, and the next square is beyond `n`.
pub proof fn lemma_sqrt_floor_bounds(n: nat)
    ensures
        sqrt_floor(n) * sqrt_floor(n) <= n,
        n < (sqrt_floor(n) + 1) * (sqrt_floor(n) + 1),
    decreases n,
{
    let s = sqrt_floor(n);
    if n == 0 {
        assert(s == 0);
        assert(n < (s + 1) * (s + 1)) by (nonlinear_arith)
            requires
                s == 0,
                n == 0,
        ;
    } else {
        lemma_sqrt_floor_bounds((n - 1) as nat);
        let r = sqrt_floor((n - 1) as nat);
        if (r + 1) * (r + 1) <= n {
            assert(s == r + 1);
            assert(n - 1 < (r + 1) * (r + 1));
            assert(n == (r + 1) * (r + 1));
            assert(s * s == n);
            assert(n < (s + 1) * (s + 1)) by (nonlinear_arith)
                requires
                    n == s * s,
                    s >= 0,
            ;
        } else {
            assert(s == r);
            assert(s * s <= n - 1 < n);
            assert(n < (s + 1) * (s + 1));
        }
    }
}

/// The floor square root is pinned by its characterization: any `r` whose
/// square is at most `n`, with the next square beyond `n`, is `sqrt_floor(n)`.
pub proof fn lemma_sqrt_floor_is(n: nat, r: nat)
    requires
        r * r <= n,
        n < (r + 1) * (r + 1),
    ensures
        sqrt_floor(n) == r,
{
    let s = sqrt_floor(n);
    lemma_sqrt_floor_bounds(n);
    if s < r {
        assert((s + 1) * (s + 1) <= r * r) by (nonlinear_arith)
            requires
                s + 1 <= r,
                s >= 0,
        ;
    }
    if r < s {
        assert((r + 1) * (r + 1) <= s * s) by (nonlinear_arith)
            requires
                r + 1 <= s,
                r >= 0,
        ;
    }
}

/// Anything whose square is at most `n` is at most the floor square root.
pub proof fn lemma_sqrt_floor_at_least(n: nat, a: nat)
    requires
        a * a <= n,
    ensures
        a <= sqrt_floor(n),
{
    let s = sqrt_floor(n);
    lemma_sqrt_floor_bounds(n);
    if s < a {
        assert((s + 1) * (s + 1) <= a * a) by (nonlinear_arith)
            requires
                s + 1 <= a,
                s >= 0,
        ;
    }
}

/// When `n` lies below the square of `a + 1`, the floor square root is at
/// most `a`.
pub proof fn lemma_sqrt_floor_at_most(n: nat, a: nat)
    requires
        n < (a + 1) * (a + 1),
    ensures
        sqrt_floor(n) <= a,
{
    let s = sqrt_floor(n);
    lemma_sqrt_floor_bounds(n);
    if a < s {
        assert((a + 1) * (a + 1) <= s * s) by (nonlinear_arith)
            requires
                a + 1 <= s,
                a >= 0,
        ;
    }
}

/// Floor of the square root of a machine word, by bisection.
pub fn isqrt_u64(n: u64) -> (r: u64)
    ensures
        r == sqrt_floor(n as nat),
        r * r <= n < (r + 1) * (r + 1),
{
    let mut lo: u64 = 0;
    let mut hi: u64 = 4_294_967_296;
    assert((hi as int) * (hi as int) > n as int) by (nonlinear_arith)
        requires
            hi == 4_294_967_296,
            n <= u64::MAX,
    ;
    while lo + 1 < hi
        invariant
            lo < hi <= 4_294_967_296,
            (lo as int) * (lo as int) <= n as int,
            (n as int) < (hi as int) * (hi as int),
        decreases hi - lo,
    {
        let mid = lo + (hi - lo) / 2;
        assert(lo < mid < hi);
        assert((mid as u128) * (mid as u128) <= u128::MAX) by (nonlinear_arith)
            requires
                mid <= 4_294_967_296,
        ;
        if (mid as u128) * (mid as u128) <= n as u128 {
            lo = mid;
        } else {
            hi = mid;
        }
    }
    proof {
        lemma_sqrt_floor_is(n as nat, lo as nat);
    }
    lo
}

/// Magnitude of a bounded `i64`, as a `u64`.
pub fn abs_i64(x: i64) -> (r: u64)
    requires
        x != i64::MIN,
    ensures
        r == abs(x as int),
{
    if x < 0 {
        (-x) as u64
    } else {
        x as u64
    }
}

/// Squared length of a bounded vector, without overflow.
pub fn len_sq_i64(v: Vec2I) -> (r: i64)
    requires
        in_range(v, 2 * COORD_LIMIT as int),
    ensures
        r == len_sq(v),
{
    proof {
        assert(0 <= v.x * v.x <= 4_000_000_000_000_000_000
            && 0 <= v.y * v.y <= 4_000_000_000_000_000_000) by (nonlinear_arith)
            requires
                -2_000_000_000 <= v.x <= 2_000_000_000,
                -2_000_000_000 <= v.y <= 2_000_000_000,
        ;
    }
    v.x * v.x + v.y * v.y
}

/// Fixed-point length of the direction from the origin to `v`: the floor
/// square root of the squared length.
pub open spec fn norm_len(v: Vec2I) -> int {
    sqrt_floor(len_sq(v) as nat) as int
}

/// The `x` component of `v` scaled to unit length in fixed point: the zero
/// vector stays zero, and any other vector maps to `sgn(x) * (|x| * UNIT)`
/// divided by its length, rounded toward zero.
pub open spec fn norm_x(v: Vec2I) -> int {
    if v.x == 0 && v.y == 0 {
        0
    } else {
        sgn(v.x as int) * ((abs(v.x as int) * UNIT) / norm_len(v))
    }
}

/// The `y` component of `v` scaled to unit length in fixed point.
pub open spec fn norm_y(v: Vec2I) -> int {
    if v.x == 0 && v.y == 0 {
        0
    } else {
        sgn(v.y as int) * ((abs(v.y as int) * UNIT) / norm_len(v))
    }
}

/// Scales `v` to (fixed-point) unit length, rounding each component toward
/// zero; the zero vector is its own normalization.
pub fn normalize_or_zero(v: Vec2I) -> (d: Vec2I)
    requires
        in_range(v, 2 * COORD_LIMIT as int),
    ensures
        d.x == norm_x(v),
        d.y == norm_y(v),
        in_range(d, UNIT as int),
        (d.x == 0 && d.y == 0) ==> (v.x == 0 && v.y == 0),
{
    if v.x == 0 && v.y == 0 {
        return Vec2I { x: 0, y: 0 };
    }
    let ax = abs_i64(v.x);
    let ay = abs_i64(v.y);
    proof {
        assert(ax * ax == v.x * v.x && ay * ay == v.y * v.y
            && 0 <= v.x * v.x <= 4_000_000_000_000_000_000
            && 0 <= v.y * v.y <= 4_000_000_000_000_000_000) by (nonlinear_arith)
            requires
                -2_000_000_000 <= v.x <= 2_000_000_000,
                -2_000_000_000 <= v.y <= 2_000_000_000,
                ax == v.x as int || ax + v.x as int == 0,
                ay == v.y as int || ay + v.y as int == 0,
        ;
    }
    let ls = ax * ax + ay * ay;
    let len = isqrt_u64(ls);
    let ghost m: u64 = if ax >= ay {
        ax
    } else {
        ay
    };
    proof {
        assert(ls as int == len_sq(v));
        // a nonzero vector has squared length at least 1, so len >= 1
        assert(ls >= 1) by (nonlinear_arith)
            requires
                ax >= 1 || ay >= 1,
                ls == ax * ax + ay * ay,
        ;
        assert(len >= 1) by (nonlinear_arith)
            requires
                ls >= 1,
                len >= 0,
                (ls as int) < ((len as int) + 1) * ((len as int) + 1),
        ;
        // each magnitude is at most the length, so each quotient is at most UNIT
        assert(ax * ax <= ls && ay * ay <= ls);
        lemma_sqrt_floor_at_least(ls as nat, ax as nat);
        lemma_sqrt_floor_at_least(ls as nat, ay as nat);
        lemma_mul_inequality(ax as int, len as int, UNIT as int);
        lemma_mul_inequality(ay as int, len as int, UNIT as int);
        assert((len as int) * (UNIT as int) == (UNIT as int) * (len as int)) by (nonlinear_arith);
        lemma_div_is_ordered(ax * (UNIT as int), (len as int) * (UNIT as int), len as int);
        lemma_div_is_ordered(ay * (UNIT as int), (len as int) * (UNIT as int), len as int);
        lemma_div_multiples_vanish(UNIT as int, len as int);
        assert(ax * (UNIT as int) / (len as int) <= UNIT);
        assert(ay * (UNIT as int) / (len as int) <= UNIT);
        lemma_div_pos_is_pos(ax * (UNIT as int), len as int);
        lemma_div_pos_is_pos(ay * (UNIT as int), len as int);
        lemma_div_of0(len as int);
        // the length is at most twice the larger magnitude, so the larger
        // component keeps a nonzero quotient
        assert(ls < (2 * m + 1) * (2 * m + 1)) by (nonlinear_arith)
            requires
                ax <= m,
                ay <= m,
                ls == ax * ax + ay * ay,
                m >= 0,
        ;
        lemma_sqrt_floor_at_most(ls as nat, (2 * m) as nat);
        assert(len <= 2 * m);
        assert(m * (UNIT as int) >= len);
        lemma_div_is_ordered(len as int, m * (UNIT as int), len as int);
        lemma_div_by_self(len as int);
        assert(m * (UNIT as int) / (len as int) >= 1);
    }
    let qx = ax * 1000 / len;
    let qy = ay * 1000 / len;
    let dx: i64 = if v.x < 0 {
        -(qx as i64)
    } else {
        qx as i64
    };
    let dy: i64 = if v.y < 0 {
        -(qy as i64)
    } else {
        qy as i64
    };
    proof {
        assert(norm_len(v) == len as int);
        assert(qx as int == abs(v.x as int) * UNIT / norm_len(v));
        assert(qy as int == abs(v.y as int) * UNIT / norm_len(v));
        assert(qx >= 1 || qy >= 1);
    }
    Vec2I { x: dx, y: dy }
}

/// The vector lies on one of the eight axis or diagonal rays (or is zero),
/// where an integer-degree heading is exact.
pub open spec fn on_octant_ray(x: int, y: int) -> bool {
    x == 0 || y == 0 || abs(x) == abs(y)
}

/// Exact heading of `(x, y)` in degrees, counterclockwise from the positive
/// `x` axis, in `(-180, 180]`; meaningful on the eight rays, and 0 for the
/// zero vector, matching the host's planar angle convention.
pub open spec fn octant_degrees(x: int, y: int) -> int
    recommends
        on_octant_ray(x, y),
{
    if x > 0 && y == 0 {
        0
    } else if x > 0 && y > 0 {
        45
    } else if x == 0 && y > 0 {
        90
    } else if x < 0 && y > 0 {
        135
    } else if x < 0 && y == 0 {
        180
    } else if x < 0 && y < 0 {
        -135
    } else if x == 0 && y < 0 {
        -90
    } else if x > 0 && y < 0 {
        -45
    } else {
        0
    }
}

/// The sprite art faces along its own up axis, so the engine rotation that
/// faces a heading is the heading less a quarter turn. Exact (in whole
/// degrees) only on the eight rays; for any other heading the host derives
/// the angle from the direction vector itself.
pub fn rotation_target_degrees(v: Vec2I) -> (r: Option<i64>)
    requires
        v.x != i64::MIN,
        v.y != i64::MIN,
    ensures
        r is Some <==> on_octant_ray(v.x as int, v.y as int),
        r matches Some(a) ==> a == octant_degrees(v.x as int, v.y as int) - 90,
{
    let ax = abs_i64(v.x);
    let ay = abs_i64(v.y);
    if !(v.x == 0 || v.y == 0 || ax == ay) {
        return None;
    }
    let heading: i64 = if v.x > 0 && v.y == 0 {
        0
    } else if v.x > 0 && v.y > 0 {
        45
    } else if v.x == 0 && v.y > 0 {
        90
    } else if v.x < 0 && v.y > 0 {
        135
    } else if v.x < 0 && v.y == 0 {
        180
    } else if v.x < 0 && v.y < 0 {
        -135
    } else if v.x == 0 && v.y < 0 {
        -90
    } else if v.x > 0 && v.y < 0 {
        -45
    } else {
        0
    };
    Some(heading - 90)
}

} // verus!
